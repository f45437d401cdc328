//! Rendering content through its site template, and the values the editor's
//! live preview and save forms send.

use vstd::prelude::*;
use vstd::string::StringExecFns;

use crate::forms::{AdminCreateForm, AdminLiveForm, AdminNewPreviewForm, AdminUpdateForm};
use crate::html::{apply_site_template, apply_template_spec, normalize_builtin_template_html, normalize_spec};
use crate::models::{ContentCreate, ContentItem, ContentKind, ContentUpdate, SiteTemplate};
use crate::requests::{
    non_blank_or, parse_status_field, preview_kind, preview_kind_spec, status_field_spec, trimmed,
};
use crate::site_settings::{field, field_text, given_trimmed};
use crate::text::{trim, trim_spec};

verus! {

/// The page used when neither the item's template nor `default` exists.
pub open spec fn fallback_template_spec() -> Seq<char> {
    "<!doctype html><html><head><meta charset=\"utf-8\"><title>{{title}}</title></head><body><h1>{{title}}</h1>{{content}}</body></html>"@
}

/// The HTML a template contributes: built-in templates have their escaped
/// newlines and tabs restored; without a template, the fallback page.
pub open spec fn template_source(tpl: Option<SiteTemplate>) -> Seq<char> {
    match tpl {
        Some(t) => if t.is_builtin {
            normalize_spec(t.html@)
        } else {
            t.html@
        },
        None => fallback_template_spec(),
    }
}

/// Where a template is looked up: among the built-in templates and those of
/// an owner, or among all templates (for items without an owner).
#[derive(Debug, Clone, Copy, PartialEq, Eq, Structural)]
pub enum TemplateScope {
    Owner(u128),
    Any,
}

/// The lookups that find the template of an item, in order: its own
/// template, then `default`; both in the owner's scope when it has one.
pub fn template_lookups(owner: Option<u128>, name: &str) -> (r: Vec<(TemplateScope, String)>)
    ensures
        r@.len() == 2,
        r@[0].0 == r@[1].0,
        r@[0].0 == match owner {
            Some(o) => TemplateScope::Owner(o),
            None => TemplateScope::Any,
        },
        r@[0].1@ == name@,
        r@[1].1@ == "default"@,
{
    let scope = match owner {
        Some(o) => TemplateScope::Owner(o),
        None => TemplateScope::Any,
    };
    let mut r: Vec<(TemplateScope, String)> = Vec::new();
    r.push((scope, String::from_str(name)));
    r.push((scope, String::from_str("default")));
    r
}

/// Renders a page or post through the template found for it (`None` when
/// neither its template nor `default` was found).
pub fn render_with_template(
    tpl: Option<&SiteTemplate>,
    title: &str,
    content: &str,
    slug: &str,
    kind: &str,
) -> (r: String)
    ensures
        r@ == apply_template_spec(
            template_source(
                match tpl {
                    Some(t) => Some(*t),
                    None => None,
                },
            ),
            title@,
            content@,
            slug@,
            kind@,
        ),
{
    match tpl {
        Some(t) => {
            if t.is_builtin {
                let h = normalize_builtin_template_html(t.html.as_str());
                apply_site_template(h.as_str(), title, content, slug, kind)
            } else {
                apply_site_template(t.html.as_str(), title, content, slug, kind)
            }
        },
        None => apply_site_template(
            "<!doctype html><html><head><meta charset=\"utf-8\"><title>{{title}}</title></head><body><h1>{{title}}</h1>{{content}}</body></html>",
            title,
            content,
            slug,
            kind,
        ),
    }
}

/// Renders a published item through the template found for it.
pub fn render_item(tpl: Option<&SiteTemplate>, item: &ContentItem) -> (r: String)
    ensures
        r@ == apply_template_spec(
            template_source(
                match tpl {
                    Some(t) => Some(*t),
                    None => None,
                },
            ),
            item.title@,
            item.content@,
            item.slug@,
            item.kind.name(),
        ),
{
    render_with_template(
        tpl,
        item.title.as_str(),
        item.content.as_str(),
        item.slug.as_str(),
        item.kind.as_str(),
    )
}

/// A trimmed field that is given and not blank, or `fallback`.
pub open spec fn given_or(o: Option<String>, fallback: Seq<char>) -> Seq<char> {
    match given_trimmed(o) {
        Some(t) => t,
        None => fallback,
    }
}

/// What the live preview of an existing item shows.
pub struct PreviewFields {
    pub title: String,
    pub slug: String,
    pub content: String,
    pub template: String,
}

/// The preview of an item being edited: the form's title, slug and template
/// when given and not blank (trimmed), its content when given; the item's
/// otherwise.
pub fn live_preview_fields(form: &AdminLiveForm, item: &ContentItem) -> (r: PreviewFields)
    ensures
        r.title@ == given_or(form.title, item.title@),
        r.slug@ == given_or(form.slug, item.slug@),
        r.content@ == match form.content {
            Some(c) => c@,
            None => item.content@,
        },
        r.template@ == given_or(form.template, item.template@),
{
    PreviewFields {
        title: non_blank_or(field(&form.title), item.title.as_str()),
        slug: non_blank_or(field(&form.slug), item.slug.as_str()),
        content: match &form.content {
            Some(c) => String::from_str(c.as_str()),
            None => String::from_str(item.content.as_str()),
        },
        template: non_blank_or(field(&form.template), item.template.as_str()),
    }
}

/// The preview of a new item: `Untitled`, `untitled`, empty content and the
/// `default` template stand in for what is not given.
pub fn new_preview_fields(form: &AdminNewPreviewForm) -> (r: (PreviewFields, String))
    ensures
        r.0.title@ == given_or(form.title, "Untitled"@),
        r.0.slug@ == given_or(form.slug, "untitled"@),
        r.0.content@ == match form.content {
            Some(c) => c@,
            None => Seq::<char>::empty(),
        },
        r.0.template@ == given_or(form.template, "default"@),
        r.1@ == preview_kind_spec(form.kind@),
{
    let kind = preview_kind(form.kind.as_str());
    let fields = PreviewFields {
        title: non_blank_or(field(&form.title), "Untitled"),
        slug: non_blank_or(field(&form.slug), "untitled"),
        content: match &form.content {
            Some(c) => String::from_str(c.as_str()),
            None => String::new(),
        },
        template: non_blank_or(field(&form.template), "default"),
    };
    (fields, kind)
}

/// A new item of `owner`: title and slug trimmed, the content as given and
/// the template named, or `default`.
pub fn content_create_data(form: &AdminCreateForm, kind: ContentKind, owner: u128) -> (r: ContentCreate)
    ensures
        r.owner_user_id == Some(owner),
        r.kind == kind,
        r.title@ == trim_spec(form.title@),
        r.slug@ == trim_spec(form.slug@),
        r.content@ == form.content@,
        r.template@ == match form.template {
            Some(t) => t@,
            None => "default"@,
        },
{
    ContentCreate {
        owner_user_id: Some(owner),
        kind,
        title: String::from_str(trim(form.title.as_str())),
        slug: String::from_str(trim(form.slug.as_str())),
        content: String::from_str(form.content.as_str()),
        template: match &form.template {
            Some(t) => String::from_str(t.as_str()),
            None => String::from_str("default"),
        },
    }
}

/// A new item of `owner` made through the API: title and slug trimmed, the
/// content as given, and the template named (trimmed), or `default` when none
/// or a blank one is named.
pub fn api_content_create_data(
    kind: ContentKind,
    owner: u128,
    title: &str,
    slug: &str,
    content: &str,
    template: Option<&str>,
) -> (r: ContentCreate)
    ensures
        r.owner_user_id == Some(owner),
        r.kind == kind,
        r.title@ == trim_spec(title@),
        r.slug@ == trim_spec(slug@),
        r.content@ == content@,
        r.template@ == match template {
            Some(t) => if trim_spec(t@).len() > 0 {
                trim_spec(t@)
            } else {
                "default"@
            },
            None => "default"@,
        },
{
    ContentCreate {
        owner_user_id: Some(owner),
        kind,
        title: String::from_str(trim(title)),
        slug: String::from_str(trim(slug)),
        content: String::from_str(content),
        template: non_blank_or(template, "default"),
    }
}

/// A field trimmed when given.
pub open spec fn trimmed_text(o: Option<String>) -> Option<Seq<char>> {
    match o {
        Some(s) => Some(trim_spec(s@)),
        None => None,
    }
}

/// The update an edit form saves: title, slug and template trimmed when
/// given, content as given, and the status named (`draft`, `published`, blank
/// or absent for no change; anything else is refused).
pub fn content_update_data(form: &AdminUpdateForm) -> (r: Result<ContentUpdate, &'static str>)
    ensures
        status_field_spec(field_text(form.status)) matches Err(e) ==> r == Err::<ContentUpdate, &'static str>(e),
        status_field_spec(field_text(form.status)) matches Ok(s) ==> (r matches Ok(u)
            && field_text(u.title) == trimmed_text(form.title) && field_text(u.slug) == trimmed_text(
            form.slug,
        ) && field_text(u.content) == field_text(form.content) && field_text(u.template)
            == trimmed_text(form.template) && u.status == s),
{
    let status = match parse_status_field(field(&form.status)) {
        Ok(s) => s,
        Err(e) => {
            return Err(e);
        },
    };
    Ok(
        ContentUpdate {
            title: trimmed(field(&form.title)),
            slug: trimmed(field(&form.slug)),
            content: match &form.content {
                Some(c) => Some(String::from_str(c.as_str())),
                None => None,
            },
            template: trimmed(field(&form.template)),
            status,
        },
    )
}

/// The update an autosave makes: like a save, but never a status change.
pub fn autosave_update_data(form: &AdminLiveForm) -> (r: ContentUpdate)
    ensures
        field_text(r.title) == trimmed_text(form.title),
        field_text(r.slug) == trimmed_text(form.slug),
        field_text(r.content) == field_text(form.content),
        field_text(r.template) == trimmed_text(form.template),
        r.status is None,
{
    ContentUpdate {
        title: trimmed(field(&form.title)),
        slug: trimmed(field(&form.slug)),
        content: match &form.content {
            Some(c) => Some(String::from_str(c.as_str())),
            None => None,
        },
        template: trimmed(field(&form.template)),
        status: None,
    }
}

} // verus!
