//! How the site forms become the data stored: a new site, an edit of its
//! settings, the home page configuration and the choice of a theme.

use vstd::prelude::*;
use vstd::string::StringExecFns;

use crate::forms::{ApplyThemeForm, ConfigurationForm, SiteCreateForm, SiteUpdateForm};
use crate::ids::uuid_parse_spec;
use crate::models::homepage_type::homepage_consistent;
use crate::models::site::flat_page;
use crate::models::{HomepageType, SiteCreate, SiteUpdate};
use crate::requests::{
    homepage_fields, homepage_fields_spec, homepage_type_field_spec, non_blank, non_blank_or, opt_view,
};
use crate::text::{trim, trim_spec};

verus! {

/// The text of an optional form field.
pub open spec fn field_text(o: Option<String>) -> Option<Seq<char>> {
    match o {
        Some(s) => Some(s@),
        None => None,
    }
}

/// A field that is given and not blank, trimmed.
pub open spec fn given_trimmed(o: Option<String>) -> Option<Seq<char>> {
    match o {
        Some(s) => if trim_spec(s@).len() > 0 {
            Some(trim_spec(s@))
        } else {
            None
        },
        None => None,
    }
}

/// Borrows the text of an optional field.
pub(crate) fn field(o: &Option<String>) -> (r: Option<&str>)
    ensures
        opt_view(r) == field_text(*o),
{
    match o {
        Some(s) => Some(s.as_str()),
        None => None,
    }
}

/// The new site: trimmed name and slug, and the trimmed template or
/// `default` when none is given.
pub fn site_create_data(form: &SiteCreateForm, owner: u128) -> (r: SiteCreate)
    ensures
        r.owner_user_id == owner,
        r.name@ == trim_spec(form.name@),
        r.slug@ == trim_spec(form.slug@),
        r.default_template@ == match given_trimmed(form.default_template) {
            Some(t) => t,
            None => "default"@,
        },
{
    SiteCreate {
        owner_user_id: owner,
        name: String::from_str(trim(form.name.as_str())),
        slug: String::from_str(trim(form.slug.as_str())),
        default_template: non_blank_or(field(&form.default_template), "default"),
    }
}

/// The template shown again on the new-site page: the one entered, or
/// `default`.
pub fn entered_template(form: &SiteCreateForm) -> (r: String)
    ensures
        r@ == match form.default_template {
            Some(t) => t@,
            None => "default"@,
        },
{
    match &form.default_template {
        Some(t) => String::from_str(t.as_str()),
        None => String::from_str("default"),
    }
}

/// The edit of a site's settings: blank fields are left unchanged, and the
/// home page settings are read as the configuration form reads them.
pub fn site_update_data(form: &SiteUpdateForm) -> (r: SiteUpdate)
    ensures
        field_text(r.name) == given_trimmed(form.name),
        field_text(r.slug) == given_trimmed(form.slug),
        r.status is None,
        field_text(r.default_template) == given_trimmed(form.default_template),
        (r.homepage_type, r.homepage_page_id) == homepage_fields_spec(
            field_text(form.homepage_type),
            field_text(form.homepage_page_id),
        ),
{
    let (t, p) = homepage_fields(field(&form.homepage_type), field(&form.homepage_page_id));
    SiteUpdate {
        name: non_blank(field(&form.name)),
        slug: non_blank(field(&form.slug)),
        status: None,
        default_template: non_blank(field(&form.default_template)),
        homepage_type: t,
        homepage_page_id: p,
    }
}

/// The update the configuration page makes: the home page settings only.
pub fn configuration_update_data(form: &ConfigurationForm) -> (r: SiteUpdate)
    ensures
        r.name is None,
        r.slug is None,
        r.status is None,
        r.default_template is None,
        (r.homepage_type, r.homepage_page_id) == homepage_fields_spec(
            field_text(form.homepage_type),
            field_text(form.homepage_page_id),
        ),
{
    let (t, p) = homepage_fields(field(&form.homepage_type), field(&form.homepage_page_id));
    SiteUpdate {
        name: None,
        slug: None,
        status: None,
        default_template: None,
        homepage_type: t,
        homepage_page_id: p,
    }
}

/// The update choosing a theme: the trimmed template name, which must not
/// be blank.
pub fn theme_update_data(form: &ApplyThemeForm) -> (r: Result<SiteUpdate, &'static str>)
    ensures
        trim_spec(form.template@).len() == 0 ==> r == Err::<SiteUpdate, &'static str>(
            "Template is required",
        ),
        trim_spec(form.template@).len() > 0 ==> (r matches Ok(u) && u.name is None && u.slug is None
            && u.status is None && field_text(u.default_template) == Some(trim_spec(form.template@))
            && u.homepage_type is None && u.homepage_page_id is None),
{
    let name = trim(form.template.as_str());
    if name.unicode_len() == 0 {
        return Err("Template is required");
    }
    Ok(
        SiteUpdate {
            name: None,
            slug: None,
            status: None,
            default_template: Some(String::from_str(name)),
            homepage_type: None,
            homepage_page_id: None,
        },
    )
}

/// The pattern a site search matches names and slugs against: the trimmed
/// search text between `%` wildcards; no pattern for a blank search.
pub fn site_search_pattern(query: Option<&str>) -> (r: Option<String>)
    ensures
        r matches Some(p) ==> (query matches Some(q) && trim_spec(q@).len() > 0 && p@ == "%"@
            + trim_spec(q@) + "%"@),
        r is None ==> match query {
            Some(q) => trim_spec(q@).len() == 0,
            None => true,
        },
{
    match non_blank(query) {
        Some(q) => {
            let mut p = String::from_str("%");
            p.append(q.as_str());
            p.append("%");
            Some(p)
        },
        None => None,
    }
}

/// A form that asks for the posts home page always gives a valid update:
/// the page is cleared, whatever page field was sent.
pub proof fn lemma_posts_home_page_is_valid(typ: Option<Seq<char>>, page: Option<Seq<char>>)
    requires
        homepage_type_field_spec(typ) == Some(HomepageType::Posts),
    ensures
        homepage_fields_spec(typ, page).1 == Some(Option::<u128>::None),
        homepage_consistent(HomepageType::Posts, flat_page(homepage_fields_spec(typ, page).1)),
{
}

/// A form that asks for a page as home page gives a valid update exactly
/// when its page field holds a UUID.
pub proof fn lemma_page_home_page_needs_an_id(typ: Option<Seq<char>>, page: Option<Seq<char>>)
    requires
        homepage_type_field_spec(typ) == Some(HomepageType::Page),
    ensures
        homepage_consistent(HomepageType::Page, flat_page(homepage_fields_spec(typ, page).1)) <==> (
        page matches Some(s) && uuid_parse_spec(trim_spec(s)) is Some),
{
}

} // verus!
