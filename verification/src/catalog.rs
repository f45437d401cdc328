//! Templates: which ones the theme catalog shows for a search and a
//! category, and the data that creating, editing and copying one stores.

use vstd::prelude::*;
use vstd::string::StringExecFns;

use crate::forms::{AdminTemplateCreateForm, AdminTemplateUpdateForm};
use crate::ids::{random_id_text, uuid_text};
use crate::models::{SiteTemplate, SiteTemplateCreate, SiteTemplateUpdate};
use crate::requests::duplicate_template_name;
use crate::site_settings::field_text;
use crate::text::{
    contains_str, has_substring, str_eq, str_to_lowercase, trim, trim_spec, unicode_to_lowercase,
};

verus! {

/// Whether the lower-cased name or description of `t` contains `needle`.
pub open spec fn template_mentions(t: SiteTemplate, needle: Seq<char>) -> bool {
    has_substring(unicode_to_lowercase(t.name@), needle)
        || has_substring(unicode_to_lowercase(t.description@), needle)
}

/// Whether `t` belongs to the category: `builtin`, `custom`, or anything else
/// for all templates.
pub open spec fn in_category(t: SiteTemplate, category: Seq<char>) -> bool {
    if category == "builtin"@ {
        t.is_builtin
    } else if category == "custom"@ {
        !t.is_builtin
    } else {
        true
    }
}

/// Whether the catalog shows `t` for the search text `q` and the category: a
/// blank search matches everything, otherwise the trimmed, lower-cased search
/// must occur in the lower-cased name or description.
pub open spec fn catalog_shows(t: SiteTemplate, q: Seq<char>, category: Seq<char>) -> bool {
    &&& (trim_spec(q).len() == 0 || template_mentions(t, unicode_to_lowercase(trim_spec(q))))
    &&& in_category(t, category)
}

/// The templates of `ts` that the catalog shows, in order.
pub open spec fn catalog_filter(ts: Seq<SiteTemplate>, q: Seq<char>, category: Seq<char>) -> Seq<
    SiteTemplate,
>
    decreases ts.len(),
{
    if ts.len() == 0 {
        seq![]
    } else {
        let r = catalog_filter(ts.drop_last(), q, category);
        if catalog_shows(ts.last(), q, category) {
            r.push(ts.last())
        } else {
            r
        }
    }
}

/// The catalog shows exactly the templates that match: a template is in the
/// filtered list if and only if it is in the list and the catalog shows it,
/// and the filtered list is never longer.
pub proof fn lemma_catalog_shows_exactly(ts: Seq<SiteTemplate>, q: Seq<char>, category: Seq<char>)
    ensures
        catalog_filter(ts, q, category).len() <= ts.len(),
        forall|t: SiteTemplate|
            #[trigger] catalog_filter(ts, q, category).contains(t) <==> ts.contains(t) && catalog_shows(
                t,
                q,
                category,
            ),
    decreases ts.len(),
{
    if ts.len() > 0 {
        let init = ts.drop_last();
        lemma_catalog_shows_exactly(init, q, category);
        assert forall|t: SiteTemplate| #[trigger] ts.contains(t) <==> init.contains(t) || t == ts.last() by {
            if ts.contains(t) {
                let i = choose|i: int| 0 <= i < ts.len() && ts[i] == t;
                if i < ts.len() - 1 {
                    assert(init[i] == t);
                }
            }
            if init.contains(t) {
                let i = choose|i: int| 0 <= i < init.len() && init[i] == t;
                assert(ts[i] == t);
            }
            if t == ts.last() {
                assert(ts[ts.len() - 1] == t);
            }
        }
        let r = catalog_filter(init, q, category);
        if catalog_shows(ts.last(), q, category) {
            assert forall|t: SiteTemplate| #[trigger] r.push(ts.last()).contains(t) <==> r.contains(t)
                || t == ts.last() by {
                if r.push(ts.last()).contains(t) {
                    let i = choose|i: int| 0 <= i < r.push(ts.last()).len() && r.push(ts.last())[i] == t;
                    if i < r.len() {
                        assert(r[i] == t);
                    }
                }
                if r.contains(t) {
                    let i = choose|i: int| 0 <= i < r.len() && r[i] == t;
                    assert(r.push(ts.last())[i] == t);
                }
                if t == ts.last() {
                    assert(r.push(ts.last())[r.len() as int] == t);
                }
            }
        }
    }
}

/// With a blank search and a category other than `builtin` and `custom`, the
/// catalog shows every template, in order.
pub proof fn lemma_catalog_shows_all(ts: Seq<SiteTemplate>, q: Seq<char>, category: Seq<char>)
    requires
        trim_spec(q).len() == 0,
        category != "builtin"@,
        category != "custom"@,
    ensures
        catalog_filter(ts, q, category) == ts,
    decreases ts.len(),
{
    if ts.len() > 0 {
        lemma_catalog_shows_all(ts.drop_last(), q, category);
        assert(ts.drop_last().push(ts.last()) =~= ts);
    }
}

/// The categories `builtin` and `custom` split what a search finds: each
/// template found is in exactly one of them.
pub proof fn lemma_categories_split(t: SiteTemplate, q: Seq<char>, all: Seq<char>)
    requires
        all != "builtin"@,
        all != "custom"@,
        catalog_shows(t, q, all),
    ensures
        catalog_shows(t, q, "builtin"@) != catalog_shows(t, q, "custom"@),
{
    reveal_strlit("builtin");
    reveal_strlit("custom");
    assert("builtin"@ != "custom"@) by {
        assert("builtin"@.len() != "custom"@.len());
    }
}

/// What the catalog search finds: a template of the list is shown exactly
/// when it belongs to the category (`builtin` keeps the built-in ones,
/// `custom` the others, any other category all) and the search is blank or
/// its trimmed, lower-cased text occurs in the template's lower-cased name or
/// in its lower-cased description.
pub proof fn lemma_catalog_search(ts: Seq<SiteTemplate>, q: Seq<char>, category: Seq<char>, t: SiteTemplate)
    requires
        ts.contains(t),
    ensures
        catalog_filter(ts, q, category).contains(t) <==> {
            let needle = unicode_to_lowercase(trim_spec(q));
            &&& (trim_spec(q).len() == 0 || has_substring(unicode_to_lowercase(t.name@), needle)
                || has_substring(unicode_to_lowercase(t.description@), needle))
            &&& (category == "builtin"@ ==> t.is_builtin)
            &&& (category == "custom"@ ==> !t.is_builtin)
        },
{
    lemma_catalog_shows_exactly(ts, q, category);
    reveal_strlit("builtin");
    reveal_strlit("custom");
    assert("builtin"@ != "custom"@) by {
        assert("builtin"@.len() != "custom"@.len());
    }
}

/// Whether `idx` lists, in increasing order, positions of `ts` that hold the
/// elements of `r` one by one.
pub open spec fn picks(idx: Seq<int>, ts: Seq<SiteTemplate>, r: Seq<SiteTemplate>) -> bool {
    &&& idx.len() == r.len()
    &&& forall|i: int, j: int| 0 <= i < j < idx.len() ==> idx[i] < idx[j]
    &&& forall|i: int| 0 <= i < idx.len() ==> 0 <= #[trigger] idx[i] < ts.len() && ts[idx[i]] == r[i]
}

/// Every template the catalog shows comes from the list, in the list's
/// order: the result is the list with some templates left out.
pub proof fn lemma_catalog_keeps_order(ts: Seq<SiteTemplate>, q: Seq<char>, category: Seq<char>)
    ensures
        exists|idx: Seq<int>| #[trigger] picks(idx, ts, catalog_filter(ts, q, category)),
    decreases ts.len(),
{
    let r = catalog_filter(ts, q, category);
    if ts.len() == 0 {
        assert(r.len() == 0);
        let idx: Seq<int> = seq![];
        assert(picks(idx, ts, r));
    } else {
        let init = ts.drop_last();
        lemma_catalog_keeps_order(init, q, category);
        let r0 = catalog_filter(init, q, category);
        let idx0 = choose|idx: Seq<int>| #[trigger] picks(idx, init, r0);
        if catalog_shows(ts.last(), q, category) {
            let idx = idx0.push(ts.len() - 1);
            assert forall|i: int| 0 <= i < idx.len() implies 0 <= #[trigger] idx[i] < ts.len() && ts[idx[i]] == r[i] by {
                if i < idx0.len() {
                    assert(idx[i] == idx0[i]);
                    assert(init[idx0[i]] == ts[idx0[i]]);
                }
            }
            assert forall|i: int, j: int| 0 <= i < j < idx.len() implies idx[i] < idx[j] by {
                if j < idx0.len() {
                    assert(idx[i] == idx0[i] && idx[j] == idx0[j]);
                } else {
                    assert(idx[i] == idx0[i]);
                }
            }
            assert(picks(idx, ts, r));
        } else {
            assert forall|i: int| 0 <= i < idx0.len() implies 0 <= #[trigger] idx0[i] < ts.len() && ts[idx0[i]] == r[i] by {
                assert(init[idx0[i]] == ts[idx0[i]]);
            }
            assert(picks(idx0, ts, r));
        }
    }
}

/// Keeps the templates that match the search text `q` and the category
/// (`builtin`, `custom`; any other value keeps all), in their order.
pub fn filter_templates(templates: Vec<SiteTemplate>, q: &str, category: &str) -> (r: Vec<
    SiteTemplate,
>)
    ensures
        r@ == catalog_filter(templates@, q@, category@),
{
    let ghost orig = templates@;
    let t = trim(q);
    let searching = t.unicode_len() > 0;
    let needle = str_to_lowercase(t);
    let only_builtin = str_eq(category, "builtin");
    let only_custom = str_eq(category, "custom");
    let mut rest = templates;
    let mut out: Vec<SiteTemplate> = Vec::new();
    let ghost mut j: int = 0;
    assert(rest@ =~= orig.skip(0));
    while rest.len() > 0
        invariant
            0 <= j <= orig.len(),
            rest@ == orig.skip(j),
            out@ == catalog_filter(orig.take(j), q@, category@),
            searching == (trim_spec(q@).len() > 0),
            needle@ == unicode_to_lowercase(trim_spec(q@)),
            only_builtin == (category@ == "builtin"@),
            only_custom == (category@ == "custom"@),
        decreases rest.len(),
    {
        let item = rest.remove(0);
        proof {
            assert(item == orig[j]);
            assert(rest@ =~= orig.skip(j + 1));
            assert(orig.take(j + 1).drop_last() =~= orig.take(j));
            assert(orig.take(j + 1).last() == orig[j]);
        }
        let matches = if searching {
            let name = str_to_lowercase(item.name.as_str());
            let description = str_to_lowercase(item.description.as_str());
            contains_str(name.as_str(), needle.as_str()) || contains_str(
                description.as_str(),
                needle.as_str(),
            )
        } else {
            true
        };
        let category_ok = if only_builtin {
            item.is_builtin
        } else if only_custom {
            !item.is_builtin
        } else {
            true
        };
        if matches && category_ok {
            out.push(item);
        }
        proof {
            j = j + 1;
        }
    }
    assert(orig.take(j) =~= orig);
    out
}

/// A new template: the trimmed name, the description (empty when not given)
/// and the HTML.
pub fn template_create_data(form: &AdminTemplateCreateForm) -> (r: SiteTemplateCreate)
    ensures
        r.name@ == trim_spec(form.name@),
        r.description@ == match form.description {
            Some(d) => d@,
            None => Seq::<char>::empty(),
        },
        r.html@ == form.html@,
{
    SiteTemplateCreate {
        name: String::from_str(trim(form.name.as_str())),
        description: match &form.description {
            Some(d) => String::from_str(d.as_str()),
            None => String::new(),
        },
        html: String::from_str(form.html.as_str()),
    }
}

/// An edit of a template: the name trimmed when given, description and HTML
/// as given; what is not given stays.
pub fn template_update_data(form: &AdminTemplateUpdateForm) -> (r: SiteTemplateUpdate)
    ensures
        field_text(r.name) == match form.name {
            Some(n) => Some(trim_spec(n@)),
            None => None,
        },
        field_text(r.description) == field_text(form.description),
        field_text(r.html) == field_text(form.html),
{
    SiteTemplateUpdate {
        name: match &form.name {
            Some(n) => Some(String::from_str(trim(n.as_str()))),
            None => None,
        },
        description: match &form.description {
            Some(d) => Some(String::from_str(d.as_str())),
            None => None,
        },
        html: match &form.html {
            Some(h) => Some(String::from_str(h.as_str())),
            None => None,
        },
    }
}

/// A copy of a template under a new name: the template's name, `-copy-` and
/// the first eight characters of a fresh random identifier.
pub fn duplicate_template_data(t: &SiteTemplate) -> (r: SiteTemplateCreate)
    ensures
        exists|x: u128| r.name@ == t.name@ + "-copy-"@ + uuid_text(x).take(8),
        r.description@ == t.description@,
        r.html@ == t.html@,
{
    let id = random_id_text();
    let name = duplicate_template_name(t.name.as_str(), id.as_str());
    SiteTemplateCreate {
        name,
        description: String::from_str(t.description.as_str()),
        html: String::from_str(t.html.as_str()),
    }
}

/// How many times a duplicate is tried, in case a random name is taken.
pub const DUPLICATE_ATTEMPTS: u32 = 3;

/// After the `attempt`-th insert of a duplicate failed with `error` (counting
/// from 1): `None` to try again with a new name, or the message to answer
/// with once all attempts are spent, which is the last error.
pub fn after_failed_duplicate(attempt: u32, error: String) -> (r: Option<String>)
    ensures
        attempt < DUPLICATE_ATTEMPTS ==> r is None,
        attempt >= DUPLICATE_ATTEMPTS ==> r == Some(error),
{
    if attempt < DUPLICATE_ATTEMPTS {
        None
    } else {
        Some(error)
    }
}

} // verus!
