//! Sites and their home page configuration.

use vstd::prelude::*;

use super::homepage_type::{homepage_consistent, HomepageType};
use super::user::Timestamp;

verus! {

/// A site.
pub struct Site {
    pub id: u128,
    pub owner_user_id: u128,
    pub name: String,
    pub slug: String,
    pub status: String,
    pub default_template: String,
    pub homepage_type: HomepageType,
    pub homepage_page_id: Option<u128>,
    pub created_at: Timestamp,
    pub edited_at: Timestamp,
    pub published_at: Option<Timestamp>,
}

impl Site {
    /// Checks the home page rule for this site.
    pub fn validate_homepage(&self) -> (r: Result<(), String>)
        ensures
            r is Ok <==> homepage_consistent(self.homepage_type, self.homepage_page_id),
            self.homepage_type == HomepageType::Posts && self.homepage_page_id is Some ==> (r matches Err(
                m,
            ) && m@ == "homepage_page_id must be NULL when homepage_type=posts"@),
            self.homepage_type == HomepageType::Page && self.homepage_page_id is None ==> (r matches Err(
                m,
            ) && m@ == "homepage_page_id is required when homepage_type=page"@),
    {
        HomepageType::validate(self.homepage_type, self.homepage_page_id)
    }
}

/// The data needed to create a site.
pub struct SiteCreate {
    pub owner_user_id: u128,
    pub name: String,
    pub slug: String,
    pub default_template: String,
}

/// A partial update of a site: `None` fields are left unchanged; for the home
/// page, `Some(None)` clears the page.
pub struct SiteUpdate {
    pub name: Option<String>,
    pub slug: Option<String>,
    pub status: Option<String>,
    pub default_template: Option<String>,
    pub homepage_type: Option<HomepageType>,
    pub homepage_page_id: Option<Option<u128>>,
}

/// The page named by a home page update (`None` when absent or cleared).
pub open spec fn flat_page(p: Option<Option<u128>>) -> Option<u128> {
    match p {
        Some(Some(id)) => Some(id),
        _ => None,
    }
}

impl SiteUpdate {
    /// Checks the home page rule when the update sets the home page type.
    pub fn validate_homepage(&self) -> (r: Result<(), String>)
        ensures
            self.homepage_type is None ==> r is Ok,
            self.homepage_type matches Some(t) ==> (r is Ok <==> homepage_consistent(
                t,
                flat_page(self.homepage_page_id),
            )),
            self.homepage_type == Some(HomepageType::Posts) && flat_page(self.homepage_page_id) is Some
                ==> (r matches Err(m) && m@ == "homepage_page_id must be NULL when homepage_type=posts"@),
            self.homepage_type == Some(HomepageType::Page) && flat_page(self.homepage_page_id) is None
                ==> (r matches Err(m) && m@ == "homepage_page_id is required when homepage_type=page"@),
    {
        match self.homepage_type {
            Some(typ) => {
                let page = match self.homepage_page_id {
                    Some(Some(id)) => Some(id),
                    _ => None,
                };
                HomepageType::validate(typ, page)
            },
            None => Ok(()),
        }
    }
}

} // verus!
