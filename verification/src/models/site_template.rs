//! Site templates: HTML with placeholders that content is rendered into.

use vstd::prelude::*;

use super::user::Timestamp;

verus! {

/// A template, either built in or owned by a user.
pub struct SiteTemplate {
    pub id: u128,
    pub owner_user_id: Option<u128>,
    pub name: String,
    pub description: String,
    pub html: String,
    pub is_builtin: bool,
    pub created_at: Timestamp,
    pub edited_at: Timestamp,
}

/// The data needed to create a template.
pub struct SiteTemplateCreate {
    pub name: String,
    pub description: String,
    pub html: String,
}

/// A partial update of a template: `None` fields are left unchanged.
pub struct SiteTemplateUpdate {
    pub name: Option<String>,
    pub description: Option<String>,
    pub html: Option<String>,
}

} // verus!
