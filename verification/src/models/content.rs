//! Content items (pages and posts) and the data to create or update them.

use vstd::prelude::*;

use super::content_kind::ContentKind;
use super::content_status::ContentStatus;
use super::user::Timestamp;

verus! {

/// A page or post.
pub struct ContentItem {
    pub id: u128,
    pub owner_user_id: Option<u128>,
    pub kind: ContentKind,
    pub status: ContentStatus,
    pub title: String,
    pub slug: String,
    pub content: String,
    pub template: String,
    pub current_rev: i32,
    pub created_at: Timestamp,
    pub edited_at: Timestamp,
    pub published_at: Option<Timestamp>,
}

/// The data needed to create a content item (created as a draft).
pub struct ContentCreate {
    pub owner_user_id: Option<u128>,
    pub kind: ContentKind,
    pub title: String,
    pub slug: String,
    pub content: String,
    pub template: String,
}

/// A partial update of a content item: `None` fields are left unchanged.
pub struct ContentUpdate {
    pub title: Option<String>,
    pub slug: Option<String>,
    pub content: Option<String>,
    pub template: Option<String>,
    pub status: Option<ContentStatus>,
}

} // verus!
