//! Snapshots of content items kept for history, undo and redo.

use vstd::prelude::*;

use super::content_status::ContentStatus;
use super::user::Timestamp;

verus! {

/// A full snapshot of a content item at one revision.
pub struct ContentItemRevision {
    pub id: u128,
    pub content_item_id: u128,
    pub rev: i32,
    pub created_by_user_id: Option<u128>,
    pub title: String,
    pub slug: String,
    pub content: String,
    pub template: String,
    pub status: ContentStatus,
    pub created_at: Timestamp,
}

/// The summary of a revision shown in the history list.
pub struct ContentItemRevisionMeta {
    pub rev: i32,
    pub created_by_user_id: Option<u128>,
    pub created_at: Timestamp,
    pub title: String,
    pub status: ContentStatus,
}

} // verus!
