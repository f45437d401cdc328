//! Collaborators of a content item.

use vstd::prelude::*;

use super::user::Timestamp;

verus! {

/// A user invited to work on a content item, with the e-mail of that user.
pub struct ContentCollaborator {
    pub content_item_id: u128,
    pub user_id: u128,
    pub email: String,
    pub role: String,
    pub created_at: Timestamp,
}

} // verus!
