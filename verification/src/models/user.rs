//! Users, the ways to identify them and the shapes of user queries and updates.

use vstd::prelude::*;

use vstd::string::StringExecFns;
use vstd::std_specs::convert::FromSpecImpl;

use crate::ids::{uuid_text, uuid_to_string};
use crate::text::{byte_len, byte_length, ends_with, has_prefix, has_suffix, starts_with};

verus! {

/// A point in time, as microseconds since the Unix epoch.
pub type Timestamp = i64;

/// A user account.
pub struct User {
    pub id: u128,
    pub email: String,
    pub password_hash: String,
    pub email_verified_at: Option<Timestamp>,
    pub created_at: Timestamp,
    pub edited_at: Timestamp,
    pub deleted_at: Option<Timestamp>,
}

/// Credentials as stored for a login.
pub struct UserLogin {
    pub email: String,
    pub password_hash: String,
}

/// A partial update of a user: `None` fields are left unchanged.
pub struct UserUpdate {
    pub id: u128,
    pub email: Option<String>,
    pub password_hash: Option<String>,
}

/// The data needed to create a user.
pub struct UserCreate {
    pub email: String,
    pub password_hash: String,
}

/// A request to delete a user.
pub struct UserDelete {
    pub id: u128,
}

/// A user identified by id or by e-mail address.
pub enum UserIden {
    Id(u128),
    Email(String),
}

impl UserIden {
    /// How the identified user is named in messages: `ID` and the UUID, or
    /// `email` and the quoted address.
    pub fn describe(&self) -> (r: String)
        ensures
            r@ == match self {
                UserIden::Id(id) => "ID "@ + uuid_text(*id),
                UserIden::Email(e) => "email '"@ + e@ + "'"@,
            },
    {
        match self {
            UserIden::Id(id) => {
                let mut r = String::from_str("ID ");
                let t = uuid_to_string(*id);
                r.append(t.as_str());
                r
            },
            UserIden::Email(e) => {
                let mut r = String::from_str("email '");
                r.append(e.as_str());
                r.append("'");
                r
            },
        }
    }
}

impl From<u128> for UserIden {
    fn from(id: u128) -> (r: Self) {
        UserIden::Id(id)
    }
}

impl FromSpecImpl<u128> for UserIden {
    open spec fn obeys_from_spec() -> bool {
        true
    }

    open spec fn from_spec(v: u128) -> Self {
        UserIden::Id(v)
    }
}

impl From<String> for UserIden {
    fn from(email: String) -> (r: Self) {
        UserIden::Email(email)
    }
}

impl FromSpecImpl<String> for UserIden {
    open spec fn obeys_from_spec() -> bool {
        true
    }

    open spec fn from_spec(v: String) -> Self {
        UserIden::Email(v)
    }
}

/// Search criteria and pagination for listing users.
pub struct UserQuery {
    pub id: Option<u128>,
    pub email: Option<String>,
    pub created_at: Option<Timestamp>,
    pub edited_at: Option<Timestamp>,
    pub deleted_at: Option<Timestamp>,
    pub offset: Option<i64>,
    pub limit: Option<i64>,
    pub sort_by: Option<Vec<Option<bool>>>,
}

/// A user row together with its `edited_at` before an update.
pub struct UserWithOldState {
    pub id: u128,
    pub email: String,
    pub password_hash: String,
    pub email_verified_at: Option<Timestamp>,
    pub created_at: Timestamp,
    pub edited_at: Timestamp,
    pub deleted_at: Option<Timestamp>,
    pub old_edited_at: Timestamp,
}

/// An anonymised (purged) address: `anon-…@deleted.local` with something
/// between the prefix and the suffix.
pub open spec fn email_purged(email: Seq<char>) -> bool {
    &&& has_prefix(email, "anon-"@)
    &&& has_suffix(email, "@deleted.local"@)
    &&& byte_len(email) > byte_len("anon-@deleted.local"@)
}

/// The address a purge gives an account: `anon-`, the account's UUID and
/// `@deleted.local`.
pub open spec fn purged_email_text(id: u128) -> Seq<char> {
    "anon-"@ + uuid_text(id) + "@deleted.local"@
}

/// The anonymised address of the account `id`.
pub fn purged_email(id: u128) -> (r: String)
    ensures
        r@ == purged_email_text(id),
{
    let mut r = String::from_str("anon-");
    let t = uuid_to_string(id);
    r.append(t.as_str());
    r.append("@deleted.local");
    r
}

/// A purged account is recognised as purged: the address a purge gives it
/// passes `check_email_purged`.
pub proof fn lemma_purged_email_is_recognised(id: u128)
    ensures
        email_purged(purged_email_text(id)),
{
    let pre = "anon-"@;
    let mid = uuid_text(id);
    let suf = "@deleted.local"@;
    let s = pre + mid + suf;
    assert(s.take(pre.len() as int) =~= pre);
    assert(s.skip(s.len() - suf.len()) =~= suf);
    crate::text::lemma_byte_len_concat(pre + mid, suf);
    crate::text::lemma_byte_len_concat(pre, mid);
    crate::text::lemma_byte_len_concat(pre, suf);
    crate::text::lemma_byte_len(mid);
    reveal_strlit("anon-");
    reveal_strlit("@deleted.local");
    reveal_strlit("anon-@deleted.local");
    assert("anon-@deleted.local"@ =~= pre + suf);
}

/// Whether `email` is the anonymised address of a purged account.
pub fn check_email_purged(email: &str) -> (r: bool)
    ensures
        r == email_purged(email@),
{
    starts_with(email, "anon-") && ends_with(email, "@deleted.local") && byte_length(email)
        > byte_length("anon-@deleted.local")
}

impl User {
    /// Whether this account's address was anonymised by a purge.
    pub fn has_email_purged(&self) -> (r: bool)
        ensures
            r == email_purged(self.email@),
    {
        check_email_purged(self.email.as_str())
    }
}

impl UserWithOldState {
    /// Whether this account's address was anonymised by a purge.
    pub fn has_email_purged(&self) -> (r: bool)
        ensures
            r == email_purged(self.email@),
    {
        check_email_purged(self.email.as_str())
    }

    /// The user row, without the previous `edited_at`.
    pub fn into_user(self) -> (u: User)
        ensures
            u.id == self.id,
            u.email == self.email,
            u.password_hash == self.password_hash,
            u.email_verified_at == self.email_verified_at,
            u.created_at == self.created_at,
            u.edited_at == self.edited_at,
            u.deleted_at == self.deleted_at,
    {
        User {
            id: self.id,
            email: self.email,
            password_hash: self.password_hash,
            email_verified_at: self.email_verified_at,
            created_at: self.created_at,
            edited_at: self.edited_at,
            deleted_at: self.deleted_at,
        }
    }
}

impl UserUpdate {
    /// Whether the update changes nothing.
    pub fn is_empty(&self) -> (r: bool)
        ensures
            r == (self.email is None && self.password_hash is None),
    {
        self.email.is_none() && self.password_hash.is_none()
    }
}

impl UserQuery {
    /// The names of the query's fields, in declaration order.
    pub fn fields() -> (r: [&'static str; 8])
        ensures
            r@ == seq![
                "id",
                "email",
                "created_at",
                "edited_at",
                "deleted_at",
                "offset",
                "limit",
                "sort_by",
            ],
    {
        ["id", "email", "created_at", "edited_at", "deleted_at", "offset", "limit", "sort_by"]
    }

    /// Whether no search criterion is given (pagination and sorting aside).
    pub fn is_empty(&self) -> (r: bool)
        ensures
            r == (self.id is None && self.email is None && self.created_at is None
                && self.edited_at is None && self.deleted_at is None),
    {
        self.id.is_none() && self.email.is_none() && self.created_at.is_none()
            && self.edited_at.is_none() && self.deleted_at.is_none()
    }
}

impl Default for UserQuery {
    fn default() -> (r: Self)
        ensures
            r.id is None && r.email is None && r.created_at is None && r.edited_at is None
                && r.deleted_at is None && r.offset is None && r.limit is None && r.sort_by is None,
    {
        UserQuery {
            id: None,
            email: None,
            created_at: None,
            edited_at: None,
            deleted_at: None,
            offset: None,
            limit: None,
            sort_by: None,
        }
    }
}

} // verus!
