//! What the API hands to the front end: users, authentication replies,
//! content and templates with their identifiers written out as text.

use vstd::prelude::*;
use vstd::string::StringExecFns;

use crate::ids::{uuid_text, uuid_to_string};
use crate::models::{ContentItem, SiteTemplate, Timestamp, User};
use crate::requests::{username_from_email, username_spec};
use crate::site_settings::field_text;

verus! {

/// Public user information (safe to expose to the front end).
pub struct UserPublic {
    pub id: String,
    pub email: String,
    pub username: Option<String>,
}

/// Login request payload.
pub struct LoginRequest {
    pub email: String,
    pub password: String,
}

/// Successful login response.
pub struct LoginResponse {
    pub user: UserPublic,
    pub token: String,
}

/// Registration request payload.
pub struct RegisterRequest {
    pub email: String,
    pub password: String,
    pub username: Option<String>,
}

/// Successful registration response.
pub struct RegisterResponse {
    pub user: UserPublic,
    pub message: String,
}

/// Authentication error details.
pub struct AuthError {
    pub message: String,
    pub code: String,
}

/// A content item as the front end sees it.
pub struct ContentPublic {
    pub id: String,
    pub owner_user_id: Option<String>,
    pub kind: String,
    pub status: String,
    pub title: String,
    pub slug: String,
    pub content: String,
    pub template: String,
    pub created_at: Timestamp,
    pub edited_at: Timestamp,
    pub published_at: Option<Timestamp>,
}

/// A template in a list, without its HTML.
pub struct TemplateSummary {
    pub id: String,
    pub owner_user_id: Option<String>,
    pub name: String,
    pub description: String,
    pub is_builtin: bool,
    pub created_at: Timestamp,
    pub edited_at: Timestamp,
}

/// A template with its HTML.
pub struct TemplateDetail {
    pub id: String,
    pub owner_user_id: Option<String>,
    pub name: String,
    pub description: String,
    pub html: String,
    pub is_builtin: bool,
    pub created_at: Timestamp,
    pub edited_at: Timestamp,
}

/// The text of an optional identifier.
pub open spec fn id_text_of(o: Option<u128>) -> Option<Seq<char>> {
    match o {
        Some(id) => Some(uuid_text(id)),
        None => None,
    }
}

/// Whether `p` describes `user` with the user name `username`.
pub open spec fn describes(p: UserPublic, user: User, username: Seq<char>) -> bool {
    &&& p.id@ == uuid_text(user.id)
    &&& p.email@ == user.email@
    &&& field_text(p.username) == Some(username)
}

fn owner_text(o: Option<u128>) -> (r: Option<String>)
    ensures
        field_text(r) == id_text_of(o),
{
    match o {
        Some(id) => Some(uuid_to_string(id)),
        None => None,
    }
}

impl UserPublic {
    /// The public view of a user; the user name is the part of the e-mail
    /// address before the first `@`.
    pub fn of_user(user: &User) -> (r: UserPublic)
        ensures
            describes(r, *user, username_spec(user.email@)),
    {
        UserPublic {
            id: uuid_to_string(user.id),
            email: String::from_str(user.email.as_str()),
            username: Some(username_from_email(user.email.as_str())),
        }
    }
}

/// The reply to a successful login: the user and, as token, its identifier.
pub fn login_response(user: &User) -> (r: LoginResponse)
    ensures
        describes(r.user, *user, username_spec(user.email@)),
        r.token@ == uuid_text(user.id),
{
    LoginResponse { user: UserPublic::of_user(user), token: uuid_to_string(user.id) }
}

/// The reply to a successful registration: the user, named by `username`
/// where one was given and else by its e-mail address.
pub fn register_response(user: &User, username: Option<String>) -> (r: RegisterResponse)
    ensures
        describes(
            r.user,
            *user,
            match username {
                Some(u) => u@,
                None => username_spec(user.email@),
            },
        ),
        r.message@ == "Registration successful!"@,
{
    let name = match username {
        Some(u) => u,
        None => username_from_email(user.email.as_str()),
    };
    RegisterResponse {
        user: UserPublic {
            id: uuid_to_string(user.id),
            email: String::from_str(user.email.as_str()),
            username: Some(name),
        },
        message: String::from_str("Registration successful!"),
    }
}

/// A content item as the front end sees it.
pub fn content_to_public(c: ContentItem) -> (r: ContentPublic)
    ensures
        r.id@ == uuid_text(c.id),
        field_text(r.owner_user_id) == id_text_of(c.owner_user_id),
        r.kind@ == c.kind.name(),
        r.status@ == c.status.name(),
        r.title@ == c.title@,
        r.slug@ == c.slug@,
        r.content@ == c.content@,
        r.template@ == c.template@,
        r.created_at == c.created_at,
        r.edited_at == c.edited_at,
        r.published_at == c.published_at,
{
    ContentPublic {
        id: uuid_to_string(c.id),
        owner_user_id: owner_text(c.owner_user_id),
        kind: String::from_str(c.kind.as_str()),
        status: String::from_str(c.status.as_str()),
        title: c.title,
        slug: c.slug,
        content: c.content,
        template: c.template,
        created_at: c.created_at,
        edited_at: c.edited_at,
        published_at: c.published_at,
    }
}

/// A template in a list.
pub fn template_to_summary(t: SiteTemplate) -> (r: TemplateSummary)
    ensures
        r.id@ == uuid_text(t.id),
        field_text(r.owner_user_id) == id_text_of(t.owner_user_id),
        r.name@ == t.name@,
        r.description@ == t.description@,
        r.is_builtin == t.is_builtin,
        r.created_at == t.created_at,
        r.edited_at == t.edited_at,
{
    TemplateSummary {
        id: uuid_to_string(t.id),
        owner_user_id: owner_text(t.owner_user_id),
        name: t.name,
        description: t.description,
        is_builtin: t.is_builtin,
        created_at: t.created_at,
        edited_at: t.edited_at,
    }
}

/// A template with its HTML.
pub fn template_to_detail(t: SiteTemplate) -> (r: TemplateDetail)
    ensures
        r.id@ == uuid_text(t.id),
        field_text(r.owner_user_id) == id_text_of(t.owner_user_id),
        r.name@ == t.name@,
        r.description@ == t.description@,
        r.html@ == t.html@,
        r.is_builtin == t.is_builtin,
        r.created_at == t.created_at,
        r.edited_at == t.edited_at,
{
    TemplateDetail {
        id: uuid_to_string(t.id),
        owner_user_id: owner_text(t.owner_user_id),
        name: t.name,
        description: t.description,
        html: t.html,
        is_builtin: t.is_builtin,
        created_at: t.created_at,
        edited_at: t.edited_at,
    }
}

} // verus!
