//! What the server-rendered pages show, the headers sent with every response,
//! and the sample content used to preview a template.

use vstd::prelude::*;
use vstd::string::StringExecFns;

use crate::ids::{parse_uuid, uuid_parse_spec};
use crate::models::{ContentItem, User};
use crate::requests::{login_error_message, login_error_spec, register_error_message, register_error_spec};
use crate::site_settings::field_text;
use crate::text::{trim, trim_spec};

verus! {

/// A published page or post rendered through its template.
pub struct PublicContentTemplate {
    pub html: String,
}

/// A page or post shown without a template.
pub struct PublicFallbackTemplate<'a> {
    pub title: &'a str,
    pub content: &'a str,
}

/// The admin login page.
pub struct AdminLoginTemplate {
    pub error: Option<String>,
}

/// The admin registration page.
pub struct AdminRegisterTemplate {
    pub error: Option<String>,
}

/// The account security page.
pub struct MeSecurityTemplate {
    pub password_set: bool,
    pub email_verified: bool,
    pub error: Option<String>,
    pub success: Option<String>,
    pub is_admin: bool,
}

/// The page that creates a user.
pub struct AdminUserNewTemplate {
    pub is_admin: bool,
    pub error: Option<String>,
}

/// The page shown for a missing resource.
pub struct NotFoundTemplate {
    pub is_admin: bool,
}

/// The page shown to a visitor who may not see a resource.
pub struct UnauthorizedTemplate {
    pub is_admin: bool,
}

impl AdminLoginTemplate {
    /// The login page for the error code of the query string, if any.
    pub fn from_error_code(code: Option<&str>) -> (r: AdminLoginTemplate)
        ensures
            field_text(r.error) == match code {
                Some(c) => Some(login_error_spec(c@)),
                None => None,
            },
    {
        let error = match code {
            Some(c) => Some(login_error_message(c)),
            None => None,
        };
        AdminLoginTemplate { error }
    }
}

impl AdminRegisterTemplate {
    /// The registration page for the error code of the query string, if any.
    pub fn from_error_code(code: Option<&str>) -> (r: AdminRegisterTemplate)
        ensures
            field_text(r.error) == match code {
                Some(c) => Some(register_error_spec(c@)),
                None => None,
            },
    {
        let error = match code {
            Some(c) => Some(register_error_message(c)),
            None => None,
        };
        AdminRegisterTemplate { error }
    }
}

impl MeSecurityTemplate {
    /// The security page of `user`: a password is set when the stored hash is
    /// not blank, and the address is verified once it has a verification time.
    pub fn for_user(user: &User, is_admin: bool, error: Option<String>, success: Option<String>) -> (r:
        MeSecurityTemplate)
        ensures
            r.password_set == (trim_spec(user.password_hash@).len() > 0),
            r.email_verified == (user.email_verified_at is Some),
            r.error == error,
            r.success == success,
            r.is_admin == is_admin,
    {
        let hash = trim(user.password_hash.as_str());
        MeSecurityTemplate {
            password_set: hash.unicode_len() > 0,
            email_verified: user.email_verified_at.is_some(),
            error,
            success,
            is_admin,
        }
    }
}

// ---------------------------------------------------------------------------
// Response headers
// ---------------------------------------------------------------------------

/// Adds the security headers to every response.
pub struct SecurityHeaders;

/// The service wrapped by `SecurityHeaders`.
pub struct SecurityHeadersMiddleware<S> {
    pub service: S,
}

/// The security headers, names and values, in the order they are set.
pub open spec fn security_header_list() -> Seq<(Seq<char>, Seq<char>)> {
    seq![
        ("x-frame-options"@, "DENY"@),
        ("x-content-type-options"@, "nosniff"@),
        ("x-xss-protection"@, "1; mode=block"@),
        ("strict-transport-security"@, "max-age=31536000; includeSubDomains"@),
        (
            "content-security-policy"@,
            "default-src 'self'; script-src 'self' 'unsafe-inline' https://esm.sh https://unpkg.com; style-src 'self' 'unsafe-inline'; img-src 'self' data: https:; connect-src 'self' https://esm.sh; frame-ancestors 'none'"@,
        ),
        ("referrer-policy"@, "strict-origin-when-cross-origin"@),
    ]
}

impl SecurityHeaders {
    /// The headers that every response carries: framing, MIME sniffing, XSS
    /// filter, HSTS, content security policy and referrer policy.
    pub fn headers(&self) -> (r: Vec<(&'static str, &'static str)>)
        ensures
            r@.len() == security_header_list().len(),
            forall|i: int|
                0 <= i < r@.len() ==> (#[trigger] r@[i]).0@ == security_header_list()[i].0
                    && r@[i].1@ == security_header_list()[i].1,
    {
        let mut r: Vec<(&'static str, &'static str)> = Vec::new();
        r.push(("x-frame-options", "DENY"));
        r.push(("x-content-type-options", "nosniff"));
        r.push(("x-xss-protection", "1; mode=block"));
        r.push(("strict-transport-security", "max-age=31536000; includeSubDomains"));
        r.push(
            (
                "content-security-policy",
                "default-src 'self'; script-src 'self' 'unsafe-inline' https://esm.sh https://unpkg.com; style-src 'self' 'unsafe-inline'; img-src 'self' data: https:; connect-src 'self' https://esm.sh; frame-ancestors 'none'",
            ),
        );
        r.push(("referrer-policy", "strict-origin-when-cross-origin"));
        r
    }
}

// ---------------------------------------------------------------------------
// Template previews
// ---------------------------------------------------------------------------

/// Title, content, slug and kind shown when a template is previewed without
/// one of the user's own items.
pub fn sample_data() -> (r: (&'static str, &'static str, &'static str, &'static str))
    ensures
        r.0@ == sample_data_spec().0,
        r.1@ == sample_data_spec().1,
        r.2@ == sample_data_spec().2,
        r.3@ == sample_data_spec().3,
{
    (
        "Sample Page Title",
        "<p>Sample content with <strong>bold</strong> and <a href=\"#\">links</a>. This is placeholder text to preview your template layout.</p>",
        "sample-page",
        "page",
    )
}

/// The item a preview asks for: a non-empty field that reads as a UUID.
pub fn preview_target(field: Option<&str>) -> (r: Option<u128>)
    ensures
        r == match field {
            Some(s) => if s@.len() == 0 {
                None
            } else {
                uuid_parse_spec(s@)
            },
            None => None,
        },
{
    match field {
        Some(s) => {
            if s.unicode_len() == 0 {
                None
            } else {
                parse_uuid(s)
            }
        },
        None => None,
    }
}

/// Title, content, slug and kind of a preview: those of the item found, if
/// the user may view it, and the sample data otherwise.
pub fn preview_fields(found: Option<&ContentItem>, can_view: bool) -> (r: (
    String,
    String,
    String,
    String,
))
    ensures
        match found {
            Some(item) if can_view => {
                &&& r.0@ == item.title@
                &&& r.1@ == item.content@
                &&& r.2@ == item.slug@
                &&& r.3@ == item.kind.name()
            },
            _ => {
                &&& r.0@ == sample_data_spec().0
                &&& r.1@ == sample_data_spec().1
                &&& r.2@ == sample_data_spec().2
                &&& r.3@ == sample_data_spec().3
            },
        },
{
    match found {
        Some(item) if can_view => (
            String::from_str(item.title.as_str()),
            String::from_str(item.content.as_str()),
            String::from_str(item.slug.as_str()),
            String::from_str(item.kind.as_str()),
        ),
        _ => {
            let s = sample_data();
            (String::from_str(s.0), String::from_str(s.1), String::from_str(s.2), String::from_str(s.3))
        },
    }
}

/// The sample data as text.
pub open spec fn sample_data_spec() -> (Seq<char>, Seq<char>, Seq<char>, Seq<char>) {
    (
        "Sample Page Title"@,
        "<p>Sample content with <strong>bold</strong> and <a href=\"#\">links</a>. This is placeholder text to preview your template layout.</p>"@,
        "sample-page"@,
        "page"@,
    )
}

} // verus!
