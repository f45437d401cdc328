//! Who is making a request, and how it asked: the signed-in user's id from
//! the session cookie (or the fallbacks used in development), the cookies the
//! server sets, htmx requests, and store errors that report a taken unique
//! value.

use vstd::prelude::*;

use vstd::string::StringExecFns;

use crate::ids::{parse_uuid, uuid_parse_spec, uuid_text, uuid_to_string};
use crate::requests::opt_view;
use crate::text::{ascii_lower, str_eq, trim, trim_spec};

verus! {

/// The id a credential names: its trimmed text, when not blank, read as a
/// UUID.
pub open spec fn credential_id(v: Option<Seq<char>>) -> Option<u128> {
    match v {
        Some(s) => if trim_spec(s).len() > 0 {
            uuid_parse_spec(trim_spec(s))
        } else {
            None
        },
        None => None,
    }
}

/// Reads one credential.
pub fn credential(v: Option<&str>) -> (r: Option<u128>)
    ensures
        r == credential_id(opt_view(v)),
{
    match v {
        Some(s) => {
            let t = trim(s);
            if t.unicode_len() > 0 {
                parse_uuid(t)
            } else {
                None
            }
        },
        None => None,
    }
}

/// The user named by the API's session cookie: its value read as a UUID,
/// exactly as given.
pub fn cookie_session_user(cookie: Option<&str>) -> (r: Option<u128>)
    ensures
        r == match cookie {
            Some(s) => uuid_parse_spec(s@),
            None => None,
        },
{
    match cookie {
        Some(s) => parse_uuid(s),
        None => None,
    }
}

/// The signed-in user: the id in the session cookie, else the one in the
/// user header, else the one in the environment; the first that names one.
pub fn session_user(cookie: Option<&str>, header: Option<&str>, env: Option<&str>) -> (r: Option<u128>)
    ensures
        r == match credential_id(opt_view(cookie)) {
            Some(id) => Some(id),
            None => match credential_id(opt_view(header)) {
                Some(id) => Some(id),
                None => credential_id(opt_view(env)),
            },
        },
{
    match credential(cookie) {
        Some(id) => Some(id),
        None => match credential(header) {
            Some(id) => Some(id),
            None => credential(env),
        },
    }
}


/// Whether two strings are equal when ASCII letters are compared without
/// regard to case (what `str::eq_ignore_ascii_case` answers).
pub open spec fn equal_ignoring_ascii_case(a: Seq<char>, b: Seq<char>) -> bool {
    a.len() == b.len() && forall|i: int| 0 <= i < a.len() ==> ascii_lower(#[trigger] a[i]) == ascii_lower(b[i])
}

fn lower_char(c: char) -> (r: char)
    ensures
        r == ascii_lower(c),
{
    if 'A' <= c && c <= 'Z' {
        ((c as u32) + 32) as u8 as char
    } else {
        c
    }
}

/// Compares two strings, ignoring the case of ASCII letters.
pub fn eq_ignore_ascii_case(a: &str, b: &str) -> (r: bool)
    ensures
        r == equal_ignoring_ascii_case(a@, b@),
{
    let va = crate::text::chars_of(a);
    let vb = crate::text::chars_of(b);
    if va.len() != vb.len() {
        return false;
    }
    let mut i: usize = 0;
    while i < va.len()
        invariant
            va@ == a@,
            vb@ == b@,
            va.len() == vb.len(),
            i <= va.len(),
            forall|k: int| 0 <= k < i ==> ascii_lower(#[trigger] a@[k]) == ascii_lower(b@[k]),
        decreases va.len() - i,
    {
        if lower_char(va[i]) != lower_char(vb[i]) {
            return false;
        }
        i = i + 1;
    }
    true
}

/// Whether a request came from htmx: its `HX-Request` header says `true`, in
/// any case.
pub fn is_htmx_request(hx_request: Option<&str>) -> (r: bool)
    ensures
        r == match hx_request {
            Some(v) => equal_ignoring_ascii_case(v@, "true"@),
            None => false,
        },
{
    match hx_request {
        Some(v) => eq_ignore_ascii_case(v, "true"),
        None => false,
    }
}

/// Whether a store error code reports a unique constraint violation
/// (PostgreSQL's `23505`).
pub fn is_unique_violation_code(code: Option<&str>) -> (r: bool)
    ensures
        r == match code {
            Some(c) => c@ == "23505"@,
            None => false,
        },
{
    match code {
        Some(c) => str_eq(c, "23505"),
        None => false,
    }
}

/// The `SameSite` policy of a cookie.
#[derive(Debug, Clone, Copy, PartialEq, Eq, Structural)]
pub enum SameSitePolicy {
    Strict,
    Lax,
}

/// A cookie the server sets: its name, value and attributes. A removal
/// cookie tells the browser to drop the cookie of that name.
pub struct CookieSettings {
    pub name: &'static str,
    pub value: String,
    pub path: &'static str,
    pub http_only: bool,
    pub secure: bool,
    pub same_site: SameSitePolicy,
    pub max_age_seconds: Option<i64>,
    pub removal: bool,
}

/// The session cookie of a signed-in user: `rp_uid` holding the user's id,
/// for the whole site, HTTP only, secure, `Lax`, for seven days.
pub fn session_cookie(uid: u128) -> (r: CookieSettings)
    ensures
        r.name@ == "rp_uid"@,
        r.value@ == uuid_text(uid),
        uuid_parse_spec(r.value@) == Some(uid),
        r.path@ == "/"@,
        r.http_only,
        r.secure,
        r.same_site == SameSitePolicy::Lax,
        r.max_age_seconds == Some(604800i64),
        !r.removal,
{
    CookieSettings {
        name: "rp_uid",
        value: uuid_to_string(uid),
        path: "/",
        http_only: true,
        secure: true,
        same_site: SameSitePolicy::Lax,
        max_age_seconds: Some(604800),
        removal: false,
    }
}

/// The session cookie the API sets: `rp_uid` holding the user's id, for the
/// whole site, HTTP only, `Lax`, for the browser session.
pub fn api_session_cookie(uid: u128) -> (r: CookieSettings)
    ensures
        r.name@ == "rp_uid"@,
        r.value@ == uuid_text(uid),
        uuid_parse_spec(r.value@) == Some(uid),
        r.path@ == "/"@,
        r.http_only,
        !r.secure,
        r.same_site == SameSitePolicy::Lax,
        r.max_age_seconds is None,
        !r.removal,
{
    CookieSettings {
        name: "rp_uid",
        value: uuid_to_string(uid),
        path: "/",
        http_only: true,
        secure: false,
        same_site: SameSitePolicy::Lax,
        max_age_seconds: None,
        removal: false,
    }
}

/// The cookie that ends a session: an empty `rp_uid` marked for removal
/// (secure when signing out, not when an account is deleted).
pub fn session_removal_cookie(secure: bool) -> (r: CookieSettings)
    ensures
        r.name@ == "rp_uid"@,
        r.value@.len() == 0,
        r.path@ == "/"@,
        r.http_only,
        r.secure == secure,
        r.same_site == SameSitePolicy::Lax,
        r.max_age_seconds is None,
        r.removal,
{
    CookieSettings {
        name: "rp_uid",
        value: String::new(),
        path: "/",
        http_only: true,
        secure,
        same_site: SameSitePolicy::Lax,
        max_age_seconds: None,
        removal: true,
    }
}

} // verus!
