//! Password strength, e-mail and slug validation, CSRF token checks and the
//! in-memory request rate limiter.

use vstd::prelude::*;
use vstd::string::{StrSliceExecFns, StringExecFns};

use crate::ids::{random_id_text, uuid_text};
pub use crate::rate_limit::RateLimiter;
use crate::session::{CookieSettings, SameSitePolicy};
use crate::text::{
    byte_len, byte_length, char_is_alphanumeric, char_is_lowercase, char_is_uppercase, chars_of, is_ascii_digit,
    is_ascii_lowercase, spec_is_ascii_digit, spec_is_ascii_lowercase, str_eq, trim, trim_spec,
    unicode_alphanumeric, unicode_lowercase, unicode_uppercase,
};

verus! {

broadcast use vstd::seq_lib::group_seq_properties;

/// Minimum number of bytes in a password accepted by [`PasswordValidator`].
pub const PASSWORD_MIN_LENGTH: usize = 12;

/// Longest e-mail address (in bytes) accepted by [`validate_email`].
pub const EMAIL_MAX_LENGTH: usize = 254;

/// Longest local part (in bytes) accepted by [`validate_email`].
pub const EMAIL_LOCAL_MAX_LENGTH: usize = 64;

/// Longest slug (in bytes) accepted by [`validate_slug`].
pub const SLUG_MAX_LENGTH: usize = 255;

// ---------------------------------------------------------------------------
// Character-class summaries of a string
// ---------------------------------------------------------------------------

/// Some character of `s` is uppercase.
pub open spec fn has_uppercase(s: Seq<char>) -> bool {
    exists|i: int| 0 <= i < s.len() && unicode_uppercase(#[trigger] s[i])
}

/// Some character of `s` is lowercase.
pub open spec fn has_lowercase(s: Seq<char>) -> bool {
    exists|i: int| 0 <= i < s.len() && unicode_lowercase(#[trigger] s[i])
}

/// Some character of `s` is an ASCII digit.
pub open spec fn has_ascii_digit(s: Seq<char>) -> bool {
    exists|i: int| 0 <= i < s.len() && spec_is_ascii_digit(#[trigger] s[i])
}

/// Some character of `s` is neither alphabetic nor numeric.
pub open spec fn has_special(s: Seq<char>) -> bool {
    exists|i: int| 0 <= i < s.len() && !unicode_alphanumeric(#[trigger] s[i])
}

/// How many of the four character classes occur in `s`.
pub open spec fn requirements_met(s: Seq<char>) -> int {
    (if has_uppercase(s) { 1int } else { 0int }) + (if has_lowercase(s) { 1int } else { 0int }) + (
    if has_ascii_digit(s) { 1int } else { 0int }) + (if has_special(s) { 1int } else { 0int })
}

pub(crate) fn any_uppercase(v: &Vec<char>) -> (r: bool)
    ensures
        r == has_uppercase(v@),
{
    let mut i: usize = 0;
    while i < v.len()
        invariant
            i <= v.len(),
            forall|k: int| 0 <= k < i ==> !unicode_uppercase(#[trigger] v@[k]),
        decreases v.len() - i,
    {
        if char_is_uppercase(v[i]) {
            return true;
        }
        i = i + 1;
    }
    false
}

pub(crate) fn any_lowercase(v: &Vec<char>) -> (r: bool)
    ensures
        r == has_lowercase(v@),
{
    let mut i: usize = 0;
    while i < v.len()
        invariant
            i <= v.len(),
            forall|k: int| 0 <= k < i ==> !unicode_lowercase(#[trigger] v@[k]),
        decreases v.len() - i,
    {
        if char_is_lowercase(v[i]) {
            return true;
        }
        i = i + 1;
    }
    false
}

pub(crate) fn any_ascii_digit(v: &Vec<char>) -> (r: bool)
    ensures
        r == has_ascii_digit(v@),
{
    let mut i: usize = 0;
    while i < v.len()
        invariant
            i <= v.len(),
            forall|k: int| 0 <= k < i ==> !spec_is_ascii_digit(#[trigger] v@[k]),
        decreases v.len() - i,
    {
        if is_ascii_digit(v[i]) {
            return true;
        }
        i = i + 1;
    }
    false
}

pub(crate) fn any_special(v: &Vec<char>) -> (r: bool)
    ensures
        r == has_special(v@),
{
    let mut i: usize = 0;
    while i < v.len()
        invariant
            i <= v.len(),
            forall|k: int| 0 <= k < i ==> unicode_alphanumeric(#[trigger] v@[k]),
        decreases v.len() - i,
    {
        if !char_is_alphanumeric(v[i]) {
            return true;
        }
        i = i + 1;
    }
    false
}

// ---------------------------------------------------------------------------
// Password strength
// ---------------------------------------------------------------------------

/// Password strength rules: at least 12 bytes and at least three of
/// uppercase, lowercase, ASCII digit and special character.
pub struct PasswordValidator;

/// The password is strong enough.
pub open spec fn password_strong(p: Seq<char>) -> bool {
    byte_len(p) >= PASSWORD_MIN_LENGTH && requirements_met(p) >= 3
}

impl PasswordValidator {
    /// Checks the strength rules; on failure, the message says which rule failed.
    pub fn validate(password: &str) -> (r: Result<(), String>)
        ensures
            byte_len(password@) < PASSWORD_MIN_LENGTH ==> (r matches Err(m) && m@
                == "Password must be at least 12 characters"@),
            byte_len(password@) >= PASSWORD_MIN_LENGTH && requirements_met(password@) < 3
                ==> (r matches Err(m) && m@
                == "Password must contain at least 3 of: uppercase, lowercase, digit, special character"@),
            r is Ok <==> password_strong(password@),
    {
        if byte_length(password) < PASSWORD_MIN_LENGTH {
            return Err(String::from_str("Password must be at least 12 characters"));
        }
        let v = chars_of(password);
        let has_upper = any_uppercase(&v);
        let has_lower = any_lowercase(&v);
        let has_digit = any_ascii_digit(&v);
        let has_spec = any_special(&v);
        let mut requirements: u8 = 0;
        if has_upper {
            requirements = requirements + 1;
        }
        if has_lower {
            requirements = requirements + 1;
        }
        if has_digit {
            requirements = requirements + 1;
        }
        if has_spec {
            requirements = requirements + 1;
        }
        if requirements < 3 {
            return Err(
                String::from_str(
                    "Password must contain at least 3 of: uppercase, lowercase, digit, special character",
                ),
            );
        }
        Ok(())
    }
}

// ---------------------------------------------------------------------------
// E-mail addresses
// ---------------------------------------------------------------------------

/// `e` splits at `@` position `k` into a well-formed local part and domain.
pub open spec fn email_split_ok(e: Seq<char>, k: int) -> bool {
    let local = e.take(k);
    let domain = e.skip(k + 1);
    &&& 0 <= k < e.len()
    &&& e[k] == '@'
    &&& forall|j: int| 0 <= j < e.len() && j != k ==> #[trigger] e[j] != '@'
    &&& local.len() > 0
    &&& byte_len(local) <= EMAIL_LOCAL_MAX_LENGTH
    &&& domain.len() > 0
    &&& domain.contains('.')
}

/// After trimming, `email` is non-empty, at most 254 bytes, holds exactly one
/// `@`, a local part of 1 to 64 bytes and a domain containing a dot.
pub open spec fn email_valid(email: Seq<char>) -> bool {
    let e = trim_spec(email);
    &&& e.len() > 0
    &&& byte_len(e) <= EMAIL_MAX_LENGTH
    &&& exists|k: int| email_split_ok(e, k)
}

/// What makes an address valid: trimmed, it is non-empty and at most 254
/// bytes, it holds exactly one `@`, the part before it is 1 to 64 bytes,
/// and the part after it (the domain) holds a dot. A dot before the `@`
/// does not count.
pub proof fn lemma_email_valid_shape(email: Seq<char>)
    ensures
        email_valid(email) <==> {
            let e = trim_spec(email);
            &&& 0 < e.len()
            &&& byte_len(e) <= 254
            &&& exists|k: int|
                #![trigger e[k]]
                0 < k < e.len() && e[k] == '@' && (forall|j: int| 0 <= j < e.len() && j != k ==> e[j] != '@')
                    && byte_len(e.take(k)) <= 64 && (exists|d: int| k < d < e.len() && e[d] == '.')
        },
{
    let e = trim_spec(email);
    if email_valid(email) {
        let k = choose|k: int| email_split_ok(e, k);
        let dom = e.skip(k + 1);
        assert(dom.contains('.'));
        let d = choose|d: int| 0 <= d < dom.len() && dom[d] == '.';
        assert(e[k + 1 + d] == '.');
        assert(e[k] == '@');
    }
    if (0 < e.len() && byte_len(e) <= 254 && exists|k: int|
        #![trigger e[k]]
        0 < k < e.len() && e[k] == '@' && (forall|j: int| 0 <= j < e.len() && j != k ==> e[j] != '@')
            && byte_len(e.take(k)) <= 64 && (exists|d: int| k < d < e.len() && e[d] == '.')) {
        let k = choose|k: int|
            #![trigger e[k]]
            0 < k < e.len() && e[k] == '@' && (forall|j: int| 0 <= j < e.len() && j != k ==> e[j] != '@')
                && byte_len(e.take(k)) <= 64 && (exists|d: int| k < d < e.len() && e[d] == '.');
        let d = choose|d: int| k < d < e.len() && e[d] == '.';
        let dom = e.skip(k + 1);
        assert(dom[d - k - 1] == '.');
        assert(dom.contains('.'));
        assert(email_split_ok(e, k));
    }
}

/// Position of the only `@` in `v`, or `None` when there is none or more than one.
fn find_single_at(v: &Vec<char>) -> (r: Option<usize>)
    ensures
        r matches Some(k) ==> k < v.len() && v@[k as int] == '@' && forall|j: int|
            0 <= j < v.len() && j != k ==> #[trigger] v@[j] != '@',
        r is None ==> forall|k: int|
            0 <= k < v.len() && v@[k] == '@' ==> exists|j: int|
                0 <= j < v.len() && j != k && #[trigger] v@[j] == '@',
{
    let mut at: usize = 0;
    let mut count: usize = 0;
    let mut i: usize = 0;
    while i < v.len()
        invariant
            i <= v.len(),
            count <= i,
            count == 0 ==> forall|j: int| 0 <= j < i ==> v@[j] != '@',
            count >= 1 ==> at < i && v@[at as int] == '@',
            count == 1 ==> forall|j: int| 0 <= j < i && j != at ==> v@[j] != '@',
            count >= 2 ==> exists|j: int| 0 <= j < i && j != at && v@[j] == '@',
        decreases v.len() - i,
    {
        if v[i] == '@' {
            if count == 0 {
                at = i;
            }
            count = count + 1;
        }
        i = i + 1;
    }
    if count == 1 {
        Some(at)
    } else {
        proof {
            assert forall|k: int| 0 <= k < v.len() && v@[k] == '@' implies exists|j: int|
                0 <= j < v.len() && j != k && #[trigger] v@[j] == '@' by {
                if count >= 2 {
                    let j = choose|j: int| 0 <= j < i && j != at && v@[j] == '@';
                    if j == k {
                        assert(v@[at as int] == '@');
                    }
                }
            }
        }
        None
    }
}

/// Basic e-mail address validation.
pub fn validate_email(email: &str) -> (r: bool)
    ensures
        r == email_valid(email@),
{
    let e = trim(email);
    let n = byte_length(e);
    if n == 0 || n > EMAIL_MAX_LENGTH {
        proof {
            crate::text::lemma_byte_len(e@);
        }
        return false;
    }
    let v = chars_of(e);
    let found = find_single_at(&v);
    let at = match found {
        Some(k) => k,
        None => {
            proof {
                assert forall|k: int| !email_split_ok(e@, k) by {
                    if email_split_ok(e@, k) {
                        let j = choose|j: int| 0 <= j < v@.len() && j != k && #[trigger] v@[j] == '@';
                        assert(e@[j] == '@');
                    }
                }
            }
            return false;
        }
    };
    let local = e.substring_char(0, at);
    let domain = e.substring_char(at + 1, v.len());
    assert(local@ =~= e@.take(at as int));
    assert(domain@ =~= e@.skip(at + 1));
    let local_len = byte_length(local);
    if local_len == 0 || local_len > EMAIL_LOCAL_MAX_LENGTH || domain.unicode_len() == 0 {
        proof {
            crate::text::lemma_byte_len(local@);
            assert forall|k: int| !email_split_ok(e@, k) by {
                if email_split_ok(e@, k) {
                    assert(k == at);
                }
            }
        }
        return false;
    }
    let has_dot = crate::text::contains_char(domain, '.');
    proof {
        crate::text::lemma_byte_len(local@);
        assert(email_split_ok(e@, at as int) == has_dot);
        assert forall|k: int| email_split_ok(e@, k) implies k == at by {}
    }
    has_dot
}

// ---------------------------------------------------------------------------
// Slugs
// ---------------------------------------------------------------------------

/// A character allowed in slugs: ASCII lowercase letter, ASCII digit, `-` or `_`.
pub open spec fn is_slug_char(c: char) -> bool {
    spec_is_ascii_lowercase(c) || spec_is_ascii_digit(c) || c == '-' || c == '_'
}

/// `slug` is non-empty, at most `max` bytes and made only of slug characters.
pub open spec fn slug_valid(slug: Seq<char>, max: nat) -> bool {
    &&& slug.len() > 0
    &&& byte_len(slug) <= max
    &&& forall|i: int| 0 <= i < slug.len() ==> is_slug_char(#[trigger] slug[i])
}

/// Slug validation with a caller-chosen maximum length in bytes.
pub fn validate_slug_with_max(slug: &str, max_len: usize) -> (r: bool)
    ensures
        r == slug_valid(slug@, max_len as nat),
{
    let n = byte_length(slug);
    if n == 0 || n > max_len {
        proof {
            crate::text::lemma_byte_len(slug@);
        }
        return false;
    }
    let v = chars_of(slug);
    let mut i: usize = 0;
    while i < v.len()
        invariant
            v@ == slug@,
            i <= v.len(),
            forall|k: int| 0 <= k < i ==> is_slug_char(#[trigger] v@[k]),
        decreases v.len() - i,
    {
        let c = v[i];
        if !(is_ascii_lowercase(c) || is_ascii_digit(c) || c == '-' || c == '_') {
            return false;
        }
        i = i + 1;
    }
    true
}

/// Slug validation: 1 to 255 bytes of lowercase ASCII letters, digits, `-` and `_`.
pub fn validate_slug(slug: &str) -> (r: bool)
    ensures
        r == slug_valid(slug@, SLUG_MAX_LENGTH as nat),
{
    validate_slug_with_max(slug, SLUG_MAX_LENGTH)
}

/// A generic error message that does not reveal internal details.
pub fn generic_error_message(context: &str) -> (r: String)
    ensures
        r@ == "An error occurred while processing your "@ + context@ + ". Please try again."@,
{
    let mut r = String::from_str("An error occurred while processing your ");
    r.append(context);
    r.append(". Please try again.");
    r
}

// ---------------------------------------------------------------------------
// CSRF tokens
// ---------------------------------------------------------------------------

/// CSRF token management.
pub struct CsrfToken;

/// Whether a form token passes: the session cookie holds a non-empty value
/// equal to it.
pub open spec fn csrf_accepts(session_token: Option<Seq<char>>, form_token: Seq<char>) -> bool {
    session_token matches Some(s) && s.len() > 0 && s == form_token
}

/// A token handed out by `generate` and stored in the session cookie is
/// accepted when the form sends it back, and no other form token is; without
/// the cookie nothing is accepted.
pub proof fn lemma_issued_token_accepted(x: u128, other: Seq<char>)
    ensures
        csrf_accepts(Some(uuid_text(x)), uuid_text(x)),
        other != uuid_text(x) ==> !csrf_accepts(Some(uuid_text(x)), other),
        !csrf_accepts(None, other),
{
}

impl CsrfToken {
    /// A fresh random token: the hyphenated text of a random UUID.
    pub fn generate() -> (r: String)
        ensures
            exists|x: u128| r@ == uuid_text(x),
    {
        random_id_text()
    }

    /// The cookie holding a token: `csrf_token` for the whole site, HTTP
    /// only, secure, `Strict`, for 24 hours.
    pub fn create_cookie(token: &str) -> (r: CookieSettings)
        ensures
            r.name@ == "csrf_token"@,
            r.value@ == token@,
            r.path@ == "/"@,
            r.http_only,
            r.secure,
            r.same_site == SameSitePolicy::Strict,
            r.max_age_seconds == Some(86400i64),
            !r.removal,
    {
        CookieSettings {
            name: "csrf_token",
            value: String::from_str(token),
            path: "/",
            http_only: true,
            secure: true,
            same_site: SameSitePolicy::Strict,
            max_age_seconds: Some(86400),
            removal: false,
        }
    }

    /// The form token is accepted when the session cookie holds a non-empty
    /// value equal to it.
    pub fn validate(session_token: Option<&str>, form_token: &str) -> (r: bool)
        ensures
            r == csrf_accepts(
                match session_token {
                    Some(s) => Some(s@),
                    None => None,
                },
                form_token@,
            ),
    {
        match session_token {
            Some(s) => !s.is_empty() && str_eq(s, form_token),
            None => false,
        }
    }
}

} // verus!
