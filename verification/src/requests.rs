//! How submitted values are read: kinds and statuses named in paths and forms,
//! optional text fields, and the checks of the API and of the user admin pages.

use vstd::prelude::*;
use vstd::string::{StrSliceExecFns, StringExecFns};

use crate::ids::{parse_uuid, uuid_parse_spec};
use crate::models::{ContentKind, ContentStatus, HomepageType};
use crate::text::{
    byte_len, byte_length, chars_of, contains_char, contains_str, has_substring, str_eq,
    str_to_lowercase, trim, trim_spec, unicode_to_lowercase,
};

verus! {

// ---------------------------------------------------------------------------
// Kinds and statuses
// ---------------------------------------------------------------------------

/// The kind named by the plural path segment of the admin pages.
pub fn kind_from_path(segment: &str) -> (r: Option<ContentKind>)
    ensures
        segment@ == "posts"@ ==> r == Some(ContentKind::Post),
        segment@ != "posts"@ && segment@ == "pages"@ ==> r == Some(ContentKind::Page),
        segment@ != "posts"@ && segment@ != "pages"@ ==> r is None,
{
    if str_eq(segment, "posts") {
        Some(ContentKind::Post)
    } else if str_eq(segment, "pages") {
        Some(ContentKind::Page)
    } else {
        None
    }
}

/// The kind named (singular or plural, surrounding whitespace ignored) in an
/// API call.
pub open spec fn api_kind_spec(kind: Seq<char>) -> Result<ContentKind, &'static str> {
    let k = trim_spec(kind);
    if k == "page"@ || k == "pages"@ {
        Ok(ContentKind::Page)
    } else if k == "post"@ || k == "posts"@ {
        Ok(ContentKind::Post)
    } else {
        Err("Invalid kind")
    }
}

/// Reads the kind of an API call.
pub fn kind_from_api(kind: &str) -> (r: Result<ContentKind, &'static str>)
    ensures
        r == api_kind_spec(kind@),
{
    let k = trim(kind);
    if str_eq(k, "page") || str_eq(k, "pages") {
        Ok(ContentKind::Page)
    } else if str_eq(k, "post") || str_eq(k, "posts") {
        Ok(ContentKind::Post)
    } else {
        Err("Invalid kind")
    }
}

/// The status chosen in an edit form: blank or absent keeps the current one.
pub open spec fn status_field_spec(status: Option<Seq<char>>) -> Result<Option<ContentStatus>, &'static str> {
    match status {
        None => Ok(None),
        Some(s) => {
            let t = trim_spec(s);
            if t == "draft"@ {
                Ok(Some(ContentStatus::Draft))
            } else if t == "published"@ {
                Ok(Some(ContentStatus::Published))
            } else if t.len() == 0 {
                Ok(None)
            } else {
                Err("Invalid status")
            }
        },
    }
}

/// Reads the status field of an edit form.
pub fn parse_status_field(status: Option<&str>) -> (r: Result<Option<ContentStatus>, &'static str>)
    ensures
        r == status_field_spec(match status {
            Some(s) => Some(s@),
            None => None,
        }),
{
    match status {
        None => Ok(None),
        Some(s) => {
            let t = trim(s);
            if str_eq(t, "draft") {
                Ok(Some(ContentStatus::Draft))
            } else if str_eq(t, "published") {
                Ok(Some(ContentStatus::Published))
            } else if t.is_empty() {
                Ok(None)
            } else {
                Err("Invalid status")
            }
        },
    }
}

/// The kind name used when previewing an unsaved item: plural path names become
/// singular, anything else is kept (trimmed).
pub open spec fn preview_kind_spec(kind: Seq<char>) -> Seq<char> {
    let k = trim_spec(kind);
    if k == "posts"@ {
        "post"@
    } else if k == "pages"@ {
        "page"@
    } else {
        k
    }
}

/// The kind name used when previewing an unsaved item.
pub fn preview_kind(kind: &str) -> (r: String)
    ensures
        r@ == preview_kind_spec(kind@),
{
    let k = trim(kind);
    if str_eq(k, "posts") {
        String::from_str("post")
    } else if str_eq(k, "pages") {
        String::from_str("page")
    } else {
        String::from_str(k)
    }
}

// ---------------------------------------------------------------------------
// Optional text fields
// ---------------------------------------------------------------------------

/// The view of an optional text field.
pub open spec fn opt_view(field: Option<&str>) -> Option<Seq<char>> {
    match field {
        Some(s) => Some(s@),
        None => None,
    }
}

/// A present field, trimmed.
pub fn trimmed(field: Option<&str>) -> (r: Option<String>)
    ensures
        field is None ==> r is None,
        field matches Some(s) ==> (r matches Some(t) && t@ == trim_spec(s@)),
{
    match field {
        Some(s) => Some(String::from_str(trim(s))),
        None => None,
    }
}

/// A present field, trimmed, when something remains.
pub fn non_blank(field: Option<&str>) -> (r: Option<String>)
    ensures
        field is None ==> r is None,
        field matches Some(s) ==> (trim_spec(s@).len() == 0 ==> r is None),
        field matches Some(s) ==> (trim_spec(s@).len() > 0 ==> (r matches Some(t) && t@ == trim_spec(
            s@,
        ))),
{
    match field {
        Some(s) => {
            let t = trim(s);
            if t.is_empty() {
                None
            } else {
                Some(String::from_str(t))
            }
        },
        None => None,
    }
}

/// A present field, trimmed, or `fallback` when absent or blank.
pub fn non_blank_or(field: Option<&str>, fallback: &str) -> (r: String)
    ensures
        r@ == (match field {
            Some(s) => if trim_spec(s@).len() > 0 {
                trim_spec(s@)
            } else {
                fallback@
            },
            None => fallback@,
        }),
{
    match non_blank(field) {
        Some(t) => t,
        None => String::from_str(fallback),
    }
}

// ---------------------------------------------------------------------------
// Home page settings
// ---------------------------------------------------------------------------

/// The home page type named by a form field: trimmed and lower-cased, `posts`
/// or `page`; anything else is ignored.
pub open spec fn homepage_type_field_spec(typ: Option<Seq<char>>) -> Option<HomepageType> {
    match typ {
        Some(s) => {
            let l = unicode_to_lowercase(trim_spec(s));
            if l == "posts"@ {
                Some(HomepageType::Posts)
            } else if l == "page"@ {
                Some(HomepageType::Page)
            } else {
                None
            }
        },
        None => None,
    }
}

/// The home page settings read from a form: the type when it parses, and for
/// `Page` the page id when it parses; `Posts` clears the page.
pub open spec fn homepage_fields_spec(typ: Option<Seq<char>>, page: Option<Seq<char>>) -> (
    Option<HomepageType>,
    Option<Option<u128>>,
) {
    let t = homepage_type_field_spec(typ);
    let p = match t {
        Some(HomepageType::Posts) => Some(None),
        Some(HomepageType::Page) => match page {
            Some(s) => match uuid_parse_spec(trim_spec(s)) {
                Some(id) => Some(Some(id)),
                None => None,
            },
            None => None,
        },
        None => None,
    };
    (t, p)
}

/// Reads the home page settings of the site and configuration forms.
pub fn homepage_fields(typ: Option<&str>, page: Option<&str>) -> (r: (
    Option<HomepageType>,
    Option<Option<u128>>,
))
    ensures
        r == homepage_fields_spec(opt_view(typ), opt_view(page)),
{
    proof {
        reveal_strlit("posts");
        reveal_strlit("page");
        assert("posts"@[1] != "page"@[1]);
    }
    let t: Option<HomepageType> = match typ {
        Some(s) => match HomepageType::parse(trim(s)) {
            Ok(h) => Some(h),
            Err(_) => None,
        },
        None => None,
    };
    let p: Option<Option<u128>> = match t {
        Some(HomepageType::Posts) => Some(None),
        Some(HomepageType::Page) => match page {
            Some(s) => match parse_uuid(trim(s)) {
                Some(id) => Some(Some(id)),
                None => None,
            },
            None => None,
        },
        None => None,
    };
    (t, p)
}

// ---------------------------------------------------------------------------
// Checks of the API and of the user admin pages
// ---------------------------------------------------------------------------

/// Checks the credentials passed to the login API.
pub fn api_login_check(email: &str, password: &str) -> (r: Result<(), &'static str>)
    ensures
        r == (if trim_spec(email@).len() == 0 || password@.len() == 0 {
            Err::<(), &'static str>("Invalid credentials")
        } else {
            Ok(())
        }),
{
    if trim(email).is_empty() || password.is_empty() {
        Err("Invalid credentials")
    } else {
        Ok(())
    }
}

/// Checks the values passed to the registration API.
pub fn api_register_check(email: &str, password: &str) -> (r: Result<(), &'static str>)
    ensures
        r == (if trim_spec(email@).len() == 0 || !trim_spec(email@).contains('@') {
            Err::<(), &'static str>("Please enter a valid email")
        } else if byte_len(password@) < 6 {
            Err::<(), &'static str>("Password must be at least 6 characters")
        } else {
            Ok(())
        }),
{
    let e = trim(email);
    if e.is_empty() || !contains_char(e, '@') {
        return Err("Please enter a valid email");
    }
    if byte_length(password) < 6 {
        return Err("Password must be at least 6 characters");
    }
    Ok(())
}

/// Reads an identifier passed to the API: its trimmed text as a UUID.
pub fn api_id(id: &str) -> (r: Result<u128, &'static str>)
    ensures
        r == match uuid_parse_spec(trim_spec(id@)) {
            Some(v) => Ok::<u128, &'static str>(v),
            None => Err("Invalid id"),
        },
{
    match parse_uuid(trim(id)) {
        Some(v) => Ok(v),
        None => Err("Invalid id"),
    }
}

/// Checks a title and slug passed to the content creation API.
pub fn api_content_check(title: &str, slug: &str) -> (r: Result<(), &'static str>)
    ensures
        r == (if trim_spec(title@).len() == 0 {
            Err::<(), &'static str>("Title is required")
        } else if trim_spec(slug@).len() == 0 {
            Err::<(), &'static str>("Slug is required")
        } else {
            Ok(())
        }),
{
    if trim(title).is_empty() {
        return Err("Title is required");
    }
    if trim(slug).is_empty() {
        return Err("Slug is required");
    }
    Ok(())
}

/// Checks a name and HTML passed to the template creation API.
pub fn api_template_check(name: &str, html: &str) -> (r: Result<(), &'static str>)
    ensures
        r == (if trim_spec(name@).len() == 0 {
            Err::<(), &'static str>("Name is required")
        } else if trim_spec(html@).len() == 0 {
            Err::<(), &'static str>("HTML is required")
        } else {
            Ok(())
        }),
{
    if trim(name).is_empty() {
        return Err("Name is required");
    }
    if trim(html).is_empty() {
        return Err("HTML is required");
    }
    Ok(())
}

/// The outcome of checking the administrator's new-user form: an address
/// and a password of at least 4 bytes are required.
pub open spec fn admin_new_user_spec(email: Seq<char>, password: Seq<char>) -> Result<(), &'static str> {
    if trim_spec(email).len() == 0 || byte_len(password) < 4 {
        Err("Email and password (min 4 characters) are required")
    } else {
        Ok(())
    }
}

/// Checks the administrator's new-user form.
pub fn admin_new_user_check(email: &str, password: &str) -> (r: Result<(), &'static str>)
    ensures
        r == admin_new_user_spec(email@, password@),
{
    if trim(email).is_empty() || byte_length(password) < 4 {
        Err("Email and password (min 4 characters) are required")
    } else {
        Ok(())
    }
}

/// Reads the optional new password of the administrator's user edit form:
/// `None` when absent or blank, the trimmed password when long enough.
pub fn admin_new_password(field: Option<&str>) -> (r: Result<Option<String>, &'static str>)
    ensures
        field is None ==> r matches Ok(None),
        field matches Some(s) ==> (trim_spec(s@).len() == 0 ==> r matches Ok(None)),
        field matches Some(s) ==> (trim_spec(s@).len() > 0 && byte_len(trim_spec(s@)) < 4 ==> r
            == Err::<Option<String>, &'static str>("Password must be at least 4 characters")),
        field matches Some(s) ==> (byte_len(trim_spec(s@)) >= 4 ==> (r matches Ok(Some(p)) && p@
            == trim_spec(s@))),
{
    match field {
        None => Ok(None),
        Some(s) => {
            let p = trim(s);
            let n = byte_length(p);
            if n == 0 {
                proof {
                    crate::text::lemma_byte_len(p@);
                }
                return Ok(None);
            }
            if n < 4 {
                proof {
                    crate::text::lemma_byte_len(p@);
                }
                return Err("Password must be at least 4 characters");
            }
            Ok(Some(String::from_str(p)))
        },
    }
}

/// The message shown when deleting a user failed with `error_text`.
pub fn user_deletion_error_message(error_text: &str) -> (r: String)
    ensures
        has_substring(error_text@, "Cannot delete the last admin"@) ==> r@
            == "Cannot delete the last admin"@,
        !has_substring(error_text@, "Cannot delete the last admin"@) ==> r@ == "Delete failed: "@
            + error_text@,
{
    if contains_str(error_text, "Cannot delete the last admin") {
        String::from_str("Cannot delete the last admin")
    } else {
        let mut m = String::from_str("Delete failed: ");
        m.append(error_text);
        m
    }
}

/// The part of an address before its first `@` (all of it when there is none).
pub open spec fn username_spec(email: Seq<char>) -> Seq<char>
    decreases email.len(),
{
    if email.len() == 0 || email[0] == '@' {
        seq![]
    } else {
        seq![email[0]] + username_spec(email.drop_first())
    }
}

/// The default user name derived from an e-mail address.
pub fn username_from_email(email: &str) -> (r: String)
    ensures
        r@ == username_spec(email@),
{
    let v = chars_of(email);
    let mut i: usize = 0;
    while i < v.len() && v[i] != '@'
        invariant
            v@ == email@,
            i <= v.len(),
            forall|k: int| 0 <= k < i ==> v@[k] != '@',
        decreases v.len() - i,
    {
        i = i + 1;
    }
    proof {
        lemma_username_prefix(email@, i as int);
    }
    String::from_str(email.substring_char(0, i))
}

proof fn lemma_username_prefix(s: Seq<char>, i: int)
    requires
        0 <= i <= s.len(),
        forall|k: int| 0 <= k < i ==> s[k] != '@',
        i == s.len() || s[i] == '@',
    ensures
        username_spec(s) == s.subrange(0, i),
    decreases s.len(),
{
    if i == 0 {
        assert(s.subrange(0, 0) =~= Seq::<char>::empty());
    } else {
        let t = s.drop_first();
        assert forall|k: int| 0 <= k < i - 1 implies t[k] != '@' by {
            assert(t[k] == s[k + 1]);
        }
        if i < s.len() {
            assert(t[i - 1] == s[i]);
        }
        lemma_username_prefix(t, i - 1);
        assert(seq![s[0]] + t.subrange(0, i - 1) =~= s.subrange(0, i));
    }
}

/// The name of a copy of a template: the template's name, `-copy-` and the first
/// eight characters of `suffix` (a random identifier).
pub fn duplicate_template_name(name: &str, suffix: &str) -> (r: String)
    requires
        suffix@.len() >= 8,
    ensures
        r@ == name@ + "-copy-"@ + suffix@.take(8),
{
    let mut r = String::from_str(name);
    r.append("-copy-");
    r.append(suffix.substring_char(0, 8));
    r
}

// ---------------------------------------------------------------------------
// Error codes shown on the authentication pages
// ---------------------------------------------------------------------------

/// The message of the admin login page for an error code.
pub open spec fn login_error_spec(code: Seq<char>) -> Seq<char> {
    if code == "missing"@ {
        "Email and password are required"@
    } else if code == "invalid"@ {
        "Invalid email or password"@
    } else if code == "db"@ {
        "Database error. Please try again."@
    } else if code == "internal"@ {
        "An internal error occurred. Please try again."@
    } else {
        code
    }
}

/// The message of the admin login page for an error code.
pub fn login_error_message(code: &str) -> (r: String)
    ensures
        r@ == login_error_spec(code@),
{
    if str_eq(code, "missing") {
        String::from_str("Email and password are required")
    } else if str_eq(code, "invalid") {
        String::from_str("Invalid email or password")
    } else if str_eq(code, "db") {
        String::from_str("Database error. Please try again.")
    } else if str_eq(code, "internal") {
        String::from_str("An internal error occurred. Please try again.")
    } else {
        String::from_str(code)
    }
}

/// The message of the admin registration page for an error code.
pub open spec fn register_error_spec(code: Seq<char>) -> Seq<char> {
    if code == "missing"@ {
        "Email and password (min 4 characters) are required"@
    } else if code == "exists"@ {
        "An account with this email already exists"@
    } else if code == "rate_limit"@ {
        "Too many registration attempts. Please try again later."@
    } else if code == "db"@ {
        "Database error. Please try again."@
    } else if code == "internal"@ {
        "An internal error occurred. Please try again."@
    } else {
        code
    }
}

/// The message of the admin registration page for an error code.
pub fn register_error_message(code: &str) -> (r: String)
    ensures
        r@ == register_error_spec(code@),
{
    if str_eq(code, "missing") {
        String::from_str("Email and password (min 4 characters) are required")
    } else if str_eq(code, "exists") {
        String::from_str("An account with this email already exists")
    } else if str_eq(code, "rate_limit") {
        String::from_str("Too many registration attempts. Please try again later.")
    } else if str_eq(code, "db") {
        String::from_str("Database error. Please try again.")
    } else if str_eq(code, "internal") {
        String::from_str("An internal error occurred. Please try again.")
    } else {
        String::from_str(code)
    }
}

/// The message of the sign-in page component for an error code.
pub open spec fn login_page_error_spec(code: Seq<char>) -> Seq<char> {
    if code == ""@ {
        ""@
    } else if code == "missing"@ {
        "Missing email or password"@
    } else if code == "invalid"@ {
        "Invalid credentials"@
    } else if code == "db"@ {
        "Database error"@
    } else if code == "internal"@ {
        "Internal server error"@
    } else {
        code
    }
}

/// The message of the sign-in page component for an error code.
pub fn login_page_error_message(code: &str) -> (r: String)
    ensures
        r@ == login_page_error_spec(code@),
{
    if str_eq(code, "") {
        String::from_str("")
    } else if str_eq(code, "missing") {
        String::from_str("Missing email or password")
    } else if str_eq(code, "invalid") {
        String::from_str("Invalid credentials")
    } else if str_eq(code, "db") {
        String::from_str("Database error")
    } else if str_eq(code, "internal") {
        String::from_str("Internal server error")
    } else {
        String::from_str(code)
    }
}

/// The message of the sign-up page component for an error code.
pub open spec fn register_page_error_spec(code: Seq<char>) -> Seq<char> {
    if code == ""@ {
        ""@
    } else if code == "missing"@ {
        "Email required and password must be at least 4 characters"@
    } else if code == "exists"@ {
        "Email already exists"@
    } else if code == "db"@ {
        "Database error"@
    } else if code == "internal"@ {
        "Internal server error"@
    } else {
        code
    }
}

/// The message of the sign-up page component for an error code.
pub fn register_page_error_message(code: &str) -> (r: String)
    ensures
        r@ == register_page_error_spec(code@),
{
    if str_eq(code, "") {
        String::from_str("")
    } else if str_eq(code, "missing") {
        String::from_str("Email required and password must be at least 4 characters")
    } else if str_eq(code, "exists") {
        String::from_str("Email already exists")
    } else if str_eq(code, "db") {
        String::from_str("Database error")
    } else if str_eq(code, "internal") {
        String::from_str("Internal server error")
    } else {
        String::from_str(code)
    }
}

} // verus!
