//! Submitted forms and query strings, and the checks run on them before any
//! other processing.

use vstd::prelude::*;

use crate::models::RoleName;
use crate::security::{
    any_ascii_digit, any_lowercase, any_special, any_uppercase, has_ascii_digit, has_lowercase,
    has_special, has_uppercase, slug_valid, validate_slug_with_max,
};
use crate::text::{
    byte_len, byte_length, chars_of, contains_char, trim, trim_spec, unicode_alphanumeric,
    unicode_lowercase, unicode_numeric, unicode_uppercase,
};

verus! {

/// Shortest accepted new password, in bytes.
pub const MIN_PASSWORD_LENGTH: usize = 12;

/// Longest accepted password, in bytes (guards against huge inputs).
pub const MAX_PASSWORD_LENGTH: usize = 128;

/// Longest accepted e-mail address, in bytes.
pub const MAX_EMAIL_LENGTH: usize = 255;

/// Longest accepted content body, in bytes (10 MB).
pub const MAX_CONTENT_LENGTH: usize = 10000000;

/// Longest accepted template HTML, in bytes (1 MB).
pub const MAX_TEMPLATE_LENGTH: usize = 1000000;

/// Longest accepted title, in bytes.
pub const MAX_TITLE_LENGTH: usize = 500;

/// Longest accepted slug of a content item, in bytes.
pub const MAX_CONTENT_SLUG_LENGTH: usize = 200;

/// Longest accepted template name, in bytes.
pub const MAX_TEMPLATE_NAME_LENGTH: usize = 200;

/// Some character of `s` is numeric in Unicode.
pub open spec fn has_numeric(s: Seq<char>) -> bool {
    exists|i: int| 0 <= i < s.len() && unicode_numeric(#[trigger] s[i])
}

fn any_numeric(v: &Vec<char>) -> (r: bool)
    ensures
        r == has_numeric(v@),
{
    let mut i: usize = 0;
    while i < v.len()
        invariant
            i <= v.len(),
            forall|k: int| 0 <= k < i ==> !unicode_numeric(#[trigger] v@[k]),
        decreases v.len() - i,
    {
        if crate::text::char_is_numeric(v[i]) {
            return true;
        }
        i = i + 1;
    }
    false
}

// ---------------------------------------------------------------------------
// Login and registration
// ---------------------------------------------------------------------------

/// The login form.
pub struct LoginForm {
    pub email: String,
    pub password: String,
}

/// The outcome of checking a login form.
pub open spec fn login_form_check(email: Seq<char>, password: Seq<char>) -> Result<(), &'static str> {
    if trim_spec(email).len() == 0 {
        Err("Email is required")
    } else if byte_len(email) > MAX_EMAIL_LENGTH {
        Err("Email too long")
    } else if password.len() == 0 {
        Err("Password is required")
    } else if byte_len(password) > MAX_PASSWORD_LENGTH {
        Err("Password too long")
    } else {
        Ok(())
    }
}

impl LoginForm {
    /// Checks that both fields are present and not too long.
    pub fn validate(&self) -> (r: Result<(), &'static str>)
        ensures
            r == login_form_check(self.email@, self.password@),
    {
        if trim(self.email.as_str()).is_empty() {
            return Err("Email is required");
        }
        if byte_length(self.email.as_str()) > MAX_EMAIL_LENGTH {
            return Err("Email too long");
        }
        if self.password.as_str().is_empty() {
            return Err("Password is required");
        }
        if byte_length(self.password.as_str()) > MAX_PASSWORD_LENGTH {
            return Err("Password too long");
        }
        Ok(())
    }
}

/// The query string of the login and registration pages.
pub struct AuthQuery {
    pub error: Option<String>,
}

/// The registration form.
pub struct RegisterForm {
    pub email: String,
    pub password: String,
}

/// The address looks like an e-mail address: it holds `@` and `.`.
pub open spec fn email_shape_ok(e: Seq<char>) -> bool {
    e.contains('@') && e.contains('.')
}

/// The outcome of checking an e-mail address and a new password, where
/// `digit` says whether the password holds a digit in the sense the form uses.
pub open spec fn account_check(email: Seq<char>, password: Seq<char>, digit: bool) -> Result<
    (),
    &'static str,
> {
    let e = trim_spec(email);
    if e.len() == 0 {
        Err("Email is required")
    } else if byte_len(e) > MAX_EMAIL_LENGTH {
        Err("Email must not exceed 255 characters")
    } else if !email_shape_ok(e) {
        Err("Invalid email format")
    } else if byte_len(password) < MIN_PASSWORD_LENGTH {
        Err("Password must be at least 12 characters")
    } else if byte_len(password) > MAX_PASSWORD_LENGTH {
        Err("Password must not exceed 128 characters")
    } else if !has_uppercase(password) || !has_lowercase(password) || !digit || !has_special(
        password,
    ) {
        Err("Password must contain uppercase, lowercase, digit, and special character")
    } else {
        Ok(())
    }
}

/// Checks an e-mail address and a new password, given whether the password
/// holds a digit.
fn check_account(email: &str, password: &str, digit: bool) -> (r: Result<(), &'static str>)
    ensures
        r == account_check(email@, password@, digit),
{
    let e = trim(email);
    if e.is_empty() {
        return Err("Email is required");
    }
    if byte_length(e) > MAX_EMAIL_LENGTH {
        return Err("Email must not exceed 255 characters");
    }
    if !contains_char(e, '@') || !contains_char(e, '.') {
        return Err("Invalid email format");
    }
    let n = byte_length(password);
    if n < MIN_PASSWORD_LENGTH {
        return Err("Password must be at least 12 characters");
    }
    if n > MAX_PASSWORD_LENGTH {
        return Err("Password must not exceed 128 characters");
    }
    let v = chars_of(password);
    if !any_uppercase(&v) || !any_lowercase(&v) || !digit || !any_special(&v) {
        return Err("Password must contain uppercase, lowercase, digit, and special character");
    }
    Ok(())
}

impl RegisterForm {
    /// Checks the address shape and the password length and complexity
    /// (uppercase, lowercase, numeric and special character).
    pub fn validate(&self) -> (r: Result<(), &'static str>)
        ensures
            r == account_check(self.email@, self.password@, has_numeric(self.password@)),
    {
        let v = chars_of(self.password.as_str());
        let digit = any_numeric(&v);
        check_account(self.email.as_str(), self.password.as_str(), digit)
    }
}

/// What a registration accepts: an address that, trimmed, is non-empty, at
/// most 255 bytes and holds both `@` and `.`, and a password of 12 to 128
/// bytes with an uppercase letter, a lowercase letter, a numeric character
/// and a character that is neither alphabetic nor numeric. Every other form
/// is refused.
pub proof fn lemma_registration_accepts(email: Seq<char>, password: Seq<char>)
    ensures
        account_check(email, password, has_numeric(password)) is Ok <==> {
            let e = trim_spec(email);
            &&& 0 < e.len()
            &&& byte_len(e) <= 255
            &&& e.contains('@')
            &&& e.contains('.')
            &&& 12 <= byte_len(password) <= 128
            &&& exists|i: int| 0 <= i < password.len() && unicode_uppercase(#[trigger] password[i])
            &&& exists|i: int| 0 <= i < password.len() && unicode_lowercase(#[trigger] password[i])
            &&& exists|i: int| 0 <= i < password.len() && unicode_numeric(#[trigger] password[i])
            &&& exists|i: int| 0 <= i < password.len() && !unicode_alphanumeric(#[trigger] password[i])
        },
{
}

/// The form changing the account's e-mail address.
pub struct AccountEmailForm {
    pub email: String,
}

// ---------------------------------------------------------------------------
// Password change and account deletion
// ---------------------------------------------------------------------------

/// The password change form.
pub struct ChangePasswordForm {
    pub current_password: String,
    pub new_password: String,
}

/// The outcome of checking a password change.
pub open spec fn change_password_check(current: Seq<char>, new: Seq<char>) -> Result<(), &'static str> {
    if byte_len(current) > MAX_PASSWORD_LENGTH {
        Err("Current password too long")
    } else if byte_len(new) < MIN_PASSWORD_LENGTH {
        Err("New password must be at least 12 characters")
    } else if byte_len(new) > MAX_PASSWORD_LENGTH {
        Err("New password must not exceed 128 characters")
    } else if !has_uppercase(new) || !has_lowercase(new) || !has_ascii_digit(new) || !has_special(
        new,
    ) {
        Err("New password must contain uppercase, lowercase, digit, and special character")
    } else {
        Ok(())
    }
}

/// What a password change accepts: a current password of at most 128 bytes
/// and a new one of 12 to 128 bytes with an uppercase letter, a lowercase
/// letter, an ASCII digit and a character that is neither alphabetic nor
/// numeric. Every other form is refused.
pub proof fn lemma_password_change_accepts(current: Seq<char>, new: Seq<char>)
    ensures
        change_password_check(current, new) is Ok <==> {
            &&& byte_len(current) <= 128
            &&& 12 <= byte_len(new) <= 128
            &&& exists|i: int| 0 <= i < new.len() && unicode_uppercase(#[trigger] new[i])
            &&& exists|i: int| 0 <= i < new.len() && unicode_lowercase(#[trigger] new[i])
            &&& exists|i: int| 0 <= i < new.len() && '0' <= #[trigger] new[i] && new[i] <= '9'
            &&& exists|i: int| 0 <= i < new.len() && !unicode_alphanumeric(#[trigger] new[i])
        },
{
}

impl ChangePasswordForm {
    /// Checks the lengths and the complexity of the new password.
    pub fn validate(&self) -> (r: Result<(), &'static str>)
        ensures
            r == change_password_check(self.current_password@, self.new_password@),
    {
        if byte_length(self.current_password.as_str()) > MAX_PASSWORD_LENGTH {
            return Err("Current password too long");
        }
        let n = byte_length(self.new_password.as_str());
        if n < MIN_PASSWORD_LENGTH {
            return Err("New password must be at least 12 characters");
        }
        if n > MAX_PASSWORD_LENGTH {
            return Err("New password must not exceed 128 characters");
        }
        let v = chars_of(self.new_password.as_str());
        if !any_uppercase(&v) || !any_lowercase(&v) || !any_ascii_digit(&v) || !any_special(&v) {
            return Err(
                "New password must contain uppercase, lowercase, digit, and special character",
            );
        }
        Ok(())
    }
}

/// The form confirming the deletion of one's own account.
pub struct DeleteAccountForm {
    pub password: String,
}

// ---------------------------------------------------------------------------
// Content
// ---------------------------------------------------------------------------

/// A search box query string.
pub struct SearchQuery {
    pub q: Option<String>,
}

/// The query string of the theme gallery.
pub struct ThemesQuery {
    pub q: Option<String>,
    pub category: Option<String>,
    pub site_id: Option<u128>,
}

/// The form creating a page or post.
pub struct AdminCreateForm {
    pub title: String,
    pub slug: String,
    pub content: String,
    pub template: Option<String>,
}

/// The outcome of checking a content creation form.
pub open spec fn admin_create_check(title: Seq<char>, slug: Seq<char>, content: Seq<char>) -> Result<
    (),
    &'static str,
> {
    if trim_spec(title).len() == 0 {
        Err("Title is required")
    } else if byte_len(title) > MAX_TITLE_LENGTH {
        Err("Title must not exceed 500 characters")
    } else if trim_spec(slug).len() == 0 {
        Err("Slug is required")
    } else if !slug_valid(trim_spec(slug), MAX_CONTENT_SLUG_LENGTH as nat) {
        Err(
            "Slug must be lowercase alphanumeric with hyphens/underscores only and not exceed 200 characters",
        )
    } else if byte_len(content) > MAX_CONTENT_LENGTH {
        Err("Content must not exceed 10MB")
    } else {
        Ok(())
    }
}

impl AdminCreateForm {
    /// Checks the title, the slug format and the content size.
    pub fn validate(&self) -> (r: Result<(), &'static str>)
        ensures
            r == admin_create_check(self.title@, self.slug@, self.content@),
    {
        if trim(self.title.as_str()).is_empty() {
            return Err("Title is required");
        }
        if byte_length(self.title.as_str()) > MAX_TITLE_LENGTH {
            return Err("Title must not exceed 500 characters");
        }
        let slug = trim(self.slug.as_str());
        if slug.is_empty() {
            return Err("Slug is required");
        }
        if !validate_slug_with_max(slug, MAX_CONTENT_SLUG_LENGTH) {
            return Err(
                "Slug must be lowercase alphanumeric with hyphens/underscores only and not exceed 200 characters",
            );
        }
        if byte_length(self.content.as_str()) > MAX_CONTENT_LENGTH {
            return Err("Content must not exceed 10MB");
        }
        Ok(())
    }
}

/// The form editing a page or post: absent fields are left unchanged.
pub struct AdminUpdateForm {
    pub title: Option<String>,
    pub slug: Option<String>,
    pub content: Option<String>,
    pub template: Option<String>,
    pub status: Option<String>,
}

/// The live editor form (autosave and preview).
pub struct AdminLiveForm {
    pub title: Option<String>,
    pub slug: Option<String>,
    pub content: Option<String>,
    pub template: Option<String>,
}

/// The preview form of a content item not saved yet.
pub struct AdminNewPreviewForm {
    pub kind: String,
    pub title: Option<String>,
    pub slug: Option<String>,
    pub content: Option<String>,
    pub template: Option<String>,
}

// ---------------------------------------------------------------------------
// Templates
// ---------------------------------------------------------------------------

/// The form creating a template.
pub struct AdminTemplateCreateForm {
    pub name: String,
    pub description: Option<String>,
    pub html: String,
}

/// The outcome of checking a template creation form.
pub open spec fn template_create_check(name: Seq<char>, html: Seq<char>) -> Result<(), &'static str> {
    if trim_spec(name).len() == 0 {
        Err("Template name is required")
    } else if byte_len(name) > MAX_TEMPLATE_NAME_LENGTH {
        Err("Template name must not exceed 200 characters")
    } else if byte_len(html) > MAX_TEMPLATE_LENGTH {
        Err("Template HTML must not exceed 1MB")
    } else {
        Ok(())
    }
}

impl AdminTemplateCreateForm {
    /// Checks the name and the size of the HTML.
    pub fn validate(&self) -> (r: Result<(), &'static str>)
        ensures
            r == template_create_check(self.name@, self.html@),
    {
        if trim(self.name.as_str()).is_empty() {
            return Err("Template name is required");
        }
        if byte_length(self.name.as_str()) > MAX_TEMPLATE_NAME_LENGTH {
            return Err("Template name must not exceed 200 characters");
        }
        if byte_length(self.html.as_str()) > MAX_TEMPLATE_LENGTH {
            return Err("Template HTML must not exceed 1MB");
        }
        Ok(())
    }
}

/// The form editing a template: absent fields are left unchanged.
pub struct AdminTemplateUpdateForm {
    pub name: Option<String>,
    pub description: Option<String>,
    pub html: Option<String>,
}

/// The form previewing template HTML, optionally with an existing item.
pub struct AdminTemplatePreviewForm {
    pub html: String,
    pub preview_content_id: Option<String>,
}

// ---------------------------------------------------------------------------
// Users
// ---------------------------------------------------------------------------

/// The administrator's form creating a user.
pub struct AdminCreateUserForm {
    pub email: String,
    pub password: String,
    pub role: RoleName,
}

impl AdminCreateUserForm {
    /// Checks the address shape and the password length and complexity
    /// (uppercase, lowercase, ASCII digit and special character).
    pub fn validate(&self) -> (r: Result<(), &'static str>)
        ensures
            r == account_check(self.email@, self.password@, has_ascii_digit(self.password@)),
    {
        let v = chars_of(self.password.as_str());
        let digit = any_ascii_digit(&v);
        check_account(self.email.as_str(), self.password.as_str(), digit)
    }
}

/// The administrator's form editing a user.
pub struct AdminUpdateUserForm {
    pub email: String,
    pub role: RoleName,
    pub new_password: Option<String>,
}

/// The form inviting a collaborator or changing a collaborator's role.
pub struct CollaboratorForm {
    pub email: Option<String>,
    pub role: RoleName,
}

impl CollaboratorForm {
    /// The trimmed address of the person invited, which is required.
    pub fn invited_email(&self) -> (r: Result<String, &'static str>)
        ensures
            match self.email {
                Some(e) => trim_spec(e@).len() > 0,
                None => false,
            } ==> (r matches Ok(t) && t@ == trim_spec(self.email->0@)),
            !match self.email {
                Some(e) => trim_spec(e@).len() > 0,
                None => false,
            } ==> r == Err::<String, &'static str>("Email required"),
    {
        match &self.email {
            Some(e) => {
                let t = trim(e.as_str());
                if t.unicode_len() > 0 {
                    Ok(String::from_str(t))
                } else {
                    Err("Email required")
                }
            },
            None => Err("Email required"),
        }
    }
}

// ---------------------------------------------------------------------------
// Sites and configuration
// ---------------------------------------------------------------------------

/// The query string of the site list.
pub struct SitesQuery {
    pub q: Option<String>,
}

/// The form creating a site.
pub struct SiteCreateForm {
    pub name: String,
    pub slug: String,
    pub default_template: Option<String>,
}

impl SiteCreateForm {
    /// Checks that name and slug are given.
    pub fn validate(&self) -> (r: Result<(), &'static str>)
        ensures
            r == (if trim_spec(self.name@).len() == 0 || trim_spec(self.slug@).len() == 0 {
                Err::<(), &'static str>("Name and slug are required")
            } else {
                Ok(())
            }),
    {
        if trim(self.name.as_str()).is_empty() || trim(self.slug.as_str()).is_empty() {
            return Err("Name and slug are required");
        }
        Ok(())
    }
}

/// The form editing a site: blank fields are left unchanged.
pub struct SiteUpdateForm {
    pub name: Option<String>,
    pub slug: Option<String>,
    pub default_template: Option<String>,
    pub homepage_type: Option<String>,
    pub homepage_page_id: Option<String>,
}

/// The form choosing a site's theme.
pub struct ApplyThemeForm {
    pub template: String,
}

/// The site configuration form.
pub struct ConfigurationForm {
    pub homepage_type: Option<String>,
    pub homepage_page_id: Option<String>,
}

/// The query string of the revision list.
pub struct RevisionsQuery {
    pub limit: Option<i64>,
}

} // verus!
