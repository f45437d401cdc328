//! Changes to accounts: what a signed-in user may change about their own
//! account (password, e-mail address, deletion), and the accounts an
//! administrator creates and edits.

use vstd::prelude::*;
use vstd::string::StringExecFns;

use crate::forms::{change_password_check, AdminCreateUserForm, AdminUpdateUserForm, ChangePasswordForm};
use crate::requests::{admin_new_password, admin_new_user_check, admin_new_user_spec};
use crate::password::{argon2_rejects, argon2_verifies, fresh_hash_of, PasswordManager};
use crate::security::{
    generic_error_message, password_strong, requirements_met, PasswordValidator, PASSWORD_MIN_LENGTH,
};
use crate::text::{byte_len, trim, trim_spec};

verus! {

/// The message of the generic error for a context.
pub open spec fn generic_error_text(context: Seq<char>) -> Seq<char> {
    "An error occurred while processing your "@ + context + ". Please try again."@
}

/// Checks the current password against the stored hash and hashes the new
/// one. On success the new hash is returned; the errors are the messages shown.
pub fn replace_password(current: &str, stored_hash: &str, new_password: &str) -> (r: Result<
    String,
    String,
>)
    ensures
        r matches Ok(h) ==> argon2_verifies(current@, stored_hash@) && fresh_hash_of(
            new_password@,
            h@,
        ),
        argon2_rejects(current@, stored_hash@) ==> (r matches Err(m) && m@
            == "Current password is incorrect"@),
        !argon2_verifies(current@, stored_hash@) && !argon2_rejects(current@, stored_hash@) ==> (r matches Err(
            m,
        ) && m@ == generic_error_text("password verification"@)),
        argon2_verifies(current@, stored_hash@) && r is Err ==> (r matches Err(m) && m@
            == generic_error_text("password hashing"@)),
        argon2_verifies(current@, stored_hash@) && byte_len(new_password@) <= 0xFFFF_FFFF ==> r is Ok,
{
    let ok = match PasswordManager::verify_password(current, stored_hash) {
        Ok(v) => v,
        Err(_) => {
            return Err(generic_error_message("password verification"));
        },
    };
    if !ok {
        return Err(String::from_str("Current password is incorrect"));
    }
    match PasswordManager::hash_password(new_password) {
        Ok(h) => Ok(h),
        Err(_) => Err(generic_error_message("password hashing")),
    }
}

/// A password change from the account page: the form's length and
/// complexity rules first, then the current password.
pub fn account_password_change(form: &ChangePasswordForm, stored_hash: &str) -> (r: Result<
    String,
    String,
>)
    ensures
        change_password_check(form.current_password@, form.new_password@) matches Err(m) ==> (r matches Err(
            e,
        ) && e@ == m@),
        r matches Ok(h) ==> change_password_check(form.current_password@, form.new_password@) is Ok
            && argon2_verifies(form.current_password@, stored_hash@) && fresh_hash_of(
            form.new_password@,
            h@,
        ),
        change_password_check(form.current_password@, form.new_password@) is Ok && argon2_rejects(
            form.current_password@,
            stored_hash@,
        ) ==> (r matches Err(m) && m@ == "Current password is incorrect"@),
        change_password_check(form.current_password@, form.new_password@) is Ok && !argon2_verifies(
            form.current_password@,
            stored_hash@,
        ) && !argon2_rejects(form.current_password@, stored_hash@) ==> (r matches Err(m) && m@
            == generic_error_text("password verification"@)),
        change_password_check(form.current_password@, form.new_password@) is Ok && argon2_verifies(
            form.current_password@,
            stored_hash@,
        ) && r is Err ==> (r matches Err(m) && m@ == generic_error_text("password hashing"@)),
        change_password_check(form.current_password@, form.new_password@) is Ok && argon2_verifies(
            form.current_password@,
            stored_hash@,
        ) && byte_len(form.new_password@) <= 0xFFFF_FFFF ==> r is Ok,
{
    match form.validate() {
        Err(m) => Err(String::from_str(m)),
        Ok(()) => replace_password(
            form.current_password.as_str(),
            stored_hash,
            form.new_password.as_str(),
        ),
    }
}

/// A password change from the security page: the strength rules of
/// `PasswordValidator` first, then the current password.
pub fn security_password_change(form: &ChangePasswordForm, stored_hash: &str) -> (r: Result<
    String,
    String,
>)
    ensures
        byte_len(form.new_password@) < PASSWORD_MIN_LENGTH ==> (r matches Err(m) && m@
            == "Password must be at least 12 characters"@),
        byte_len(form.new_password@) >= PASSWORD_MIN_LENGTH && requirements_met(form.new_password@)
            < 3 ==> (r matches Err(m) && m@
            == "Password must contain at least 3 of: uppercase, lowercase, digit, special character"@),
        r matches Ok(h) ==> password_strong(form.new_password@) && argon2_verifies(
            form.current_password@,
            stored_hash@,
        ) && fresh_hash_of(form.new_password@, h@),
        password_strong(form.new_password@) && argon2_rejects(form.current_password@, stored_hash@)
            ==> (r matches Err(m) && m@ == "Current password is incorrect"@),
        password_strong(form.new_password@) && !argon2_verifies(
            form.current_password@,
            stored_hash@,
        ) && !argon2_rejects(form.current_password@, stored_hash@) ==> (r matches Err(m) && m@
            == generic_error_text("password verification"@)),
        password_strong(form.new_password@) && argon2_verifies(form.current_password@, stored_hash@)
            && r is Err ==> (r matches Err(m) && m@ == generic_error_text("password hashing"@)),
        password_strong(form.new_password@) && argon2_verifies(form.current_password@, stored_hash@)
            && byte_len(form.new_password@) <= 0xFFFF_FFFF ==> r is Ok,
{
    match PasswordValidator::validate(form.new_password.as_str()) {
        Err(m) => Err(m),
        Ok(()) => replace_password(
            form.current_password.as_str(),
            stored_hash,
            form.new_password.as_str(),
        ),
    }
}

/// Checks the password that confirms an account's deletion: `None` when it
/// matches, otherwise the message shown.
pub fn deletion_password_check(password: &str, stored_hash: &str) -> (r: Option<String>)
    ensures
        r is None <==> argon2_verifies(password@, stored_hash@),
        argon2_rejects(password@, stored_hash@) ==> (r matches Some(m) && m@
            == "Password is incorrect"@),
        !argon2_verifies(password@, stored_hash@) && !argon2_rejects(password@, stored_hash@) ==> (r matches Some(
            m,
        ) && exists|d: Seq<char>| m@ == "Password verification error: "@ + d),
{
    match PasswordManager::verify_password(password, stored_hash) {
        Ok(true) => None,
        Ok(false) => Some(String::from_str("Password is incorrect")),
        Err(e) => {
            let mut m = String::from_str("Password verification error: ");
            m.append(e.message.as_str());
            Some(m)
        },
    }
}

/// The message shown when changing the e-mail address failed: the address
/// is taken, or something else went wrong.
pub fn email_update_error(unique_violation: bool) -> (r: String)
    ensures
        unique_violation ==> r@ == "A user with this email already exists"@,
        !unique_violation ==> r@ == generic_error_text("email update"@),
{
    if unique_violation {
        String::from_str("A user with this email already exists")
    } else {
        generic_error_message("email update")
    }
}

/// The message shown when hashing a password failed.
pub open spec fn hashing_error_text(detail: Seq<char>) -> Seq<char> {
    "Password hashing error: "@ + detail
}

fn hashing_error(detail: &str) -> (r: String)
    ensures
        r@ == hashing_error_text(detail@),
{
    let mut m = String::from_str("Password hashing error: ");
    m.append(detail);
    m
}

/// The account an administrator creates: the trimmed address and a hash of
/// the password, after the address and a password of at least 4 bytes are
/// checked.
pub fn admin_new_user(form: &AdminCreateUserForm) -> (r: Result<(String, String), String>)
    ensures
        admin_new_user_spec(form.email@, form.password@) matches Err(m) ==> (r matches Err(e) && e@
            == m@),
        r matches Ok((email, hash)) ==> admin_new_user_spec(form.email@, form.password@) is Ok
            && email@ == trim_spec(form.email@) && fresh_hash_of(form.password@, hash@),
        admin_new_user_spec(form.email@, form.password@) is Ok && r is Err ==> (r matches Err(e)
            && exists|d: Seq<char>| e@ == hashing_error_text(d)),
        admin_new_user_spec(form.email@, form.password@) is Ok && byte_len(form.password@)
            <= 0xFFFF_FFFF ==> r is Ok,
{
    match admin_new_user_check(form.email.as_str(), form.password.as_str()) {
        Err(m) => Err(String::from_str(m)),
        Ok(()) => match PasswordManager::hash_password(form.password.as_str()) {
            Ok(h) => Ok((String::from_str(trim(form.email.as_str())), h)),
            Err(e) => Err(hashing_error(e.message.as_str())),
        },
    }
}

/// The address an administrator's edit stores: trimmed, and required.
pub fn admin_edited_email(form: &AdminUpdateUserForm) -> (r: Result<String, &'static str>)
    ensures
        trim_spec(form.email@).len() == 0 ==> r == Err::<String, &'static str>("Email is required"),
        trim_spec(form.email@).len() > 0 ==> (r matches Ok(e) && e@ == trim_spec(form.email@)),
{
    let e = trim(form.email.as_str());
    if e.unicode_len() == 0 {
        Err("Email is required")
    } else {
        Ok(String::from_str(e))
    }
}

/// The new password hash of an administrator's edit: none when no password
/// was entered, a hash of the trimmed password when it has at least 4 bytes.
pub fn admin_new_password_hash(form: &AdminUpdateUserForm) -> (r: Result<Option<String>, String>)
    ensures
        form.new_password is None ==> r matches Ok(None),
        form.new_password matches Some(p) ==> (trim_spec(p@).len() == 0 ==> r matches Ok(None)),
        form.new_password matches Some(p) ==> (trim_spec(p@).len() > 0 && byte_len(trim_spec(p@))
            < 4 ==> (r matches Err(e) && e@ == "Password must be at least 4 characters"@)),
        form.new_password matches Some(p) ==> (r matches Ok(Some(h)) ==> fresh_hash_of(
            trim_spec(p@),
            h@,
        )),
        form.new_password matches Some(p) ==> (byte_len(trim_spec(p@)) >= 4 && r is Err ==> (r matches Err(
            e,
        ) && exists|d: Seq<char>| e@ == hashing_error_text(d))),
        form.new_password matches Some(p) ==> (byte_len(trim_spec(p@)) >= 4 ==> !(r matches Ok(None))),
        form.new_password matches Some(p) ==> (4 <= byte_len(trim_spec(p@)) <= 0xFFFF_FFFF ==> r matches Ok(
            Some(_),
        )),
{
    let field = match &form.new_password {
        Some(p) => Some(p.as_str()),
        None => None,
    };
    match admin_new_password(field) {
        Err(m) => Err(String::from_str(m)),
        Ok(None) => Ok(None),
        Ok(Some(p)) => match PasswordManager::hash_password(p.as_str()) {
            Ok(h) => Ok(Some(h)),
            Err(e) => Err(hashing_error(e.message.as_str())),
        },
    }
}

} // verus!
