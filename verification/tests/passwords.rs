use rustpress::account_actions::{
    admin_edited_email, admin_new_password_hash, deletion_password_check, email_update_error,
    replace_password,
};
use rustpress::authentication::{login_outcome, register_credentials, registered_user, LoginOutcome, RegisterFailure, UserLookup};
use rustpress::forms::{AdminUpdateUserForm, RegisterForm};
use rustpress::models::{RoleName, User};
use rustpress::password::PasswordManager;

fn user_with_hash(id: u128, hash: &str) -> User {
    User {
        id,
        email: "jane@example.com".to_string(),
        password_hash: hash.to_string(),
        email_verified_at: None,
        created_at: 0,
        edited_at: 0,
        deleted_at: None,
    }
}

#[test]
fn hash_then_verify_round_trip() {
    let h = PasswordManager::hash_password("Correct Horse 1!").expect("hashing works");
    assert!(h.starts_with("$argon2id$v=19$m=65536,t=3,p=4$"));
    assert_eq!(PasswordManager::verify_password("Correct Horse 1!", &h).ok(), Some(true));
    assert_eq!(PasswordManager::verify_password("wrong", &h).ok(), Some(false));
}

#[test]
fn verify_rejects_malformed_hashes_with_an_error() {
    assert!(PasswordManager::verify_password("x", "not a phc string").is_err());
    assert!(PasswordManager::verify_password("x", "").is_err());
}

#[test]
fn verify_refuses_hashes_recording_too_many_lanes() {
    let huge = "$argon2id$v=19$m=65536,t=3,p=536870912$c29tZXNhbHQxMjM0NTY$aGFzaGhhc2hoYXNoaGFzaA";
    assert!(PasswordManager::verify_password("x", huge).is_err());
    let over = "$argon2id$v=19$m=65536,t=3,p=16777216$c29tZXNhbHQxMjM0NTY$aGFzaGhhc2hoYXNoaGFzaA";
    assert!(PasswordManager::verify_password("x", over).is_err());
}

#[test]
fn registered_password_signs_in() {
    let form = RegisterForm { email: "  jane@example.com ".to_string(), password: "Abcdefghij1!".to_string() };
    let (email, hash) = match register_credentials(&form) {
        Ok(c) => c,
        Err(_) => panic!("hashing failed"),
    };
    assert_eq!(email, "jane@example.com");
    let u = user_with_hash(42, &hash);
    assert_eq!(login_outcome(UserLookup::Found(u), "Abcdefghij1!"), LoginOutcome::SignedIn(42));
}

#[test]
fn wrong_password_is_invalid() {
    let hash = PasswordManager::hash_password("right-one").unwrap();
    let u = user_with_hash(1, &hash);
    let out = login_outcome(UserLookup::Found(u), "wrong-one");
    assert_eq!(out, LoginOutcome::Invalid);
    assert_eq!(out.location(), "/admin/login?error=invalid");
}

#[test]
fn missing_account_is_invalid_and_failed_lookup_internal() {
    assert_eq!(login_outcome(UserLookup::Missing, "whatever"), LoginOutcome::Invalid);
    let out = login_outcome(UserLookup::Failed, "whatever");
    assert_eq!(out, LoginOutcome::Internal);
    assert_eq!(out.location(), "/admin/login?error=internal");
    assert_eq!(LoginOutcome::SignedIn(3).location(), "/admin");
}

#[test]
fn malformed_stored_hash_does_not_sign_in() {
    let u = user_with_hash(1, "garbage");
    assert_eq!(login_outcome(UserLookup::Found(u), "x"), LoginOutcome::Invalid);
}

#[test]
fn registered_user_outcomes() {
    let created: Result<Option<User>, String> = Ok(Some(user_with_hash(9, "h")));
    assert!(matches!(registered_user(created), Ok(u) if u.id == 9));
    let taken: Result<Option<User>, String> = Ok(None);
    assert!(matches!(registered_user(taken), Err(RegisterFailure::Exists)));
    let failed: Result<Option<User>, String> = Err("db down".to_string());
    assert!(matches!(registered_user(failed), Err(RegisterFailure::Internal)));
}

#[test]
fn password_replacement_refuses_a_wrong_current_password() {
    let stored = PasswordManager::hash_password("Old password 1!").unwrap();
    assert_eq!(
        replace_password("not it", &stored, "New password 2@"),
        Err("Current password is incorrect".to_string())
    );
}

#[test]
fn password_replacement_hashes_the_new_password() {
    let stored = PasswordManager::hash_password("Old password 1!").unwrap();
    let new_hash = replace_password("Old password 1!", &stored, "New password 2@").unwrap();
    assert!(new_hash.starts_with("$argon2id$"));
    assert_ne!(new_hash, stored);
}

#[test]
fn password_replacement_with_malformed_hash() {
    assert_eq!(
        replace_password("x", "bad", "New password 2@"),
        Err("An error occurred while processing your password verification. Please try again.".to_string())
    );
}

#[test]
fn deletion_password_messages() {
    let stored = PasswordManager::hash_password("Delete me 1!").unwrap();
    assert_eq!(deletion_password_check("Delete me 1!", &stored), None);
    assert_eq!(deletion_password_check("nope", &stored), Some("Password is incorrect".to_string()));
}

#[test]
fn deletion_password_with_malformed_hash() {
    let m = deletion_password_check("x", "bad").expect("an error message");
    assert!(m.starts_with("Password verification error: "));
}

#[test]
fn email_update_errors() {
    assert_eq!(email_update_error(true), "A user with this email already exists");
    assert_eq!(
        email_update_error(false),
        "An error occurred while processing your email update. Please try again."
    );
}

#[test]
fn administrator_user_edits() {
    let f = |email: &str, pw: Option<&str>| AdminUpdateUserForm {
        email: email.to_string(),
        role: RoleName::Editor,
        new_password: pw.map(|p| p.to_string()),
    };
    assert_eq!(admin_edited_email(&f("  a@b.c ", None)), Ok("a@b.c".to_string()));
    assert_eq!(admin_edited_email(&f("   ", None)), Err("Email is required"));
    assert_eq!(admin_new_password_hash(&f("a@b.c", None)), Ok(None));
    assert_eq!(admin_new_password_hash(&f("a@b.c", Some("  "))), Ok(None));
    assert_eq!(
        admin_new_password_hash(&f("a@b.c", Some(" abc "))),
        Err("Password must be at least 4 characters".to_string())
    );
    let h = admin_new_password_hash(&f("a@b.c", Some(" abcd "))).unwrap().unwrap();
    assert_eq!(PasswordManager::verify_password("abcd", &h).ok(), Some(true));
}
