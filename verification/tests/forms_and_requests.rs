use rustpress::forms::{
    AdminCreateForm, AdminCreateUserForm, AdminTemplateCreateForm, ChangePasswordForm, CollaboratorForm,
    LoginForm, RegisterForm, SiteCreateForm,
};
use rustpress::models::{ContentKind, ContentStatus, HomepageType, RoleName};
use rustpress::requests::{
    admin_new_password, admin_new_user_check, api_content_check, api_id, api_login_check,
    api_register_check, api_template_check, duplicate_template_name, homepage_fields, kind_from_api,
    kind_from_path, login_error_message, login_page_error_message, non_blank, non_blank_or,
    parse_status_field, preview_kind, register_error_message, register_page_error_message, trimmed,
    user_deletion_error_message, username_from_email,
};

const STRONG: &str = "Abcdefghij1!";

#[test]
fn login_form_errors() {
    let f = |e: &str, p: &str| LoginForm { email: e.to_string(), password: p.to_string() }.validate();
    assert_eq!(f("a@b.c", "x"), Ok(()));
    assert_eq!(f("   ", "x"), Err("Email is required"));
    assert_eq!(f(&"a".repeat(256), "x"), Err("Email too long"));
    assert_eq!(f("a@b.c", ""), Err("Password is required"));
    assert_eq!(f("a@b.c", &"p".repeat(129)), Err("Password too long"));
}

#[test]
fn register_form_errors() {
    let f = |e: &str, p: &str| RegisterForm { email: e.to_string(), password: p.to_string() }.validate();
    assert_eq!(f("user@example.com", STRONG), Ok(()));
    assert_eq!(f(" ", STRONG), Err("Email is required"));
    assert_eq!(f(&format!("{}@x.com", "a".repeat(260)), STRONG), Err("Email must not exceed 255 characters"));
    assert_eq!(f("user.example.com", STRONG), Err("Invalid email format"));
    assert_eq!(f("user@example", STRONG), Err("Invalid email format"));
    assert_eq!(f("user@example.com", "Ab1!"), Err("Password must be at least 12 characters"));
    assert_eq!(
        f("user@example.com", &format!("Ab1!{}", "x".repeat(130))),
        Err("Password must not exceed 128 characters")
    );
    assert_eq!(
        f("user@example.com", "abcdefghij1!"),
        Err("Password must contain uppercase, lowercase, digit, and special character")
    );
}

#[test]
fn register_form_counts_unicode_digits() {
    // '٣' (Arabic-Indic three) is numeric for the registration form
    let form = RegisterForm { email: "a@b.co".to_string(), password: "Abcdefghijk٣!".to_string() };
    assert_eq!(form.validate(), Ok(()));
    let admin = AdminCreateUserForm {
        email: "a@b.co".to_string(),
        password: "Abcdefghijk٣!".to_string(),
        role: RoleName::Editor,
    };
    assert_eq!(
        admin.validate(),
        Err("Password must contain uppercase, lowercase, digit, and special character")
    );
}

#[test]
fn change_password_form_errors() {
    let f = |c: &str, n: &str| {
        ChangePasswordForm { current_password: c.to_string(), new_password: n.to_string() }.validate()
    };
    assert_eq!(f("old", STRONG), Ok(()));
    assert_eq!(f(&"c".repeat(129), STRONG), Err("Current password too long"));
    assert_eq!(f("old", "Ab1!"), Err("New password must be at least 12 characters"));
    assert_eq!(f("old", &format!("Ab1!{}", "x".repeat(130))), Err("New password must not exceed 128 characters"));
    assert_eq!(
        f("old", "ABCDEFGHIJ1!"),
        Err("New password must contain uppercase, lowercase, digit, and special character")
    );
}

#[test]
fn admin_create_form_errors() {
    let f = |t: &str, s: &str, c: &str| {
        AdminCreateForm { title: t.to_string(), slug: s.to_string(), content: c.to_string(), template: None }
            .validate()
    };
    assert_eq!(f("Hello", "hello-world", "<p>x</p>"), Ok(()));
    assert_eq!(f("  ", "hello", ""), Err("Title is required"));
    assert_eq!(f(&"t".repeat(501), "hello", ""), Err("Title must not exceed 500 characters"));
    assert_eq!(f("T", " ", ""), Err("Slug is required"));
    let bad_slug =
        Err("Slug must be lowercase alphanumeric with hyphens/underscores only and not exceed 200 characters");
    assert_eq!(f("T", "Hello World", ""), bad_slug);
    assert_eq!(f("T", &"a".repeat(201), ""), bad_slug);
    assert_eq!(f("T", " trimmed-slug ", ""), Ok(()));
    assert_eq!(f("T", "s", &"c".repeat(10 * 1024 * 1024 + 1)), Err("Content must not exceed 10MB"));
}

#[test]
fn template_create_form_errors() {
    let f = |n: &str, h: &str| {
        AdminTemplateCreateForm { name: n.to_string(), description: None, html: h.to_string() }.validate()
    };
    assert_eq!(f("Blog", "<html></html>"), Ok(()));
    assert_eq!(f(" ", "<html></html>"), Err("Template name is required"));
    assert_eq!(f(&"n".repeat(201), ""), Err("Template name must not exceed 200 characters"));
    assert_eq!(f("Blog", &"h".repeat(1024 * 1024 + 1)), Err("Template HTML must not exceed 1MB"));
}

#[test]
fn site_create_form_and_collaborator_form() {
    let ok = SiteCreateForm { name: "Site".to_string(), slug: "site".to_string(), default_template: None };
    assert_eq!(ok.validate(), Ok(()));
    let bad = SiteCreateForm { name: "Site".to_string(), slug: "  ".to_string(), default_template: None };
    assert_eq!(bad.validate(), Err("Name and slug are required"));
    let c = CollaboratorForm { email: Some("  x@y.z ".to_string()), role: RoleName::Viewer };
    assert_eq!(c.invited_email(), Ok("x@y.z".to_string()));
    let none = CollaboratorForm { email: None, role: RoleName::Viewer };
    assert_eq!(none.invited_email(), Err("Email required"));
    let blank = CollaboratorForm { email: Some("   ".to_string()), role: RoleName::Viewer };
    assert_eq!(blank.invited_email(), Err("Email required"));
}

#[test]
fn kinds_from_paths_and_api() {
    assert_eq!(kind_from_path("posts"), Some(ContentKind::Post));
    assert_eq!(kind_from_path("pages"), Some(ContentKind::Page));
    assert_eq!(kind_from_path("post"), None);
    assert_eq!(kind_from_api(" pages "), Ok(ContentKind::Page));
    assert_eq!(kind_from_api("post"), Ok(ContentKind::Post));
    assert_eq!(kind_from_api("articles"), Err("Invalid kind"));
    assert_eq!(preview_kind(" posts "), "post");
    assert_eq!(preview_kind("pages"), "page");
    assert_eq!(preview_kind(" other "), "other");
}

#[test]
fn status_field_values() {
    assert_eq!(parse_status_field(None), Ok(None));
    assert_eq!(parse_status_field(Some(" draft ")), Ok(Some(ContentStatus::Draft)));
    assert_eq!(parse_status_field(Some("published")), Ok(Some(ContentStatus::Published)));
    assert_eq!(parse_status_field(Some("  ")), Ok(None));
    assert_eq!(parse_status_field(Some("Published")), Err("Invalid status"));
}

#[test]
fn optional_fields() {
    assert_eq!(trimmed(Some("  a ")), Some("a".to_string()));
    assert_eq!(trimmed(Some("  ")), Some(String::new()));
    assert_eq!(trimmed(None), None);
    assert_eq!(non_blank(Some("  ")), None);
    assert_eq!(non_blank(Some(" b ")), Some("b".to_string()));
    assert_eq!(non_blank_or(Some(" "), "default"), "default");
    assert_eq!(non_blank_or(None, "default"), "default");
    assert_eq!(non_blank_or(Some(" blog "), "default"), "blog");
}

#[test]
fn homepage_settings_from_forms() {
    let id = "123e4567-e89b-12d3-a456-426614174000";
    let value = 0x123e4567_e89b_12d3_a456_426614174000u128;
    assert_eq!(homepage_fields(Some(" Posts "), Some(id)), (Some(HomepageType::Posts), Some(None)));
    assert_eq!(homepage_fields(Some("page"), Some(id)), (Some(HomepageType::Page), Some(Some(value))));
    assert_eq!(homepage_fields(Some("page"), Some("not-a-uuid")), (Some(HomepageType::Page), None));
    assert_eq!(homepage_fields(Some("page"), None), (Some(HomepageType::Page), None));
    assert_eq!(homepage_fields(Some("gallery"), Some(id)), (None, None));
    assert_eq!(homepage_fields(None, None), (None, None));
}

#[test]
fn api_checks() {
    assert_eq!(api_login_check("a@b.c", "pw"), Ok(()));
    assert_eq!(api_login_check("  ", "pw"), Err("Invalid credentials"));
    assert_eq!(api_login_check("a@b.c", ""), Err("Invalid credentials"));
    assert_eq!(api_register_check("a@b.c", "secret"), Ok(()));
    assert_eq!(api_register_check("abc", "secret"), Err("Please enter a valid email"));
    assert_eq!(api_register_check("a@b.c", "short"), Err("Password must be at least 6 characters"));
    assert_eq!(api_content_check("T", "s"), Ok(()));
    assert_eq!(api_content_check(" ", "s"), Err("Title is required"));
    assert_eq!(api_content_check("T", " "), Err("Slug is required"));
    assert_eq!(api_template_check("N", "<p>"), Ok(()));
    assert_eq!(api_template_check("", "<p>"), Err("Name is required"));
    assert_eq!(api_template_check("N", "  "), Err("HTML is required"));
    assert_eq!(api_id(" 00000000-0000-0000-0000-00000000000a "), Ok(10));
    assert_eq!(api_id("x"), Err("Invalid id"));
}

#[test]
fn admin_user_checks() {
    assert_eq!(admin_new_user_check("a@b.c", "1234"), Ok(()));
    assert_eq!(
        admin_new_user_check("a@b.c", "123"),
        Err("Email and password (min 4 characters) are required")
    );
    assert_eq!(admin_new_user_check(" ", "1234"), Err("Email and password (min 4 characters) are required"));
    assert_eq!(admin_new_password(None), Ok(None));
    assert_eq!(admin_new_password(Some("   ")), Ok(None));
    assert_eq!(admin_new_password(Some(" abc ")), Err("Password must be at least 4 characters"));
    assert_eq!(admin_new_password(Some(" abcd ")), Ok(Some("abcd".to_string())));
}

#[test]
fn user_deletion_messages() {
    assert_eq!(
        user_deletion_error_message("error: Cannot delete the last admin (P0001)"),
        "Cannot delete the last admin"
    );
    assert_eq!(user_deletion_error_message("timeout"), "Delete failed: timeout");
}

#[test]
fn usernames_and_copies() {
    assert_eq!(username_from_email("jane.doe@example.com"), "jane.doe");
    assert_eq!(username_from_email("no-at-sign"), "no-at-sign");
    assert_eq!(username_from_email("@x"), "");
    assert_eq!(duplicate_template_name("Blog", "0123456789abcdef"), "Blog-copy-01234567");
}

#[test]
fn auth_page_messages() {
    assert_eq!(login_error_message("missing"), "Email and password are required");
    assert_eq!(login_error_message("invalid"), "Invalid email or password");
    assert_eq!(login_error_message("db"), "Database error. Please try again.");
    assert_eq!(login_error_message("internal"), "An internal error occurred. Please try again.");
    assert_eq!(login_error_message("custom text"), "custom text");
    assert_eq!(register_error_message("missing"), "Email and password (min 4 characters) are required");
    assert_eq!(register_error_message("exists"), "An account with this email already exists");
    assert_eq!(register_error_message("rate_limit"), "Too many registration attempts. Please try again later.");
    assert_eq!(login_page_error_message(""), "");
    assert_eq!(login_page_error_message("invalid"), "Invalid credentials");
    assert_eq!(register_page_error_message("missing"), "Email required and password must be at least 4 characters");
    assert_eq!(register_page_error_message("exists"), "Email already exists");
}
