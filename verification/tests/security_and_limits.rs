use rustpress::authentication::{
    client_key, login_admission, register_admission, LoginOutcome, RegisterFailure, LOGIN_WINDOW_NANOS,
};
use rustpress::forms::RegisterForm;
use rustpress::rate_limit::RateLimiter;
use rustpress::security::{
    generic_error_message, validate_email, validate_slug, validate_slug_with_max, CsrfToken,
    PasswordValidator,
};

#[test]
fn password_validator_accepts_strong_passwords() {
    assert!(PasswordValidator::validate("Abcdefghij1!").is_ok());
    // three of four classes suffice
    assert!(PasswordValidator::validate("abcdefghij1!").is_ok());
    assert!(PasswordValidator::validate("ABCDEFGHIJKl1").is_ok());
}

#[test]
fn password_validator_rejects_short_passwords() {
    assert_eq!(
        PasswordValidator::validate("Ab1!"),
        Err("Password must be at least 12 characters".to_string())
    );
    assert_eq!(
        PasswordValidator::validate(""),
        Err("Password must be at least 12 characters".to_string())
    );
}

#[test]
fn password_validator_rejects_weak_long_passwords() {
    assert_eq!(
        PasswordValidator::validate("abcdefghijklmnop"),
        Err("Password must contain at least 3 of: uppercase, lowercase, digit, special character".to_string())
    );
    assert_eq!(
        PasswordValidator::validate("abcdefghijk12345"),
        Err("Password must contain at least 3 of: uppercase, lowercase, digit, special character".to_string())
    );
}

#[test]
fn email_validation_cases() {
    assert!(validate_email("user@example.com"));
    assert!(validate_email("  user@example.com  "));
    assert!(!validate_email(""));
    assert!(!validate_email("userexample.com"));
    assert!(!validate_email("a@b@example.com"));
    assert!(!validate_email("@example.com"));
    assert!(!validate_email("user@"));
    assert!(!validate_email("user@localhost"));
    let long_local = format!("{}@example.com", "a".repeat(65));
    assert!(!validate_email(&long_local));
    let ok_local = format!("{}@example.com", "a".repeat(64));
    assert!(validate_email(&ok_local));
    let too_long = format!("a@{}.com", "b".repeat(250));
    assert!(!validate_email(&too_long));
}

#[test]
fn slug_validation_cases() {
    assert!(validate_slug("hello-world_2"));
    assert!(!validate_slug(""));
    assert!(!validate_slug("Hello"));
    assert!(!validate_slug("hello world"));
    assert!(!validate_slug("héllo"));
    assert!(validate_slug(&"a".repeat(255)));
    assert!(!validate_slug(&"a".repeat(256)));
    assert!(validate_slug_with_max("abc", 3));
    assert!(!validate_slug_with_max("abcd", 3));
}

#[test]
fn generic_error_message_names_the_context() {
    assert_eq!(
        generic_error_message("login"),
        "An error occurred while processing your login. Please try again."
    );
}

#[test]
fn csrf_generated_token_is_a_uuid_and_validates() {
    let token = CsrfToken::generate();
    assert_eq!(token.len(), 36);
    assert_eq!(token.matches('-').count(), 4);
    assert!(CsrfToken::validate(Some(&token), &token));
    assert!(!CsrfToken::validate(Some(&token), "other"));
    assert!(!CsrfToken::validate(None, &token));
    assert!(!CsrfToken::validate(Some(""), ""));
}

#[test]
fn rate_limiter_allows_exactly_max_at_one_instant() {
    let mut rl = RateLimiter::new();
    let now = 1_000_000_000_000u128;
    assert!(rl.check_rate_limit_at("k", 3, 10, now));
    assert!(rl.check_rate_limit_at("k", 3, 10, now));
    assert!(rl.check_rate_limit_at("k", 3, 10, now));
    assert!(!rl.check_rate_limit_at("k", 3, 10, now));
    // refusal is stable
    assert!(!rl.check_rate_limit_at("k", 3, 10, now));
}

#[test]
fn rate_limiter_window_slides() {
    let mut rl = RateLimiter::new();
    assert!(rl.check_rate_limit_at("k", 2, 100, 1000));
    assert!(rl.check_rate_limit_at("k", 2, 100, 1050));
    assert!(!rl.check_rate_limit_at("k", 2, 100, 1099));
    // the first request has left the window at 1100
    assert!(rl.check_rate_limit_at("k", 2, 100, 1100));
    assert!(!rl.check_rate_limit_at("k", 2, 100, 1120));
    // everything expired
    assert!(rl.check_rate_limit_at("k", 2, 100, 5000));
}

#[test]
fn rate_limiter_keys_are_independent() {
    let mut rl = RateLimiter::new();
    assert!(rl.check_rate_limit_at("a", 1, 100, 10));
    assert!(!rl.check_rate_limit_at("a", 1, 100, 20));
    assert!(rl.check_rate_limit_at("b", 1, 100, 20));
    assert!(!rl.check_rate_limit_at("a", 1, 100, 30));
}

#[test]
fn rate_limiter_with_zero_limit_refuses() {
    let mut rl = RateLimiter::default();
    assert!(!rl.check_rate_limit_at("k", 0, 100, 10));
}

#[test]
fn rate_limiter_uses_the_clock() {
    let mut rl = RateLimiter::new();
    assert!(rl.check_rate_limit("k", 2, 60_000_000_000));
    assert!(rl.check_rate_limit("k", 2, 60_000_000_000));
    assert!(!rl.check_rate_limit("k", 2, 60_000_000_000));
}

#[test]
fn client_keys_name_the_address_or_unknown() {
    assert_eq!(client_key("login:", Some("10.0.0.1")), "login:10.0.0.1");
    assert_eq!(client_key("register:", None), "register:unknown");
}

#[test]
fn login_admission_allows_five_attempts_per_client() {
    assert_eq!(LOGIN_WINDOW_NANOS, 300_000_000_000);
    let mut rl = RateLimiter::new();
    for _ in 0..5 {
        assert!(login_admission(&mut rl, Some("1.2.3.4")).is_ok());
    }
    assert_eq!(login_admission(&mut rl, Some("1.2.3.4")), Err(LoginOutcome::RateLimited));
    assert!(login_admission(&mut rl, Some("5.6.7.8")).is_ok());
    assert_eq!(LoginOutcome::RateLimited.location(), "/admin/login?error=rate_limit");
}

#[test]
fn register_admission_checks_the_form_before_the_limit() {
    let mut rl = RateLimiter::new();
    let bad = RegisterForm { email: "nope".to_string(), password: "Abcdefghij1!".to_string() };
    for _ in 0..5 {
        match register_admission(&mut rl, &bad, None) {
            Err(RegisterFailure::Invalid(m)) => assert_eq!(m, "Invalid email format"),
            _ => panic!("expected an invalid form"),
        }
    }
    let good = RegisterForm { email: "a@b.com".to_string(), password: "Abcdefghij1!".to_string() };
    for _ in 0..3 {
        assert!(register_admission(&mut rl, &good, None).is_ok());
    }
    let refused = register_admission(&mut rl, &good, None);
    assert!(matches!(refused, Err(RegisterFailure::RateLimited)));
}

#[test]
fn register_failure_locations() {
    assert_eq!(RegisterFailure::RateLimited.location(), "/admin/register?error=rate_limit");
    assert_eq!(RegisterFailure::Exists.location(), "/admin/register?error=exists");
    assert_eq!(RegisterFailure::Internal.location(), "/admin/register?error=internal");
    assert_eq!(
        RegisterFailure::Invalid("Invalid email format").location(),
        "/admin/register?error=Invalid%20email%20format"
    );
    assert_eq!(
        RegisterFailure::Invalid("a-b_c.d~e/f").location(),
        "/admin/register?error=a-b_c.d~e%2Ff"
    );
}

#[test]
fn at_most_max_allowed_in_any_window() {
    let mut rl = RateLimiter::new();
    let times: [u128; 7] = [0, 1, 2, 9, 10, 11, 12];
    let answers: Vec<bool> = times.iter().map(|&t| rl.check_rate_limit_at("k", 2, 10, t)).collect();
    assert_eq!(answers, vec![true, true, false, false, true, true, false]);
    for start in 0u128..13 {
        let inside = times
            .iter()
            .zip(answers.iter())
            .filter(|(t, ok)| **ok && start <= **t && **t < start + 10)
            .count();
        assert!(inside <= 2);
    }
}
