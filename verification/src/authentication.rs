//! The steps of signing in and registering on the admin pages: admission
//! under the rate limits, the password check, and where each outcome leads.

use vstd::prelude::*;
use vstd::string::StringExecFns;
use vstd::utf8::encode_utf8;

use crate::forms::{account_check, has_numeric, RegisterForm};
use crate::accounts::UserError;
use crate::ids::uuid_text;
use crate::models::{SiteCreate, User};
use crate::requests::username_spec;
use crate::types::{describes, login_response, LoginResponse};
use crate::password::{argon2_verifies, fresh_hash_of, PasswordManager};
use crate::rate_limit::{rate_limit_step, RateLimiter};
use crate::text::{byte_len, trim, trim_spec};

verus! {

/// Sign-in attempts allowed per client in one window.
pub const LOGIN_MAX_ATTEMPTS: usize = 5;

/// The sign-in window: five minutes, in nanoseconds.
pub const LOGIN_WINDOW_NANOS: u128 = 300_000_000_000;

/// Registrations allowed per client in one window.
pub const REGISTER_MAX_ATTEMPTS: usize = 3;

/// The registration window: one hour, in nanoseconds.
pub const REGISTER_WINDOW_NANOS: u128 = 3_600_000_000_000;

/// Whether URL encoding leaves the byte `b` as it is: ASCII letters, digits
/// and `-._~`.
pub open spec fn url_safe_byte(b: u8) -> bool {
    (48 <= b <= 57) || (65 <= b <= 90) || (97 <= b <= 122) || b == 45 || b == 46 || b == 95 || b
        == 126
}

/// URL encoding of a byte string: safe bytes as they are, every other byte
/// as `%` and two upper-case hexadecimal digits.
pub open spec fn url_encoded_bytes(bs: Seq<u8>) -> Seq<char>
    decreases bs.len(),
{
    if bs.len() == 0 {
        seq![]
    } else {
        let b = bs[0];
        (if url_safe_byte(b) {
            seq![b as char]
        } else {
            seq!['%', upper_hex(b as int / 16), upper_hex(b as int % 16)]
        }) + url_encoded_bytes(bs.drop_first())
    }
}

/// What `urlencoding::encode` returns for a string: the URL encoding of its
/// UTF-8 bytes.
pub open spec fn url_encoded(s: Seq<char>) -> Seq<char> {
    url_encoded_bytes(encode_utf8(s))
}

/// Whether `c` is left as it is by URL encoding.
pub open spec fn url_safe(c: char) -> bool {
    let n = c as int;
    (48 <= n <= 57) || (65 <= n <= 90) || (97 <= n <= 122) || n == 45 || n == 46 || n == 95 || n
        == 126
}

/// The upper-case hexadecimal digit for `n` (0 to 15).
pub open spec fn upper_hex(n: int) -> char {
    if n < 10 {
        (48 + n) as char
    } else {
        (55 + n) as char
    }
}

/// URL encoding of a string of ASCII characters (each one byte in UTF-8).
pub open spec fn ascii_url_encoded(s: Seq<char>) -> Seq<char>
    decreases s.len(),
{
    if s.len() == 0 {
        seq![]
    } else {
        let c = s[0];
        (if url_safe(c) {
            seq![c]
        } else {
            seq!['%', upper_hex(c as int / 16), upper_hex(c as int % 16)]
        }) + ascii_url_encoded(s.drop_first())
    }
}

/// Calls `urlencoding::encode` and takes ownership of the result: as its
/// source shows, every UTF-8 byte of `s` except ASCII letters, digits and
/// `-._~` is written as `%` and two upper-case hexadecimal digits (on ASCII
/// text, the character-wise encoding `ascii_url_encoded`).
#[verifier::external_body]
fn url_encode(s: &str) -> (r: String)
    ensures
        r@ == url_encoded(s@),
        (forall|i: int| 0 <= i < s@.len() ==> (s@[i] as int) < 128) ==> r@ == ascii_url_encoded(s@),
{
    urlencoding::encode(s).into_owned()
}

/// The text that stands for the client: its address, or `unknown`.
pub open spec fn client_text(client_ip: Option<&str>) -> Seq<char> {
    match client_ip {
        Some(ip) => ip@,
        None => "unknown"@,
    }
}

/// The rate-limit key of a client for one kind of request.
pub fn client_key(prefix: &str, client_ip: Option<&str>) -> (r: String)
    ensures
        r@ == prefix@ + client_text(client_ip),
{
    let mut key = String::from_str(prefix);
    match client_ip {
        Some(ip) => key.append(ip),
        None => key.append("unknown"),
    }
    key
}

// ---------------------------------------------------------------------------
// Signing in
// ---------------------------------------------------------------------------

/// The result of looking up the account of a sign-in address.
pub enum UserLookup {
    Found(User),
    Missing,
    Failed,
}

/// How a sign-in attempt ends.
#[derive(Debug, Clone, Copy, PartialEq, Eq, Structural)]
pub enum LoginOutcome {
    RateLimited,
    Internal,
    Invalid,
    SignedIn(u128),
}

impl LoginOutcome {
    /// Where the browser is sent.
    pub fn location(&self) -> (r: &'static str)
        ensures
            r@ == match self {
                LoginOutcome::RateLimited => "/admin/login?error=rate_limit"@,
                LoginOutcome::Internal => "/admin/login?error=internal"@,
                LoginOutcome::Invalid => "/admin/login?error=invalid"@,
                LoginOutcome::SignedIn(_) => "/admin"@,
            },
    {
        match self {
            LoginOutcome::RateLimited => "/admin/login?error=rate_limit",
            LoginOutcome::Internal => "/admin/login?error=internal",
            LoginOutcome::Invalid => "/admin/login?error=invalid",
            LoginOutcome::SignedIn(_) => "/admin",
        }
    }
}

/// Admits a sign-in attempt of a client: at most five per five minutes.
pub fn login_admission(limiter: &mut RateLimiter, client_ip: Option<&str>) -> (r: Result<
    (),
    LoginOutcome,
>)
    ensures
        exists|now: u128|
            #![auto]
            (r is Ok, final(limiter)@) == rate_limit_step(
                old(limiter)@,
                "login:"@ + client_text(client_ip),
                LOGIN_MAX_ATTEMPTS as nat,
                LOGIN_WINDOW_NANOS,
                now,
            ),
        r is Err ==> r == Err::<(), LoginOutcome>(LoginOutcome::RateLimited),
{
    let key = client_key("login:", client_ip);
    if limiter.check_rate_limit(key.as_str(), LOGIN_MAX_ATTEMPTS, LOGIN_WINDOW_NANOS) {
        Ok(())
    } else {
        Err(LoginOutcome::RateLimited)
    }
}

/// How a sign-in attempt with `password` ends after the lookup: a failed
/// lookup is internal, a missing account or a wrong password is invalid, and
/// a password that verifies against the account's hash signs it in.
pub open spec fn login_result(lookup: UserLookup, password: Seq<char>) -> LoginOutcome {
    match lookup {
        UserLookup::Failed => LoginOutcome::Internal,
        UserLookup::Missing => LoginOutcome::Invalid,
        UserLookup::Found(u) => if argon2_verifies(password, u.password_hash@) {
            LoginOutcome::SignedIn(u.id)
        } else {
            LoginOutcome::Invalid
        },
    }
}

/// Checks the password of a sign-in attempt against the account found. When
/// no account was found a password is still hashed and verified, so that both
/// cases take about as long; the attempt then fails.
pub fn login_outcome(lookup: UserLookup, password: &str) -> (r: LoginOutcome)
    ensures
        r == login_result(lookup, password@),
{
    match lookup {
        UserLookup::Failed => LoginOutcome::Internal,
        UserLookup::Missing => {
            let dummy = match PasswordManager::hash_password("dummy_password_for_timing") {
                Ok(h) => h,
                Err(_) => String::from_str(
                    "$argon2id$v=19$m=65536,t=3,p=4$dW5rbm93bl9zYWx0X2R1bW15$E2LvWPx3FxvDaJxEMpLLBfWbLkPXfYHrF8z9CGCX3eI",
                ),
            };
            let _ = PasswordManager::verify_password(password, dummy.as_str());
            LoginOutcome::Invalid
        },
        UserLookup::Found(u) => {
            let valid = match PasswordManager::verify_password(password, u.password_hash.as_str()) {
                Ok(b) => b,
                Err(_) => false,
            };
            if valid {
                LoginOutcome::SignedIn(u.id)
            } else {
                LoginOutcome::Invalid
            }
        },
    }
}

/// A password that registration stored signs in: when the account's stored
/// hash verifies the password (as every hash `register_credentials` returns
/// does), signing in with it succeeds, for that account.
pub proof fn lemma_registered_password_signs_in(user: User, password: Seq<char>)
    requires
        argon2_verifies(password, user.password_hash@),
    ensures
        login_result(UserLookup::Found(user), password) == LoginOutcome::SignedIn(user.id),
{
}

/// Only a verified password signs in, and only the account it belongs to:
/// every other lookup or password ends the attempt without a session.
pub proof fn lemma_sign_in_needs_password(lookup: UserLookup, password: Seq<char>, id: u128)
    requires
        login_result(lookup, password) == LoginOutcome::SignedIn(id),
    ensures
        lookup matches UserLookup::Found(u) && u.id == id && argon2_verifies(password, u.password_hash@),
{
}

/// A sign-in through the API: the account looked up by its address (deleted
/// accounts excluded) and the password. Every failure is reported the same
/// way; a success answers with the user and its token.
pub fn api_login(lookup: Result<User, UserError>, password: &str) -> (r: Result<LoginResponse, &'static str>)
    ensures
        r is Ok <==> (lookup matches Ok(u) && argon2_verifies(password@, u.password_hash@)),
        r matches Ok(resp) ==> (lookup matches Ok(u) && describes(resp.user, u, username_spec(u.email@))
            && resp.token@ == uuid_text(u.id)),
        r is Err ==> r == Err::<LoginResponse, &'static str>("Invalid credentials"),
{
    match lookup {
        Ok(u) => match PasswordManager::verify_password(password, u.password_hash.as_str()) {
            Ok(true) => Ok(login_response(&u)),
            _ => Err("Invalid credentials"),
        },
        Err(_) => Err("Invalid credentials"),
    }
}

// ---------------------------------------------------------------------------
// Registering
// ---------------------------------------------------------------------------

/// Why a registration stops.
pub enum RegisterFailure {
    Invalid(&'static str),
    RateLimited,
    Exists,
    Internal,
}

/// The query string value a failure is reported with.
pub open spec fn register_failure_code(f: RegisterFailure) -> Seq<char> {
    match f {
        RegisterFailure::Invalid(msg) => url_encoded(msg@),
        RegisterFailure::RateLimited => "rate_limit"@,
        RegisterFailure::Exists => "exists"@,
        RegisterFailure::Internal => "internal"@,
    }
}

impl RegisterFailure {
    /// Where the browser is sent: the registration page with the failure
    /// (an invalid form's message URL-encoded).
    pub fn location(&self) -> (r: String)
        ensures
            r@ == "/admin/register?error="@ + register_failure_code(*self),
    {
        let mut r = String::from_str("/admin/register?error=");
        match self {
            RegisterFailure::Invalid(msg) => {
                let e = url_encode(msg);
                r.append(e.as_str());
            },
            RegisterFailure::RateLimited => r.append("rate_limit"),
            RegisterFailure::Exists => r.append("exists"),
            RegisterFailure::Internal => r.append("internal"),
        }
        r
    }
}

/// Admits a registration: the form must be valid (checked first, without
/// counting against the limit), then at most three per client and hour.
pub fn register_admission(limiter: &mut RateLimiter, form: &RegisterForm, client_ip: Option<&str>) -> (r:
    Result<(), RegisterFailure>)
    ensures
        account_check(form.email@, form.password@, has_numeric(form.password@)) matches Err(msg)
            ==> (r matches Err(RegisterFailure::Invalid(m)) && m == msg && final(limiter)@ == old(
            limiter)@),
        account_check(form.email@, form.password@, has_numeric(form.password@)) is Ok ==> exists|
            now: u128|
            #![auto]
            (r is Ok, final(limiter)@) == rate_limit_step(
                old(limiter)@,
                "register:"@ + client_text(client_ip),
                REGISTER_MAX_ATTEMPTS as nat,
                REGISTER_WINDOW_NANOS,
                now,
            ),
        account_check(form.email@, form.password@, has_numeric(form.password@)) is Ok && r is Err
            ==> r matches Err(RegisterFailure::RateLimited),
{
    match form.validate() {
        Err(msg) => Err(RegisterFailure::Invalid(msg)),
        Ok(()) => {
            let key = client_key("register:", client_ip);
            if limiter.check_rate_limit(key.as_str(), REGISTER_MAX_ATTEMPTS, REGISTER_WINDOW_NANOS) {
                Ok(())
            } else {
                Err(RegisterFailure::RateLimited)
            }
        },
    }
}

/// The address and password hash a registration stores: the trimmed address,
/// and a fresh hash of the password (a hashing failure is internal).
pub fn register_credentials(form: &RegisterForm) -> (r: Result<(String, String), RegisterFailure>)
    ensures
        r matches Ok((email, hash)) ==> email@ == trim_spec(form.email@) && fresh_hash_of(
            form.password@,
            hash@,
        ),
        r is Err ==> r matches Err(RegisterFailure::Internal),
        byte_len(form.password@) <= 0xFFFF_FFFF ==> r is Ok,
{
    match PasswordManager::hash_password(form.password.as_str()) {
        Ok(h) => Ok((String::from_str(trim(form.email.as_str())), h)),
        Err(_) => Err(RegisterFailure::Internal),
    }
}

/// The account an insert produced: none means the address is taken, an error
/// of the store is internal.
pub fn registered_user<E>(inserted: Result<Option<User>, E>) -> (r: Result<User, RegisterFailure>)
    ensures
        inserted matches Ok(Some(u)) ==> r == Ok::<User, RegisterFailure>(u),
        inserted matches Ok(None) ==> r matches Err(RegisterFailure::Exists),
        inserted is Err ==> r matches Err(RegisterFailure::Internal),
{
    match inserted {
        Ok(Some(u)) => Ok(u),
        Ok(None) => Err(RegisterFailure::Exists),
        Err(_) => Err(RegisterFailure::Internal),
    }
}

/// The site created for the first registration when no default site exists.
pub fn default_site(owner: u128) -> (r: SiteCreate)
    ensures
        r.owner_user_id == owner,
        r.name@ == "RustPress"@,
        r.slug@ == "default"@,
        r.default_template@ == "default"@,
{
    SiteCreate {
        owner_user_id: owner,
        name: String::from_str("RustPress"),
        slug: String::from_str("default"),
        default_template: String::from_str("default"),
    }
}

} // verus!
