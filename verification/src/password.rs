//! Password hashing with Argon2id (64 MiB memory, 3 iterations, 4 lanes).

use argon2::password_hash::{PasswordHasher, PasswordVerifier};
use vstd::prelude::*;

use vstd::string::StringExecFns;

use crate::text::{byte_len, chars_of, has_prefix, is_ascii_digit};

verus! {

#[verifier::external_type_specification]
#[verifier::external_body]
pub struct ExPasswordHashError(argon2::password_hash::Error);

/// What Argon2 verification of `password` against the stored PHC string
/// `stored` answers: `Some(true)` when the string parses and hashing the
/// password with the algorithm, version, parameters and salt it records gives
/// the hash it records, `Some(false)` when everything succeeds but the hashes
/// differ (`password_hash::Error::Password`), `None` on any other failure.
pub uninterp spec fn argon2_outcome(password: Seq<char>, stored: Seq<char>) -> Option<bool>;

/// Whether `c` is an ASCII digit.
pub open spec fn is_digit_char(c: char) -> bool {
    '0' <= c && c <= '9'
}

/// The value of the decimal digits of `s` from position `i` up to the first
/// other character, appended to `acc`.
pub open spec fn run_value(s: Seq<char>, i: int, acc: nat) -> nat
    decreases s.len() - i,
{
    if 0 <= i < s.len() && is_digit_char(s[i]) {
        run_value(s, i + 1, acc * 10 + ((s[i] as int) - 48) as nat)
    } else {
        acc
    }
}

/// Whether `p=` stands at `i` in `s`, followed by digits worth more than
/// 2^24 - 1, the most lanes Argon2 allows.
pub open spec fn lanes_at(s: Seq<char>, i: int) -> bool {
    0 <= i && i + 2 <= s.len() && s[i] == 'p' && s[i + 1] == '=' && run_value(s, i + 2, 0)
        > 0xFFFFFF
}

/// Whether a stored string records more lanes than Argon2 allows. argon2
/// checks such a count with `m_cost < p_cost * 8` in `u32`, which overflows
/// (a panic where overflow is checked) from 2^29 lanes on; such strings are
/// refused before argon2 sees them. (A PHC string has `=` only after a
/// parameter name, so `p=` can only be the lane count.)
#[verifier::opaque]
pub open spec fn lanes_over_limit(s: Seq<char>) -> bool {
    exists|i: int| lanes_at(s, i)
}

/// Whether `password` verifies against `stored`.
pub open spec fn argon2_verifies(password: Seq<char>, stored: Seq<char>) -> bool {
    !lanes_over_limit(stored) && argon2_outcome(password, stored) == Some(true)
}

/// Whether `stored` is a well-formed Argon2 hash that `password` does not
/// match.
pub open spec fn argon2_rejects(password: Seq<char>, stored: Seq<char>) -> bool {
    !lanes_over_limit(stored) && argon2_outcome(password, stored) == Some(false)
}

/// Memory cost of the engine, in KiB.
pub const ARGON2_M_COST: u32 = 65536;

/// Number of iterations of the engine.
pub const ARGON2_T_COST: u32 = 3;

/// Degree of parallelism of the engine.
pub const ARGON2_P_COST: u32 = 4;

/// The decimal digits of `n`, most significant first, without leading zeros.
pub open spec fn decimal_text(n: nat) -> Seq<char>
    decreases n,
{
    if n < 10 {
        seq![digit_char(n)]
    } else {
        decimal_text(n / 10).push(digit_char(n % 10))
    }
}

/// The ASCII digit of a value below ten.
pub open spec fn digit_char(d: nat) -> char {
    (d + 48) as char
}

/// How a PHC string made by Argon2id, version 19 (0x13), with memory cost
/// `m`, `t` iterations and `p` lanes begins, before the salt and the hash.
pub open spec fn argon2id_phc_prefix(m: u32, t: u32, p: u32) -> Seq<char> {
    "$argon2id$v=19$m="@ + decimal_text(m as nat) + ",t="@ + decimal_text(t as nat) + ",p="@
        + decimal_text(p as nat) + "$"@
}

/// The beginning of every hash this module makes: Argon2id, version 19,
/// 64 MiB, 3 iterations, 4 lanes.
pub open spec fn configured_phc_prefix() -> Seq<char> {
    "$argon2id$v=19$m=65536,t=3,p=4$"@
}

/// A hash made here for `password`: it verifies against the password,
/// records the configured algorithm, version and costs, and any other
/// password that argon2 accepts (at most 2^32 - 1 bytes) is answered by a
/// verification, never an error.
pub open spec fn fresh_hash_of(password: Seq<char>, h: Seq<char>) -> bool {
    &&& argon2_verifies(password, h)
    &&& has_prefix(h, configured_phc_prefix())
    &&& forall|q: Seq<char>|
        #![trigger argon2_outcome(q, h)]
        byte_len(q) <= 0xFFFF_FFFF ==> argon2_verifies(q, h) || argon2_rejects(q, h)
}

/// Whether Argon2 parameters with these costs are accepted by
/// `argon2::Params::new`: memory at least 8 KiB and 8 KiB per lane, at least
/// one iteration, between 1 and 2^24 - 1 lanes.
pub open spec fn valid_costs(m: u32, t: u32, p: u32) -> bool {
    m >= 8 && m >= p * 8 && t >= 1 && 1 <= p <= 0xFFFFFF
}

/// Whether `c` is a character of the standard Base64 alphabet.
pub open spec fn b64_char(c: char) -> bool {
    ('A' <= c && c <= 'Z') || ('a' <= c && c <= 'z') || ('0' <= c && c <= '9') || c == '+' || c == '/'
}

/// Whether `s` is the unpadded Base64 text of 16 bytes, as a salt is written:
/// 22 characters of the alphabet, the last one carrying no bits beyond the
/// 128 encoded (so it is `A`, `Q`, `g` or `w`).
pub open spec fn salt_text(s: Seq<char>) -> bool {
    &&& s.len() == 22
    &&& forall|i: int| 0 <= i < 22 ==> b64_char(#[trigger] s[i])
    &&& (s[21] == 'A' || s[21] == 'Q' || s[21] == 'g' || s[21] == 'w')
}

/// Calls `SaltString::generate` with the operating system's random source and
/// returns its text. As its source shows, it draws 16 random bytes (the
/// recommended length) and writes them in unpadded Base64; which bytes is not
/// stated.
#[verifier::external_body]
fn random_salt() -> (r: String)
    ensures
        salt_text(r@),
{
    argon2::password_hash::SaltString::generate(&mut argon2::password_hash::rand_core::OsRng).as_str().to_string()
}

/// Reads `salt` with `Salt::from_b64`, builds the Argon2id, version 0x13
/// engine with the given costs (default output length, no secret) and calls
/// `PasswordHasher::hash_password`, formatting the result as a PHC string. A
/// successful result verifies against the password (verification recomputes
/// the hash from the recorded parameters and salt) and, as password-hash
/// writes it, begins with `$argon2id$v=19$m=<m>,t=<t>,p=<p>$`, followed by
/// the salt and the hash in B64 (which has no `=`, so the only `p=` is the
/// lane count). Verifying any password of at most 2^32 - 1 bytes against it
/// parses the string, rebuilds valid parameters and recomputes the hash, so
/// it answers `Some(_)`. With valid costs and the text of a 16-byte salt the
/// only refusal left is a password over 2^32 - 1 bytes (`PwdTooLong`); the
/// output (32 bytes), salt and parameter lengths are all within Argon2's
/// bounds.
#[verifier::external_body]
fn argon2_hash(
    m_cost: u32,
    t_cost: u32,
    p_cost: u32,
    password: &str,
    salt: &str,
) -> (r: Result<String, argon2::password_hash::Error>)
    requires
        valid_costs(m_cost, t_cost, p_cost),
    ensures
        byte_len(password@) <= 0xFFFF_FFFF && salt_text(salt@) ==> r is Ok,
        r matches Ok(h) ==> argon2_outcome(password@, h@) == Some(true),
        r matches Ok(h) ==> has_prefix(h@, argon2id_phc_prefix(m_cost, t_cost, p_cost)),
        r matches Ok(h) ==> !lanes_over_limit(h@),
        r matches Ok(h) ==> forall|q: Seq<char>|
            #![trigger argon2_outcome(q, h@)]
            byte_len(q) <= 0xFFFF_FFFF ==> argon2_outcome(q, h@) is Some,
{
    let salt = argon2::password_hash::Salt::from_b64(salt)?;
    let params = argon2::Params::new(m_cost, t_cost, p_cost, None)?;
    let engine = argon2::Argon2::new(argon2::Algorithm::Argon2id, argon2::Version::V0x13, params);
    engine.hash_password(password.as_bytes(), salt).map(|h| h.to_string())
}

/// What a verification found.
enum Argon2Check {
    /// The password matches the stored hash.
    Matches,
    /// The stored hash is well formed but the password does not match.
    Mismatch,
    /// Any other failure, with the error's text.
    Failed(String),
}

/// Builds the Argon2id, version 0x13 engine with the given costs, parses
/// `stored` with `PasswordHash::new` and calls
/// `PasswordVerifier::verify_password`; `password_hash::Error::Password` is a
/// mismatch, any other error a failure: the answer is `argon2_outcome`. The
/// engine's costs do not matter (the recorded ones replace them, and the
/// engine has no secret). The parser refuses at once a string that is empty
/// or does not begin with `$`. A string recording more lanes than allowed is
/// left out, since rebuilding its parameters overflows.
#[verifier::external_body]
fn argon2_verify(m_cost: u32, t_cost: u32, p_cost: u32, password: &str, stored: &str) -> (r: Argon2Check)
    requires
        valid_costs(m_cost, t_cost, p_cost),
        !lanes_over_limit(stored@),
    ensures
        r is Matches <==> argon2_outcome(password@, stored@) == Some(true),
        r is Mismatch <==> argon2_outcome(password@, stored@) == Some(false),
        stored@.len() == 0 || stored@[0] != '$' ==> r is Failed,
{
    let engine = match argon2::Params::new(m_cost, t_cost, p_cost, None) {
        Ok(params) => argon2::Argon2::new(argon2::Algorithm::Argon2id, argon2::Version::V0x13, params),
        Err(e) => return Argon2Check::Failed(argon2::password_hash::Error::from(e).to_string()),
    };
    let parsed = match argon2::password_hash::PasswordHash::new(stored) {
        Ok(h) => h,
        Err(e) => return Argon2Check::Failed(e.to_string()),
    };
    match engine.verify_password(password.as_bytes(), &parsed) {
        Ok(()) => Argon2Check::Matches,
        Err(argon2::password_hash::Error::Password) => Argon2Check::Mismatch,
        Err(e) => Argon2Check::Failed(e.to_string()),
    }
}

/// The text of a password hashing error (its `Display` form).
#[verifier::external_body]
fn hash_error_text(e: &argon2::password_hash::Error) -> String {
    e.to_string()
}

/// `argon2id_phc_prefix` at the configured costs.
proof fn lemma_configured_prefix()
    ensures
        argon2id_phc_prefix(ARGON2_M_COST, ARGON2_T_COST, ARGON2_P_COST) == configured_phc_prefix(),
{
    reveal_with_fuel(decimal_text, 6);
    assert(decimal_text(3) =~= seq!['3']);
    assert(decimal_text(4) =~= seq!['4']);
    assert(decimal_text(65536) =~= seq!['6', '5', '5', '3', '6']);
    reveal_strlit("$argon2id$v=19$m=");
    reveal_strlit(",t=");
    reveal_strlit(",p=");
    reveal_strlit("$");
    reveal_strlit("$argon2id$v=19$m=65536,t=3,p=4$");
    assert(argon2id_phc_prefix(ARGON2_M_COST, ARGON2_T_COST, ARGON2_P_COST) =~= configured_phc_prefix());
}

proof fn lemma_run_value_grows(s: Seq<char>, i: int, acc: nat)
    ensures
        run_value(s, i, acc) >= acc,
    decreases s.len() - i,
{
    if 0 <= i < s.len() && is_digit_char(s[i]) {
        lemma_run_value_grows(s, i + 1, acc * 10 + ((s[i] as int) - 48) as nat);
    }
}

/// Whether the digits of `s` from `start` on are worth more than 2^24 - 1.
fn digits_exceed_lanes(s: &Vec<char>, start: usize) -> (r: bool)
    requires
        start <= s.len(),
    ensures
        r == (run_value(s@, start as int, 0) > 0xFFFFFF),
{
    let mut j = start;
    let mut acc: u64 = 0;
    while j < s.len()
        invariant
            start <= j <= s.len(),
            acc <= 0xFFFFFF,
            run_value(s@, start as int, 0) == run_value(s@, j as int, acc as nat),
        decreases s.len() - j,
    {
        let c = s[j];
        if !is_ascii_digit(c) {
            return false;
        }
        let d = (c as u32 - 48) as u64;
        let next = acc * 10 + d;
        assert(next as nat == acc as nat * 10 + ((s@[j as int] as int) - 48) as nat);
        if next > 0xFFFFFF {
            proof {
                lemma_run_value_grows(s@, j as int + 1, next as nat);
            }
            return true;
        }
        acc = next;
        j = j + 1;
    }
    false
}

/// Whether `stored` records more lanes than Argon2 allows.
fn records_too_many_lanes(stored: &str) -> (r: bool)
    ensures
        r == lanes_over_limit(stored@),
{
    let v = chars_of(stored);
    let mut i: usize = 0;
    while i < v.len()
        invariant
            v@ == stored@,
            i <= v.len(),
            forall|k: int| 0 <= k < i ==> !lanes_at(stored@, k),
        decreases v.len() - i,
    {
        if i + 1 < v.len() && v[i] == 'p' && v[i + 1] == '=' && digits_exceed_lanes(&v, i + 2) {
            proof {
                reveal(lanes_over_limit);
                assert(lanes_at(stored@, i as int));
            }
            return true;
        }
        i = i + 1;
    }
    proof {
        reveal(lanes_over_limit);
        assert forall|k: int| !lanes_at(stored@, k) by {
            if 0 <= k < i {
            }
        }
    }
    false
}

/// A failure of password hashing or verification other than a wrong password.
#[derive(Debug)]
pub struct PasswordError {
    pub message: String,
}

/// Hashes and verifies passwords with Argon2id, version 0x13, 64 MiB, 3
/// iterations and 4 lanes.
pub struct PasswordManager;

impl PasswordManager {
    /// Hashes `password` with a fresh random salt into a PHC string recording
    /// Argon2id, version 19 and the configured costs. Every password Argon2
    /// takes (at most 2^32 - 1 bytes) is hashed.
    pub fn hash_password(password: &str) -> (r: Result<String, PasswordError>)
        ensures
            byte_len(password@) <= 0xFFFF_FFFF ==> r is Ok,
            r matches Ok(h) ==> fresh_hash_of(password@, h@),
    {
        let salt = random_salt();
        match argon2_hash(ARGON2_M_COST, ARGON2_T_COST, ARGON2_P_COST, password, salt.as_str()) {
            Ok(h) => {
                proof {
                    lemma_configured_prefix();
                    assert(!lanes_over_limit(h@));
                    assert forall|q: Seq<char>| #![trigger argon2_outcome(q, h@)]
                        byte_len(q) <= 0xFFFF_FFFF implies argon2_verifies(q, h@) || argon2_rejects(q, h@) by {
                        assert(argon2_outcome(q, h@) is Some);
                        assert(!lanes_over_limit(h@));
                        if argon2_outcome(q, h@) == Some(true) {
                            assert(argon2_verifies(q, h@));
                        } else {
                            assert(argon2_outcome(q, h@) == Some(false));
                            assert(argon2_rejects(q, h@));
                        }
                    }
                }
                Ok(h)
            },
            Err(e) => Err(PasswordError { message: hash_error_text(&e) }),
        }
    }

    /// Checks `password` against a stored PHC string: `Ok(true)` when it
    /// matches, `Ok(false)` for a wrong password, an error otherwise, in
    /// particular for a string that is not a PHC string or records more lanes
    /// than Argon2 allows.
    pub fn verify_password(password: &str, stored_hash: &str) -> (r: Result<bool, PasswordError>)
        ensures
            r matches Ok(true) <==> argon2_verifies(password@, stored_hash@),
            r matches Ok(false) <==> argon2_rejects(password@, stored_hash@),
            lanes_over_limit(stored_hash@) ==> r is Err,
            stored_hash@.len() == 0 || stored_hash@[0] != '$' ==> r is Err,
    {
        if records_too_many_lanes(stored_hash) {
            return Err(PasswordError { message: String::from_str("the stored hash records too many lanes") });
        }
        match argon2_verify(ARGON2_M_COST, ARGON2_T_COST, ARGON2_P_COST, password, stored_hash) {
            Argon2Check::Matches => Ok(true),
            Argon2Check::Mismatch => Ok(false),
            Argon2Check::Failed(message) => Err(PasswordError { message }),
        }
    }
}

} // verus!
