//! One-time codes: drawing one, hashing it and checking a presented code
//! against a stored hash.

use argon2::password_hash::rand_core::OsRng;
use argon2::password_hash::{PasswordHash, SaltString};
use argon2::{Argon2, PasswordHasher};
use rand::Rng;
use vstd::prelude::*;

verus! {

/// The smallest code that is issued.
pub const CODE_MIN: u32 = 100000;

/// The largest code that is issued.
pub const CODE_MAX: u32 = 999999;

/// A failure that no request can recover from.
#[derive(Debug, Clone, Copy, PartialEq, Eq, Structural)]
pub enum Fatal {
    /// The password hasher refused to hash.
    Hashing,
    /// The token could not be signed.
    Signing,
    /// The expiry time does not fit the machine's integers.
    Clock,
}

/// The error type of the password hasher.
#[verifier::external_type_specification]
#[verifier::external_body]
pub struct ExPasswordHashError(argon2::password_hash::Error);

/// Whether the password hasher, given the stored hash string `hash`, accepts
/// `code`: the string parses as a hash and recomputing it from `code` with
/// the parameters and salt it records gives the same output.
pub uninterp spec fn hash_accepts(hash: Seq<char>, code: Seq<char>) -> bool;

/// The character of a decimal digit.
pub open spec fn digit(d: nat) -> char {
    if d == 0 {
        '0'
    } else if d == 1 {
        '1'
    } else if d == 2 {
        '2'
    } else if d == 3 {
        '3'
    } else if d == 4 {
        '4'
    } else if d == 5 {
        '5'
    } else if d == 6 {
        '6'
    } else if d == 7 {
        '7'
    } else if d == 8 {
        '8'
    } else {
        '9'
    }
}

/// A number written in decimal, without leading zeros.
pub open spec fn decimal(n: nat) -> Seq<char>
    decreases n,
{
    if n < 10 {
        seq![digit(n)]
    } else {
        decimal(n / 10).push(digit(n % 10))
    }
}

/// Whether `s` is a code as issued: a number from `CODE_MIN` to `CODE_MAX`
/// in decimal.
pub open spec fn is_code(s: Seq<char>) -> bool {
    exists|n: nat| CODE_MIN <= n <= CODE_MAX && s == #[trigger] decimal(n)
}

/// A code as issued has exactly six digits.
pub proof fn lemma_code_has_six_digits(n: nat)
    requires
        CODE_MIN <= n <= CODE_MAX,
    ensures
        decimal(n).len() == 6,
{
    reveal_with_fuel(decimal, 7);
}

/// Calls `rand::Rng::random_range` on the thread's generator with the
/// inclusive range from `low` to `high`. The draw lies in that range;
/// nothing else is claimed of it. An empty range is left out: the call
/// panics on one.
#[verifier::external_body]
fn random_in(low: u32, high: u32) -> (n: u32)
    requires
        low <= high,
    ensures
        low <= n <= high,
{
    rand::rng().random_range(low..=high)
}

/// The text of one decimal digit.
fn digit_text(d: u32) -> (s: &'static str)
    requires
        d < 10,
    ensures
        s@ == seq![digit(d as nat)],
{
    proof {
        reveal_strlit("0");
        reveal_strlit("1");
        reveal_strlit("2");
        reveal_strlit("3");
        reveal_strlit("4");
        reveal_strlit("5");
        reveal_strlit("6");
        reveal_strlit("7");
        reveal_strlit("8");
        reveal_strlit("9");
    }
    let s = if d == 0 {
        "0"
    } else if d == 1 {
        "1"
    } else if d == 2 {
        "2"
    } else if d == 3 {
        "3"
    } else if d == 4 {
        "4"
    } else if d == 5 {
        "5"
    } else if d == 6 {
        "6"
    } else if d == 7 {
        "7"
    } else if d == 8 {
        "8"
    } else {
        "9"
    };
    assert(s@ =~= seq![digit(d as nat)]);
    s
}

/// Writes a number in decimal.
pub fn decimal_text(n: u32) -> (s: String)
    ensures
        s@ == decimal(n as nat),
    decreases n,
{
    if n < 10 {
        String::from_str(digit_text(n))
    } else {
        let mut s = decimal_text(n / 10);
        s.append(digit_text(n % 10));
        assert(s@ =~= decimal(n as nat));
        s
    }
}

/// Calls `SaltString::generate` and `PasswordHasher::hash_password` on the
/// default Argon2 hasher. The salt is random, so the hash string is not
/// determined by the code; what is claimed is that the hasher accepts the
/// code against the string it returned.
#[verifier::external_body]
fn hash_code(code: &str) -> (r: Result<String, argon2::password_hash::Error>)
    ensures
        r matches Ok(h) ==> hash_accepts(h@, code@),
{
    let salt = SaltString::generate(&mut OsRng);
    match Argon2::default().hash_password(code.as_bytes(), &salt) {
        Ok(h) => Ok(h.to_string()),
        Err(e) => Err(e),
    }
}

/// Calls `PasswordHash::new` on the stored string and
/// `PasswordHash::verify_password` with the default Argon2 hasher. The answer
/// is `true` exactly when the string parses and the hasher accepts the code.
#[verifier::external_body]
pub(crate) fn verify_code(hash: &str, code: &str) -> (ok: bool)
    ensures
        ok == hash_accepts(hash@, code@),
{
    match PasswordHash::new(hash) {
        Ok(parsed) => parsed.verify_password(&[&Argon2::default()], code).is_ok(),
        Err(_) => false,
    }
}

/// Pairs a code with the outcome of hashing it.
pub fn pair_code(code: String, hashed: Result<String, argon2::password_hash::Error>) -> (r: Result<
    (String, String),
    Fatal,
>)
    ensures
        match hashed {
            Ok(h) => r == Ok::<(String, String), Fatal>((code, h)),
            Err(_) => r == Err::<(String, String), Fatal>(Fatal::Hashing),
        },
{
    match hashed {
        Ok(h) => Ok((code, h)),
        Err(_) => Err(Fatal::Hashing),
    }
}

/// Draws a fresh code and hashes it with a fresh salt.
///
/// On success the first string is the code, six decimal digits, and the
/// second a hash that accepts it. The call fails only when the hasher does.
pub fn generate_code() -> (r: Result<(String, String), Fatal>)
    ensures
        match r {
            Ok((code, hash)) => is_code(code@) && code@.len() == 6 && hash_accepts(hash@, code@),
            Err(e) => e == Fatal::Hashing,
        },
{
    let n: u32 = random_in(CODE_MIN, CODE_MAX);
    let code = decimal_text(n);
    proof {
        lemma_code_has_six_digits(n as nat);
    }
    let hashed = hash_code(code.as_str());
    pair_code(code, hashed)
}

} // verus!
