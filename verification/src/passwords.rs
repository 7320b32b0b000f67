//! The password codec: salted hashing and verification through a
//! memory-hard key-derivation function, plus random password generation.
//!
//! Hashing draws a fresh random salt, so two hashes of one password
//! differ; what binds them is the verification relation `pw_matches`,
//! which is deterministic in the password and the stored hash string.

use vstd::prelude::*;
use vstd::string::StrSliceExecFns;
use vstd::string::StringExecFns;

use crate::errors::AuthError;

verus! {

/// Whether the key-derivation function's verifier accepts `password`
/// against the PHC-format hash string `phc_hash`. Deterministic in the
/// two arguments: verification re-derives the key from the salt and
/// parameters carried inside the hash string and compares in constant
/// time.
pub uninterp spec fn pw_matches(password: Seq<char>, phc_hash: Seq<char>) -> bool;

/// Relies on argon2's PasswordHasher::hash_password with a salt freshly
/// drawn from the operating-system randomness source: the returned PHC
/// string is a salted hash of the password, so the argon2 verifier
/// accepts the same password against it. The salt is random, so nothing
/// else is promised of the string.
#[verifier::external_body]
pub fn hash_pw(password: &str) -> (r: Result<String, AuthError>)
    ensures
        r matches Ok(h) ==> pw_matches(password@, h@),
        r matches Err(e) ==> e == AuthError::HashingFailure,
{
    let argon2 = argon2::Argon2::default();
    let salt = argon2::password_hash::SaltString::generate(&mut rand::rngs::OsRng);
    match argon2::PasswordHasher::hash_password(&argon2, password.as_bytes(), &salt) {
        Ok(h) => Ok(h.to_string()),
        Err(_) => Err(AuthError::HashingFailure),
    }
}

/// Relies on argon2's PasswordVerifier::verify_password: deterministic in
/// the password and the stored hash string. A rejection by the verifier
/// comes back as `Ok(false)` — a plain mismatch, or a hash string that
/// parses as PHC but lacks the fields verification needs; a string that
/// does not parse at all, or an internal error, comes back as the error.
#[verifier::external_body]
pub fn verify_pw(password: &str, expected_hash: &str) -> (r: Result<bool, AuthError>)
    ensures
        r matches Ok(b) ==> b == pw_matches(password@, expected_hash@),
        r matches Err(e) ==> e == AuthError::VerificationFailure,
{
    let argon2 = argon2::Argon2::default();
    let parsed = match argon2::password_hash::PasswordHash::new(expected_hash) {
        Ok(parsed) => parsed,
        Err(_) => return Err(AuthError::VerificationFailure),
    };
    match argon2::PasswordVerifier::verify_password(&argon2, password.as_bytes(), &parsed) {
        Ok(()) => Ok(true),
        Err(argon2::password_hash::Error::Password) => Ok(false),
        Err(_) => Err(AuthError::VerificationFailure),
    }
}

/// Hashing a password and then verifying that same password against the
/// fresh hash never reports a mismatch: whenever both crypto calls go
/// through, the answer is `true`. An internal crypto failure of either
/// call comes back as its error.
pub fn hash_then_verify(password: &str) -> (r: Result<bool, AuthError>)
    ensures
        r matches Ok(b) ==> b == true,
        r matches Err(e) ==> e == AuthError::HashingFailure || e == AuthError::VerificationFailure,
{
    let hash = hash_pw(password)?;
    let matched = verify_pw(password, hash.as_str())?;
    Ok(matched)
}

/// The characters a generated password is drawn from.
pub open spec fn password_charset() -> Seq<char> {
    "ABCDEFGHIJKLMNOPQRSTUVWXYZabcdefghijklmnopqrstuvwxyz0123456789!@#$%^&*()_+-=[]{}|;:',.<>/?"@
}

/// Relies on rand's Uniform distribution over `0..bound` sampled from
/// thread_rng: the drawn index is below the bound. Nothing else is
/// promised of the value.
#[verifier::external_body]
fn random_index(bound: usize) -> (r: usize)
    requires
        bound > 0,
    ensures
        r < bound,
{
    let mut rng = rand::thread_rng();
    let between = rand::distributions::Uniform::from(0..bound);
    rand::distributions::Distribution::sample(&between, &mut rng)
}

/// Generates a random password of 16 characters, each drawn uniformly
/// from the 90-character set of letters, digits and punctuation.
pub fn generate_random_password() -> (r: String)
    ensures
        r@.len() == 16,
        forall|i: int| 0 <= i < r@.len() ==> password_charset().contains(#[trigger] r@[i]),
{
    let charset: &str =
        "ABCDEFGHIJKLMNOPQRSTUVWXYZabcdefghijklmnopqrstuvwxyz0123456789!@#$%^&*()_+-=[]{}|;:',.<>/?";
    proof {
        reveal_strlit(
            "ABCDEFGHIJKLMNOPQRSTUVWXYZabcdefghijklmnopqrstuvwxyz0123456789!@#$%^&*()_+-=[]{}|;:',.<>/?",
        );
    }
    let mut out = String::new();
    for k in 0..16usize
        invariant
            charset@ == password_charset(),
            charset@.len() == 90,
            out@.len() == k,
            forall|i: int| 0 <= i < out@.len() ==> password_charset().contains(#[trigger] out@[i]),
    {
        let idx = random_index(90);
        let one = charset.substring_char(idx, idx + 1);
        proof {
            assert(one@[0] == charset@[idx as int]);
            assert(password_charset().contains(charset@[idx as int]));
        }
        out.append(one);
    }
    out
}

} // verus!
