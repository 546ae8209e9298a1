//! Passwords at rest: a salted, memory-hard digest for storage, and the check
//! of a password against such a digest.

use vstd::prelude::*;

verus! {

/// Why a stored digest could not be used.
#[derive(Debug, Clone, Copy, PartialEq, Eq, Structural)]
pub enum DigestError {
    /// The hasher reported an error while deriving a digest.
    Hashing,
    /// The stored text is not a digest in PHC string format.
    Malformed,
}

/// What Argon2 says of a password against a digest in PHC string format:
/// `None` where the digest does not parse, else whether the password, hashed
/// with the salt and the parameters that the digest names, gives the digest's
/// output. The digest carries all that the answer depends on.
pub uninterp spec fn digest_verdict(password: Seq<char>, digest: Seq<char>) -> Option<bool>;

/// `argon2::password_hash::Error`, carried through and never looked into.
#[verifier::external_type_specification]
#[verifier::external_body]
pub struct ExPasswordHashError(argon2::password_hash::Error);

/// Draws a salt with `SaltString::generate` from the system's random source and
/// calls `Argon2::default().hash_password` with it. The digest differs from call
/// to call; the contract claims only that the same password verifies against it.
#[verifier::external_body]
fn argon2_hash(password: &str) -> (r: Result<String, argon2::password_hash::Error>)
    ensures
        r matches Ok(digest) ==> digest_verdict(password@, digest@) == Some(true),
{
    let salt = argon2::password_hash::SaltString::generate(
        &mut argon2::password_hash::rand_core::OsRng,
    );
    let hasher = argon2::Argon2::default();
    let digest = argon2::PasswordHasher::hash_password(&hasher, password.as_bytes(), &salt)?;
    Ok(digest.to_string())
}

/// Parses the digest with `PasswordHash::new` and calls
/// `Argon2::default().verify_password` on it. The contract claims that the
/// answer is the one named [`digest_verdict`]: an error for a digest that does
/// not parse, and for one that parses whether the password matched.
#[verifier::external_body]
fn argon2_verify(password: &str, digest: &str) -> (r: Result<bool, argon2::password_hash::Error>)
    ensures
        match r {
            Ok(matched) => digest_verdict(password@, digest@) == Some(matched),
            Err(_) => digest_verdict(password@, digest@) is None,
        },
{
    let parsed = argon2::PasswordHash::new(digest)?;
    let hasher = argon2::Argon2::default();
    Ok(argon2::PasswordVerifier::verify_password(&hasher, password.as_bytes(), &parsed).is_ok())
}

/// Derives a digest of a password for storage, with a salt drawn for this call.
/// The salt and the parameters are written into the digest.
///
/// Every digest that comes back verifies against the password it was made for.
pub fn hash_password(raw_pwd: &str) -> (r: Result<String, DigestError>)
    ensures
        r matches Ok(digest) ==> digest_verdict(raw_pwd@, digest@) == Some(true),
        r matches Err(e) ==> e == DigestError::Hashing,
{
    match argon2_hash(raw_pwd) {
        Ok(digest) => Ok(digest),
        Err(_) => Err(DigestError::Hashing),
    }
}

/// What [`verify_password`] returns for each answer of the hasher.
pub open spec fn password_check(verdict: Option<bool>) -> Result<bool, DigestError> {
    match verdict {
        Some(matched) => Ok(matched),
        None => Err(DigestError::Malformed),
    }
}

/// Checks a password against a stored digest.
///
/// A password that does not match is `Ok(false)`, not an error; so is a digest
/// that parses but names an algorithm or parameters that cannot be computed.
/// Only a digest that is not in PHC string format is an error.
pub fn verify_password(raw_pwd: &str, hashed_pwd: &str) -> (r: Result<bool, DigestError>)
    ensures
        r == password_check(digest_verdict(raw_pwd@, hashed_pwd@)),
{
    match argon2_verify(raw_pwd, hashed_pwd) {
        Ok(matched) => Ok(matched),
        Err(_) => Err(DigestError::Malformed),
    }
}

} // verus!
