//! Password hashing with Argon2 and a random salt.

use vstd::prelude::*;
use argon2::{PasswordHasher, PasswordVerifier};
use crate::errors::{AppError, AppErrorV};
use vstd::utf8::encode_utf8;

verus! {

#[verifier::external_type_specification]
#[verifier::external_body]
pub struct ExPasswordHashError(argon2::password_hash::Error);

/// Whether `phc` is a well-formed PHC hash string, as
/// `argon2::PasswordHash::new` judges it.
pub uninterp spec fn phc_parses(phc: Seq<char>) -> bool;

/// Whether Argon2 with default parameters accepts `password` against the
/// well-formed PHC hash string `phc`.
pub uninterp spec fn argon2_accepts(password: Seq<char>, phc: Seq<char>) -> bool;

/// A character of the B64 alphabet of PHC strings (standard Base64
/// without padding).
pub open spec fn b64_char(c: char) -> bool {
    ('A' <= c && c <= 'Z') || ('a' <= c && c <= 'z') || ('0' <= c && c <= '9') || c == '+' || c == '/'
}

/// The B64 text of a salt of the recommended 16 bytes, as generated: 22
/// characters of the alphabet, whose last one carries no bits beyond the
/// 128 of the salt.
pub open spec fn fresh_salt_text(s: Seq<char>) -> bool {
    &&& s.len() == 22
    &&& forall|i: int| 0 <= i < 22 ==> b64_char(#[trigger] s[i])
    &&& (s[21] == 'A' || s[21] == 'Q' || s[21] == 'g' || s[21] == 'w')
}

/// `SaltString::generate` fed by the operating system's random source, as
/// its B64 text. Claimed: it encodes 16 random bytes in canonical unpadded
/// B64, so the text is 22 characters of the alphabet with the last one's
/// four low bits zero. The bytes themselves are random and not stated.
#[verifier::external_body]
fn random_salt() -> (r: String)
    ensures
        fresh_salt_text(r@),
{
    argon2::password_hash::SaltString::generate(&mut rand_core::OsRng).as_str().to_string()
}

/// `PasswordHasher::hash_password` of the default `Argon2` on the salt text
/// read by `Salt::from_b64`, rendered as its PHC string. Claimed: the string
/// it returns is well formed and the same hasher accepts the same password
/// against it, since verification recomputes the hash with the parameters
/// and salt the string records; and with a generated salt, hashing fails
/// only for a password longer than `0xFFFF_FFFF` bytes, the one input check
/// left (the 16-byte salt and the default output length pass theirs).
#[verifier::external_body]
fn argon2_hash(password: &str, salt: &str) -> (r: Result<String, argon2::password_hash::Error>)
    ensures
        r matches Ok(h) ==> phc_parses(h@) && argon2_accepts(password@, h@),
        fresh_salt_text(salt@) && encode_utf8(password@).len() <= 0xFFFF_FFFF ==> r is Ok,
{
    let salt = argon2::password_hash::Salt::from_b64(salt)?;
    argon2::Argon2::default().hash_password(password.as_bytes(), salt).map(|h| h.to_string())
}

/// `argon2::PasswordHash::new` on `phc`, then `PasswordVerifier::verify_password`
/// of the default `Argon2`. Claimed: it fails exactly when the string is not a
/// well-formed PHC string, and otherwise answers `argon2_accepts`.
#[verifier::external_body]
fn argon2_verify(password: &str, phc: &str) -> (r: Result<bool, argon2::password_hash::Error>)
    ensures
        r is Ok <==> phc_parses(phc@),
        r matches Ok(b) ==> b == argon2_accepts(password@, phc@),
{
    let parsed = argon2::PasswordHash::new(phc)?;
    Ok(argon2::Argon2::default().verify_password(password.as_bytes(), &parsed).is_ok())
}

/// The `Display` text of a `password_hash::Error`; nothing is stated of it.
#[verifier::external_body]
fn hash_error_text(e: &argon2::password_hash::Error) -> String {
    e.to_string()
}

/// What hashing `password` gives: a well-formed PHC string that the same
/// password verifies against, or a hashing error, which comes only for a
/// password longer than `0xFFFF_FFFF` bytes.
pub open spec fn hash_result(password: Seq<char>, r: Result<Seq<char>, AppErrorV>) -> bool {
    &&& encode_utf8(password).len() <= 0xFFFF_FFFF ==> r is Ok
    &&& match r {
        Ok(h) => phc_parses(h) && argon2_accepts(password, h),
        Err(e) => e is Crypto,
    }
}

/// What checking `password` against `stored` gives: an error exactly when
/// `stored` is not a well-formed PHC string, and otherwise whether Argon2
/// accepts the password.
pub open spec fn verify_result(password: Seq<char>, stored: Seq<char>, r: Result<bool, AppErrorV>) -> bool {
    &&& r is Ok <==> phc_parses(stored)
    &&& match r {
        Ok(b) => b == argon2_accepts(password, stored),
        Err(e) => e is Crypto,
    }
}

pub open spec fn text_result(r: Result<String, AppError>) -> Result<Seq<char>, AppErrorV> {
    match r {
        Ok(h) => Ok(h@),
        Err(e) => Err(e@),
    }
}

pub open spec fn flag_result(r: Result<bool, AppError>) -> Result<bool, AppErrorV> {
    match r {
        Ok(b) => Ok(b),
        Err(e) => Err(e@),
    }
}

/// Hashes a password with a fresh random salt. On success the hash is a
/// well-formed PHC string that the same password verifies against.
pub fn hash_password(password: &str) -> (r: Result<String, AppError>)
    ensures
        hash_result(password@, text_result(r)),
{
    let salt = random_salt();
    match argon2_hash(password, salt.as_str()) {
        Ok(h) => Ok(h),
        Err(e) => Err(AppError::Crypto(hash_error_text(&e))),
    }
}

/// Checks a password against a stored hash: a malformed hash is an error,
/// otherwise the answer is whether Argon2 accepts the password.
pub fn verify_password(password: &str, stored_hash: &str) -> (r: Result<bool, AppError>)
    ensures
        verify_result(password@, stored_hash@, flag_result(r)),
{
    match argon2_verify(password, stored_hash) {
        Ok(b) => Ok(b),
        Err(e) => Err(AppError::Crypto(hash_error_text(&e))),
    }
}

/// A password checked against a hash made from it is accepted: whatever
/// successful hashing gave, checking the same password against it answers
/// `Ok(true)`.
pub proof fn hashed_password_verifies(
    password: Seq<char>,
    hash: Seq<char>,
    check: Result<bool, AppErrorV>,
)
    requires
        hash_result(password, Ok(hash)),
        verify_result(password, hash, check),
    ensures
        check == Ok::<bool, AppErrorV>(true),
{
}

} // verus!
