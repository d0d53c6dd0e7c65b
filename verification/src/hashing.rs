//! One-way hashing of passwords and the check of a password against a hash.

use crate::utils::CryptoFailure;
use vstd::prelude::*;

verus! {

/// The error type of the hashing engine.
#[verifier::external_type_specification]
#[verifier::external_body]
pub struct ExHashEngineError(bcrypt::BcryptError);

/// Whether the hashing engine finds that `password` reproduces `hash`; `None`
/// where it cannot read the hash and reports an error.
pub uninterp spec fn password_check(password: Seq<char>, hash: Seq<char>) -> Option<bool>;

/// The shape of a hash that the engine writes: sixty characters, of which
/// the first seven give the version and the cost.
pub open spec fn is_engine_hash(hash: Seq<char>) -> bool {
    hash.len() == 60 && hash.subrange(0, 7) == "$2b$12$"@
}

/// Whether `salt` is the salt that a hash of the engine holds: the twenty-two
/// characters after the version and the cost.
pub open spec fn holds_salt(hash: Seq<char>, salt: Seq<char>) -> bool {
    hash.len() >= 29 && hash.subrange(7, 29) == salt
}

/// What holds of a hash that the engine made of a password, and of the salt
/// handed out with it.
pub open spec fn hashed(password: Seq<char>, hash: Seq<char>, salt: Seq<char>) -> bool {
    &&& is_engine_hash(hash)
    &&& holds_salt(hash, salt)
    &&& password_check(password, hash) == Some(true)
}

/// Hashes a password with `bcrypt::hash_with_result` at the default cost and
/// hands out the hash in its `2b` form together with its salt. The salt is
/// random, so of the hash only this is stated: it has the engine's format and
/// holds the salt, and the engine's check accepts the password against it.
#[verifier::external_body]
pub(crate) fn hash_parts(password: &str) -> (r: Result<(String, String), bcrypt::BcryptError>)
    ensures
        r matches Ok(parts) ==> hashed(password@, parts.0@, parts.1@),
{
    let parts = bcrypt::hash_with_result(password, bcrypt::DEFAULT_COST)?;
    Ok((parts.format_for_version(bcrypt::Version::TwoB), parts.get_salt()))
}

/// Checks a password against a hash with `bcrypt::verify`. The outcome is a
/// function of the two texts alone; it is named, not described.
#[verifier::external_body]
pub(crate) fn verify_password(password: &str, hash: &str) -> (r: Result<bool, bcrypt::BcryptError>)
    ensures
        match r {
            Ok(matches) => password_check(password@, hash@) == Some(matches),
            Err(_) => password_check(password@, hash@) is None,
        },
{
    bcrypt::verify(password, hash)
}

/// The engine's own description of one of its errors, by its `Display`.
#[verifier::external_body]
pub(crate) fn hash_error_text(error: &bcrypt::BcryptError) -> (r: String) {
    error.to_string()
}

/// What `get_hash_and_salt` may return for a password.
pub open spec fn hash_outcome(
    password: Seq<char>,
    r: Result<(String, String), CryptoFailure>,
) -> bool {
    r matches Ok(parts) ==> hashed(password, parts.0@, parts.1@)
}

/// What `check_hash` returns for a password and a hash.
pub open spec fn check_outcome(
    password: Seq<char>,
    hash: Seq<char>,
    r: Result<bool, CryptoFailure>,
) -> bool {
    match r {
        Ok(matches) => password_check(password, hash) == Some(matches),
        Err(_) => password_check(password, hash) is None,
    }
}

/// Hashes a password under a fresh random salt, and hands out the hash and
/// the salt. It fails only where the engine does.
pub fn get_hash_and_salt(password: &str) -> (r: Result<(String, String), CryptoFailure>)
    ensures
        hash_outcome(password@, r),
{
    hashed_or_failure(hash_parts(password))
}

/// Whether the password reproduces the hash. A hash that cannot be read is an
/// error, never a match.
pub fn check_hash(password: &str, hash: &str) -> (r: Result<bool, CryptoFailure>)
    ensures
        check_outcome(password@, hash@, r),
{
    match verify_password(password, hash) {
        Ok(matches) => Ok(matches),
        Err(error) => Err(CryptoFailure { message: hash_error_text(&error) }),
    }
}

/// What comes of the engine's outcome: the hash and the salt as the engine
/// gave them, or the engine's failure in its own words.
pub fn hashed_or_failure(outcome: Result<(String, String), bcrypt::BcryptError>) -> (r: Result<
    (String, String),
    CryptoFailure,
>)
    ensures
        match outcome {
            Ok(parts) => r == Ok::<(String, String), CryptoFailure>(parts),
            Err(_) => r is Err,
        },
{
    match outcome {
        Ok(parts) => Ok(parts),
        Err(error) => Err(CryptoFailure { message: hash_error_text(&error) }),
    }
}

/// The hash alone of a hash that came with its salt; a failure is passed on.
pub open spec fn without_salt(hashed: Result<(String, String), CryptoFailure>) -> Result<
    String,
    CryptoFailure,
> {
    match hashed {
        Ok(parts) => Ok(parts.0),
        Err(failure) => Err(failure),
    }
}

pub fn hash_alone(hashed: Result<(String, String), CryptoFailure>) -> (r: Result<
    String,
    CryptoFailure,
>)
    ensures
        r == without_salt(hashed),
{
    match hashed {
        Ok(parts) => Ok(parts.0),
        Err(failure) => Err(failure),
    }
}

/// A password always passes the check against a hash that was made from it.
pub proof fn law_hash_then_check(
    password: Seq<char>,
    hashed: Result<(String, String), CryptoFailure>,
    checked: Result<bool, CryptoFailure>,
)
    requires
        hash_outcome(password, hashed),
        hashed is Ok,
        check_outcome(password, hashed->Ok_0.0@, checked),
    ensures
        checked == Ok::<bool, CryptoFailure>(true),
{
}

} // verus!
