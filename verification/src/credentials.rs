use vstd::prelude::*;

use crate::errors::{DomainError, ServiceError};
use crate::models::{Claims, User};

verus! {

#[verifier::external_type_specification]
#[verifier::external_body]
pub struct ExBcryptError(bcrypt::BcryptError);

/// What `bcrypt::verify` answers for a password and a stored hash: `Some(matches)` when
/// the hash can be read, `None` when it reports an error.
pub uninterp spec fn bcrypt_verify_result(password: Seq<char>, hash: Seq<char>) -> Option<bool>;

/// Calls `bcrypt::hash` with bcrypt's default cost (12). Its salt is drawn at random, so
/// nothing names the result; of every hash it returns, this states that it has the form
/// `$2b$12$` followed by 53 characters, and that `bcrypt::verify` accepts the same password
/// against it. It fails only where the system gives no random bytes.
#[verifier::external_body]
fn bcrypt_hash(password: &str) -> (r: Result<String, bcrypt::BcryptError>)
    ensures
        r matches Ok(h) ==> {
            &&& h@.len() == 60
            &&& h@.subrange(0, 7) == "$2b$12$"@
            &&& bcrypt_verify_result(password@, h@) == Some(true)
        },
{
    bcrypt::hash(password, bcrypt::DEFAULT_COST)
}

/// Calls `bcrypt::verify`, which reads cost and salt from the stored hash, hashes the password
/// again and compares: its answer is named by `bcrypt_verify_result`.
#[verifier::external_body]
fn bcrypt_verify(password: &str, hash: &str) -> (r: Result<bool, bcrypt::BcryptError>)
    ensures
        match r {
            Ok(b) => bcrypt_verify_result(password@, hash@) == Some(b),
            Err(_) => bcrypt_verify_result(password@, hash@) is None,
        },
{
    bcrypt::verify(password, hash)
}

/// The outcome of checking `password` against `hash`: an unreadable hash counts as bad credentials.
pub open spec fn password_check(password: Seq<char>, hash: Seq<char>) -> Result<bool, ServiceError> {
    match bcrypt_verify_result(password, hash) {
        Some(b) => Ok(b),
        None => Err(ServiceError::Domain(DomainError::InvalidCredentials)),
    }
}

/// Hashes a password for storing. A failure of the hashing is reported as `Unauthorized`.
pub fn hash_password(password: String) -> (r: Result<String, ServiceError>)
    ensures
        r matches Err(e) ==> e == ServiceError::Domain(DomainError::Unauthorized),
        r matches Ok(h) ==> {
            &&& h@.len() == 60
            &&& h@.subrange(0, 7) == "$2b$12$"@
            &&& bcrypt_verify_result(password@, h@) == Some(true)
        },
{
    match bcrypt_hash(password.as_str()) {
        Ok(h) => Ok(h),
        Err(_) => Err(ServiceError::Domain(DomainError::Unauthorized)),
    }
}

/// Checks a password against a stored hash.
pub fn verify_password(password: String, password_hash: String) -> (r: Result<bool, ServiceError>)
    ensures
        r == password_check(password@, password_hash@),
{
    match bcrypt_verify(password.as_str(), password_hash.as_str()) {
        Ok(b) => Ok(b),
        Err(_) => Err(ServiceError::Domain(DomainError::InvalidCredentials)),
    }
}

/// A password checks out against a hash that was made from it.
pub proof fn lemma_registered_password_checks(password: Seq<char>, hash: Seq<char>)
    requires
        bcrypt_verify_result(password, hash) == Some(true),
    ensures
        password_check(password, hash) == Ok::<bool, ServiceError>(true),
{
}

/// The latest Unix time in seconds that the clock can report.
pub const LATEST_TIME: i64 = 8_210_266_876_799;

/// How long a token stays valid.
pub const TOKEN_LIFETIME_HOURS: i64 = 24;

/// Reads the clock through `chrono::Utc::now()` and returns the Unix time in seconds. The value
/// depends on the moment, so only its range is stated: no earlier than the epoch (chrono
/// panics if the system clock is set before it) and no later than the last second chrono
/// can represent.
#[verifier::external_body]
fn current_unix_time() -> (t: i64)
    ensures
        0 <= t <= LATEST_TIME,
{
    chrono::Utc::now().timestamp()
}

/// When a token issued at Unix time `now` expires.
pub open spec fn expiry_at(now: int) -> usize {
    (now + TOKEN_LIFETIME_HOURS * 3600) as usize
}

/// The claims of a token issued to `user` at Unix time `now`.
pub fn claims_at(user: &User, now: i64) -> (c: Claims)
    requires
        0 <= now <= LATEST_TIME,
    ensures
        c.sub == user.id,
        c.role == user.role,
        c.exp == expiry_at(now as int),
{
    let later: i64 = now + TOKEN_LIFETIME_HOURS * 3600;
    Claims { sub: user.id, role: user.role, exp: later as usize }
}

/// The claims of a token issued to `user` now.
pub fn token_claims(user: &User) -> (c: Claims)
    ensures
        c.sub == user.id,
        c.role == user.role,
        exists|now: int| 0 <= now <= LATEST_TIME && c.exp == expiry_at(now),
{
    let now: i64 = current_unix_time();
    claims_at(user, now)
}

} // verus!
