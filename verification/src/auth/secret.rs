//! Checks on the signing secrets read from the environment.
use vstd::prelude::*;
use crate::error::AppError;

verus! {

/// The least number of bytes a configured secret must have.
pub const MINIMUM_SECRET_LENGTH: usize = 32;

/// The length in bytes (UTF-8) of a string with view `s`.
pub open spec fn byte_len(s: Seq<char>) -> nat {
    vstd::utf8::encode_utf8(s).len()
}

/// A configured value is an acceptable secret when it is present and at
/// least `MINIMUM_SECRET_LENGTH` bytes long.
pub open spec fn secret_accepted(configured: Option<String>) -> bool {
    match configured {
        Some(s) => byte_len(s@) >= MINIMUM_SECRET_LENGTH,
        None => false,
    }
}

/// Accepts the value configured for the variable `variable`, or fails with a
/// configuration error naming that variable.
pub fn check_secret(configured: Option<String>, variable: &'static str) -> (r: Result<String, AppError>)
    ensures
        secret_accepted(configured) <==> (r is Ok),
        r matches Ok(s) ==> configured == Some(s),
        r matches Err(e) ==> (e matches AppError::Configuration(name) && name@ == variable@),
        configured matches Some(s) ==> (vstd::utf8::encode_utf8(s@).len() >= 32 ==> r == Ok::<
            String,
            AppError,
        >(s)),
{
    match configured {
        None => Err(AppError::Configuration(variable)),
        Some(secret) => {
            if secret.as_str().as_bytes().len() < MINIMUM_SECRET_LENGTH {
                Err(AppError::Configuration(variable))
            } else {
                Ok(secret)
            }
        },
    }
}

/// The secret that signs user session tokens, from the value of `JWT_SECRET`.
pub fn jwt_secret(configured: Option<String>) -> (r: Result<String, AppError>)
    ensures
        secret_accepted(configured) <==> (r is Ok),
        r matches Ok(s) ==> configured == Some(s),
        r matches Err(e) ==> (e matches AppError::Configuration(name) && name@ == "JWT_SECRET"@),
{
    check_secret(configured, "JWT_SECRET")
}

/// The administrator's shared secret, from the value of `ADMIN_SECRET`.
pub fn admin_secret(configured: Option<String>) -> (r: Result<String, AppError>)
    ensures
        secret_accepted(configured) <==> (r is Ok),
        r matches Ok(s) ==> configured == Some(s),
        r matches Err(e) ==> (e matches AppError::Configuration(name) && name@ == "ADMIN_SECRET"@),
{
    check_secret(configured, "ADMIN_SECRET")
}

/// Every configured value of at least 32 bytes (UTF-8) is accepted as a
/// secret, however long; shorter or absent values are refused.
pub proof fn lemma_long_enough_secret_accepted(configured: Option<String>)
    ensures
        configured matches Some(s) ==> (vstd::utf8::encode_utf8(s@).len() >= 32
            <==> secret_accepted(configured)),
        configured is None ==> !secret_accepted(configured),
{
}

} // verus!
