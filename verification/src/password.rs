//! Password hashing and checking with bcrypt.

use vstd::prelude::*;
use crate::status::INTERNAL_SERVER_ERROR;

verus! {

/// The bcrypt work factor that new hashes are made with.
pub const HASH_COST: u32 = 12;

#[verifier::external_type_specification]
#[verifier::external_body]
pub struct ExBcryptError(bcrypt::BcryptError);

/// What `bcrypt::verify` answers for a password and a stored hash:
/// `Some(b)` for `Ok(b)`, `None` for an error (a hash that does not parse).
pub uninterp spec fn bcrypt_verify_outcome(password: Seq<char>, hash: Seq<char>) -> Option<bool>;

/// Calls `bcrypt::hash` on the password's UTF-8 bytes. The hash carries a
/// salt drawn from the operating system, so nothing ties the text to the
/// password alone; the contract claims what the crate's source shows of
/// every successful outcome: the text is `$2b$`, the two-digit cost, `$`,
/// then 53 characters of salt and digest, and `bcrypt::verify` of the same
/// password against it recomputes the same digest from the embedded salt
/// and cost, so it answers `Ok(true)`. An error comes only from the random
/// source or from a cost outside 4..=31.
#[verifier::external_body]
fn bcrypt_hash(password: &String, cost: u32) -> (r: Result<String, bcrypt::BcryptError>)
    ensures
        r matches Ok(h) ==> h@.len() == 60 && bcrypt_verify_outcome(password@, h@) == Some(true),
        r matches Ok(h) ==> cost == HASH_COST ==> h@.subrange(0, 7) == "$2b$12$"@,
{
    bcrypt::hash(password, cost)
}

/// Calls `bcrypt::verify` on the password's UTF-8 bytes and a stored hash.
/// The answer is a function of the two arguments alone (it re-hashes the
/// password with the salt and cost read from the hash); its value is the
/// name `bcrypt_verify_outcome`. An empty hash splits into no parts, so
/// `verify` answers an error for it.
#[verifier::external_body]
fn bcrypt_verify(password: &String, hash: &str) -> (r: Result<bool, bcrypt::BcryptError>)
    ensures
        match r {
            Ok(b) => bcrypt_verify_outcome(password@, hash@) == Some(b),
            Err(_) => bcrypt_verify_outcome(password@, hash@) is None,
        },
        hash@.len() == 0 ==> r is Err,
{
    bcrypt::verify(password, hash)
}

/// What `verify_password` returns for a password and a stored hash.
pub open spec fn verify_password_result(password: Seq<char>, hash: Seq<char>) -> Result<bool, u16> {
    match bcrypt_verify_outcome(password, hash) {
        Some(b) => Ok(b),
        None => Err(INTERNAL_SERVER_ERROR),
    }
}

/// Hashes a password for storage. Any failure of the hasher is answered
/// with status 500. A hash that comes back is one that `verify_password`
/// accepts for the same password.
pub fn hash_password(password: &String) -> (r: Result<String, u16>)
    ensures
        r matches Err(code) ==> code == INTERNAL_SERVER_ERROR,
        r matches Ok(h) ==> verify_password_result(password@, h@) == Ok::<bool, u16>(true),
        r matches Ok(h) ==> h@.len() == 60 && h@.subrange(0, 7) == "$2b$12$"@,
{
    match bcrypt_hash(password, HASH_COST) {
        Ok(h) => Ok(h),
        Err(_) => Err(INTERNAL_SERVER_ERROR),
    }
}

/// Checks a password against a stored hash: `Ok(true)` when they match,
/// `Ok(false)` when they do not, and status 500 when the stored text is not
/// a bcrypt hash.
pub fn verify_password(password: &String, hash: &str) -> (r: Result<bool, u16>)
    ensures
        r == verify_password_result(password@, hash@),
        hash@.len() == 0 ==> r == Err::<bool, u16>(INTERNAL_SERVER_ERROR),
{
    match bcrypt_verify(password, hash) {
        Ok(b) => Ok(b),
        Err(_) => Err(INTERNAL_SERVER_ERROR),
    }
}


/// The answer of `verify_password` is bcrypt's verdict and nothing else:
/// `Ok(b)` exactly when `bcrypt::verify` answers `Ok(b)`, and status 500
/// exactly when it answers an error.
pub proof fn lemma_verify_is_bcrypts_verdict(password: Seq<char>, hash: Seq<char>, b: bool)
    ensures
        (verify_password_result(password, hash) == Ok::<bool, u16>(b)) == (bcrypt_verify_outcome(password, hash) == Some(b)),
        (verify_password_result(password, hash) is Err) == (bcrypt_verify_outcome(password, hash) is None),
        verify_password_result(password, hash) matches Err(code) ==> code == INTERNAL_SERVER_ERROR,
{
}

} // verus!
