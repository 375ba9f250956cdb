use crate::utils::uuid_bytes;
use argon2::password_hash::{PasswordHash, PasswordHasher, PasswordVerifier, Salt, SaltString};
use argon2::Argon2;
use vstd::prelude::*;

verus! {

/// Whether `password_hash::PasswordHash::new` accepts `phc` as a PHC string.
pub uninterp spec fn phc_parses(phc: Seq<char>) -> bool;

/// What `Argon2::default().verify_password(password, &hash)` answers for the
/// hash that `phc` parses to: `Some(true)` for `Ok`, `Some(false)` for
/// `Error::Password`, `None` for any other error.
pub uninterp spec fn argon2_verify(password: Seq<u8>, phc: Seq<char>) -> Option<bool>;

/// The text of `SaltString::encode_b64(bytes)`, or `None` when it fails.
pub uninterp spec fn b64_salt(bytes: Seq<u8>) -> Option<Seq<char>>;

/// The PHC string of `Argon2::default().hash_password(password, salt)` for
/// the B64 salt `salt`, or `None` when the salt or the hashing fails.
pub uninterp spec fn argon2_phc(password: Seq<u8>, salt: Seq<char>) -> Option<Seq<char>>;

/// How a password check failed.
#[derive(Debug)]
pub enum VerifyFailure {
    /// The password does not match the hash (`password_hash::Error::Password`).
    WrongPassword,
    /// Any other error of the hashing crate.
    Other(argon2::password_hash::Error),
}

/// Calls `PasswordHash::new(phc)` and reports whether it succeeded; the
/// answer is named `phc_parses`.
#[verifier::external_body]
pub(crate) fn phc_is_parsable(phc: &str) -> (r: bool)
    ensures
        r == phc_parses(phc@),
{
    PasswordHash::new(phc).is_ok()
}

/// Calls `Argon2::default().verify_password(password, &hash)` on the hash that
/// `PasswordHash::new(phc)` parses, and tells `Error::Password` apart from the
/// other errors. The outcome is named `argon2_verify`.
#[verifier::external_body]
pub(crate) fn argon2_verify_password(password: &[u8], phc: &str) -> (r: Result<(), VerifyFailure>)
    requires
        phc_parses(phc@),
    ensures
        r is Ok <==> argon2_verify(password@, phc@) == Some(true),
        r is Err && r->Err_0 is WrongPassword <==> argon2_verify(password@, phc@) == Some(false),
        r is Err && r->Err_0 is Other <==> argon2_verify(password@, phc@) is None,
{
    let hash = PasswordHash::new(phc).expect("PHC string checked before");
    match Argon2::default().verify_password(password, &hash) {
        Ok(()) => Ok(()),
        Err(argon2::password_hash::Error::Password) => Err(VerifyFailure::WrongPassword),
        Err(e) => Err(VerifyFailure::Other(e)),
    }
}

/// Calls `SaltString::encode_b64` on the 16 bytes of the UUID `id` and hands
/// out the salt's text, which is named `b64_salt`.
#[verifier::external_body]
pub(crate) fn uuid_salt(id: u128) -> (r: Result<String, argon2::password_hash::Error>)
    ensures
        r is Ok <==> b64_salt(uuid_bytes(id)) is Some,
        r is Ok ==> b64_salt(uuid_bytes(id)) == Some(r->Ok_0@),
{
    SaltString::encode_b64(uuid::Uuid::from_u128(id).as_bytes()).map(|s| s.as_str().to_owned())
}

/// Calls `Argon2::default().hash_password(password, salt)` with the salt that
/// `Salt::from_b64(salt)` reads, and hands out the PHC string of the hash,
/// named `argon2_phc`. The crate documents that this string parses and that
/// the same password verifies against it, which the last clause states.
#[verifier::external_body]
pub(crate) fn argon2_hash_password(password: &[u8], salt: &str) -> (r: Result<
    String,
    argon2::password_hash::Error,
>)
    ensures
        r is Ok <==> argon2_phc(password@, salt@) is Some,
        r is Ok ==> argon2_phc(password@, salt@) == Some(r->Ok_0@),
        r is Ok ==> phc_parses(r->Ok_0@) && argon2_verify(password@, r->Ok_0@) == Some(true),
{
    let salt = Salt::from_b64(salt)?;
    Argon2::default().hash_password(password, salt).map(|h| h.to_string())
}

} // verus!
