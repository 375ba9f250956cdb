use crate::credentials::{argon2_verify, argon2_verify_password, phc_is_parsable, phc_parses, VerifyFailure};
use crate::domain::user::password::Password;
use crate::domain::user::username::Username;
use vstd::prelude::*;
use vstd::utf8::encode_utf8;

verus! {

/// The request body of a login.
pub struct Body {
    pub username: Username,
    pub password: Password,
}

/// The stored record of a user that a login reads.
pub struct User {
    pub id: u128,
    pub password_hash: String,
}

/// Why a login failed.
#[derive(Debug)]
pub enum Error {
    Database(sqlx::Error),
    PasswordHash(argon2::password_hash::Error),
    DoesNotExist,
    InvalidCredentials,
}

/// The HTTP status that answers each login error.
pub open spec fn error_status(e: Error) -> u16 {
    match e {
        Error::DoesNotExist => 400,
        Error::InvalidCredentials => 401,
        Error::Database(_) | Error::PasswordHash(_) => 500,
    }
}

impl Error {
    /// The HTTP status of the response: 400 for an unknown user, 401 for a
    /// wrong password, 500 otherwise.
    pub fn status(&self) -> (code: u16)
        ensures
            code == error_status(*self),
    {
        match self {
            Error::DoesNotExist => 400,
            Error::InvalidCredentials => 401,
            Error::Database(_) | Error::PasswordHash(_) => 500,
        }
    }
}

/// Whether `password` matches the PHC string `hash`: `Ok(true)` when Argon2
/// verifies it, `Ok(false)` when it reports a wrong password, the error
/// otherwise.
pub fn check_password(password: Password, hash: String) -> (r: Result<
    bool,
    argon2::password_hash::Error,
>)
    requires
        phc_parses(hash@),
    ensures
        match argon2_verify(encode_utf8(password@), hash@) {
            Some(b) => r is Ok && r->Ok_0 == b,
            None => r is Err,
        },
{
    match argon2_verify_password(password.as_bytes(), hash.as_str()) {
        Ok(()) => Ok(true),
        Err(VerifyFailure::WrongPassword) => Ok(false),
        Err(VerifyFailure::Other(err)) => Err(err),
    }
}

/// `check_password` where `hash` is a PHC string; `None` where it is not.
pub fn try_check_password(password: Password, hash: String) -> (r: Option<
    Result<bool, argon2::password_hash::Error>,
>)
    ensures
        r is None <==> !phc_parses(hash@),
        r is Some ==> match argon2_verify(encode_utf8(password@), hash@) {
            Some(b) => r->0 is Ok && r->0->Ok_0 == b,
            None => r->0 is Err,
        },
{
    if !phc_is_parsable(hash.as_str()) {
        return None;
    }
    Some(check_password(password, hash))
}

/// The decision of a login once the user is looked up: the user's id when
/// the password matches; `DoesNotExist` without a user, `InvalidCredentials`
/// for a wrong password, `PasswordHash` when the check fails. `None` when the
/// stored hash is no PHC string.
pub fn authenticate(user: Option<User>, password: Password) -> (r: Option<Result<u128, Error>>)
    ensures
        match user {
            None => r matches Some(Err(Error::DoesNotExist)),
            Some(u) => if !phc_parses(u.password_hash@) {
                r is None
            } else {
                match argon2_verify(encode_utf8(password@), u.password_hash@) {
                    Some(true) => r == Some(Ok::<u128, Error>(u.id)),
                    Some(false) => r matches Some(Err(Error::InvalidCredentials)),
                    None => r matches Some(Err(Error::PasswordHash(_))),
                }
            },
        },
{
    let user = match user {
        Some(user) => user,
        None => return Some(Err(Error::DoesNotExist)),
    };
    let id = user.id;
    match try_check_password(password, user.password_hash) {
        None => None,
        Some(Ok(true)) => Some(Ok(id)),
        Some(Ok(false)) => Some(Err(Error::InvalidCredentials)),
        Some(Err(err)) => Some(Err(Error::PasswordHash(err))),
    }
}

} // verus!
