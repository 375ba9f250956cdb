use crate::credentials::{argon2_hash_password, argon2_phc, argon2_verify, b64_salt, phc_parses, uuid_salt};
use crate::domain::user::password::Password;
use crate::domain::user::username::Username;
use crate::models::user::display_name::DisplayName;
use crate::utils::uuid_bytes;
use vstd::prelude::*;
use vstd::utf8::encode_utf8;

verus! {

/// The request body of a registration.
pub struct Body {
    pub username: Username,
    pub display_name: DisplayName,
    pub password: Password,
}

/// Why a registration failed.
#[derive(Debug)]
pub enum Error {
    Database(sqlx::Error),
    PasswordHash(argon2::password_hash::Error),
    AlreadyExists,
}

/// The HTTP status that answers each registration error.
pub open spec fn error_status(e: Error) -> u16 {
    match e {
        Error::AlreadyExists => 409,
        Error::Database(_) | Error::PasswordHash(_) => 500,
    }
}

impl Error {
    /// The HTTP status of the response: 409 for a taken user name, 500 otherwise.
    pub fn status(&self) -> (code: u16)
        ensures
            code == error_status(*self),
    {
        match self {
            Error::AlreadyExists => 409,
            Error::Database(_) | Error::PasswordHash(_) => 500,
        }
    }
}

/// The PHC string stored for `password` of the user `id`: Argon2 with the
/// B64 text of the id's 16 bytes as salt.
pub open spec fn stored_hash(password: Seq<char>, id: u128) -> Option<Seq<char>> {
    match b64_salt(uuid_bytes(id)) {
        Some(salt) => argon2_phc(encode_utf8(password), salt),
        None => None,
    }
}

/// Hashes `password` for the new user `id`, salted with the id's bytes. The
/// hash it returns is a PHC string against which the same password verifies.
pub fn hash_password(password: &Password, id: u128) -> (r: Result<
    String,
    argon2::password_hash::Error,
>)
    ensures
        r is Ok <==> stored_hash(password@, id) is Some,
        r is Ok ==> stored_hash(password@, id) == Some(r->Ok_0@),
        r is Ok ==> phc_parses(r->Ok_0@) && argon2_verify(encode_utf8(password@), r->Ok_0@)
            == Some(true),
{
    let salt = match uuid_salt(id) {
        Ok(salt) => salt,
        Err(err) => return Err(err),
    };
    argon2_hash_password(password.as_bytes(), salt.as_str())
}

/// The decision of a registration once it is known whether the user name is
/// taken: `AlreadyExists` if it is, else the password hash to store, which is
/// a PHC string against which the same password verifies.
pub fn prepare_registration(username_taken: bool, id: u128, password: &Password) -> (r: Result<
    String,
    Error,
>)
    ensures
        username_taken ==> r matches Err(Error::AlreadyExists),
        !username_taken ==> (r is Ok <==> stored_hash(password@, id) is Some),
        !username_taken && r is Ok ==> stored_hash(password@, id) == Some(r->Ok_0@),
        !username_taken && r is Ok ==> phc_parses(r->Ok_0@) && argon2_verify(
            encode_utf8(password@),
            r->Ok_0@,
        ) == Some(true),
        !username_taken && r is Err ==> r->Err_0 is PasswordHash,
{
    if username_taken {
        return Err(Error::AlreadyExists);
    }
    match hash_password(password, id) {
        Ok(hash) => Ok(hash),
        Err(err) => Err(Error::PasswordHash(err)),
    }
}

} // verus!
