use argon2::password_hash::Error as PasswordHashError;
use axum::http::header::ToStrError;
use sqlx::Error as SqlxError;
use uuid::Error as UuidError;
use vstd::prelude::*;

verus! {

/// `sqlx::Error`, carried through as it is.
#[verifier::external_type_specification]
#[verifier::external_body]
pub struct ExSqlxError(SqlxError);

/// `uuid::Error`, carried through as it is.
#[verifier::external_type_specification]
#[verifier::external_body]
pub struct ExUuidError(UuidError);

/// `http::header::ToStrError`, carried through as it is.
#[verifier::external_type_specification]
#[verifier::external_body]
pub struct ExToStrError(ToStrError);

/// `password_hash::Error`, carried through as it is.
#[verifier::external_type_specification]
#[verifier::external_body]
pub struct ExPasswordHashError(PasswordHashError);

} // verus!
