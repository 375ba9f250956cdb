use vstd::prelude::*;

verus! {

/// A user as the user route answers it.
pub struct User {
    pub id: u128,
    pub display_name: String,
}

/// Why a user could not be fetched.
#[derive(Debug)]
pub enum Error {
    Database(sqlx::Error),
    DoesNotExist,
}

/// The HTTP status that answers each error.
pub open spec fn error_status(e: Error) -> u16 {
    match e {
        Error::DoesNotExist => 404,
        Error::Database(_) => 500,
    }
}

impl Error {
    /// The HTTP status of the response: 404 for a missing user, 500 for a
    /// database failure.
    pub fn status(&self) -> (code: u16)
        ensures
            code == error_status(*self),
    {
        match self {
            Error::DoesNotExist => 404,
            Error::Database(_) => 500,
        }
    }
}

/// The user that the lookup found, or `DoesNotExist`.
pub fn require_user(found: Option<User>) -> (r: Result<User, Error>)
    ensures
        r == match found {
            Some(u) => Ok::<User, Error>(u),
            None => Err(Error::DoesNotExist),
        },
{
    match found {
        Some(user) => Ok(user),
        None => Err(Error::DoesNotExist),
    }
}

} // verus!
