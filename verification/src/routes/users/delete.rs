use vstd::prelude::*;

verus! {

/// Why a user could not be deleted.
#[derive(Debug)]
pub enum Error {
    Database(sqlx::Error),
    DoesNotExist,
    Unauthorized,
}

/// The HTTP status that answers each error.
pub open spec fn error_status(e: Error) -> u16 {
    match e {
        Error::Unauthorized => 401,
        Error::DoesNotExist => 404,
        Error::Database(_) => 500,
    }
}

impl Error {
    /// The HTTP status of the response: 401, 404, or 500 for a database failure.
    pub fn status(&self) -> (code: u16)
        ensures
            code == error_status(*self),
    {
        match self {
            Error::Unauthorized => 401,
            Error::DoesNotExist => 404,
            Error::Database(_) => 500,
        }
    }
}

/// Only a user may delete themselves: `DoesNotExist` without such a user,
/// `Unauthorized` when the session belongs to another user.
pub fn authorize(session_user: u128, target: Option<u128>) -> (r: Result<(), Error>)
    ensures
        r is Ok <==> target == Some(session_user),
        target is None ==> r matches Err(Error::DoesNotExist),
        target matches Some(a) && a != session_user ==> r matches Err(Error::Unauthorized),
{
    let target = match target {
        Some(target) => target,
        None => return Err(Error::DoesNotExist),
    };
    if session_user != target {
        return Err(Error::Unauthorized);
    }
    Ok(())
}

} // verus!
