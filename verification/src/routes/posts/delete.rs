use vstd::prelude::*;

verus! {

/// Why a post could not be deleted.
#[derive(Debug)]
pub enum Error {
    Database(sqlx::Error),
    DoesNotExist,
    Unauthorized,
}

/// The HTTP status that answers each error.
pub open spec fn error_status(e: Error) -> u16 {
    match e {
        Error::Unauthorized => 401,
        Error::DoesNotExist => 404,
        Error::Database(_) => 500,
    }
}

impl Error {
    /// The HTTP status of the response: 401, 404, or 500 for a database failure.
    pub fn status(&self) -> (code: u16)
        ensures
            code == error_status(*self),
    {
        match self {
            Error::Unauthorized => 401,
            Error::DoesNotExist => 404,
            Error::Database(_) => 500,
        }
    }
}

/// Only the author of a post may delete it: `DoesNotExist` without a post,
/// `Unauthorized` when the session's user is not its author.
pub fn authorize(session_user: u128, author: Option<u128>) -> (r: Result<(), Error>)
    ensures
        r is Ok <==> author == Some(session_user),
        author is None ==> r matches Err(Error::DoesNotExist),
        author matches Some(a) && a != session_user ==> r matches Err(Error::Unauthorized),
{
    let author = match author {
        Some(author) => author,
        None => return Err(Error::DoesNotExist),
    };
    if session_user != author {
        return Err(Error::Unauthorized);
    }
    Ok(())
}

} // verus!
