use vstd::prelude::*;

verus! {

/// A post as the list route answers it, with its author's user name.
pub struct Post {
    pub id: u128,
    pub title: String,
    pub content: String,
    pub username: String,
}

/// Why the posts could not be listed.
#[derive(Debug)]
pub enum Error {
    Database(sqlx::Error),
}

impl Error {
    /// The HTTP status of the response: always 500.
    pub fn status(&self) -> (code: u16)
        ensures
            code == 500,
    {
        match self {
            Error::Database(_) => 500,
        }
    }
}

} // verus!
