use crate::domain::post::slug::{check_slug, Slug, SlugError};
use vstd::prelude::*;

verus! {

/// A post as the post route answers it.
pub struct Post {
    pub id: u128,
    pub title: String,
    pub content: String,
}

/// Why a post could not be fetched.
#[derive(Debug)]
pub enum Error {
    Slug(SlugError),
    Database(sqlx::Error),
    DoesNotExist,
}

/// The HTTP status that answers each error.
pub open spec fn error_status(e: Error) -> u16 {
    match e {
        Error::Slug(_) => 400,
        Error::DoesNotExist => 404,
        Error::Database(_) => 500,
    }
}

impl Error {
    /// The HTTP status of the response: 400 for a malformed slug, 404 for a
    /// missing post, 500 for a database failure.
    pub fn status(&self) -> (code: u16)
        ensures
            code == error_status(*self),
    {
        match self {
            Error::Slug(_) => 400,
            Error::DoesNotExist => 404,
            Error::Database(_) => 500,
        }
    }
}

/// Reads the slug of the request path.
pub fn parse_slug(text: String) -> (r: Result<Slug, Error>)
    ensures
        match check_slug(text@) {
            Ok(s) => r is Ok && r->Ok_0@ == s,
            Err(e) => r == Err::<Slug, Error>(Error::Slug(e)),
        },
{
    match Slug::try_from(text) {
        Ok(slug) => Ok(slug),
        Err(e) => Err(Error::Slug(e)),
    }
}

/// The post that the lookup found, or `DoesNotExist`.
pub fn require_post(found: Option<Post>) -> (r: Result<Post, Error>)
    ensures
        r == match found {
            Some(p) => Ok::<Post, Error>(p),
            None => Err(Error::DoesNotExist),
        },
{
    match found {
        Some(post) => Ok(post),
        None => Err(Error::DoesNotExist),
    }
}

} // verus!
