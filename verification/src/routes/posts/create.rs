use crate::domain::post::content::{check_content, Content, ContentError};
use crate::domain::post::slug::{is_tagged, Slug};
use crate::domain::post::title::{check_title, Title, TitleError};
use crate::utils::before_last_hyphen;
use vstd::prelude::*;

verus! {

/// The request body of a new post.
pub struct Body {
    pub title: String,
    pub content: String,
}

/// Why a post could not be created.
#[derive(Debug)]
pub enum Error {
    Title(TitleError),
    Content(ContentError),
    Database(sqlx::Error),
}

/// The HTTP status that answers each error.
pub open spec fn error_status(e: Error) -> u16 {
    match e {
        Error::Title(_) | Error::Content(_) => 400,
        Error::Database(_) => 500,
    }
}

impl Error {
    /// The HTTP status of the response: 400 for a refused title or content,
    /// 500 for a database failure.
    pub fn status(&self) -> (code: u16)
        ensures
            code == error_status(*self),
    {
        match self {
            Error::Title(_) | Error::Content(_) => 400,
            Error::Database(_) => 500,
        }
    }
}

impl From<TitleError> for Error {
    fn from(e: TitleError) -> (r: Error)
        ensures
            r == Error::Title(e),
    {
        Error::Title(e)
    }
}

impl vstd::std_specs::convert::FromSpecImpl<TitleError> for Error {
    open spec fn obeys_from_spec() -> bool {
        true
    }

    open spec fn from_spec(e: TitleError) -> Error {
        Error::Title(e)
    }
}

impl From<ContentError> for Error {
    fn from(e: ContentError) -> (r: Error)
        ensures
            r == Error::Content(e),
    {
        Error::Content(e)
    }
}

impl vstd::std_specs::convert::FromSpecImpl<ContentError> for Error {
    open spec fn obeys_from_spec() -> bool {
        true
    }

    open spec fn from_spec(e: ContentError) -> Error {
        Error::Content(e)
    }
}

/// Checks the title, then the content, of a new post.
pub fn validate(body: Body) -> (r: Result<(Title, Content), Error>)
    ensures
        match check_title(body.title@) {
            Err(e) => r == Err::<(Title, Content), Error>(Error::Title(e)),
            Ok(t) => match check_content(body.content@) {
                Err(e) => r == Err::<(Title, Content), Error>(Error::Content(e)),
                Ok(c) => r is Ok && r->Ok_0.0@ == t && r->Ok_0.1@ == c,
            },
        },
{
    let title = match Title::try_from(body.title) {
        Ok(title) => title,
        Err(e) => return Err(Error::Title(e)),
    };
    let content = match Content::try_from(body.content) {
        Ok(content) => content,
        Err(e) => return Err(Error::Content(e)),
    };
    Ok((title, content))
}

/// One step of finding a free slug: when `taken`, draws a new random token
/// and asks for another look; otherwise the slug is the one to use.
pub fn advance_slug(slug: &mut Slug, taken: bool) -> (done: bool)
    ensures
        done == !taken,
        !taken ==> final(slug)@ == old(slug)@,
        taken ==> is_tagged(before_last_hyphen(old(slug)@), final(slug)@),
        taken ==> before_last_hyphen(final(slug)@) == before_last_hyphen(old(slug)@),
{
    if taken {
        slug.randomize();
        false
    } else {
        true
    }
}

} // verus!
