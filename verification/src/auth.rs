use crate::utils::{hyphenated, parse_uuid, uuid_parse};
use axum::http::header::ToStrError;
use vstd::prelude::*;

verus! {

/// The session a request carries in its `Session-ID` header.
pub struct Session {
    pub user_id: u128,
    pub session_id: u128,
}

/// Why a request's session could not be had.
#[derive(Debug)]
pub enum SessionError {
    Database(sqlx::Error),
    Uuid(uuid::Error),
    ToStr(ToStrError),
    NotFound,
}

/// The HTTP status that answers each session error.
pub open spec fn session_error_status(e: SessionError) -> u16 {
    match e {
        SessionError::Database(_) => 500,
        SessionError::Uuid(_) | SessionError::ToStr(_) => 400,
        SessionError::NotFound => 401,
    }
}

impl SessionError {
    /// The HTTP status of the response to this error: 500 for a database
    /// failure, 400 for a malformed session id, 401 when there is no session.
    pub fn status(&self) -> (code: u16)
        ensures
            code == session_error_status(*self),
    {
        match self {
            SessionError::Database(_) => 500,
            SessionError::Uuid(_) | SessionError::ToStr(_) => 400,
            SessionError::NotFound => 401,
        }
    }
}

/// Turns an optional session into a required one: no session is
/// `SessionError::NotFound`.
pub fn require_session(found: Result<Option<Session>, SessionError>) -> (r: Result<
    Session,
    SessionError,
>)
    ensures
        r == match found {
            Ok(Some(s)) => Ok(s),
            Ok(None) => Err(SessionError::NotFound),
            Err(e) => Err(e),
        },
{
    match found {
        Ok(Some(session)) => Ok(session),
        Ok(None) => Err(SessionError::NotFound),
        Err(err) => Err(err),
    }
}

/// The session id that a `Session-ID` header names: none without the header,
/// a `ToStr` error when its value is not visible ASCII, a `Uuid` error when
/// the text is no UUID.
pub fn session_id_from_header(header: Option<Result<&str, ToStrError>>) -> (r: Result<
    Option<u128>,
    SessionError,
>)
    ensures
        match header {
            None => r matches Ok(None),
            Some(Err(e)) => r == Err::<Option<u128>, SessionError>(SessionError::ToStr(e)),
            Some(Ok(text)) => match uuid_parse(text@) {
                Some(id) => r == Ok::<Option<u128>, SessionError>(Some(id)),
                None => r matches Err(SessionError::Uuid(_)),
            },
        },
        forall|id: u128|
            header matches Some(Ok(text)) && #[trigger] hyphenated(id) == text@ ==> r
                == Ok::<Option<u128>, SessionError>(Some(id)),
{
    let text = match header {
        Some(Ok(text)) => text,
        Some(Err(err)) => return Err(SessionError::ToStr(err)),
        None => return Ok(None),
    };
    match parse_uuid(text) {
        Ok(id) => Ok(Some(id)),
        Err(err) => Err(SessionError::Uuid(err)),
    }
}

} // verus!
