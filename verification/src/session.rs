use crate::utils::{hyphenated, nibble, new_v4, parse_uuid, uuid_parse, uuid_text};
use axum::http::header::ToStrError;
use vstd::prelude::*;

verus! {

/// How many days a session lasts.
pub const SESSION_DAYS: i64 = 7;

/// A login session of a user.
#[derive(Debug)]
pub struct Session {
    pub id: u128,
    pub user_id: u128,
}

/// The cookie that carries a session, as plain values.
#[derive(Debug)]
pub struct SessionCookie {
    pub name: String,
    pub value: String,
    pub http_only: bool,
    /// The cookie is sent with same-site requests only (`SameSite=Strict`).
    pub same_site_strict: bool,
    pub secure: bool,
    /// The cookie expires this many days after it is set.
    pub expires_in_days: i64,
}

/// Why a request's session could not be had.
#[derive(Debug)]
pub enum SessionError {
    Database(sqlx::Error),
    Uuid(uuid::Error),
    ToStr(ToStrError),
    NotFound,
}

/// The HTTP status that answers each session error.
pub open spec fn session_error_status(e: SessionError) -> u16 {
    match e {
        SessionError::Database(_) => 500,
        SessionError::Uuid(_) | SessionError::ToStr(_) => 400,
        SessionError::NotFound => 401,
    }
}

impl Session {
    /// A new session of `user_id` under a fresh random version-4 UUID.
    pub fn start(user_id: u128) -> (s: Session)
        ensures
            s.user_id == user_id,
            nibble(s.id, 12) == 4,
            8 <= nibble(s.id, 16) < 12,
    {
        Session { id: new_v4(), user_id }
    }

    /// The cookie that hands this session to the browser: named `session`,
    /// holding the session id's text, HTTP-only, same-site strict, lasting
    /// seven days, and secure unless `debug_build`.
    pub fn cookie(&self, debug_build: bool) -> (c: SessionCookie)
        ensures
            c.name@ == "session"@,
            c.value@ == hyphenated(self.id),
            c.http_only,
            c.same_site_strict,
            c.secure == !debug_build,
            c.expires_in_days == SESSION_DAYS,
    {
        SessionCookie {
            name: String::from_str("session"),
            value: uuid_text(self.id),
            http_only: true,
            same_site_strict: true,
            secure: !debug_build,
            expires_in_days: SESSION_DAYS,
        }
    }
}

impl SessionError {
    /// The HTTP status of the response to this error: 500 for a database
    /// failure, 400 for a malformed session id, 401 when there is no session.
    pub fn status(&self) -> (code: u16)
        ensures
            code == session_error_status(*self),
    {
        match self {
            SessionError::Database(_) => 500,
            SessionError::Uuid(_) | SessionError::ToStr(_) => 400,
            SessionError::NotFound => 401,
        }
    }
}

/// Turns an optional session into a required one: no session is
/// `SessionError::NotFound`.
pub fn require_session(found: Result<Option<Session>, SessionError>) -> (r: Result<
    Session,
    SessionError,
>)
    ensures
        r == match found {
            Ok(Some(s)) => Ok(s),
            Ok(None) => Err(SessionError::NotFound),
            Err(e) => Err(e),
        },
{
    match found {
        Ok(Some(session)) => Ok(session),
        Ok(None) => Err(SessionError::NotFound),
        Err(err) => Err(err),
    }
}

/// The session id that the `session` cookie names: none without the cookie,
/// a `Uuid` error when its value is no UUID. The value that `cookie` writes
/// is read back as the same id.
pub fn session_id_from_cookie(value: Option<&str>) -> (r: Result<Option<u128>, SessionError>)
    ensures
        match value {
            None => r matches Ok(None),
            Some(text) => match uuid_parse(text@) {
                Some(id) => r == Ok::<Option<u128>, SessionError>(Some(id)),
                None => r matches Err(SessionError::Uuid(_)),
            },
        },
        forall|id: u128|
            value matches Some(text) && #[trigger] hyphenated(id) == text@ ==> r
                == Ok::<Option<u128>, SessionError>(Some(id)),
{
    match value {
        Some(text) => match parse_uuid(text) {
            Ok(id) => Ok(Some(id)),
            Err(err) => Err(SessionError::Uuid(err)),
        },
        None => Ok(None),
    }
}

} // verus!
