use vstd::prelude::*;

verus! {

/// The query of a logout: whether to end every session of the user.
pub struct LogoutQuery {
    pub all: bool,
}

/// Which sessions a logout ends.
#[derive(Debug, Clone, Copy, PartialEq, Eq, Structural)]
pub enum LogoutScope {
    /// Only the session of the request.
    CurrentSession,
    /// Every session of the user.
    AllSessions,
}

/// Why a logout failed.
#[derive(Debug)]
pub enum Error {
    Database(sqlx::Error),
}

impl Error {
    /// The HTTP status of the response: always 500.
    pub fn status(&self) -> (code: u16)
        ensures
            code == 500,
    {
        match self {
            Error::Database(_) => 500,
        }
    }
}

impl LogoutQuery {
    /// The sessions to end: all of them when `all` is set, else the current one.
    pub fn scope(&self) -> (s: LogoutScope)
        ensures
            s == (if self.all {
                LogoutScope::AllSessions
            } else {
                LogoutScope::CurrentSession
            }),
    {
        if self.all {
            LogoutScope::AllSessions
        } else {
            LogoutScope::CurrentSession
        }
    }
}

} // verus!
