use crate::auth::Session;
use crate::utils::{hyphenated, uuid_text};
use vstd::prelude::*;

verus! {

/// The answer of the guarded test route: `{user id} -> {session id}`, both
/// in their hyphenated text.
pub fn session_line(session: &Session) -> (s: String)
    ensures
        s@ == hyphenated(session.user_id) + " -> "@ + hyphenated(session.session_id),
{
    let mut s = uuid_text(session.user_id);
    s.append(" -> ");
    let tail = uuid_text(session.session_id);
    s.append(tail.as_str());
    s
}

} // verus!
