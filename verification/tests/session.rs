use axum::http::HeaderValue;
use forum::auth::{require_session, session_id_from_header, Session as HeaderSession, SessionError as HeaderSessionError};
use forum::routes::guarded_test::session_line;
use forum::session::{require_session as require_cookie_session, session_id_from_cookie, Session, SessionError};
use uuid::Uuid;

#[test]
fn session_start_draws_v4_id() {
    let s = Session::start(42);
    assert_eq!(s.user_id, 42);
    assert_eq!(Uuid::from_u128(s.id).get_version_num(), 4);
    assert_eq!(Uuid::from_u128(s.id).get_variant(), uuid::Variant::RFC4122);
    assert_ne!(Session::start(42).id, s.id);
}

#[test]
fn cookie_fields() {
    let s = Session { id: 0x0123_4567_89ab_cdef_0123_4567_89ab_cdef, user_id: 7 };
    let c = s.cookie(false);
    assert_eq!(c.name, "session");
    assert_eq!(c.value, "01234567-89ab-cdef-0123-456789abcdef");
    assert!(c.http_only);
    assert!(c.same_site_strict);
    assert!(c.secure);
    assert_eq!(c.expires_in_days, 7);
    assert!(!s.cookie(true).secure);
}

#[test]
fn cookie_value_reads_back_as_session_id() {
    for id in [0u128, 1, u128::MAX, Uuid::new_v4().as_u128()] {
        let s = Session { id, user_id: 1 };
        let c = s.cookie(true);
        assert_eq!(session_id_from_cookie(Some(&c.value)).unwrap(), Some(id));
    }
}

#[test]
fn cookie_session_id_errors() {
    assert_eq!(session_id_from_cookie(None).unwrap(), None);
    assert!(matches!(session_id_from_cookie(Some("not-a-uuid")), Err(SessionError::Uuid(_))));
    assert_eq!(session_id_from_cookie(Some("0000000000000000000000000000002a")).unwrap(), Some(42));
}

#[test]
fn header_session_id() {
    assert_eq!(session_id_from_header(None).unwrap(), None);
    let text = "00000000-0000-0000-0000-00000000002a";
    assert_eq!(session_id_from_header(Some(Ok(text))).unwrap(), Some(42));
    assert!(matches!(session_id_from_header(Some(Ok("zzz"))), Err(HeaderSessionError::Uuid(_))));
    let bad = HeaderValue::from_bytes(&[0xfa, 0xfb]).unwrap();
    let err = bad.to_str().unwrap_err();
    assert!(matches!(session_id_from_header(Some(Err(err))), Err(HeaderSessionError::ToStr(_))));
}

#[test]
fn session_error_status_codes() {
    assert_eq!(SessionError::NotFound.status(), 401);
    assert_eq!(SessionError::Database(sqlx::Error::RowNotFound).status(), 500);
    assert_eq!(SessionError::Uuid(Uuid::parse_str("x").unwrap_err()).status(), 400);
    let err = HeaderValue::from_bytes(&[0xff]).unwrap().to_str().unwrap_err();
    assert_eq!(SessionError::ToStr(err).status(), 400);
    assert_eq!(HeaderSessionError::NotFound.status(), 401);
    assert_eq!(HeaderSessionError::Database(sqlx::Error::PoolTimedOut).status(), 500);
    assert_eq!(HeaderSessionError::Uuid(Uuid::parse_str("").unwrap_err()).status(), 400);
}

#[test]
fn missing_session_is_not_found() {
    assert!(matches!(require_cookie_session(Ok(None)), Err(SessionError::NotFound)));
    let s = require_cookie_session(Ok(Some(Session { id: 3, user_id: 4 }))).unwrap();
    assert_eq!((s.id, s.user_id), (3, 4));
    assert!(matches!(
        require_cookie_session(Err(SessionError::Database(sqlx::Error::RowNotFound))),
        Err(SessionError::Database(_))
    ));
    assert!(matches!(require_session(Ok(None)), Err(HeaderSessionError::NotFound)));
    let h = require_session(Ok(Some(HeaderSession { user_id: 1, session_id: 2 }))).unwrap();
    assert_eq!((h.user_id, h.session_id), (1, 2));
}

#[test]
fn guarded_line_shows_both_ids() {
    let s = HeaderSession { user_id: 1, session_id: u128::MAX };
    assert_eq!(
        session_line(&s),
        "00000000-0000-0000-0000-000000000001 -> ffffffff-ffff-ffff-ffff-ffffffffffff"
    );
}
