use forum::domain::post::content::ContentError;
use forum::domain::post::slug::{Slug, SlugError};
use forum::domain::post::title::TitleError;
use forum::domain::user::password::Password;
use forum::routes::auth::login::{self, authenticate, check_password, try_check_password, User};
use forum::routes::auth::logout::{self, LogoutQuery, LogoutScope};
use forum::routes::auth::register::{self, hash_password, prepare_registration};
use forum::routes::posts::create::{self, advance_slug, validate};
use forum::routes::posts::{delete as post_delete, get as post_get, list as post_list, update as post_update};
use forum::routes::users::{delete as user_delete, get as user_get, update as user_update};

fn pw(s: &str) -> Password {
    Password::try_from(s.to_string()).ok().unwrap()
}

#[test]
fn registered_password_passes_login_check() {
    let id = 0x1234_5678_9abc_def0_1234_5678_9abc_def0u128;
    let hash = hash_password(&pw("hunter2hunter2"), id).unwrap();
    assert!(hash.starts_with("$argon2id$"), "{hash}");
    assert!(check_password(pw("hunter2hunter2"), hash.clone()).unwrap());
    assert!(!check_password(pw("hunter3hunter3"), hash).unwrap());
}

#[test]
fn hash_is_salted_with_user_id() {
    let a = hash_password(&pw("same password"), 1).unwrap();
    let b = hash_password(&pw("same password"), 2).unwrap();
    assert_ne!(a, b);
    assert_eq!(a, hash_password(&pw("same password"), 1).unwrap());
}

#[test]
fn malformed_stored_hash_is_reported() {
    assert!(try_check_password(pw("whatever1"), "not a phc string".to_string()).is_none());
    assert!(authenticate(Some(User { id: 1, password_hash: "$$".to_string() }), pw("whatever1")).is_none());
}

#[test]
fn authenticate_decisions() {
    assert!(matches!(authenticate(None, pw("password1")), Some(Err(login::Error::DoesNotExist))));
    let hash = hash_password(&pw("password1"), 9).unwrap();
    let user = User { id: 9, password_hash: hash.clone() };
    assert!(matches!(authenticate(Some(user), pw("password1")), Some(Ok(9))));
    let user = User { id: 9, password_hash: hash };
    assert!(matches!(
        authenticate(Some(user), pw("password2")),
        Some(Err(login::Error::InvalidCredentials))
    ));
}

#[test]
fn login_status_codes() {
    assert_eq!(login::Error::DoesNotExist.status(), 400);
    assert_eq!(login::Error::InvalidCredentials.status(), 401);
    assert_eq!(login::Error::Database(sqlx::Error::RowNotFound).status(), 500);
    assert_eq!(login::Error::PasswordHash(argon2::password_hash::Error::Password).status(), 500);
}

#[test]
fn registration_decisions() {
    assert!(matches!(
        prepare_registration(true, 5, &pw("password1")),
        Err(register::Error::AlreadyExists)
    ));
    let hash = prepare_registration(false, 5, &pw("password1")).unwrap();
    assert!(check_password(pw("password1"), hash).unwrap());
    assert_eq!(register::Error::AlreadyExists.status(), 409);
    assert_eq!(register::Error::Database(sqlx::Error::RowNotFound).status(), 500);
    assert_eq!(register::Error::PasswordHash(argon2::password_hash::Error::Password).status(), 500);
}

#[test]
fn logout_scope_follows_query() {
    assert_eq!(LogoutQuery { all: true }.scope(), LogoutScope::AllSessions);
    assert_eq!(LogoutQuery { all: false }.scope(), LogoutScope::CurrentSession);
    assert_eq!(logout::Error::Database(sqlx::Error::RowNotFound).status(), 500);
}

#[test]
fn create_post_validation() {
    let ok = validate(create::Body { title: " A title ".to_string(), content: " text ".to_string() });
    let (t, c) = ok.unwrap();
    assert_eq!((t.as_ref(), c.as_ref()), ("A title", "text"));
    let bad_title = validate(create::Body { title: "  ".to_string(), content: "".to_string() });
    assert!(matches!(bad_title, Err(create::Error::Title(TitleError::Empty))));
    let bad_content = validate(create::Body { title: "t".to_string(), content: "\n".to_string() });
    assert!(matches!(bad_content, Err(create::Error::Content(ContentError::Empty))));
    assert_eq!(create::Error::Title(TitleError::LengthExceeded).status(), 400);
    assert_eq!(create::Error::Content(ContentError::Empty).status(), 400);
    assert_eq!(create::Error::Database(sqlx::Error::RowNotFound).status(), 500);
    assert!(matches!(create::Error::from(TitleError::Empty), create::Error::Title(TitleError::Empty)));
    assert!(matches!(create::Error::from(ContentError::Empty), create::Error::Content(ContentError::Empty)));
}

#[test]
fn slug_search_steps() {
    let mut slug = Slug::try_from("post-aaaaaaaaaaaa".to_string()).unwrap();
    assert!(advance_slug(&mut slug, false));
    assert_eq!(slug.as_ref(), "post-aaaaaaaaaaaa");
    assert!(!advance_slug(&mut slug, true));
    assert!(slug.as_ref().starts_with("post-"));
    assert_ne!(slug.as_ref(), "post-aaaaaaaaaaaa");
}

#[test]
fn owner_checks() {
    assert!(post_delete::authorize(1, Some(1)).is_ok());
    assert!(matches!(post_delete::authorize(1, Some(2)), Err(post_delete::Error::Unauthorized)));
    assert!(matches!(post_delete::authorize(1, None), Err(post_delete::Error::DoesNotExist)));
    assert!(post_update::authorize(3, Some(3)).is_ok());
    assert!(matches!(post_update::authorize(3, Some(4)), Err(post_update::Error::Unauthorized)));
    assert!(matches!(post_update::authorize(3, None), Err(post_update::Error::DoesNotExist)));
    assert!(user_delete::authorize(5, Some(5)).is_ok());
    assert!(matches!(user_delete::authorize(5, Some(6)), Err(user_delete::Error::Unauthorized)));
    assert!(matches!(user_delete::authorize(5, None), Err(user_delete::Error::DoesNotExist)));
    assert!(user_update::authorize(7, Some(7)).is_ok());
    assert!(matches!(user_update::authorize(7, Some(8)), Err(user_update::Error::Unauthorized)));
    assert!(matches!(user_update::authorize(7, None), Err(user_update::Error::DoesNotExist)));
}

#[test]
fn owner_route_status_codes() {
    assert_eq!(post_delete::Error::Unauthorized.status(), 401);
    assert_eq!(post_delete::Error::DoesNotExist.status(), 404);
    assert_eq!(post_delete::Error::Database(sqlx::Error::RowNotFound).status(), 500);
    assert_eq!(post_update::Error::Unauthorized.status(), 401);
    assert_eq!(post_update::Error::DoesNotExist.status(), 404);
    assert_eq!(post_update::Error::Database(sqlx::Error::RowNotFound).status(), 500);
    assert_eq!(user_delete::Error::Unauthorized.status(), 401);
    assert_eq!(user_delete::Error::DoesNotExist.status(), 404);
    assert_eq!(user_delete::Error::Database(sqlx::Error::RowNotFound).status(), 500);
    assert_eq!(user_update::Error::Unauthorized.status(), 401);
    assert_eq!(user_update::Error::DoesNotExist.status(), 404);
    assert_eq!(user_update::Error::Database(sqlx::Error::RowNotFound).status(), 500);
}

#[test]
fn get_post_route_pieces() {
    assert_eq!(post_get::parse_slug("a-1".to_string()).unwrap().as_ref(), "a-1");
    assert!(matches!(post_get::parse_slug("".to_string()), Err(post_get::Error::Slug(SlugError::Empty))));
    assert!(matches!(
        post_get::parse_slug("a b".to_string()),
        Err(post_get::Error::Slug(SlugError::InvalidCharacter))
    ));
    assert!(matches!(post_get::require_post(None), Err(post_get::Error::DoesNotExist)));
    let post = post_get::Post { id: 1, title: "t".to_string(), content: "c".to_string() };
    assert_eq!(post_get::require_post(Some(post)).unwrap().title, "t");
    assert_eq!(post_get::Error::Slug(SlugError::Empty).status(), 400);
    assert_eq!(post_get::Error::DoesNotExist.status(), 404);
    assert_eq!(post_get::Error::Database(sqlx::Error::RowNotFound).status(), 500);
    assert_eq!(post_list::Error::Database(sqlx::Error::RowNotFound).status(), 500);
}

#[test]
fn get_user_route_pieces() {
    assert!(matches!(user_get::require_user(None), Err(user_get::Error::DoesNotExist)));
    let u = user_get::User { id: 2, display_name: "D".to_string() };
    assert_eq!(user_get::require_user(Some(u)).unwrap().id, 2);
    assert_eq!(user_get::Error::DoesNotExist.status(), 404);
    assert_eq!(user_get::Error::Database(sqlx::Error::RowNotFound).status(), 500);
}
