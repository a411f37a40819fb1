use actix_crud::db::{DbError, DbErrorKind, SqliteErrorCode, SQLITE_CONSTRAINT_PRIMARYKEY};
use actix_crud::error::{Error, ErrorKind};
use actix_crud::response::Body;
use actix_crud::user::{
    check_logged_out, logged_in_response, logged_out_response, login_refused_response, redirect_location,
    registered_response, registration_failed, AuthorizedUser, Rejection, SessionKey, User, PASSWORD_HASH_COST,
};

fn user(name: &str, password: &str) -> User {
    User { username: name.to_string(), password: password.to_string() }
}

fn no_rows() -> DbError {
    DbError { kind: DbErrorKind::QueryReturnedNoRows, message: "Query returned no rows".to_string() }
}

#[test]
fn registration_checks() {
    assert_eq!(user("", "pw").validate(), Err(Error { kind: ErrorKind::BadRequest, message: "empty username".to_string() }));
    assert_eq!(user("", "").validate().unwrap_err().message, "empty username");
    assert_eq!(user("ann", "").validate(), Err(Error { kind: ErrorKind::BadRequest, message: "empty password".to_string() }));
    assert_eq!(user("ann", "pw").validate(), Ok(()));
}

#[test]
fn registered_password_logs_in() {
    assert_eq!(PASSWORD_HASH_COST, 4);
    let u = user("ann", "hunter2");
    let hash = u.password_hash().unwrap();
    assert!(hash.starts_with("$2b$04$"));
    assert_eq!(hash.len(), 60);
    assert!(u.verify_password(Ok(hash.clone())));
    assert!(!user("ann", "hunter3").verify_password(Ok(hash)));
}

#[test]
fn unknown_users_and_bad_hashes_do_not_log_in() {
    let u = user("ann", "hunter2");
    assert!(!u.verify_password(Err(no_rows())));
    assert!(!u.verify_password(Ok("not a hash".to_string())));
    // a hash made by another implementation
    assert!(user("x", "password").verify_password(Ok("$2a$04$UuTkLRZZ6QofpDOlMz32MuuxEHA43WOemOYHPz6.SjsVsyO1tDU96".to_string())));
}

#[test]
fn session_keys_round_trip() {
    let k = SessionKey::new();
    assert_eq!(k.text.len(), 36);
    assert_eq!(AuthorizedUser::session_uuid(Some(&k.text)), Ok(k.uuid));
    assert_eq!(uuid::Uuid::parse_str(&k.text).unwrap().get_version_num(), 4);
    let u = AuthorizedUser { username: "ann".to_string(), uuid: k.uuid };
    assert_eq!(u.session_key_text(), k.text);
    assert_ne!(SessionKey::new().uuid, k.uuid);
}

#[test]
fn session_cookie_checks() {
    assert_eq!(
        AuthorizedUser::session_uuid(None),
        Err(Rejection { error: Error { kind: ErrorKind::Unauthorized, message: "unauthorized".to_string() }, clear_session: false })
    );
    assert_eq!(
        AuthorizedUser::session_uuid(Some("not-a-uuid")),
        Err(Rejection {
            error: Error { kind: ErrorKind::InternalServerError, message: "invalid session".to_string() },
            clear_session: true
        })
    );
    assert_eq!(
        AuthorizedUser::session_uuid(Some("936da01f-9abd-4d9d-80c7-02af85c822a8")),
        Ok(0x936da01f_9abd_4d9d_80c7_02af85c822a8)
    );
}

#[test]
fn session_lookups() {
    assert_eq!(
        AuthorizedUser::from_session(7, Ok("ann".to_string())),
        Ok(AuthorizedUser { username: "ann".to_string(), uuid: 7 })
    );
    assert_eq!(
        AuthorizedUser::from_session(7, Err(no_rows())),
        Err(Rejection { error: Error { kind: ErrorKind::Unauthorized, message: "invalid session".to_string() }, clear_session: true })
    );
    let broken = DbError { kind: DbErrorKind::Other, message: "disk".to_string() };
    assert_eq!(
        AuthorizedUser::from_session(7, Err(broken)),
        Err(Rejection { error: Error { kind: ErrorKind::InternalServerError, message: "disk".to_string() }, clear_session: false })
    );
    let r = AuthorizedUser::no_database();
    assert_eq!(r.error.message, "unable to connect to db");
    assert_eq!(r.error.kind, ErrorKind::InternalServerError);
    assert!(!r.clear_session);
    assert_eq!(AuthorizedUser { username: "bob".to_string(), uuid: 1 }.get_username(), "bob");
}

#[test]
fn logged_out_check() {
    assert_eq!(check_logged_out(None), Ok(()));
    assert_eq!(
        check_logged_out(Some("anything")),
        Err(Error { kind: ErrorKind::BadRequest, message: "already logged in".to_string() })
    );
}

#[test]
fn redirects() {
    assert_eq!(redirect_location(None), "/");
    assert_eq!(redirect_location(Some("/docs")), "/docs");
    let r = registered_response(Some("/page"));
    assert_eq!(r.status, 303);
    assert_eq!(r.headers, vec![("location".to_string(), "/page".to_string())]);
    assert_eq!(r.body, Body::Text("user registered".to_string()));
    let r = logged_in_response(None);
    assert_eq!(r.headers, vec![("location".to_string(), "/".to_string())]);
    assert_eq!(r.body, Body::Text("logged in".to_string()));
    let r = logged_out_response(Some("/x"));
    assert_eq!((r.status, r.body), (303, Body::Text("logged out".to_string())));
}

#[test]
fn refused_registrations_and_logins() {
    let taken = DbError {
        kind: DbErrorKind::SqliteFailure { code: SqliteErrorCode::ConstraintViolation, extended_code: SQLITE_CONSTRAINT_PRIMARYKEY },
        message: "UNIQUE constraint failed: user.username".to_string(),
    };
    let r = registration_failed(taken).unwrap();
    assert_eq!(r.status, 303);
    assert_eq!(r.headers, vec![("content-type".to_string(), "text/html".to_string())]);
    assert_eq!(
        r.body,
        Body::Text("Unable to register user. <script>setTimeout(function () { history.back() }, 1000)</script>".to_string())
    );
    let other = DbError { kind: DbErrorKind::Other, message: "locked".to_string() };
    assert_eq!(registration_failed(other), Err(Error { kind: ErrorKind::InternalServerError, message: "locked".to_string() }));
    let r = login_refused_response();
    assert_eq!(r.status, 401);
    assert_eq!(
        r.body,
        Body::Text("Wrong username or password. <script>setTimeout(function () { history.back() }, 1000)</script>".to_string())
    );
}

#[test]
fn session_key_text_is_uuid_display() {
    for _ in 0..20 {
        let k = SessionKey::new();
        assert_eq!(k.text, uuid::Uuid::from_u128(k.uuid).to_string());
    }
    let k = SessionKey::from_uuid(0x00112233_4455_6677_8899_aabbccddeeff);
    assert_eq!(k.text, "00112233-4455-6677-8899-aabbccddeeff");
    assert_eq!(SessionKey::from_uuid(0).text, "00000000-0000-0000-0000-000000000000");
    assert_eq!(SessionKey::from_uuid(u128::MAX).text, "ffffffff-ffff-ffff-ffff-ffffffffffff");
}
