use rust_panel::api::auth::{authorize, token_expiry, StoredUser, TokenCheck};
use rust_panel::api::middleware::{auth_action, AuthAction};
use rust_panel::api::v1::login::{
    login_decision, security_dir_answer, sign_step, timestamp_expired, try_login_credentials, LoginAuthData,
    LoginOutcome, SignStep,
};
use rust_panel::api::v1::next_counter;
use rust_panel::common::fun::{md5, sha1_salt};
use rust_panel::errors::common::{CommonError, DbError};
use rust_panel::errors::handlers::CustomError;
use rust_panel::models::structure::rp_users::{SlimUser, Users};
use rust_panel::models::user::{lookup_result, LookupError};

fn when() -> chrono::NaiveDateTime {
    chrono::NaiveDate::from_ymd_opt(2024, 5, 8).unwrap().and_hms_opt(21, 47, 26).unwrap()
}

fn user(error_count: i32) -> Users {
    Users {
        id: 7,
        username: String::from("admin"),
        password: sha1_salt(String::from("secret"), String::from("salt")),
        salt: String::from("salt"),
        initial_password: String::from("secret"),
        authority: String::from("admin"),
        error_count,
        status: 0,
        created_at: when(),
        updated_at: when(),
    }
}

fn slim(password: &str) -> SlimUser {
    SlimUser { id: 7, username: String::from("admin"), password: String::from(password), authority: String::from("admin"), created_at: when() }
}

#[test]
fn login_routes_and_pages_pass_unchecked() {
    assert!(matches!(auth_action("/api/v1/login/sign/abc", None), AuthAction::Forward));
    assert!(matches!(auth_action("/index.html", None), AuthAction::Forward));
    assert!(matches!(auth_action("/api/v1/os_info", None), AuthAction::Unauthorized));
    match auth_action("/api/v1/os_info", Some("Bearer tok.en")) {
        AuthAction::Verify(t) => assert_eq!(t, "tok.en"),
        _ => panic!("expected a token to verify"),
    }
}

#[test]
fn authorize_requests() {
    assert!(matches!(authorize(TokenCheck::Missing, StoredUser::Unavailable), Err(CommonError::Unauthorized(m)) if m == "token is None"));
    assert!(matches!(authorize(TokenCheck::Invalid, StoredUser::Unavailable), Err(CommonError::Unauthorized(m)) if m == "token error"));
    assert!(matches!(authorize(TokenCheck::Valid(slim("h1")), StoredUser::Found(String::from("h1"))), Ok(u) if u.id == 7));
    assert!(matches!(
        authorize(TokenCheck::Valid(slim("h1")), StoredUser::Found(String::from("h2"))),
        Err(CommonError::Unauthorized(m)) if m == "password error"
    ));
    assert!(matches!(authorize(TokenCheck::Valid(slim("h1")), StoredUser::Unavailable), Ok(_)));
}

#[test]
fn token_expiry_adds_session_hours() {
    assert_eq!(token_expiry(1_000, 2), 1_000 + 7_200);
    assert_eq!(token_expiry(0, 0), 0);
}

#[test]
fn custom_error_answers() {
    let e = CustomError::new(400, String::from("Invalid JSON payload"));
    assert_eq!(e.response_status(), 400);
    assert_eq!(e.response_message(), "Invalid JSON payload");
    let e = CustomError::new(503, String::from("db down"));
    assert_eq!(e.response_status(), 503);
    assert_eq!(e.response_message(), "Internal server error");
    let e = CustomError::new(42, String::from("odd"));
    assert_eq!(e.response_status(), 500);
    assert_eq!(e.response_message(), "Internal server error");
    assert_eq!(e.to_text(), "odd");
}

#[test]
fn common_error_answers() {
    let (status, body) = CommonError::BadRequest(String::from("no")).error_response();
    assert_eq!((status, body.code, body.success, body.message.as_str()), (400, 400, false, "no"));
    let (status, body) = CommonError::Unauthorized(String::from("who")).error_response();
    assert_eq!((status, body.code), (401, 401));
    let (status, body) = CommonError::Error(String::from("disk")).error_response();
    assert_eq!((status, body.code, body.message.as_str()), (500, 500, "disk"));
    assert_eq!(CommonError::BadRequest(String::from("x")).to_text(), "BadRequest: x");
    assert_eq!(CommonError::InternalServerError(String::from("x")).to_text(), "Internal Server Error");
    assert_eq!(CommonError::Unauthorized(String::from("x")).to_text(), "Unauthorized");
}

#[test]
fn database_errors_become_api_errors() {
    let e: CommonError = DbError::UniqueViolation { message: String::from("m"), details: Some(String::from("d")) }.into();
    assert!(matches!(e, CommonError::BadRequest(m) if m == "d"));
    let e: CommonError = DbError::UniqueViolation { message: String::from("m"), details: None }.into();
    assert!(matches!(e, CommonError::BadRequest(m) if m == "m"));
    let e: CommonError = DbError::Database { message: String::from("locked") }.into();
    assert!(matches!(e, CommonError::InternalServerError(m) if m == "locked"));
    let e: CommonError = DbError::Other(String::from("Record not found")).into();
    assert!(matches!(e, CommonError::InternalServerError(m) if m == "Record not found"));
}

#[test]
fn security_dir_check() {
    let (s, b) = security_dir_answer("abc", Some("abc"));
    assert_eq!((s, b.success, b.code, b.message.as_str()), (200, true, 200, "success"));
    let (s, b) = security_dir_answer("abc", Some("abd"));
    assert_eq!((s, b.success, b.code), (404, false, 101));
    assert_eq!(b.message, "Security directory does not match the query parameter");
    let (s, b) = security_dir_answer("abc", None);
    assert_eq!((s, b.success, b.code, b.message.as_str()), (400, false, 101, "Security directory does not match the query parameter"));
}

#[test]
fn login_timestamps() {
    let ts: u64 = 1_700_000_000_000;
    let now = (ts as u128) * 1_000_000;
    assert!(!timestamp_expired(now + 60_000_000_000, ts));
    assert!(timestamp_expired(now + 60_000_000_001, ts));
    assert!(!timestamp_expired(now - 5, ts));
    assert!(matches!(sign_step("dir", "other", now, ts), SignStep::NotFound));
    assert!(matches!(sign_step("dir", "dir", now + 61_000_000_000, ts), SignStep::InvalidTimestamp));
    assert!(matches!(sign_step("dir", "dir", now + 1, ts), SignStep::Credentials));
}

#[test]
fn login_credentials_decrypt() {
    let dir = "secure123";
    let ts: u64 = 1_700_000_000_000;
    let t = ts.to_string();
    let iv = md5(String::from(dir));
    let key = md5(format!("{}{}{}", dir, t, iv));
    let auth = LoginAuthData {
        username: gmsm::sm4::sm4_cbc_encrypt_hex("admin", &key, &iv),
        password: gmsm::sm4::sm4_cbc_encrypt_hex("secret", &key, &iv),
        timestamp: ts,
    };
    let c = try_login_credentials(&auth, dir).unwrap();
    assert_eq!((c.username.as_str(), c.password.as_str(), c.timestamp), ("admin", "secret", 0));
    let bad = LoginAuthData { username: String::from("zz"), password: auth.password.clone(), timestamp: ts };
    assert!(try_login_credentials(&bad, dir).is_none());
}

#[test]
fn login_decisions_and_lockout() {
    assert!(login_decision(None, "x") == LoginOutcome::UnknownUser);
    assert!(login_decision(Some(&user(0)), "secret") == LoginOutcome::Accepted { id: 7 });
    assert!(login_decision(Some(&user(0)), "wrong") == LoginOutcome::Rejected { id: 7, error_count: 1, remaining: 4 });
    assert!(login_decision(Some(&user(4)), "wrong") == LoginOutcome::Rejected { id: 7, error_count: 5, remaining: 0 });
    assert!(login_decision(Some(&user(5)), "secret") == LoginOutcome::Locked { id: 7 });
    let mut count = 0;
    loop {
        match login_decision(Some(&user(count)), "wrong") {
            LoginOutcome::Rejected { error_count, .. } => count = error_count,
            LoginOutcome::Locked { .. } => break,
            _ => panic!("unexpected outcome"),
        }
    }
    assert_eq!(count, 5);
}

#[test]
fn session_counter() {
    assert_eq!(next_counter(None), 1);
    assert_eq!(next_counter(Some(41)), 42);
}

#[test]
fn lookup_results() {
    assert!(matches!(lookup_result::<i32>(Ok(3)), Ok(Some(3))));
    assert!(matches!(lookup_result::<i32>(Err(LookupError::NotFound)), Ok(None)));
    assert!(matches!(
        lookup_result::<i32>(Err(LookupError::Failed(String::from("Closed")))),
        Err(CommonError::Error(m)) if m == "Database error: Closed"
    ));
}

#[test]
fn slim_user_from_row() {
    let s: SlimUser = user(2).into();
    assert_eq!((s.id, s.username.as_str(), s.authority.as_str()), (7, "admin", "admin"));
    assert_eq!(s.created_at, when());
}
