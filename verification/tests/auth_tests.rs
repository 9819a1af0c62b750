use sso_rs::auth::{
    begin_exchange, clear_session_cookie, login, logout, register, session_cookie, LoginParams,
    RegisterParams,
};
use sso_rs::error::{AppError, ServiceError};
use sso_rs::session::{user_id_from_session, SessionStore};
use sso_rs::store::Database;
use sso_rs::validate::{mask_secret, validate_image_type, validate_padding_string};

const NOW: i64 = 1_700_000_000;
const HEX_PASSWORD: &str = "5e884898da28047151d0e56f8dc6292773603d0d6aabbdd62a11ef721d1542d8";

fn encrypt_password(public_pem: &str, plaintext: &str) -> String {
    let rsa = openssl::rsa::Rsa::public_key_from_pem(public_pem.as_bytes()).unwrap();
    let mut buf = vec![0u8; rsa.size() as usize];
    let n = rsa
        .public_encrypt(plaintext.as_bytes(), &mut buf, openssl::rsa::Padding::PKCS1)
        .unwrap();
    buf.truncate(n);
    base64::Engine::encode(&base64::engine::general_purpose::STANDARD, &buf)
}

fn register_params(
    username: &str,
    password_b64: &str,
    rsa_token: &str,
) -> RegisterParams {
    RegisterParams {
        username: Some(username.to_string()),
        nickname: Some("Nick".to_string()),
        email: Some("alice@example.com".to_string()),
        password: Some(password_b64.to_string()),
        rsa_token: Some(rsa_token.to_string()),
    }
}

#[test]
fn register_creates_user_with_verifiable_hash() {
    let mut db = Database::new();
    let mut sessions = SessionStore::new();
    let resp = begin_exchange(&mut sessions, NOW).unwrap();
    let enc = encrypt_password(&resp.public_key, HEX_PASSWORD);
    let user = register(&mut db, &sessions, &register_params("alice", &enc, &resp.token), NOW)
        .unwrap();
    assert_eq!(user.id, 1);
    assert_eq!(user.username, "alice");
    assert_eq!(user.email.as_deref(), Some("alice@example.com"));
    assert!(sso_rs::crypto::verify_password(HEX_PASSWORD, &user.salt, &user.password_hash)
        .unwrap());
}

#[test]
fn register_rejects_duplicate_username() {
    let mut db = Database::new();
    let mut sessions = SessionStore::new();
    let resp = begin_exchange(&mut sessions, NOW).unwrap();
    let enc = encrypt_password(&resp.public_key, HEX_PASSWORD);
    register(&mut db, &sessions, &register_params("alice", &enc, &resp.token), NOW).unwrap();
    let r = register(&mut db, &sessions, &register_params("alice", &enc, &resp.token), NOW);
    assert!(matches!(
        r,
        Err(AppError::ServiceError(ServiceError::DuplicatedUsername))
    ));
    assert_eq!(db.users.len(), 1);
}

#[test]
fn register_rejects_wrong_password_length() {
    let mut db = Database::new();
    let mut sessions = SessionStore::new();
    let resp = begin_exchange(&mut sessions, NOW).unwrap();
    let enc = encrypt_password(&resp.public_key, "too-short");
    let r = register(&mut db, &sessions, &register_params("alice", &enc, &resp.token), NOW);
    assert!(matches!(
        r,
        Err(AppError::ServiceError(ServiceError::InvalidPasswordLength))
    ));
    assert!(db.users.is_empty());
}

#[test]
fn register_rejects_invalid_fields() {
    let mut db = Database::new();
    let sessions = SessionStore::new();
    let mut p = register_params("alice", "x", "t");
    p.email = Some("not-an-email".to_string());
    assert!(matches!(
        register(&mut db, &sessions, &p, NOW),
        Err(AppError::ValidationError)
    ));
    let mut p2 = register_params(" padded ", "x", "t");
    p2.email = Some("alice@example.com".to_string());
    assert!(matches!(
        register(&mut db, &sessions, &p2, NOW),
        Err(AppError::ValidationError)
    ));
    let p3 = register_params("this-username-is-way-too-long-x", "x", "t");
    assert!(matches!(
        register(&mut db, &sessions, &p3, NOW),
        Err(AppError::ValidationError)
    ));
}

#[test]
fn login_issues_session_for_correct_credentials() {
    let mut db = Database::new();
    let mut sessions = SessionStore::new();
    let resp = begin_exchange(&mut sessions, NOW).unwrap();
    let enc = encrypt_password(&resp.public_key, HEX_PASSWORD);
    let user =
        register(&mut db, &sessions, &register_params("alice", &enc, &resp.token), NOW).unwrap();
    let params = LoginParams {
        username: Some("alice".to_string()),
        password: Some(enc),
        rsa_token: Some(resp.token.clone()),
    };
    let handle = login(&db, &mut sessions, &params, NOW).unwrap();
    let who = user_id_from_session(&sessions, &handle, NOW).unwrap();
    assert_eq!(who.user_id, user.id);
    // The session expires after fifteen days.
    let r = user_id_from_session(&sessions, &handle, NOW + 60 * 60 * 24 * 15 + 1);
    assert!(matches!(r, Err(ServiceError::LoginRequired)));
}

#[test]
fn login_fails_identically_for_bad_password_and_unknown_user() {
    let mut db = Database::new();
    let mut sessions = SessionStore::new();
    let resp = begin_exchange(&mut sessions, NOW).unwrap();
    let enc = encrypt_password(&resp.public_key, HEX_PASSWORD);
    register(&mut db, &sessions, &register_params("alice", &enc, &resp.token), NOW).unwrap();
    let wrong = encrypt_password(
        &resp.public_key,
        "0000000000000000000000000000000000000000000000000000000000000000",
    );
    let bad_password = LoginParams {
        username: Some("alice".to_string()),
        password: Some(wrong),
        rsa_token: Some(resp.token.clone()),
    };
    let unknown_user = LoginParams {
        username: Some("bob".to_string()),
        password: Some(enc),
        rsa_token: Some(resp.token.clone()),
    };
    let r1 = login(&db, &mut sessions, &bad_password, NOW);
    let r2 = login(&db, &mut sessions, &unknown_user, NOW);
    assert!(matches!(
        r1,
        Err(AppError::ServiceError(ServiceError::LoginFailed))
    ));
    assert!(matches!(
        r2,
        Err(AppError::ServiceError(ServiceError::LoginFailed))
    ));
}

#[test]
fn logout_destroys_the_session() {
    let mut db = Database::new();
    let mut sessions = SessionStore::new();
    let resp = begin_exchange(&mut sessions, NOW).unwrap();
    let enc = encrypt_password(&resp.public_key, HEX_PASSWORD);
    register(&mut db, &sessions, &register_params("alice", &enc, &resp.token), NOW).unwrap();
    let params = LoginParams {
        username: Some("alice".to_string()),
        password: Some(enc),
        rsa_token: Some(resp.token.clone()),
    };
    let handle = login(&db, &mut sessions, &params, NOW).unwrap();
    logout(&mut sessions, Some(&handle), NOW).unwrap();
    assert!(matches!(
        user_id_from_session(&sessions, &handle, NOW),
        Err(ServiceError::LoginRequired)
    ));
    // A second logout no longer finds the session.
    let r = logout(&mut sessions, Some(&handle), NOW);
    assert!(matches!(
        r,
        Err(AppError::ServiceError(ServiceError::LoginRequired))
    ));
    assert!(matches!(
        logout(&mut sessions, None, NOW),
        Err(AppError::ServiceError(ServiceError::LoginRequired))
    ));
}

#[test]
fn cookies_carry_the_expected_attributes() {
    let c = session_cookie("tok123", false);
    assert_eq!(
        c,
        "delbertbeta-s-sso=tok123; Path=/; HttpOnly; SameSite=Strict; Max-Age=1296000"
    );
    let cs = session_cookie("tok123", true);
    assert_eq!(
        cs,
        "delbertbeta-s-sso=tok123; Path=/; HttpOnly; SameSite=Strict; Max-Age=1296000; Secure"
    );
    assert_eq!(
        clear_session_cookie(false),
        "delbertbeta-s-sso=logout; Path=/; HttpOnly; SameSite=Strict; Max-Age=0"
    );
}

#[test]
fn error_codes_are_stable() {
    let info = AppError::ServiceError(ServiceError::DuplicatedUsername).get_error_response_info();
    assert_eq!((info.status, info.code), (400, 100));
    assert_eq!(info.error_message, "Username has been registered");
    let info = AppError::ServiceError(ServiceError::InvalidRsaToken).get_error_response_info();
    assert_eq!((info.status, info.code), (400, 101));
    let info = AppError::ServiceError(ServiceError::DecryptPasswordError).get_error_response_info();
    assert_eq!((info.status, info.code), (400, 102));
    let info = AppError::ServiceError(ServiceError::InvalidPasswordLength).get_error_response_info();
    assert_eq!((info.status, info.code), (400, 103));
    let info = AppError::ServiceError(ServiceError::LoginFailed).get_error_response_info();
    assert_eq!((info.status, info.code), (400, 104));
    let info = AppError::ServiceError(ServiceError::LoginRequired).get_error_response_info();
    assert_eq!((info.status, info.code), (401, 106));
    let info = AppError::ServiceError(ServiceError::NotFound).get_error_response_info();
    assert_eq!((info.status, info.code), (404, 107));
    let info = AppError::DatabaseError.get_error_response_info();
    assert_eq!((info.status, info.code), (500, 501));
    assert_eq!(info.error_message, "Database error");
    let info = AppError::RsaError.get_error_response_info();
    assert_eq!((info.status, info.code), (500, 503));
}

#[test]
fn field_validators_enforce_their_rules() {
    assert!(validate_padding_string("fine").is_ok());
    assert!(validate_padding_string("").is_ok());
    assert!(validate_padding_string(" leading").is_err());
    assert!(validate_padding_string("trailing ").is_err());
    assert!(validate_image_type("png").is_ok());
    assert!(validate_image_type("webp").is_ok());
    assert!(validate_image_type("svg").is_err());
    assert_eq!(mask_secret("0123456789abcdef"), "01234567****");
    assert_eq!(mask_secret("short"), "short****");
}
