use sso_rs::auth::begin_exchange;
use sso_rs::crypto::{decrypt_with_handle, hash_password, verify_password};
use sso_rs::error::{AppError, ServiceError};
use sso_rs::session::{SessionPayload, SessionStore};

fn encrypt_with_public_key(public_pem: &str, plaintext: &[u8]) -> Vec<u8> {
    let rsa = openssl::rsa::Rsa::public_key_from_pem(public_pem.as_bytes()).unwrap();
    let mut buf = vec![0u8; rsa.size() as usize];
    let n = rsa
        .public_encrypt(plaintext, &mut buf, openssl::rsa::Padding::PKCS1)
        .unwrap();
    buf.truncate(n);
    buf
}

fn b64(data: &[u8]) -> String {
    base64::Engine::encode(&base64::engine::general_purpose::STANDARD, data)
}

#[test]
fn decrypt_round_trips_plaintext() {
    let mut sessions = SessionStore::new();
    let now = 1_700_000_000i64;
    let resp = begin_exchange(&mut sessions, now).unwrap();
    let plaintext = "correct horse battery staple";
    let ciphertext = encrypt_with_public_key(&resp.public_key, plaintext.as_bytes());
    let decrypted = decrypt_with_handle(&sessions, &resp.token, &b64(&ciphertext), now).unwrap();
    assert_eq!(decrypted, plaintext);
}

#[test]
fn decrypt_handles_long_plaintext() {
    let mut sessions = SessionStore::new();
    let now = 1_700_000_000i64;
    let resp = begin_exchange(&mut sessions, now).unwrap();
    // A 2048-bit key takes plaintexts up to key-size-minus-padding (245 bytes).
    let plaintext: String = std::iter::repeat('x').take(245).collect();
    let ciphertext = encrypt_with_public_key(&resp.public_key, plaintext.as_bytes());
    let decrypted = decrypt_with_handle(&sessions, &resp.token, &b64(&ciphertext), now).unwrap();
    assert_eq!(decrypted, plaintext);
}

#[test]
fn decrypt_unknown_handle_fails_with_invalid_rsa_token() {
    let sessions = SessionStore::new();
    let r = decrypt_with_handle(&sessions, "no-such-handle", "aGVsbG8=", 1000);
    assert!(matches!(
        r,
        Err(AppError::ServiceError(ServiceError::InvalidRsaToken))
    ));
}

#[test]
fn decrypt_expired_handle_fails_with_invalid_rsa_token() {
    let mut sessions = SessionStore::new();
    let now = 1_700_000_000i64;
    let resp = begin_exchange(&mut sessions, now).unwrap();
    let plaintext = "p";
    let ciphertext = encrypt_with_public_key(&resp.public_key, plaintext.as_bytes());
    let later = now + (resp.expires as i64) + 1;
    let r = decrypt_with_handle(&sessions, &resp.token, &b64(&ciphertext), later);
    assert!(matches!(
        r,
        Err(AppError::ServiceError(ServiceError::InvalidRsaToken))
    ));
}

#[test]
fn decrypt_handle_of_wrong_shape_fails_with_invalid_rsa_token() {
    let mut sessions = SessionStore::new();
    sessions
        .store_session("h1".to_string(), SessionPayload::LoginUser(7), 2000)
        .unwrap();
    let r = decrypt_with_handle(&sessions, "h1", "aGVsbG8=", 1000);
    assert!(matches!(
        r,
        Err(AppError::ServiceError(ServiceError::InvalidRsaToken))
    ));
}

#[test]
fn tampered_ciphertext_fails_with_decrypt_password_error() {
    let mut sessions = SessionStore::new();
    let now = 1_700_000_000i64;
    let resp = begin_exchange(&mut sessions, now).unwrap();
    let mut ciphertext =
        encrypt_with_public_key(&resp.public_key, b"0123456789abcdef0123456789abcdef");
    ciphertext[3] ^= 0x40;
    let r = decrypt_with_handle(&sessions, &resp.token, &b64(&ciphertext), now);
    assert!(matches!(
        r,
        Err(AppError::ServiceError(ServiceError::DecryptPasswordError))
    ));
}

#[test]
fn malformed_base64_flows_into_decrypt_failure() {
    let mut sessions = SessionStore::new();
    let now = 1_700_000_000i64;
    let resp = begin_exchange(&mut sessions, now).unwrap();
    // Not base64: decoded as empty input, which the key then rejects.
    let r = decrypt_with_handle(&sessions, &resp.token, "!!!not-base64!!!", now);
    assert!(matches!(
        r,
        Err(AppError::ServiceError(ServiceError::DecryptPasswordError))
    ));
}

#[test]
fn handle_survives_for_second_decrypt_within_ttl() {
    // The baseline design does not invalidate a handle after one use.
    let mut sessions = SessionStore::new();
    let now = 1_700_000_000i64;
    let resp = begin_exchange(&mut sessions, now).unwrap();
    let ciphertext = encrypt_with_public_key(&resp.public_key, b"again");
    let encoded = b64(&ciphertext);
    let first = decrypt_with_handle(&sessions, &resp.token, &encoded, now).unwrap();
    let second = decrypt_with_handle(&sessions, &resp.token, &encoded, now + 60).unwrap();
    assert_eq!(first, "again");
    assert_eq!(second, "again");
}

#[test]
fn hash_then_verify_accepts_same_password() {
    let (salt, hash) = hash_password("hunter2-but-longer", None).unwrap();
    assert!(verify_password("hunter2-but-longer", &salt, &hash).unwrap());
}

#[test]
fn verify_rejects_different_password() {
    let (salt, hash) = hash_password("password-one", None).unwrap();
    assert!(!verify_password("password-two", &salt, &hash).unwrap());
}

#[test]
fn hash_with_given_salt_is_deterministic() {
    let salt = "abcdefghijklmnop".to_string();
    let (s1, h1) = hash_password("pw", Some(&salt)).unwrap();
    let (s2, h2) = hash_password("pw", Some(&salt)).unwrap();
    assert_eq!(s1, salt);
    assert_eq!(s2, salt);
    assert_eq!(h1, h2);
    // The PBKDF2-HMAC-SHA256 output for this password and salt at the
    // scheme's default ten thousand rounds, base64-encoded.
    assert_eq!(h1, "wcV6Tx+DSpBw89Mv2JRC7LCzSkqI+ZRh1Si/tOLn0yY");
}

#[test]
fn hash_with_fresh_salts_differs() {
    let (s1, h1) = hash_password("pw", None).unwrap();
    let (s2, h2) = hash_password("pw", None).unwrap();
    assert_ne!(s1, s2);
    assert_ne!(h1, h2);
}

#[test]
fn hashing_fails_exactly_on_a_rejected_salt() {
    // Too short for the salt parser: hashing and verification both report
    // the fault rather than inventing a result.
    assert!(hash_password("pw", Some(&"ab".to_string())).is_err());
    assert!(verify_password("pw", "ab", "whatever").is_err());
    // An accepted salt makes both total.
    let salt = "abcdefghijklmnop".to_string();
    assert!(hash_password("pw", Some(&salt)).is_ok());
    assert!(verify_password("pw", &salt, "not-the-hash").unwrap() == false);
}
