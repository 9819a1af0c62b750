use sso_rs::error::{AppError, ServiceError};
use sso_rs::oidc::{
    authorize, exchange, resolve_userinfo, AuthorizeError, AuthorizeQuery, TokenRequest,
};
use sso_rs::store::{
    CreateApplicationParams, CreateSecretParams, CreateUserParams, Database,
};
use sso_rs::wellknown::OidcKeys;

const NOW: i64 = 1_700_000_000;
const REDIRECT: &str = "https://app.example.com/callback";

fn seed_db() -> (Database, i32) {
    let mut db = Database::new();
    let user = db
        .insert_user(
            CreateUserParams {
                username: "alice".to_string(),
                salt: "somesalt".to_string(),
                email: "alice@example.com".to_string(),
                nickname: "Alice".to_string(),
                password_hash: "irrelevant".to_string(),
            },
            NOW,
        )
        .unwrap();
    let uris = serde_json::to_string(&vec![REDIRECT.to_string()]).unwrap();
    let grants = serde_json::to_string(&vec!["authorization_code".to_string()]).unwrap();
    db.insert_application(
        CreateApplicationParams {
            id: "client-1".to_string(),
            name: "Test App".to_string(),
            icon_id: "icon-1".to_string(),
            description: None,
            homepage_url: "https://app.example.com/".to_string(),
            redirect_uris: uris,
            grant_types: grants,
            creator_id: user.id,
        },
        NOW,
    )
    .unwrap();
    db.create_secret_by_application_id(
        CreateSecretParams {
            secret: "s3cr3t-value".to_string(),
            app_id: "client-1".to_string(),
            creator_id: user.id,
        },
        NOW,
    )
    .unwrap();
    (db, user.id)
}

fn authorize_query(redirect_uri: &str) -> AuthorizeQuery {
    AuthorizeQuery {
        response_type: "code".to_string(),
        client_id: "client-1".to_string(),
        redirect_uri: redirect_uri.to_string(),
        scope: "openid profile".to_string(),
        state: Some("xyz".to_string()),
        nonce: None,
    }
}

fn code_from_redirect(url: &str) -> String {
    let parsed = url::Url::parse(url).unwrap();
    parsed
        .query_pairs()
        .find(|(k, _)| k == "code")
        .map(|(_, v)| v.into_owned())
        .unwrap()
}

fn token_request(code: &str, secret: &str) -> TokenRequest {
    TokenRequest {
        grant_type: "authorization_code".to_string(),
        code: code.to_string(),
        redirect_uri: REDIRECT.to_string(),
        client_id: "client-1".to_string(),
        client_secret: secret.to_string(),
    }
}

#[test]
fn authorize_mints_code_and_builds_redirect() {
    let (mut db, user_id) = seed_db();
    let url = authorize(&mut db, &authorize_query(REDIRECT), user_id, NOW).unwrap();
    assert!(url.starts_with("https://app.example.com/callback?"));
    let parsed = url::Url::parse(&url).unwrap();
    let code = code_from_redirect(&url);
    let state: Vec<(String, String)> = parsed
        .query_pairs()
        .map(|(k, v)| (k.into_owned(), v.into_owned()))
        .collect();
    assert!(state.contains(&("state".to_string(), "xyz".to_string())));
    assert_eq!(db.authorization_codes.len(), 1);
    let rec = &db.authorization_codes[0];
    assert_eq!(rec.code, code);
    assert_eq!(rec.application_id, "client-1");
    assert_eq!(rec.user_id, user_id);
    assert_eq!(rec.redirect_uri, REDIRECT);
    assert_eq!(rec.scopes, "openid profile");
    assert_eq!(rec.expires_at, NOW + 600);
}

#[test]
fn authorize_rejects_other_response_types() {
    let (mut db, user_id) = seed_db();
    let mut q = authorize_query(REDIRECT);
    q.response_type = "token".to_string();
    assert!(matches!(
        authorize(&mut db, &q, user_id, NOW),
        Err(AuthorizeError::UnsupportedResponseType)
    ));
    assert!(db.authorization_codes.is_empty());
}

#[test]
fn authorize_rejects_unknown_client() {
    let (mut db, user_id) = seed_db();
    let mut q = authorize_query(REDIRECT);
    q.client_id = "client-2".to_string();
    assert!(matches!(
        authorize(&mut db, &q, user_id, NOW),
        Err(AuthorizeError::InvalidClient)
    ));
}

#[test]
fn authorize_rejects_unregistered_redirect_uri() {
    let (mut db, user_id) = seed_db();
    for bad in [
        "https://evil.example.com/callback",
        "https://app.example.com/callback/",
        "https://app.example.com/callback?x=1",
        "HTTPS://APP.EXAMPLE.COM/CALLBACK",
    ] {
        let r = authorize(&mut db, &authorize_query(bad), user_id, NOW);
        assert!(matches!(r, Err(AuthorizeError::InvalidRedirectUri)));
    }
    assert!(db.authorization_codes.is_empty());
}

#[test]
fn authorize_error_bodies_use_oauth_identifiers() {
    assert_eq!(
        AuthorizeError::UnsupportedResponseType.response_info(),
        (400, "unsupported_response_type".to_string())
    );
    assert_eq!(
        AuthorizeError::InvalidClient.response_info(),
        (400, "invalid_client".to_string())
    );
    assert_eq!(
        AuthorizeError::InvalidRedirectUri.response_info(),
        (400, "invalid_redirect_uri".to_string())
    );
}

#[test]
fn exchange_redeems_code_for_tokens() {
    let (mut db, user_id) = seed_db();
    let keys = OidcKeys::new().unwrap();
    let url = authorize(&mut db, &authorize_query(REDIRECT), user_id, NOW).unwrap();
    let code = code_from_redirect(&url);
    let resp = exchange(
        &mut db,
        &token_request(&code, "s3cr3t-value"),
        NOW + 60,
        &keys.private_key_pem,
        "https://sso.example.com/",
    )
    .unwrap();
    assert_eq!(resp.token_type, "Bearer");
    assert_eq!(resp.expires_in, 3600);
    assert_ne!(resp.access_token, resp.refresh_token);
    assert!(db.authorization_codes.is_empty());
    assert_eq!(db.tokens.len(), 1);
    assert_eq!(db.tokens[0].access_token, resp.access_token);
    assert_eq!(db.tokens[0].user_id, user_id);
    assert_eq!(db.tokens[0].expires_at, NOW + 60 + 3600);

    // The ID token verifies under the published key and asserts the user.
    let decoding = jsonwebtoken::DecodingKey::from_rsa_pem(keys.public_key_pem.as_bytes()).unwrap();
    let mut validation = jsonwebtoken::Validation::new(jsonwebtoken::Algorithm::RS256);
    validation.set_audience(&["client-1"]);
    validation.validate_exp = false;
    let decoded = jsonwebtoken::decode::<serde_json::Value>(&resp.id_token, &decoding, &validation)
        .unwrap();
    assert_eq!(
        decoded.claims.get("sub").and_then(|v| v.as_str()),
        Some(user_id.to_string().as_str())
    );
    assert_eq!(
        decoded.claims.get("iss").and_then(|v| v.as_str()),
        Some("https://sso.example.com/")
    );
    assert_eq!(
        decoded.claims.get("iat").and_then(|v| v.as_i64()),
        Some(NOW + 60)
    );
}

#[test]
fn exchange_is_at_most_once() {
    let (mut db, user_id) = seed_db();
    let keys = OidcKeys::new().unwrap();
    let url = authorize(&mut db, &authorize_query(REDIRECT), user_id, NOW).unwrap();
    let code = code_from_redirect(&url);
    let req = token_request(&code, "s3cr3t-value");
    let first = exchange(&mut db, &req, NOW, &keys.private_key_pem, "https://sso.example.com/");
    assert!(first.is_ok());
    let second = exchange(&mut db, &req, NOW, &keys.private_key_pem, "https://sso.example.com/");
    assert!(matches!(
        second,
        Err(AppError::ServiceError(ServiceError::InvalidGrant))
    ));
    assert_eq!(db.tokens.len(), 1);
}

#[test]
fn exchange_rejects_expired_code_and_creates_no_token() {
    let (mut db, user_id) = seed_db();
    let keys = OidcKeys::new().unwrap();
    let url = authorize(&mut db, &authorize_query(REDIRECT), user_id, NOW).unwrap();
    let code = code_from_redirect(&url);
    let late = NOW + 601;
    let r = exchange(
        &mut db,
        &token_request(&code, "s3cr3t-value"),
        late,
        &keys.private_key_pem,
        "https://sso.example.com/",
    );
    assert!(matches!(
        r,
        Err(AppError::ServiceError(ServiceError::InvalidGrant))
    ));
    assert!(db.tokens.is_empty());
    // The unredeemed row is still there; it is merely unusable.
    assert_eq!(db.authorization_codes.len(), 1);
}

#[test]
fn exchange_rejects_wrong_grant_client_redirect_and_secret() {
    let (mut db, user_id) = seed_db();
    let keys = OidcKeys::new().unwrap();
    let url = authorize(&mut db, &authorize_query(REDIRECT), user_id, NOW).unwrap();
    let code = code_from_redirect(&url);

    let mut bad_grant = token_request(&code, "s3cr3t-value");
    bad_grant.grant_type = "client_credentials".to_string();
    assert!(matches!(
        exchange(&mut db, &bad_grant, NOW, &keys.private_key_pem, "i"),
        Err(AppError::ServiceError(ServiceError::InvalidGrant))
    ));

    let mut bad_client = token_request(&code, "s3cr3t-value");
    bad_client.client_id = "client-2".to_string();
    assert!(matches!(
        exchange(&mut db, &bad_client, NOW, &keys.private_key_pem, "i"),
        Err(AppError::ServiceError(ServiceError::InvalidClient))
    ));

    let mut bad_redirect = token_request(&code, "s3cr3t-value");
    bad_redirect.redirect_uri = "https://evil.example.com/".to_string();
    assert!(matches!(
        exchange(&mut db, &bad_redirect, NOW, &keys.private_key_pem, "i"),
        Err(AppError::ServiceError(ServiceError::InvalidGrant))
    ));

    let bad_secret = token_request(&code, "wrong-secret");
    assert!(matches!(
        exchange(&mut db, &bad_secret, NOW, &keys.private_key_pem, "i"),
        Err(AppError::ServiceError(ServiceError::InvalidClient))
    ));

    assert!(matches!(
        exchange(
            &mut db,
            &token_request("unknown-code", "s3cr3t-value"),
            NOW,
            &keys.private_key_pem,
            "i"
        ),
        Err(AppError::ServiceError(ServiceError::InvalidGrant))
    ));

    // None of the failures redeemed the code or minted a token.
    assert_eq!(db.authorization_codes.len(), 1);
    assert!(db.tokens.is_empty());
}

#[test]
fn any_registered_secret_authorizes_the_client() {
    let (mut db, user_id) = seed_db();
    db.create_secret_by_application_id(
        CreateSecretParams {
            secret: "second-secret".to_string(),
            app_id: "client-1".to_string(),
            creator_id: user_id,
        },
        NOW,
    )
    .unwrap();
    let keys = OidcKeys::new().unwrap();
    let url = authorize(&mut db, &authorize_query(REDIRECT), user_id, NOW).unwrap();
    let code = code_from_redirect(&url);
    let r = exchange(
        &mut db,
        &token_request(&code, "second-secret"),
        NOW,
        &keys.private_key_pem,
        "i",
    );
    assert!(r.is_ok());
}

#[test]
fn userinfo_resolves_bearer_token_to_claims() {
    let (mut db, user_id) = seed_db();
    let keys = OidcKeys::new().unwrap();
    let url = authorize(&mut db, &authorize_query(REDIRECT), user_id, NOW).unwrap();
    let code = code_from_redirect(&url);
    let resp = exchange(
        &mut db,
        &token_request(&code, "s3cr3t-value"),
        NOW,
        &keys.private_key_pem,
        "i",
    )
    .unwrap();
    let header = format!("Bearer {}", resp.access_token);
    let claims = resolve_userinfo(&db, Some(&header), NOW).unwrap();
    assert_eq!(claims.sub, user_id);
    assert_eq!(claims.name, "alice");
    assert_eq!(claims.email.as_deref(), Some("alice@example.com"));
    assert_eq!(claims.picture, None);

    // An expired token is treated as absent.
    let r = resolve_userinfo(&db, Some(&header), NOW + 3601);
    assert!(matches!(
        r,
        Err(AppError::ServiceError(ServiceError::InvalidToken))
    ));
}

#[test]
fn userinfo_rejects_missing_or_malformed_headers() {
    let (db, _) = seed_db();
    assert!(matches!(
        resolve_userinfo(&db, None, NOW),
        Err(AppError::ServiceError(ServiceError::InvalidToken))
    ));
    assert!(matches!(
        resolve_userinfo(&db, Some("Basic abc"), NOW),
        Err(AppError::ServiceError(ServiceError::InvalidToken))
    ));
    assert!(matches!(
        resolve_userinfo(&db, Some("Bearer unknown-token"), NOW),
        Err(AppError::ServiceError(ServiceError::InvalidToken))
    ));
    assert!(matches!(
        resolve_userinfo(&db, Some("Bear"), NOW),
        Err(AppError::ServiceError(ServiceError::InvalidToken))
    ));
}

#[test]
fn full_flow_from_registration_to_userinfo() {
    // The end-to-end scenario: register, log in, authorize, redeem, resolve.
    let mut db = Database::new();
    let mut sessions = sso_rs::session::SessionStore::new();
    let keys = OidcKeys::new().unwrap();
    let hex_password = "5e884898da28047151d0e56f8dc6292773603d0d6aabbdd62a11ef721d1542d8";

    let ex = sso_rs::auth::begin_exchange(&mut sessions, NOW).unwrap();
    let rsa = openssl::rsa::Rsa::public_key_from_pem(ex.public_key.as_bytes()).unwrap();
    let mut buf = vec![0u8; rsa.size() as usize];
    let n = rsa
        .public_encrypt(hex_password.as_bytes(), &mut buf, openssl::rsa::Padding::PKCS1)
        .unwrap();
    buf.truncate(n);
    let enc = base64::Engine::encode(&base64::engine::general_purpose::STANDARD, &buf);

    let alice = sso_rs::auth::register(
        &mut db,
        &sessions,
        &sso_rs::auth::RegisterParams {
            username: Some("alice".to_string()),
            nickname: Some("Alice".to_string()),
            email: Some("alice@example.com".to_string()),
            password: Some(enc.clone()),
            rsa_token: Some(ex.token.clone()),
        },
        NOW,
    )
    .unwrap();

    let cookie_handle = sso_rs::auth::login(
        &db,
        &mut sessions,
        &sso_rs::auth::LoginParams {
            username: Some("alice".to_string()),
            password: Some(enc),
            rsa_token: Some(ex.token.clone()),
        },
        NOW,
    )
    .unwrap();
    let who = sso_rs::session::user_id_from_session(&sessions, &cookie_handle, NOW).unwrap();
    assert_eq!(who.user_id, alice.id);

    let uris = serde_json::to_string(&vec![REDIRECT.to_string()]).unwrap();
    let grants = serde_json::to_string(&vec!["authorization_code".to_string()]).unwrap();
    db.insert_application(
        CreateApplicationParams {
            id: "client-1".to_string(),
            name: "Test App".to_string(),
            icon_id: "icon-1".to_string(),
            description: None,
            homepage_url: "https://app.example.com/".to_string(),
            redirect_uris: uris,
            grant_types: grants,
            creator_id: alice.id,
        },
        NOW,
    )
    .unwrap();
    db.create_secret_by_application_id(
        CreateSecretParams {
            secret: "s3cr3t-value".to_string(),
            app_id: "client-1".to_string(),
            creator_id: alice.id,
        },
        NOW,
    )
    .unwrap();

    let url = authorize(&mut db, &authorize_query(REDIRECT), who.user_id, NOW).unwrap();
    let code = code_from_redirect(&url);
    let resp = exchange(
        &mut db,
        &token_request(&code, "s3cr3t-value"),
        NOW,
        &keys.private_key_pem,
        "https://sso.example.com/",
    )
    .unwrap();
    assert_ne!(resp.access_token, resp.refresh_token);
    assert_ne!(resp.access_token, resp.id_token);

    let decoding = jsonwebtoken::DecodingKey::from_rsa_pem(keys.public_key_pem.as_bytes()).unwrap();
    let mut validation = jsonwebtoken::Validation::new(jsonwebtoken::Algorithm::RS256);
    validation.set_audience(&["client-1"]);
    validation.validate_exp = false;
    let decoded = jsonwebtoken::decode::<serde_json::Value>(&resp.id_token, &decoding, &validation)
        .unwrap();
    assert_eq!(
        decoded.claims.get("sub").and_then(|v| v.as_str()),
        Some(alice.id.to_string().as_str())
    );

    let header = format!("Bearer {}", resp.access_token);
    let claims = resolve_userinfo(&db, Some(&header), NOW).unwrap();
    assert_eq!(claims.sub, alice.id);
    assert_eq!(claims.name, "alice");
}
