use sso_rs::wellknown::{jwks_json, openid_configuration_json, OidcKeys};

#[test]
fn jwks_document_exposes_the_signing_key() {
    let keys = OidcKeys::new().unwrap();
    let doc = jwks_json(&keys).unwrap();
    let parsed: serde_json::Value = serde_json::from_str(&doc).unwrap();
    let jwk = &parsed["keys"][0];
    assert_eq!(jwk["kty"], "RSA");
    assert_eq!(jwk["use"], "sig");
    assert_eq!(jwk["alg"], "RS256");
    assert_eq!(jwk["kid"], "1");

    let rsa = openssl::rsa::Rsa::private_key_from_pem(keys.private_key_pem.as_bytes()).unwrap();
    let n64 = base64::Engine::encode(
        &base64::engine::general_purpose::URL_SAFE_NO_PAD,
        rsa.n().to_vec(),
    );
    let e64 = base64::Engine::encode(
        &base64::engine::general_purpose::URL_SAFE_NO_PAD,
        rsa.e().to_vec(),
    );
    assert_eq!(jwk["n"], n64.as_str());
    assert_eq!(jwk["e"], e64.as_str());
}

#[test]
fn discovery_document_advertises_the_endpoints() {
    let doc = openid_configuration_json("https://sso.example.com/");
    let parsed: serde_json::Value = serde_json::from_str(&doc).unwrap();
    assert_eq!(parsed["issuer"], "https://sso.example.com/");
    assert_eq!(
        parsed["authorization_endpoint"],
        "https://sso.example.com/api/oidc/authorize"
    );
    assert_eq!(
        parsed["token_endpoint"],
        "https://sso.example.com/api/oidc/token"
    );
    assert_eq!(
        parsed["userinfo_endpoint"],
        "https://sso.example.com/api/oidc/userinfo"
    );
    assert_eq!(
        parsed["jwks_uri"],
        "https://sso.example.com/.well-known/jwks.json"
    );
    assert_eq!(parsed["response_types_supported"][0], "code");
    assert_eq!(parsed["subject_types_supported"][0], "public");
    assert_eq!(parsed["id_token_signing_alg_values_supported"][0], "RS256");
}

#[test]
fn keypair_halves_belong_together() {
    let keys = OidcKeys::new().unwrap();
    let private = openssl::rsa::Rsa::private_key_from_pem(keys.private_key_pem.as_bytes()).unwrap();
    let public = openssl::rsa::Rsa::public_key_from_pem(keys.public_key_pem.as_bytes()).unwrap();
    assert_eq!(private.n().to_vec(), public.n().to_vec());
    assert!(private.size() >= 256);
}
