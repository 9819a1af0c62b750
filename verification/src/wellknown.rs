//! The key publisher: the process-lifetime RSA signing keypair, the JWKS
//! document exposing its public half, the OIDC discovery document, and the
//! RS256 ID-token signature.

use vstd::prelude::*;
use vstd::string::*;

use crate::crypto::{
    b64url_of, base64url_nopad_encode, generate_rsa_keypair, rsa_key_ok_of, rsa_keysize_of,
    rsa_public_pem_of,
};

verus! {

/// The big-endian bytes of the RSA modulus of the key in the PEM text: a
/// function of the key alone.
pub uninterp spec fn rsa_modulus_of(pem: Seq<char>) -> Seq<u8>;

/// The big-endian bytes of the RSA public exponent of the key in the PEM
/// text: a function of the key alone.
pub uninterp spec fn rsa_exponent_of(pem: Seq<char>) -> Seq<u8>;

/// The RS256-signed JWT for the given claims under the given key: RSA
/// PKCS#1 v1.5 signing is deterministic, so the token is a function of the
/// key and the claims alone.
pub uninterp spec fn id_token_of(
    pem: Seq<char>,
    iss: Seq<char>,
    sub: Seq<char>,
    aud: Seq<char>,
    exp: int,
    iat: int,
) -> Seq<char>;

/// The claim set of an ID token: issuer, subject (the user id in decimal),
/// audience (the application id), and the two timestamps.
pub struct Claims {
    pub iss: String,
    pub sub: String,
    pub aud: String,
    pub exp: i64,
    pub iat: i64,
}

/// The process-lifetime signing keypair, generated once at startup.
pub struct OidcKeys {
    pub private_key_pem: String,
    pub public_key_pem: String,
}

impl OidcKeys {
    /// Generates the signing keypair: the key itself is random, but on
    /// success the public PEM is the public half of the private PEM, the
    /// private PEM parses, and the modulus is 2048 bits. A generator fault
    /// is an infrastructure error.
    pub fn new() -> (r: Result<OidcKeys, ()>)
        ensures
            r matches Ok(keys) ==> keys.public_key_pem@ == rsa_public_pem_of(
                keys.private_key_pem@,
            ) && rsa_key_ok_of(keys.private_key_pem@) && rsa_keysize_of(keys.private_key_pem@)
                == 2048,
    {
        match generate_rsa_keypair(2048) {
            Ok(kp) => Ok(OidcKeys { private_key_pem: kp.0, public_key_pem: kp.1 }),
            Err(()) => Err(()),
        }
    }
}

/// Relies on openssl's `Rsa::private_key_from_pem` and `BigNumRef::to_vec`
/// on `n()`: the modulus bytes of the key. It fails exactly when the PEM
/// does not parse; reading and serializing the modulus is infallible.
#[verifier::external_body]
fn rsa_modulus_bytes(private_pem: &str) -> (r: Result<Vec<u8>, ()>)
    ensures
        r is Ok <==> rsa_key_ok_of(private_pem@),
        r matches Ok(b) ==> b@ == rsa_modulus_of(private_pem@),
{
    match openssl::rsa::Rsa::private_key_from_pem(private_pem.as_bytes()) {
        Ok(key) => Ok(key.n().to_vec()),
        Err(_) => Err(()),
    }
}

/// Relies on openssl's `Rsa::private_key_from_pem` and `BigNumRef::to_vec`
/// on `e()`: the public-exponent bytes of the key. It fails exactly when
/// the PEM does not parse.
#[verifier::external_body]
fn rsa_exponent_bytes(private_pem: &str) -> (r: Result<Vec<u8>, ()>)
    ensures
        r is Ok <==> rsa_key_ok_of(private_pem@),
        r matches Ok(b) ==> b@ == rsa_exponent_of(private_pem@),
{
    match openssl::rsa::Rsa::private_key_from_pem(private_pem.as_bytes()) {
        Ok(key) => Ok(key.e().to_vec()),
        Err(_) => Err(()),
    }
}

/// Relies on jsonwebtoken's `encode` with `Algorithm::RS256` and
/// `EncodingKey::from_rsa_pem`, over a claim object built from the five
/// claim fields: the signed compact JWT, named by `id_token_of`.
#[verifier::external_body]
pub(crate) fn sign_id_token(private_pem: &str, claims: &Claims) -> (r: Result<String, ()>)
    ensures
        r matches Ok(t) ==> t@ == id_token_of(
            private_pem@,
            claims.iss@,
            claims.sub@,
            claims.aud@,
            claims.exp as int,
            claims.iat as int,
        ),
{
    let mut obj = serde_json::Map::new();
    obj.insert("iss".to_owned(), claims.iss.as_str().into());
    obj.insert("sub".to_owned(), claims.sub.as_str().into());
    obj.insert("aud".to_owned(), claims.aud.as_str().into());
    obj.insert("exp".to_owned(), claims.exp.into());
    obj.insert("iat".to_owned(), claims.iat.into());
    let key = jsonwebtoken::EncodingKey::from_rsa_pem(private_pem.as_bytes()).map_err(|_| ())?;
    let header = jsonwebtoken::Header::new(jsonwebtoken::Algorithm::RS256);
    jsonwebtoken::encode(&header, &serde_json::Value::Object(obj), &key).map_err(|_| ())
}

/// The JWKS document for a modulus and exponent already base64url-encoded:
/// one RSA signing key under the fixed key id `1`.
pub open spec fn spec_jwks_json(n64: Seq<char>, e64: Seq<char>) -> Seq<char> {
    "{\"keys\":[{\"kty\":\"RSA\",\"use\":\"sig\",\"alg\":\"RS256\",\"kid\":\"1\",\"n\":\""@ + n64
        + "\",\"e\":\""@ + e64 + "\"}]}"@
}

/// Serves the JWKS document: the public modulus and exponent of the signing
/// key, base64url-encoded without padding. It succeeds exactly when the
/// stored PEM parses as a key — always, for a keypair this module generated.
pub fn jwks_json(keys: &OidcKeys) -> (r: Result<String, ()>)
    ensures
        r is Ok <==> rsa_key_ok_of(keys.private_key_pem@),
        r matches Ok(s) ==> s@ == spec_jwks_json(
            b64url_of(rsa_modulus_of(keys.private_key_pem@)),
            b64url_of(rsa_exponent_of(keys.private_key_pem@)),
        ),
{
    let n = match rsa_modulus_bytes(keys.private_key_pem.as_str()) {
        Ok(b) => b,
        Err(()) => {
            return Err(());
        },
    };
    let e = match rsa_exponent_bytes(keys.private_key_pem.as_str()) {
        Ok(b) => b,
        Err(()) => {
            return Err(());
        },
    };
    let n64 = base64url_nopad_encode(n.as_slice());
    let e64 = base64url_nopad_encode(e.as_slice());
    let mut s = String::from_str(
        "{\"keys\":[{\"kty\":\"RSA\",\"use\":\"sig\",\"alg\":\"RS256\",\"kid\":\"1\",\"n\":\"",
    );
    s.append(n64.as_str());
    s.append("\",\"e\":\"");
    s.append(e64.as_str());
    s.append("\"}]}");
    Ok(s)
}

/// The OIDC discovery document for an issuer URL (which ends in a slash):
/// the three endpoints, the JWKS location, and the fixed capability lists.
pub open spec fn spec_openid_configuration_json(issuer: Seq<char>) -> Seq<char> {
    "{\"issuer\":\""@ + issuer + "\",\"authorization_endpoint\":\""@ + issuer
        + "api/oidc/authorize\",\"token_endpoint\":\""@ + issuer
        + "api/oidc/token\",\"userinfo_endpoint\":\""@ + issuer
        + "api/oidc/userinfo\",\"jwks_uri\":\""@ + issuer
        + ".well-known/jwks.json\",\"response_types_supported\":[\"code\"],\"subject_types_supported\":[\"public\"],\"id_token_signing_alg_values_supported\":[\"RS256\"],\"scopes_supported\":[\"openid\",\"profile\",\"email\"]}"@
}

/// Serves the discovery document for the issuer.
pub fn openid_configuration_json(issuer: &str) -> (r: String)
    ensures
        r@ == spec_openid_configuration_json(issuer@),
{
    let mut s = String::from_str("{\"issuer\":\"");
    s.append(issuer);
    s.append("\",\"authorization_endpoint\":\"");
    s.append(issuer);
    s.append("api/oidc/authorize\",\"token_endpoint\":\"");
    s.append(issuer);
    s.append("api/oidc/token\",\"userinfo_endpoint\":\"");
    s.append(issuer);
    s.append("api/oidc/userinfo\",\"jwks_uri\":\"");
    s.append(issuer);
    s.append(
        ".well-known/jwks.json\",\"response_types_supported\":[\"code\"],\"subject_types_supported\":[\"public\"],\"id_token_signing_alg_values_supported\":[\"RS256\"],\"scopes_supported\":[\"openid\",\"profile\",\"email\"]}",
    );
    s
}

} // verus!
