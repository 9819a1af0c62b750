//! Fixed keys and lifetimes, and the configuration the process supplies at
//! startup in place of ambient environment lookups.

use vstd::prelude::*;

verus! {

/// The cookie that carries the login-session handle.
pub const SESSION_COOKIE_KEY: &'static str = "delbertbeta-s-sso";

/// Lifetime of an ephemeral key-exchange record, in seconds.
pub const RSA_EXPIRES_TIME: u64 = 10 * 60;

/// Lifetime of a login session, in seconds.
pub const SESSION_EXPIRES_TIME: u64 = 60 * 60 * 24 * 15;

/// Lifetime of an authorization code, in seconds.
pub const AUTHORIZATION_CODE_EXPIRES_TIME: u64 = 10 * 60;

/// Lifetime of an access token, in seconds.
pub const TOKEN_EXPIRES_TIME: u64 = 60 * 60;

/// The configuration the process reads once at startup and passes into the
/// components, in place of ambient statics.
pub struct Envs {
    pub database_url: String,
    pub prod: bool,
    pub redis_url: String,
    pub rust_log: String,
    pub bucket_region: String,
    pub bucket_name: String,
    pub bucket_secret_id: String,
    pub bucket_secret_key: String,
    pub cdn_base_url: String,
}

} // verus!
