//! Core of an OIDC identity provider: an RSA key-exchange handshake for
//! password transport, PBKDF2 credential hashing, login sessions, and the
//! OAuth2 authorization-code / token state machines, verified with Verus.
//!
//! Persistent records (users, applications, secrets, authorization codes,
//! tokens) live in a [`store::Database`]; TTL-bound opaque-handle records
//! (ephemeral RSA keys, login sessions) live in a [`session::SessionStore`].
//! The surrounding process supplies both stores and performs the I/O.

pub mod application;
pub mod auth;
pub mod constants;
pub mod crypto;
pub mod error;
pub mod jsonlist;
pub mod numfmt;
pub mod oidc;
pub mod profile;
pub mod qcloud;
pub mod session;
pub mod store;
pub mod strutil;
pub mod validate;
pub mod wellknown;
