//! Registration, login and logout: the password travels RSA-encrypted under
//! an ephemeral key-exchange handle, is decrypted and checked here, and a
//! successful login becomes a TTL-bound session record and a cookie.

use vstd::prelude::*;
use vstd::string::*;

use crate::constants::{RSA_EXPIRES_TIME, SESSION_EXPIRES_TIME};
use crate::crypto::{
    decrypt_with_handle, fresh_uuid, generate_rsa_keypair, hash_password, pbkdf2_hash_of,
    rsa_key_ok_of, rsa_keysize_of, rsa_public_pem_of, salt_ok_of, spec_decrypt_outcome,
    spec_decrypt_rsa_content, spec_password_matches, verify_password,
};
use crate::error::{AppError, ServiceError};
use crate::session::{
    lemma_session_present_find, spec_extract_private_key, spec_load_session, spec_session_present,
    SessionEntry, SessionPayload, SessionStore,
};
use crate::store::{
    spec_find_user_by_username, spec_user_present, CreateUserParams, Database, UserRecord,
};
use crate::validate::{
    email_is_valid, email_valid_of, spec_has_control_char, spec_name_field_valid,
    non_control_character, validate_name_field,
};

verus! {

/// A registration request, all fields still unchecked. The password is the
/// client-side SHA-256 hex digest, RSA-encrypted and base64-encoded.
pub struct RegisterParams {
    pub username: Option<String>,
    pub nickname: Option<String>,
    pub email: Option<String>,
    pub password: Option<String>,
    pub rsa_token: Option<String>,
}

/// A login request, with the same password transport as registration.
pub struct LoginParams {
    pub username: Option<String>,
    pub password: Option<String>,
    pub rsa_token: Option<String>,
}

pub open spec fn spec_register_params_valid(p: RegisterParams) -> bool {
    &&& p.username matches Some(u) && spec_name_field_valid(u@)
    &&& p.nickname matches Some(nn) && spec_name_field_valid(nn@)
    &&& p.email matches Some(e) && email_valid_of(e@)
    &&& p.password matches Some(pw) && !spec_has_control_char(pw@)
    &&& p.rsa_token matches Some(t) && !spec_has_control_char(t@)
}

pub fn validate_register_params(p: &RegisterParams) -> (r: bool)
    ensures
        r == spec_register_params_valid(*p),
{
    let username_ok = match &p.username {
        Some(u) => validate_name_field(u.as_str()),
        None => false,
    };
    let nickname_ok = match &p.nickname {
        Some(nn) => validate_name_field(nn.as_str()),
        None => false,
    };
    let email_ok = match &p.email {
        Some(e) => email_is_valid(e.as_str()),
        None => false,
    };
    let password_ok = match &p.password {
        Some(pw) => non_control_character(pw.as_str()),
        None => false,
    };
    let token_ok = match &p.rsa_token {
        Some(t) => non_control_character(t.as_str()),
        None => false,
    };
    username_ok && nickname_ok && email_ok && password_ok && token_ok
}

pub open spec fn spec_login_params_valid(p: LoginParams) -> bool {
    &&& p.username matches Some(u) && spec_name_field_valid(u@)
    &&& p.password matches Some(pw) && !spec_has_control_char(pw@)
    &&& p.rsa_token matches Some(t) && !spec_has_control_char(t@)
}

pub fn validate_login_params(p: &LoginParams) -> (r: bool)
    ensures
        r == spec_login_params_valid(*p),
{
    let username_ok = match &p.username {
        Some(u) => validate_name_field(u.as_str()),
        None => false,
    };
    let password_ok = match &p.password {
        Some(pw) => non_control_character(pw.as_str()),
        None => false,
    };
    let token_ok = match &p.rsa_token {
        Some(t) => non_control_character(t.as_str()),
        None => false,
    };
    username_ok && password_ok && token_ok
}

/// The deterministic decision of registration: the first failing rule
/// decides the error, and `Ok` carries the decrypted password.
pub open spec fn spec_register_check(
    users: Seq<UserRecord>,
    sessions: Seq<SessionEntry>,
    params: RegisterParams,
    now: i64,
) -> Result<Seq<char>, AppError> {
    if !spec_register_params_valid(params) {
        Err(AppError::ValidationError)
    } else {
        match spec_decrypt_outcome(
            sessions,
            params.rsa_token->Some_0@,
            params.password->Some_0@,
            now,
        ) {
            Err(e) => Err(e),
            Ok(p) => if p.len() != 64 {
                Err(AppError::ServiceError(ServiceError::InvalidPasswordLength))
            } else if spec_user_present(users, params.username->Some_0@) {
                Err(AppError::ServiceError(ServiceError::DuplicatedUsername))
            } else {
                Ok(p)
            },
        }
    }
}

/// Registers a user: decrypts the transported password, requires it to be
/// the 64-character client-side digest, enforces username uniqueness,
/// hashes the password, and inserts the row. On any failure the store is
/// unchanged and the error is exactly the one `spec_register_check`
/// assigns, except that an exhausted id space surfaces as `DatabaseError`;
/// whenever the decision approves and an id is free, registration succeeds.
pub fn register(db: &mut Database, sessions: &SessionStore, params: &RegisterParams, now: i64) -> (r:
    Result<UserRecord, AppError>)
    requires
        old(db).wf(),
    ensures
        final(db).wf(),
        r matches Ok(u) ==> ({
            &&& spec_register_check(old(db).users@, sessions.entries@, *params, now) matches Ok(p)
                && u.password_hash@ == pbkdf2_hash_of(p, u.salt@)
            &&& salt_ok_of(u.salt@)
            &&& u.id == old(db).next_user_id
            &&& u.username == params.username->Some_0
            &&& u.email == params.email
            &&& u.nickname == params.nickname->Some_0
            &&& u.created_at == now
            &&& u.updated_at == now
            &&& final(db).users@ =~= old(db).users@.push(u)
            &&& final(db).next_user_id == old(db).next_user_id + 1
            &&& final(db).images == old(db).images
            &&& final(db).applications == old(db).applications
            &&& final(db).application_secrets == old(db).application_secrets
            &&& final(db).authorization_codes == old(db).authorization_codes
            &&& final(db).tokens == old(db).tokens
            &&& final(db).next_secret_id == old(db).next_secret_id
        }),
        r matches Err(e) ==> *final(db) == *old(db) && ({
            ||| spec_register_check(old(db).users@, sessions.entries@, *params, now) == Err::<
                Seq<char>,
                AppError,
            >(e)
            ||| (e == AppError::DatabaseError && spec_register_check(
                old(db).users@,
                sessions.entries@,
                *params,
                now,
            ) is Ok && old(db).next_user_id == i32::MAX)
        }),
        spec_register_check(old(db).users@, sessions.entries@, *params, now) is Ok && old(
            db,
        ).next_user_id < i32::MAX ==> r is Ok,
{
    if !validate_register_params(params) {
        return Err(AppError::ValidationError);
    }
    let username: &String = match &params.username {
        Some(u) => u,
        None => {
            proof {
                assert(false);
            }
            return Err(AppError::ValidationError);
        },
    };
    let nickname: &String = match &params.nickname {
        Some(nn) => nn,
        None => {
            proof {
                assert(false);
            }
            return Err(AppError::ValidationError);
        },
    };
    let email: &String = match &params.email {
        Some(e) => e,
        None => {
            proof {
                assert(false);
            }
            return Err(AppError::ValidationError);
        },
    };
    let password_field: &String = match &params.password {
        Some(pw) => pw,
        None => {
            proof {
                assert(false);
            }
            return Err(AppError::ValidationError);
        },
    };
    let rsa_token: &String = match &params.rsa_token {
        Some(t) => t,
        None => {
            proof {
                assert(false);
            }
            return Err(AppError::ValidationError);
        },
    };
    let decrypted: String = match decrypt_with_handle(
        sessions,
        rsa_token.as_str(),
        password_field.as_str(),
        now,
    ) {
        Ok(p) => p,
        Err(e) => {
            return Err(e);
        },
    };
    proof {
        assert(spec_extract_private_key(sessions.entries@, rsa_token@, now) is Ok);
        let key = spec_extract_private_key(sessions.entries@, rsa_token@, now)->Ok_0;
        assert(spec_decrypt_rsa_content(key, password_field@) == Some(decrypted@));
    }
    let password_len: usize = decrypted.as_str().unicode_len();
    if password_len != 64 {
        return Err(AppError::ServiceError(ServiceError::InvalidPasswordLength));
    }
    if db.user_present(username.as_str()) {
        return Err(AppError::ServiceError(ServiceError::DuplicatedUsername));
    }
    let hashed: (String, String) = match hash_password(decrypted.as_str(), None) {
        Ok(sh) => sh,
        Err(()) => {
            proof {
                assert(false);
            }
            return Err(AppError::PasswordError);
        },
    };
    match db.insert_user(
        CreateUserParams {
            username: username.clone(),
            salt: hashed.0,
            email: email.clone(),
            nickname: nickname.clone(),
            password_hash: hashed.1,
        },
        now,
    ) {
        Ok(u) => Ok(u),
        Err(()) => Err(AppError::DatabaseError),
    }
}

/// The deterministic decision of login: the first failing rule decides the
/// error, and `Ok` carries the authenticated user's id. A missing user and
/// a wrong password fail identically with `LoginFailed`; a stored salt the
/// hasher rejects is a data-integrity fault surfaced as `PasswordError`.
pub open spec fn spec_login_check(
    users: Seq<UserRecord>,
    sessions: Seq<SessionEntry>,
    params: LoginParams,
    now: i64,
) -> Result<i32, AppError> {
    if !spec_login_params_valid(params) {
        Err(AppError::ValidationError)
    } else {
        match spec_decrypt_outcome(
            sessions,
            params.rsa_token->Some_0@,
            params.password->Some_0@,
            now,
        ) {
            Err(e) => Err(e),
            Ok(p) => match spec_find_user_by_username(users, params.username->Some_0@) {
                None => Err(AppError::ServiceError(ServiceError::LoginFailed)),
                Some(u) => if !salt_ok_of(u.salt@) {
                    Err(AppError::PasswordError)
                } else if !spec_password_matches(p, u.salt@, u.password_hash@) {
                    Err(AppError::ServiceError(ServiceError::LoginFailed))
                } else {
                    Ok(u.id)
                },
            },
        }
    }
}

/// Logs a user in: decrypts the transported password, verifies it against
/// the stored salted hash, and on success records a fresh login session
/// with a 15-day TTL, returning its opaque handle for cookie issuance.
/// Whether the user was missing or the password wrong is not distinguished.
/// The error is exactly the one `spec_login_check` assigns; the one escape,
/// a freshly drawn handle colliding with a stored one, is possible only
/// when the decision had approved, and leaves the store unchanged.
pub fn login(db: &Database, sessions: &mut SessionStore, params: &LoginParams, now: i64) -> (r:
    Result<String, AppError>)
    requires
        old(sessions).wf(),
        now <= i64::MAX - (SESSION_EXPIRES_TIME as i64),
    ensures
        final(sessions).wf(),
        r matches Ok(handle) ==> ({
            &&& spec_login_check(db.users@, old(sessions).entries@, *params, now) matches Ok(uid)
                && final(sessions).entries@ =~= old(sessions).entries@.push(
                SessionEntry {
                    handle,
                    payload: SessionPayload::LoginUser(uid),
                    expires_at: (now + (SESSION_EXPIRES_TIME as i64)) as i64,
                },
            )
            &&& !spec_session_present(old(sessions).entries@, handle@)
        }),
        r matches Err(e) ==> *final(sessions) == *old(sessions) && ({
            ||| spec_login_check(db.users@, old(sessions).entries@, *params, now) == Err::<
                i32,
                AppError,
            >(e)
            ||| (e == AppError::UnexpectedError && spec_login_check(
                db.users@,
                old(sessions).entries@,
                *params,
                now,
            ) is Ok)
        }),
{
    if !validate_login_params(params) {
        return Err(AppError::ValidationError);
    }
    let username: &String = match &params.username {
        Some(u) => u,
        None => {
            proof {
                assert(false);
            }
            return Err(AppError::ValidationError);
        },
    };
    let password_field: &String = match &params.password {
        Some(pw) => pw,
        None => {
            proof {
                assert(false);
            }
            return Err(AppError::ValidationError);
        },
    };
    let rsa_token: &String = match &params.rsa_token {
        Some(t) => t,
        None => {
            proof {
                assert(false);
            }
            return Err(AppError::ValidationError);
        },
    };
    let decrypted: String = match decrypt_with_handle(
        sessions,
        rsa_token.as_str(),
        password_field.as_str(),
        now,
    ) {
        Ok(p) => p,
        Err(e) => {
            return Err(e);
        },
    };
    let user = match db.find_one_user_by_username(username.as_str()) {
        Some(u) => u,
        None => {
            return Err(AppError::ServiceError(ServiceError::LoginFailed));
        },
    };
    let matched: bool = match verify_password(
        decrypted.as_str(),
        user.salt.as_str(),
        user.password_hash.as_str(),
    ) {
        Ok(b) => b,
        Err(()) => {
            return Err(AppError::PasswordError);
        },
    };
    if !matched {
        return Err(AppError::ServiceError(ServiceError::LoginFailed));
    }
    let user_id = user.id;
    let handle = fresh_uuid();
    let expires_at: i64 = now + (SESSION_EXPIRES_TIME as i64);
    match sessions.store_session(handle.clone(), SessionPayload::LoginUser(user_id), expires_at) {
        Ok(()) => Ok(handle),
        Err(()) => Err(AppError::UnexpectedError),
    }
}

/// Logs a session out. A missing cookie, or a missing or expired session,
/// fails with `LoginRequired`; otherwise the session record is destroyed.
pub fn logout(sessions: &mut SessionStore, session_cookie: Option<&str>, now: i64) -> (r: Result<
    (),
    AppError,
>)
    requires
        old(sessions).wf(),
    ensures
        final(sessions).wf(),
        match session_cookie {
            None => r == Err::<(), AppError>(AppError::ServiceError(ServiceError::LoginRequired))
                && *final(sessions) == *old(sessions),
            Some(h) => match spec_load_session(old(sessions).entries@, h@, now) {
                None => r == Err::<(), AppError>(
                    AppError::ServiceError(ServiceError::LoginRequired),
                ) && *final(sessions) == *old(sessions),
                Some(_) => r is Ok && !spec_session_present(final(sessions).entries@, h@) && exists|
                    i: int,
                |
                    0 <= i < old(sessions).entries@.len() && old(sessions).entries@[i].handle@
                        == h@ && final(sessions).entries@ =~= old(sessions).entries@.remove(i),
            },
        },
{
    let handle = match session_cookie {
        Some(h) => h,
        None => {
            return Err(AppError::ServiceError(ServiceError::LoginRequired));
        },
    };
    let found = match sessions.load_session(handle, now) {
        Some(_) => true,
        None => false,
    };
    if !found {
        return Err(AppError::ServiceError(ServiceError::LoginRequired));
    }
    proof {
        lemma_session_present_find(sessions.entries@, handle@);
    }
    sessions.destroy_session(handle);
    Ok(())
}

/// What `POST /crypto/rsa` answers: the public half of the fresh keypair,
/// the handle the private half is stored under, and the handle's lifetime.
pub struct RsaExchangeResponse {
    pub public_key: String,
    pub expires: u64,
    pub token: String,
}

/// Begins a key exchange: generates a fresh 2048-bit RSA keypair, stores
/// the private key under a new opaque handle for ten minutes, and hands out
/// the matching public key with the handle: the returned public key is the
/// public half of the stored private key, which parses and has a 2048-bit
/// modulus. A crypto fault surfaces as `RsaError`; nothing is stored on
/// failure.
pub fn begin_exchange(sessions: &mut SessionStore, now: i64) -> (r: Result<
    RsaExchangeResponse,
    AppError,
>)
    requires
        old(sessions).wf(),
        now <= i64::MAX - (RSA_EXPIRES_TIME as i64),
    ensures
        final(sessions).wf(),
        r matches Ok(resp) ==> ({
            &&& resp.expires == RSA_EXPIRES_TIME
            &&& final(sessions).entries@.len() == old(sessions).entries@.len() + 1
            &&& final(sessions).entries@ =~= old(sessions).entries@.push(
                final(sessions).entries@.last(),
            )
            &&& final(sessions).entries@.last().handle@ == resp.token@
            &&& final(sessions).entries@.last().expires_at == now + (RSA_EXPIRES_TIME as i64)
            &&& (final(sessions).entries@.last().payload matches SessionPayload::RsaPrivateKey(k)
                && resp.public_key@ == rsa_public_pem_of(k@) && rsa_key_ok_of(k@)
                && rsa_keysize_of(k@) == 2048)
            &&& !spec_session_present(old(sessions).entries@, resp.token@)
        }),
        r matches Err(e) ==> *final(sessions) == *old(sessions) && (e == AppError::RsaError || e
            == AppError::UnexpectedError),
{
    let keypair: (String, String) = match generate_rsa_keypair(2048) {
        Ok(kp) => kp,
        Err(()) => {
            return Err(AppError::RsaError);
        },
    };
    let handle = fresh_uuid();
    let expires_at: i64 = now + (RSA_EXPIRES_TIME as i64);
    match sessions.store_session(
        handle.clone(),
        SessionPayload::RsaPrivateKey(keypair.0),
        expires_at,
    ) {
        Ok(()) => Ok(
            RsaExchangeResponse {
                public_key: keypair.1,
                expires: RSA_EXPIRES_TIME,
                token: handle,
            },
        ),
        Err(()) => Err(AppError::UnexpectedError),
    }
}

/// The `Set-Cookie` value a successful login answers with: HTTP-only,
/// strict same-site, path `/`, a 15-day max age, and `Secure` when the
/// front end is served over HTTPS.
pub open spec fn spec_session_cookie(token: Seq<char>, secure: bool) -> Seq<char> {
    "delbertbeta-s-sso="@ + token + "; Path=/; HttpOnly; SameSite=Strict; Max-Age=1296000"@ + (
    if secure {
        "; Secure"@
    } else {
        Seq::<char>::empty()
    })
}

/// Builds the login session cookie for a handle.
pub fn session_cookie(token: &str, secure: bool) -> (r: String)
    ensures
        r@ == spec_session_cookie(token@, secure),
{
    let mut s = String::from_str("delbertbeta-s-sso=");
    s.append(token);
    s.append("; Path=/; HttpOnly; SameSite=Strict; Max-Age=1296000");
    if secure {
        s.append("; Secure");
    }
    s
}

/// The `Set-Cookie` value logout answers with: the same attributes with a
/// zero max age, clearing the cookie.
pub open spec fn spec_clear_session_cookie(secure: bool) -> Seq<char> {
    "delbertbeta-s-sso=logout; Path=/; HttpOnly; SameSite=Strict; Max-Age=0"@ + (
    if secure {
        "; Secure"@
    } else {
        Seq::<char>::empty()
    })
}

/// Builds the cookie-clearing value for logout.
pub fn clear_session_cookie(secure: bool) -> (r: String)
    ensures
        r@ == spec_clear_session_cookie(secure),
{
    let mut s = String::from_str("delbertbeta-s-sso=logout; Path=/; HttpOnly; SameSite=Strict; Max-Age=0");
    if secure {
        s.append("; Secure");
    }
    s
}

} // verus!
