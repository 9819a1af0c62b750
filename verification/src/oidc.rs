//! The OAuth2 / OIDC protocol core: minting one-time authorization codes,
//! redeeming them exactly once for tokens, and resolving bearer tokens to
//! user claims. Each endpoint's deterministic decision is a spec function;
//! the executable functions are proved to follow it and to leave the store
//! unchanged on every failure.

use vstd::prelude::*;
use vstd::string::*;

use crate::constants::{AUTHORIZATION_CODE_EXPIRES_TIME, TOKEN_EXPIRES_TIME};
use crate::crypto::fresh_uuid;
use crate::error::{AppError, ServiceError};
use crate::jsonlist::{json_string_list_of, parse_string_list, spec_string_list_contains,
    string_list_contains};
use crate::numfmt::{i32_to_string, spec_i64_decimal};
use crate::store::{
    lemma_code_present_find, lemma_find_application_is_row, lemma_find_code_is_row,
    lemma_find_token_is_row, lemma_find_user_by_id_is_row, spec_access_token_present,
    spec_code_present, spec_find_application, spec_find_code, spec_find_token,
    spec_find_user_by_id, spec_refresh_token_present, spec_secret_matches,
    AuthorizationCodeRecord, Database, TokenRecord, UserRecord,
};
use crate::wellknown::{id_token_of, sign_id_token, Claims};

verus! {

pub open spec fn spec_opt_string_view(o: Option<String>) -> Option<Seq<char>> {
    match o {
        Some(s) => Some(s@),
        None => None,
    }
}

// ---------------------------------------------------------------------------
// Authorization endpoint.
// ---------------------------------------------------------------------------

/// The query of `GET /oidc/authorize`.
pub struct AuthorizeQuery {
    pub response_type: String,
    pub client_id: String,
    pub redirect_uri: String,
    pub scope: String,
    pub state: Option<String>,
    pub nonce: Option<String>,
}

/// The protocol failures of the authorization endpoint, with the standard
/// OAuth2 error identifiers.
#[derive(Clone, Copy, PartialEq, Eq, Structural, Debug)]
pub enum AuthorizeError {
    UnsupportedResponseType,
    InvalidClient,
    InvalidRedirectUri,
    InvalidRedirectUriFormat,
    DatabaseError,
}

pub open spec fn spec_authorize_error_status(e: AuthorizeError) -> u16 {
    match e {
        AuthorizeError::UnsupportedResponseType => 400,
        AuthorizeError::InvalidClient => 400,
        AuthorizeError::InvalidRedirectUri => 400,
        AuthorizeError::InvalidRedirectUriFormat => 500,
        AuthorizeError::DatabaseError => 500,
    }
}

pub open spec fn spec_authorize_error_message(e: AuthorizeError) -> Seq<char> {
    match e {
        AuthorizeError::UnsupportedResponseType => "unsupported_response_type"@,
        AuthorizeError::InvalidClient => "invalid_client"@,
        AuthorizeError::InvalidRedirectUri => "invalid_redirect_uri"@,
        AuthorizeError::InvalidRedirectUriFormat => "invalid redirect_uri format"@,
        AuthorizeError::DatabaseError => "Database error"@,
    }
}

impl AuthorizeError {
    /// The HTTP status and body this failure answers with.
    pub fn response_info(self) -> (r: (u16, String))
        ensures
            r.0 == spec_authorize_error_status(self),
            r.1@ == spec_authorize_error_message(self),
    {
        match self {
            AuthorizeError::UnsupportedResponseType => (
                400,
                "unsupported_response_type".to_owned(),
            ),
            AuthorizeError::InvalidClient => (400, "invalid_client".to_owned()),
            AuthorizeError::InvalidRedirectUri => (400, "invalid_redirect_uri".to_owned()),
            AuthorizeError::InvalidRedirectUriFormat => (
                500,
                "invalid redirect_uri format".to_owned(),
            ),
            AuthorizeError::DatabaseError => (500, "Database error".to_owned()),
        }
    }
}

/// What appending the `code` and optional `state` query parameters to the
/// redirect URI yields, or `None` when the URI does not parse: a function
/// of the three arguments alone.
pub uninterp spec fn redirect_url_of(
    base: Seq<char>,
    code: Seq<char>,
    state: Option<Seq<char>>,
) -> Option<Seq<char>>;

pub open spec fn spec_opt_ref_view(o: Option<&String>) -> Option<Seq<char>> {
    match o {
        Some(s) => Some(s@),
        None => None,
    }
}

/// Relies on url's `Url::parse` and `query_pairs_mut().append_pair`:
/// appends `code` and, if given, `state` to the query of the validated
/// redirect URI, percent-encoding as the URL syntax requires.
#[verifier::external_body]
fn build_redirect_url(base: &str, code: &str, state: Option<&String>) -> (r: Option<String>)
    ensures
        r is Some <==> redirect_url_of(base@, code@, spec_opt_ref_view(state)) is Some,
        r matches Some(u) ==> redirect_url_of(base@, code@, spec_opt_ref_view(state)) == Some(u@),
{
    let mut url = match url::Url::parse(base) {
        Ok(u) => u,
        Err(_) => return None,
    };
    url.query_pairs_mut().append_pair("code", code);
    if let Some(st) = state {
        url.query_pairs_mut().append_pair("state", st);
    }
    Some(String::from(url.as_str()))
}

/// The deterministic decision of the authorization endpoint: reject a
/// response type other than `code`, an unknown client, and a redirect URI
/// that is not literally one of the client's registered set; `Ok` carries
/// the resolved application. A registered-URI column that does not parse
/// as a JSON list is a data-integrity fault.
pub open spec fn spec_authorize_check(db: Database, query: AuthorizeQuery) -> Result<
    crate::store::ApplicationRecord,
    AuthorizeError,
> {
    if query.response_type@ != "code"@ {
        Err(AuthorizeError::UnsupportedResponseType)
    } else {
        match spec_find_application(db.applications@, query.client_id@) {
            None => Err(AuthorizeError::InvalidClient),
            Some(app) => match json_string_list_of(app.redirect_uris@) {
                None => Err(AuthorizeError::DatabaseError),
                Some(uris) => if !spec_string_list_contains(uris, query.redirect_uri@) {
                    Err(AuthorizeError::InvalidRedirectUri)
                } else {
                    Ok(app)
                },
            },
        }
    }
}

/// `GET /oidc/authorize` for the authenticated user: validates the request,
/// mints an unguessable one-time code with a ten-minute expiry bound to the
/// application, user, scopes and redirect URI, records it, and returns the
/// redirect URL carrying `code` and the caller's `state`. On failure,
/// nothing is recorded and no redirect is produced.
pub fn authorize(db: &mut Database, query: &AuthorizeQuery, user_id: i32, now: i64) -> (r: Result<
    String,
    AuthorizeError,
>)
    requires
        old(db).wf(),
        now <= i64::MAX - (AUTHORIZATION_CODE_EXPIRES_TIME as i64),
    ensures
        final(db).wf(),
        r matches Ok(url) ==> ({
            let chk = spec_authorize_check(*old(db), *query);
            &&& chk matches Ok(app)
            &&& final(db).authorization_codes@.len() == old(db).authorization_codes@.len() + 1
            &&& final(db).authorization_codes@ =~= old(db).authorization_codes@.push(
                final(db).authorization_codes@.last(),
            )
            &&& ({
                let rec = final(db).authorization_codes@.last();
                &&& rec.application_id == chk->Ok_0.id
                &&& rec.user_id == user_id
                &&& rec.scopes == query.scope
                &&& rec.redirect_uri == query.redirect_uri
                &&& rec.expires_at == now + (AUTHORIZATION_CODE_EXPIRES_TIME as i64)
                &&& !spec_code_present(old(db).authorization_codes@, rec.code@)
                &&& redirect_url_of(query.redirect_uri@, rec.code@, spec_opt_string_view(
                    query.state,
                )) == Some(url@)
            })
            &&& final(db).users == old(db).users
            &&& final(db).images == old(db).images
            &&& final(db).applications == old(db).applications
            &&& final(db).application_secrets == old(db).application_secrets
            &&& final(db).tokens == old(db).tokens
            &&& final(db).next_user_id == old(db).next_user_id
            &&& final(db).next_secret_id == old(db).next_secret_id
        }),
        r matches Err(e) ==> *final(db) == *old(db) && ({
            ||| spec_authorize_check(*old(db), *query) == Err::<
                crate::store::ApplicationRecord,
                AuthorizeError,
            >(e)
            ||| (e == AuthorizeError::InvalidRedirectUriFormat && spec_authorize_check(
                *old(db),
                *query,
            ) is Ok)
            ||| (e == AuthorizeError::DatabaseError && spec_authorize_check(*old(db), *query)
                is Ok)
        }),
{
    if !query.response_type.as_str().eq("code") {
        return Err(AuthorizeError::UnsupportedResponseType);
    }
    let (app_id, app_redirect_uris): (String, String) = match db.find_one_application_by_id(
        query.client_id.as_str(),
    ) {
        None => {
            return Err(AuthorizeError::InvalidClient);
        },
        Some(app) => (app.id.clone(), app.redirect_uris.clone()),
    };
    let uris: Vec<String> = match parse_string_list(app_redirect_uris.as_str()) {
        Some(v) => v,
        None => {
            return Err(AuthorizeError::DatabaseError);
        },
    };
    if !string_list_contains(&uris, query.redirect_uri.as_str()) {
        return Err(AuthorizeError::InvalidRedirectUri);
    }
    let code = fresh_uuid();
    let redirect: String = match build_redirect_url(
        query.redirect_uri.as_str(),
        code.as_str(),
        query.state.as_ref(),
    ) {
        Some(u) => u,
        None => {
            return Err(AuthorizeError::InvalidRedirectUriFormat);
        },
    };
    let rec = AuthorizationCodeRecord {
        code,
        application_id: app_id,
        user_id,
        scopes: query.scope.clone(),
        redirect_uri: query.redirect_uri.clone(),
        expires_at: now + (AUTHORIZATION_CODE_EXPIRES_TIME as i64),
    };
    match db.insert_authorization_code(rec) {
        Ok(()) => Ok(redirect),
        Err(()) => Err(AuthorizeError::DatabaseError),
    }
}

/// An unregistered redirect URI is always rejected as
/// `invalid_redirect_uri`: for every store state and query, if the URI is
/// not literally in the client's registered set, the decision is that
/// error, so `authorize` never redirects to it.
pub proof fn lemma_unregistered_redirect_uri_rejected(db: Database, query: AuthorizeQuery)
    requires
        query.response_type@ == "code"@,
        spec_find_application(db.applications@, query.client_id@) matches Some(app)
            && json_string_list_of(app.redirect_uris@) matches Some(uris)
            && !spec_string_list_contains(uris, query.redirect_uri@),
    ensures
        spec_authorize_check(db, query) == Err::<
            crate::store::ApplicationRecord,
            AuthorizeError,
        >(AuthorizeError::InvalidRedirectUri),
{
}

// ---------------------------------------------------------------------------
// Token endpoint.
// ---------------------------------------------------------------------------

/// The form body of `POST /oidc/token`.
pub struct TokenRequest {
    pub grant_type: String,
    pub code: String,
    pub redirect_uri: String,
    pub client_id: String,
    pub client_secret: String,
}

/// The JSON answer of a successful exchange.
pub struct TokenResponse {
    pub access_token: String,
    pub id_token: String,
    pub token_type: String,
    pub expires_in: i64,
    pub refresh_token: String,
}

/// The deterministic decision of the token endpoint, in the order the
/// protocol prescribes: grant type, code existence, code expiry, bound
/// application and client id, redirect URI equality, client secret, then
/// the bound user, whose absence is a data-integrity fault. `Ok` carries
/// the code row and the user row.
pub open spec fn spec_exchange_check(db: Database, req: TokenRequest, now: i64) -> Result<
    (AuthorizationCodeRecord, UserRecord),
    AppError,
> {
    if req.grant_type@ != "authorization_code"@ {
        Err(AppError::ServiceError(ServiceError::InvalidGrant))
    } else {
        match spec_find_code(db.authorization_codes@, req.code@) {
            None => Err(AppError::ServiceError(ServiceError::InvalidGrant)),
            Some(c) => if c.expires_at < now {
                Err(AppError::ServiceError(ServiceError::InvalidGrant))
            } else {
                match spec_find_application(db.applications@, c.application_id@) {
                    None => Err(AppError::ServiceError(ServiceError::InvalidClient)),
                    Some(app) => if app.id@ != req.client_id@ {
                        Err(AppError::ServiceError(ServiceError::InvalidClient))
                    } else if c.redirect_uri@ != req.redirect_uri@ {
                        Err(AppError::ServiceError(ServiceError::InvalidGrant))
                    } else if !spec_secret_matches(
                        db.application_secrets@,
                        app.id@,
                        req.client_secret@,
                    ) {
                        Err(AppError::ServiceError(ServiceError::InvalidClient))
                    } else {
                        match spec_find_user_by_id(db.users@, c.user_id) {
                            None => Err(AppError::DatabaseError),
                            Some(u) => Ok((c, u)),
                        }
                    },
                }
            },
        }
    }
}

/// `POST /oidc/token`: redeems an authorization code exactly once. All
/// validations run first; then, atomically, the code row is deleted and a
/// fresh token pair with a one-hour expiry is recorded, and the RS256 ID
/// token is signed with the provider's key. On every failure the store is
/// unchanged — except that the redeemed code is gone only on success, so a
/// concurrent second exchange of the same code observes "missing" and
/// fails with `InvalidGrant`.
pub fn exchange(
    db: &mut Database,
    req: &TokenRequest,
    now: i64,
    signing_key_pem: &str,
    issuer: &str,
) -> (r: Result<TokenResponse, AppError>)
    requires
        old(db).wf(),
        0 <= now <= i64::MAX - (TOKEN_EXPIRES_TIME as i64),
    ensures
        final(db).wf(),
        r matches Ok(resp) ==> ({
            let chk = spec_exchange_check(*old(db), *req, now);
            &&& chk matches Ok(cu)
            &&& resp.token_type@ == "Bearer"@
            &&& resp.expires_in == TOKEN_EXPIRES_TIME as i64
            &&& !spec_code_present(final(db).authorization_codes@, req.code@)
            &&& (exists|i: int|
                0 <= i < old(db).authorization_codes@.len() && old(
                    db,
                ).authorization_codes@[i].code@ == req.code@ && final(db).authorization_codes@
                    =~= old(db).authorization_codes@.remove(i))
            &&& final(db).tokens@ =~= old(db).tokens@.push(
                TokenRecord {
                    access_token: resp.access_token,
                    refresh_token: resp.refresh_token,
                    application_id: chk->Ok_0.0.application_id,
                    user_id: chk->Ok_0.0.user_id,
                    scopes: chk->Ok_0.0.scopes,
                    expires_at: (now + (TOKEN_EXPIRES_TIME as i64)) as i64,
                },
            )
            &&& !spec_access_token_present(old(db).tokens@, resp.access_token@)
            &&& !spec_refresh_token_present(old(db).tokens@, resp.refresh_token@)
            &&& resp.id_token@ == id_token_of(
                signing_key_pem@,
                issuer@,
                spec_i64_decimal(chk->Ok_0.1.id as int),
                chk->Ok_0.0.application_id@,
                now + (TOKEN_EXPIRES_TIME as i64),
                now as int,
            )
            &&& final(db).users == old(db).users
            &&& final(db).images == old(db).images
            &&& final(db).applications == old(db).applications
            &&& final(db).application_secrets == old(db).application_secrets
            &&& final(db).next_user_id == old(db).next_user_id
            &&& final(db).next_secret_id == old(db).next_secret_id
        }),
        r matches Err(e) ==> *final(db) == *old(db) && ({
            ||| spec_exchange_check(*old(db), *req, now) == Err::<
                (AuthorizationCodeRecord, UserRecord),
                AppError,
            >(e)
            ||| ((e == AppError::DatabaseError || e == AppError::UnexpectedError)
                && spec_exchange_check(*old(db), *req, now) is Ok)
        }),
{
    if !req.grant_type.as_str().eq("authorization_code") {
        return Err(AppError::ServiceError(ServiceError::InvalidGrant));
    }
    let found_code: Option<&AuthorizationCodeRecord> = db.find_authorization_code(
        req.code.as_str(),
    );
    let (code_user_id, code_app_id, code_scopes, code_redirect, code_expires): (
        i32,
        String,
        String,
        String,
        i64,
    ) = match found_code {
        None => {
            return Err(AppError::ServiceError(ServiceError::InvalidGrant));
        },
        Some(c) => (
            c.user_id,
            c.application_id.clone(),
            c.scopes.clone(),
            c.redirect_uri.clone(),
            c.expires_at,
        ),
    };
    proof {
        lemma_find_code_is_row(db.authorization_codes@, req.code@);
    }
    if code_expires < now {
        return Err(AppError::ServiceError(ServiceError::InvalidGrant));
    }
    let app_id: String = match db.find_one_application_by_id(code_app_id.as_str()) {
        None => {
            return Err(AppError::ServiceError(ServiceError::InvalidClient));
        },
        Some(app) => app.id.clone(),
    };
    proof {
        lemma_find_application_is_row(db.applications@, code_app_id@);
    }
    if !app_id.as_str().eq(req.client_id.as_str()) {
        return Err(AppError::ServiceError(ServiceError::InvalidClient));
    }
    if !code_redirect.as_str().eq(req.redirect_uri.as_str()) {
        return Err(AppError::ServiceError(ServiceError::InvalidGrant));
    }
    if !db.client_secret_valid(app_id.as_str(), req.client_secret.as_str()) {
        return Err(AppError::ServiceError(ServiceError::InvalidClient));
    }
    let db_user_id: i32 = match db.find_one_user_by_id(code_user_id) {
        None => {
            return Err(AppError::DatabaseError);
        },
        Some(u) => u.id,
    };
    proof {
        lemma_find_user_by_id_is_row(db.users@, code_user_id);
    }
    let access_token = fresh_uuid();
    let refresh_token = fresh_uuid();
    if db.access_token_present(access_token.as_str()) {
        return Err(AppError::DatabaseError);
    }
    if db.refresh_token_present(refresh_token.as_str()) {
        return Err(AppError::DatabaseError);
    }
    let expires_at: i64 = now + (TOKEN_EXPIRES_TIME as i64);
    let claims = Claims {
        iss: issuer.to_owned(),
        sub: i32_to_string(db_user_id),
        aud: code_app_id.clone(),
        exp: expires_at,
        iat: now,
    };
    let id_token: String = match sign_id_token(signing_key_pem, &claims) {
        Ok(t) => t,
        Err(()) => {
            return Err(AppError::UnexpectedError);
        },
    };
    db.delete_authorization_code(req.code.as_str());
    let token_rec = TokenRecord {
        access_token: access_token.clone(),
        refresh_token: refresh_token.clone(),
        application_id: code_app_id,
        user_id: code_user_id,
        scopes: code_scopes,
        expires_at,
    };
    match db.insert_token(token_rec) {
        Ok(()) => Ok(
            TokenResponse {
                access_token,
                id_token,
                token_type: "Bearer".to_owned(),
                expires_in: 3600,
                refresh_token,
            },
        ),
        Err(()) => {
            proof {
                assert(false);
            }
            Err(AppError::DatabaseError)
        },
    }
}

/// At-most-once redemption: once the code row is gone from the store, any
/// further exchange of the same code is decided `invalid_grant`, whatever
/// the rest of the request says. Together with the contract of `exchange`
/// — which removes the row on success and leaves the store unchanged on
/// failure — two exchanges of one code cannot both succeed.
pub proof fn lemma_redeemed_code_cannot_be_redeemed(db: Database, req: TokenRequest, now: i64)
    requires
        !spec_code_present(db.authorization_codes@, req.code@),
    ensures
        spec_exchange_check(db, req, now) == Err::<
            (AuthorizationCodeRecord, UserRecord),
            AppError,
        >(AppError::ServiceError(ServiceError::InvalidGrant)),
{
    lemma_code_present_find(db.authorization_codes@, req.code@);
}

/// A code redeemed after its expiry is decided `invalid_grant`: together
/// with the contract of `exchange`, the store is unchanged, so no token row
/// is created for an expired code.
pub proof fn lemma_expired_code_rejected(db: Database, req: TokenRequest, now: i64)
    requires
        req.grant_type@ == "authorization_code"@,
        spec_find_code(db.authorization_codes@, req.code@) matches Some(c) && c.expires_at < now,
    ensures
        spec_exchange_check(db, req, now) == Err::<
            (AuthorizationCodeRecord, UserRecord),
            AppError,
        >(AppError::ServiceError(ServiceError::InvalidGrant)),
{
}

// ---------------------------------------------------------------------------
// Userinfo endpoint.
// ---------------------------------------------------------------------------

/// The claims `GET /oidc/userinfo` answers with.
pub struct UserInfoClaims {
    pub sub: i32,
    pub name: String,
    pub email: Option<String>,
    pub picture: Option<String>,
}

/// The deterministic decision of the userinfo endpoint: the header must
/// carry a `Bearer ` prefix, the access token must exist and be unexpired,
/// and the bound user must exist.
pub open spec fn spec_userinfo_check(
    db: Database,
    auth_header: Option<Seq<char>>,
    now: i64,
) -> Result<UserRecord, AppError> {
    match auth_header {
        None => Err(AppError::ServiceError(ServiceError::InvalidToken)),
        Some(h) => if !(h.len() >= 7 && h.subrange(0, 7) == "Bearer "@) {
            Err(AppError::ServiceError(ServiceError::InvalidToken))
        } else {
            match spec_find_token(db.tokens@, h.skip(7)) {
                None => Err(AppError::ServiceError(ServiceError::InvalidToken)),
                Some(t) => if t.expires_at < now {
                    Err(AppError::ServiceError(ServiceError::InvalidToken))
                } else {
                    match spec_find_user_by_id(db.users@, t.user_id) {
                        None => Err(AppError::ServiceError(ServiceError::NotFound)),
                        Some(u) => Ok(u),
                    }
                },
            }
        },
    }
}

fn clone_opt_string(s: &Option<String>) -> (r: Option<String>)
    ensures
        r == *s,
{
    match s {
        Some(x) => Some(x.clone()),
        None => None,
    }
}

pub open spec fn spec_opt_str_view(o: Option<&str>) -> Option<Seq<char>> {
    match o {
        Some(s) => Some(s@),
        None => None,
    }
}

/// `GET /oidc/userinfo`: resolves the bearer access token of the
/// `Authorization` header to the bound user's claims. Read-only; every
/// failure is exactly the one the decision function assigns.
pub fn resolve_userinfo(db: &Database, auth_header: Option<&str>, now: i64) -> (r: Result<
    UserInfoClaims,
    AppError,
>)
    ensures
        match r {
            Ok(claims) => spec_userinfo_check(*db, spec_opt_str_view(auth_header), now) matches Ok(
                u,
            ) && claims.sub == u.id && claims.name == u.username && claims.email == u.email
                && claims.picture == u.face_id,
            Err(e) => spec_userinfo_check(*db, spec_opt_str_view(auth_header), now) == Err::<
                UserRecord,
                AppError,
            >(e),
        },
{
    let h: &str = match auth_header {
        Some(h) => h,
        None => {
            return Err(AppError::ServiceError(ServiceError::InvalidToken));
        },
    };
    let n = h.unicode_len();
    if n < 7 {
        return Err(AppError::ServiceError(ServiceError::InvalidToken));
    }
    let prefix = h.substring_char(0, 7);
    if !prefix.eq("Bearer ") {
        return Err(AppError::ServiceError(ServiceError::InvalidToken));
    }
    let access_token = h.substring_char(7, n);
    proof {
        assert(access_token@ =~= h@.skip(7));
    }
    let token_user_id: i32 = match db.find_token_by_access_token(access_token) {
        None => {
            return Err(AppError::ServiceError(ServiceError::InvalidToken));
        },
        Some(t) => {
            if t.expires_at < now {
                return Err(AppError::ServiceError(ServiceError::InvalidToken));
            }
            t.user_id
        },
    };
    match db.find_one_user_by_id(token_user_id) {
        None => Err(AppError::ServiceError(ServiceError::NotFound)),
        Some(u) => Ok(
            UserInfoClaims {
                sub: u.id,
                name: u.username.clone(),
                email: clone_opt_string(&u.email),
                picture: clone_opt_string(&u.face_id),
            },
        ),
    }
}

} // verus!
