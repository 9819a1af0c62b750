//! Error taxonomy of the provider and its mapping to stable response codes.

use vstd::prelude::*;

verus! {

/// User-visible failure categories. Authentication failures are deliberately
/// uninformative about their root cause; the OAuth2 variants carry the
/// standard protocol meaning.
#[derive(Clone, Copy, PartialEq, Eq, Structural, Debug)]
pub enum ServiceError {
    DuplicatedUsername,
    InvalidRsaToken,
    DecryptPasswordError,
    InvalidPasswordLength,
    LoginFailed,
    LoginRequired,
    NotFound,
    PermissionDenied,
    ImageNotFound,
    InvalidGrant,
    InvalidClient,
    InvalidToken,
}

/// Everything a request handler can fail with. Infrastructure failures
/// (store, crypto library) carry no detail here: the client-visible message
/// must never leak driver or library error text.
#[derive(Clone, Copy, PartialEq, Eq, Structural, Debug)]
pub enum AppError {
    ServiceError(ServiceError),
    DatabaseError,
    ValidationError,
    PasswordError,
    RsaError,
    JsonError,
    UnexpectedError,
}

/// The JSON error body: a stable numeric code and a short human message.
pub struct ErrorResponse {
    pub code: usize,
    pub msg: String,
}

impl ErrorResponse {
    pub fn new(code: usize, msg: String) -> (r: ErrorResponse)
        ensures
            r.code == code,
            r.msg == msg,
    {
        ErrorResponse { code, msg }
    }
}

/// What a failed request answers with: an HTTP status, a stable numeric
/// code, and a short message.
pub struct ErrorResponseInfo {
    pub status: u16,
    pub code: i32,
    pub error_message: String,
}

pub open spec fn spec_error_status(e: AppError) -> u16 {
    match e {
        AppError::ServiceError(ServiceError::LoginRequired) => 401,
        AppError::ServiceError(ServiceError::InvalidToken) => 401,
        AppError::ServiceError(ServiceError::NotFound) => 404,
        AppError::ServiceError(ServiceError::PermissionDenied) => 403,
        AppError::ServiceError(_) => 400,
        AppError::DatabaseError => 500,
        AppError::ValidationError => 400,
        AppError::PasswordError => 500,
        AppError::RsaError => 500,
        AppError::JsonError => 400,
        AppError::UnexpectedError => 500,
    }
}

pub open spec fn spec_error_code(e: AppError) -> i32 {
    match e {
        AppError::ServiceError(ServiceError::DuplicatedUsername) => 100,
        AppError::ServiceError(ServiceError::InvalidRsaToken) => 101,
        AppError::ServiceError(ServiceError::DecryptPasswordError) => 102,
        AppError::ServiceError(ServiceError::InvalidPasswordLength) => 103,
        AppError::ServiceError(ServiceError::LoginFailed) => 104,
        AppError::ServiceError(ServiceError::LoginRequired) => 106,
        AppError::ServiceError(ServiceError::NotFound) => 107,
        AppError::ServiceError(ServiceError::ImageNotFound) => 108,
        AppError::ServiceError(ServiceError::InvalidGrant) => 109,
        AppError::ServiceError(ServiceError::InvalidClient) => 110,
        AppError::ServiceError(ServiceError::InvalidToken) => 111,
        AppError::ServiceError(ServiceError::PermissionDenied) => 403,
        AppError::ValidationError => 105,
        AppError::DatabaseError => 501,
        AppError::PasswordError => 502,
        AppError::RsaError => 503,
        AppError::JsonError => 503,
        AppError::UnexpectedError => 500,
    }
}

pub open spec fn spec_error_message(e: AppError) -> Seq<char> {
    match e {
        AppError::ServiceError(ServiceError::DuplicatedUsername) => "Username has been registered"@,
        AppError::ServiceError(ServiceError::InvalidRsaToken) => "Invalid Rsa token"@,
        AppError::ServiceError(ServiceError::DecryptPasswordError) => "Failed to decrypt password"@,
        AppError::ServiceError(ServiceError::InvalidPasswordLength) => "Password format is invalid"@,
        AppError::ServiceError(ServiceError::LoginFailed) => "Login failed"@,
        AppError::ServiceError(ServiceError::LoginRequired) => "Login required"@,
        AppError::ServiceError(ServiceError::NotFound) => "Record not found"@,
        AppError::ServiceError(ServiceError::ImageNotFound) => "Image not found"@,
        AppError::ServiceError(ServiceError::InvalidGrant) => "invalid_grant"@,
        AppError::ServiceError(ServiceError::InvalidClient) => "invalid_client"@,
        AppError::ServiceError(ServiceError::InvalidToken) => "invalid_token"@,
        AppError::ServiceError(ServiceError::PermissionDenied) => "Permission Denied"@,
        AppError::ValidationError => "Input validation error"@,
        AppError::DatabaseError => "Database error"@,
        AppError::PasswordError => "Internal error"@,
        AppError::RsaError => "Crypto error"@,
        AppError::JsonError => "Invalid input"@,
        AppError::UnexpectedError => "Internal error"@,
    }
}

impl AppError {
    /// The stable response triple for this error.
    pub fn get_error_response_info(self) -> (r: ErrorResponseInfo)
        ensures
            r.status == spec_error_status(self),
            r.code == spec_error_code(self),
            r.error_message@ == spec_error_message(self),
    {
        let (status, code, error_message): (u16, i32, String) = match self {
            AppError::ServiceError(ServiceError::DuplicatedUsername) => (
                400,
                100,
                "Username has been registered".to_owned(),
            ),
            AppError::ServiceError(ServiceError::InvalidRsaToken) => (
                400,
                101,
                "Invalid Rsa token".to_owned(),
            ),
            AppError::ServiceError(ServiceError::DecryptPasswordError) => (
                400,
                102,
                "Failed to decrypt password".to_owned(),
            ),
            AppError::ServiceError(ServiceError::InvalidPasswordLength) => (
                400,
                103,
                "Password format is invalid".to_owned(),
            ),
            AppError::ServiceError(ServiceError::LoginFailed) => (
                400,
                104,
                "Login failed".to_owned(),
            ),
            AppError::ServiceError(ServiceError::LoginRequired) => (
                401,
                106,
                "Login required".to_owned(),
            ),
            AppError::ServiceError(ServiceError::NotFound) => (
                404,
                107,
                "Record not found".to_owned(),
            ),
            AppError::ServiceError(ServiceError::ImageNotFound) => (
                400,
                108,
                "Image not found".to_owned(),
            ),
            AppError::ServiceError(ServiceError::InvalidGrant) => (
                400,
                109,
                "invalid_grant".to_owned(),
            ),
            AppError::ServiceError(ServiceError::InvalidClient) => (
                400,
                110,
                "invalid_client".to_owned(),
            ),
            AppError::ServiceError(ServiceError::InvalidToken) => (
                401,
                111,
                "invalid_token".to_owned(),
            ),
            AppError::ServiceError(ServiceError::PermissionDenied) => (
                403,
                403,
                "Permission Denied".to_owned(),
            ),
            AppError::ValidationError => (400, 105, "Input validation error".to_owned()),
            AppError::DatabaseError => (500, 501, "Database error".to_owned()),
            AppError::PasswordError => (500, 502, "Internal error".to_owned()),
            AppError::RsaError => (500, 503, "Crypto error".to_owned()),
            AppError::JsonError => (400, 503, "Invalid input".to_owned()),
            AppError::UnexpectedError => (500, 500, "Internal error".to_owned()),
        };
        ErrorResponseInfo { status, code, error_message }
    }
}

} // verus!
