//! Failures of the authentication flows and the HTTP status each one maps to.

use vstd::prelude::*;

verus! {

/// 422: the request is not in the shape the endpoint needs.
pub const STATUS_UNPROCESSABLE_ENTITY: u16 = 422;

/// 500: a dependency or an integrity check failed.
pub const STATUS_INTERNAL_SERVER_ERROR: u16 = 500;

/// Why a callback from the provider did not establish a session. Each
/// variant that stems from a dependency keeps that dependency's own words
/// in `internal`, for the log.
#[derive(Clone, Debug, PartialEq, Eq)]
pub enum AuthCallbackError {
    NoSuchCookie { cookie_name: &'static str },
    SessionLoadingFailed { internal: String },
    InappropriateCookieFormat,
    EmptySession,
    CsrfTokenDeserializationError,
    CsrfTokenSessionDestructionError { internal: String },
    CsrfTokensMismatch,
    CodeExchangeError { internal: String },
    UserInfoRequestError { internal: String },
    UserInfoDeserializeResponseError { internal: String },
    UserInfoSerializationError { internal: String },
    UserInfoStorageError { internal: String },
    UserInfoStorageEmptyCookie,
}

/// A missing or malformed cookie is the client's fault; everything else is
/// answered as a server error, whose details are not shown.
pub open spec fn callback_error_status(e: AuthCallbackError) -> u16 {
    match e {
        AuthCallbackError::NoSuchCookie { .. } => STATUS_UNPROCESSABLE_ENTITY,
        AuthCallbackError::InappropriateCookieFormat => STATUS_UNPROCESSABLE_ENTITY,
        _ => STATUS_INTERNAL_SERVER_ERROR,
    }
}

impl AuthCallbackError {
    pub fn status_code(&self) -> (r: u16)
        ensures
            r == callback_error_status(*self),
    {
        match self {
            AuthCallbackError::NoSuchCookie { .. } => STATUS_UNPROCESSABLE_ENTITY,
            AuthCallbackError::InappropriateCookieFormat => STATUS_UNPROCESSABLE_ENTITY,
            _ => STATUS_INTERNAL_SERVER_ERROR,
        }
    }
}

/// Why login could not park its CSRF token in a pending session.
#[derive(Clone, Debug, PartialEq, Eq)]
pub enum LoginError {
    CsrfTokenSerialization { internal: String },
    CsrfTokenStorage { internal: String },
    CsrfTokenStorageEmptyCookie,
}

impl LoginError {
    /// Every login failure is a server error.
    pub fn status_code(&self) -> (r: u16)
        ensures
            r == STATUS_INTERNAL_SERVER_ERROR,
    {
        STATUS_INTERNAL_SERVER_ERROR
    }
}

/// The one failure that logout reports: the session was found and could
/// not be destroyed.
#[derive(Clone, Debug, PartialEq, Eq)]
pub enum LogoutError {
    SessionDestructionError { internal: String },
}

impl LogoutError {
    pub fn status_code(&self) -> (r: u16)
        ensures
            r == STATUS_INTERNAL_SERVER_ERROR,
    {
        STATUS_INTERNAL_SERVER_ERROR
    }
}

} // verus!
