//! The login initiator: parks a fresh CSRF token in a pending session and
//! sends the browser to the provider.

use vstd::prelude::*;
use crate::auth_errors::LoginError;
use crate::session::{session_cookie, session_cookie_for, SessionCookie, StoreOutcome};

verus! {

/// Temporary redirect to the provider, setting the pending session's cookie.
#[derive(Clone, Debug, PartialEq, Eq)]
pub struct LoginRedirect {
    pub cookie: SessionCookie,
    pub location: String,
}

/// The answer to login once the pending session was handed to the store.
pub open spec fn login_result(authorize_url: String, stored: StoreOutcome) -> Result<
    LoginRedirect,
    LoginError,
> {
    match stored {
        StoreOutcome::SerializationFailed { internal } => Err(
            LoginError::CsrfTokenSerialization { internal },
        ),
        StoreOutcome::WriteFailed { internal } => Err(LoginError::CsrfTokenStorage { internal }),
        StoreOutcome::NoIdentifier => Err(LoginError::CsrfTokenStorageEmptyCookie),
        StoreOutcome::Stored { session_id } => Ok(
            LoginRedirect { cookie: session_cookie_for(session_id), location: authorize_url },
        ),
    }
}

/// Finishes login: `authorize_url` is the provider's authorization URL that
/// was built together with the CSRF token, `stored` what came of storing the
/// pending session that holds the token.
pub fn login_respond(authorize_url: String, stored: StoreOutcome) -> (r: Result<
    LoginRedirect,
    LoginError,
>)
    ensures
        r == login_result(authorize_url, stored),
{
    match stored {
        StoreOutcome::SerializationFailed { internal } => Err(
            LoginError::CsrfTokenSerialization { internal },
        ),
        StoreOutcome::WriteFailed { internal } => Err(LoginError::CsrfTokenStorage { internal }),
        StoreOutcome::NoIdentifier => Err(LoginError::CsrfTokenStorageEmptyCookie),
        StoreOutcome::Stored { session_id } => Ok(
            LoginRedirect { cookie: session_cookie(session_id), location: authorize_url },
        ),
    }
}

} // verus!
