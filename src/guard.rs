//! The authenticated-identity guard of protected routes. Every way of
//! failing gives the same redirect to login: an anonymous caller learns
//! nothing of why.

use vstd::prelude::*;
use crate::session::{cookie_value_of, session_id_from_cookie, AuthRedirect, LoadOutcome, UserInfo};

verus! {

/// The session to load for the caller, from the request's session cookie
/// written `key=value`.
pub fn identity_session_id(cookie: Option<String>) -> (r: Result<String, AuthRedirect>)
    ensures
        match cookie {
            None => r == Err::<String, AuthRedirect>(AuthRedirect),
            Some(raw) => match cookie_value_of(raw@) {
                None => r == Err::<String, AuthRedirect>(AuthRedirect),
                Some(id) => r matches Ok(s) && s@ == id,
            },
        },
{
    match cookie {
        None => Err(AuthRedirect),
        Some(raw) => match session_id_from_cookie(raw.as_str()) {
            None => Err(AuthRedirect),
            Some(id) => Ok(id),
        },
    }
}

/// The caller's identity, read from what the store gave for that session.
pub open spec fn identity_of(load: LoadOutcome) -> Result<UserInfo, AuthRedirect> {
    match load {
        LoadOutcome::Present { values } => match values.user_info {
            Some(user_info) => Ok(user_info),
            None => Err(AuthRedirect),
        },
        _ => Err(AuthRedirect),
    }
}

pub fn identity_from_session(load: LoadOutcome) -> (r: Result<UserInfo, AuthRedirect>)
    ensures
        r == identity_of(load),
{
    match load {
        LoadOutcome::Present { values } => match values.user_info {
            Some(user_info) => Ok(user_info),
            None => Err(AuthRedirect),
        },
        _ => Err(AuthRedirect),
    }
}

} // verus!
