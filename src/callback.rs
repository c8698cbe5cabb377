//! The callback processor: validates the request that comes back from the
//! provider, consumes the pending session, exchanges the code, fetches the
//! identity and establishes an authenticated session.
//!
//! It runs as a machine: each step takes what the last outside call gave
//! and names the next call to make, until it names the response.

use vstd::prelude::*;
use crate::auth_errors::AuthCallbackError;
use crate::session::{
    cookie_value_of, session_cookie, session_cookie_for, session_id_from_cookie, LoadOutcome,
    SessionCookie, StoreOutcome, UserInfo, COOKIE_NAME,
};

verus! {

/// The query of the callback request.
#[derive(Clone, Debug, PartialEq, Eq)]
pub struct AuthCallbackQuery {
    pub code: String,
    pub state: String,
}

impl AuthCallbackQuery {
    pub fn new(code: String, state: String) -> (r: AuthCallbackQuery)
        ensures
            r.code == code,
            r.state == state,
    {
        AuthCallbackQuery { code, state }
    }
}

/// What the provider's profile endpoint gave.
#[derive(Clone, Debug, PartialEq, Eq)]
pub enum IdentityOutcome {
    RequestFailed { internal: String },
    DecodeFailed { internal: String },
    Fetched { user_info: UserInfo },
}

/// What a successful callback answers: the cookie of the authenticated
/// session and the identity as the body.
#[derive(Clone, Debug, PartialEq, Eq)]
pub struct CallbackSuccess {
    pub cookie: SessionCookie,
    pub user_info: UserInfo,
}

#[derive(Clone, Debug, PartialEq, Eq)]
pub enum CallbackState {
    AwaitingLoad { session_id: String, query: AuthCallbackQuery },
    AwaitingDestroy { csrf_token: String, query: AuthCallbackQuery },
    AwaitingExchange,
    AwaitingIdentity,
    AwaitingStore { user_info: UserInfo },
    Finished,
}

/// The outside call to make next, or the response.
#[derive(Debug, PartialEq, Eq)]
pub enum CallbackAction {
    LoadSession { session_id: String },
    DestroySession { session_id: String },
    ExchangeCode { code: String },
    FetchIdentity { access_token: String },
    StoreIdentity { user_info: UserInfo },
    Respond { outcome: Result<CallbackSuccess, AuthCallbackError> },
}

/// What the outside call named by the last action gave.
#[derive(Debug, PartialEq, Eq)]
pub enum CallbackEvent {
    Loaded { outcome: LoadOutcome },
    Destroyed { outcome: Result<(), String> },
    CodeExchanged { outcome: Result<String, String> },
    IdentityFetched { outcome: IdentityOutcome },
    Stored { outcome: StoreOutcome },
}

#[derive(Debug, PartialEq, Eq)]
pub struct CallbackStep {
    pub state: CallbackState,
    pub action: CallbackAction,
}

pub open spec fn callback_finish(outcome: Result<CallbackSuccess, AuthCallbackError>) -> CallbackStep {
    CallbackStep { state: CallbackState::Finished, action: CallbackAction::Respond { outcome } }
}

/// The first step. `cookie` is the session cookie of the request as written
/// in it (`key=value`), `None` where the request has none.
pub open spec fn callback_started(
    cookie: Option<String>,
    query: AuthCallbackQuery,
    r: CallbackStep,
) -> bool {
    match cookie {
        None => r == callback_finish(
            Err(AuthCallbackError::NoSuchCookie { cookie_name: COOKIE_NAME }),
        ),
        Some(raw) => match cookie_value_of(raw@) {
            None => r == callback_finish(Err(AuthCallbackError::InappropriateCookieFormat)),
            Some(id) => r.action matches CallbackAction::LoadSession { session_id } && session_id@
                == id && r.state == (CallbackState::AwaitingLoad { session_id, query }),
        },
    }
}

/// Whether `e` answers the call that state `s` waits for.
pub open spec fn callback_accepts(s: CallbackState, e: CallbackEvent) -> bool {
    match s {
        CallbackState::AwaitingLoad { .. } => e is Loaded,
        CallbackState::AwaitingDestroy { .. } => e is Destroyed,
        CallbackState::AwaitingExchange => e is CodeExchanged,
        CallbackState::AwaitingIdentity => e is IdentityFetched,
        CallbackState::AwaitingStore { .. } => e is Stored,
        CallbackState::Finished => false,
    }
}

/// One transition of the callback processor.
pub open spec fn callback_next(s: CallbackState, e: CallbackEvent) -> CallbackStep {
    match (s, e) {
        (
            CallbackState::AwaitingLoad { session_id, query },
            CallbackEvent::Loaded { outcome },
        ) => match outcome {
            LoadOutcome::Failed { internal } => callback_finish(
                Err(AuthCallbackError::SessionLoadingFailed { internal }),
            ),
            LoadOutcome::Absent => callback_finish(Err(AuthCallbackError::EmptySession)),
            LoadOutcome::Present { values } => match values.csrf_token {
                None => callback_finish(Err(AuthCallbackError::CsrfTokenDeserializationError)),
                Some(csrf_token) => CallbackStep {
                    state: CallbackState::AwaitingDestroy { csrf_token, query },
                    action: CallbackAction::DestroySession { session_id },
                },
            },
        },
        (
            CallbackState::AwaitingDestroy { csrf_token, query },
            CallbackEvent::Destroyed { outcome },
        ) => if csrf_token@ != query.state@ {
            callback_finish(Err(AuthCallbackError::CsrfTokensMismatch))
        } else {
            match outcome {
                Err(internal) => callback_finish(
                    Err(AuthCallbackError::CsrfTokenSessionDestructionError { internal }),
                ),
                Ok(()) => CallbackStep {
                    state: CallbackState::AwaitingExchange,
                    action: CallbackAction::ExchangeCode { code: query.code },
                },
            }
        },
        (CallbackState::AwaitingExchange, CallbackEvent::CodeExchanged { outcome }) => match outcome {
            Err(internal) => callback_finish(Err(AuthCallbackError::CodeExchangeError { internal })),
            Ok(access_token) => CallbackStep {
                state: CallbackState::AwaitingIdentity,
                action: CallbackAction::FetchIdentity { access_token },
            },
        },
        (CallbackState::AwaitingIdentity, CallbackEvent::IdentityFetched { outcome }) => match outcome {
            IdentityOutcome::RequestFailed { internal } => callback_finish(
                Err(AuthCallbackError::UserInfoRequestError { internal }),
            ),
            IdentityOutcome::DecodeFailed { internal } => callback_finish(
                Err(AuthCallbackError::UserInfoDeserializeResponseError { internal }),
            ),
            IdentityOutcome::Fetched { user_info } => CallbackStep {
                state: CallbackState::AwaitingStore { user_info },
                action: CallbackAction::StoreIdentity { user_info },
            },
        },
        (CallbackState::AwaitingStore { user_info }, CallbackEvent::Stored { outcome }) => match outcome {
            StoreOutcome::SerializationFailed { internal } => callback_finish(
                Err(AuthCallbackError::UserInfoSerializationError { internal }),
            ),
            StoreOutcome::WriteFailed { internal } => callback_finish(
                Err(AuthCallbackError::UserInfoStorageError { internal }),
            ),
            StoreOutcome::NoIdentifier => callback_finish(
                Err(AuthCallbackError::UserInfoStorageEmptyCookie),
            ),
            StoreOutcome::Stored { session_id } => callback_finish(
                Ok(CallbackSuccess { cookie: session_cookie_for(session_id), user_info }),
            ),
        },
        // A pair that `callback_accepts` refuses never occurs in a run.
        _ => callback_finish(Err(AuthCallbackError::EmptySession)),
    }
}

/// The actions of a run from state `s` on the answers `events`, up to the
/// first answer that does not fit.
pub open spec fn callback_trace(s: CallbackState, events: Seq<CallbackEvent>) -> Seq<
    CallbackAction,
>
    decreases events.len(),
{
    if events.len() == 0 || !callback_accepts(s, events[0]) {
        Seq::empty()
    } else {
        let r = callback_next(s, events[0]);
        seq![r.action] + callback_trace(r.state, events.drop_first())
    }
}

/// Starts the processing of a callback: a request without a session cookie,
/// or with one not written `key=value`, is refused before the store is
/// touched.
pub fn callback_start(cookie: Option<String>, query: AuthCallbackQuery) -> (r: CallbackStep)
    ensures
        callback_started(cookie, query, r),
{
    match cookie {
        None => CallbackStep {
            state: CallbackState::Finished,
            action: CallbackAction::Respond {
                outcome: Err(AuthCallbackError::NoSuchCookie { cookie_name: COOKIE_NAME }),
            },
        },
        Some(raw) => match session_id_from_cookie(raw.as_str()) {
            None => CallbackStep {
                state: CallbackState::Finished,
                action: CallbackAction::Respond {
                    outcome: Err(AuthCallbackError::InappropriateCookieFormat),
                },
            },
            Some(session_id) => {
                let load_id = session_id.clone();
                CallbackStep {
                    state: CallbackState::AwaitingLoad { session_id, query },
                    action: CallbackAction::LoadSession { session_id: load_id },
                }
            },
        },
    }
}

impl CallbackState {
    /// Whether `event` answers the call that this state waits for.
    pub fn accepts(&self, event: &CallbackEvent) -> (r: bool)
        ensures
            r == callback_accepts(*self, *event),
    {
        match self {
            CallbackState::AwaitingLoad { .. } => matches!(event, CallbackEvent::Loaded { .. }),
            CallbackState::AwaitingDestroy { .. } => matches!(event, CallbackEvent::Destroyed { .. }),
            CallbackState::AwaitingExchange => matches!(event, CallbackEvent::CodeExchanged { .. }),
            CallbackState::AwaitingIdentity => matches!(event, CallbackEvent::IdentityFetched { .. }),
            CallbackState::AwaitingStore { .. } => matches!(event, CallbackEvent::Stored { .. }),
            CallbackState::Finished => false,
        }
    }
}

fn finish(outcome: Result<CallbackSuccess, AuthCallbackError>) -> (r: CallbackStep)
    ensures
        r == callback_finish(outcome),
{
    CallbackStep { state: CallbackState::Finished, action: CallbackAction::Respond { outcome } }
}

/// Takes the answer to the last call and decides what comes next.
pub fn callback_step(state: CallbackState, event: CallbackEvent) -> (r: CallbackStep)
    requires
        callback_accepts(state, event),
    ensures
        r == callback_next(state, event),
{
    match (state, event) {
        (
            CallbackState::AwaitingLoad { session_id, query },
            CallbackEvent::Loaded { outcome },
        ) => match outcome {
            LoadOutcome::Failed { internal } => finish(
                Err(AuthCallbackError::SessionLoadingFailed { internal }),
            ),
            LoadOutcome::Absent => finish(Err(AuthCallbackError::EmptySession)),
            LoadOutcome::Present { values } => match values.csrf_token {
                None => finish(Err(AuthCallbackError::CsrfTokenDeserializationError)),
                Some(csrf_token) => CallbackStep {
                    state: CallbackState::AwaitingDestroy { csrf_token, query },
                    action: CallbackAction::DestroySession { session_id },
                },
            },
        },
        (
            CallbackState::AwaitingDestroy { csrf_token, query },
            CallbackEvent::Destroyed { outcome },
        ) => {
            // The token is compared whether or not the destruction went
            // through; a mismatch is what the caller hears of first.
            if csrf_token != query.state {
                finish(Err(AuthCallbackError::CsrfTokensMismatch))
            } else {
                match outcome {
                    Err(internal) => finish(
                        Err(AuthCallbackError::CsrfTokenSessionDestructionError { internal }),
                    ),
                    Ok(()) => CallbackStep {
                        state: CallbackState::AwaitingExchange,
                        action: CallbackAction::ExchangeCode { code: query.code },
                    },
                }
            }
        },
        (CallbackState::AwaitingExchange, CallbackEvent::CodeExchanged { outcome }) => match outcome {
            Err(internal) => finish(Err(AuthCallbackError::CodeExchangeError { internal })),
            Ok(access_token) => CallbackStep {
                state: CallbackState::AwaitingIdentity,
                action: CallbackAction::FetchIdentity { access_token },
            },
        },
        (CallbackState::AwaitingIdentity, CallbackEvent::IdentityFetched { outcome }) => match outcome {
            IdentityOutcome::RequestFailed { internal } => finish(
                Err(AuthCallbackError::UserInfoRequestError { internal }),
            ),
            IdentityOutcome::DecodeFailed { internal } => finish(
                Err(AuthCallbackError::UserInfoDeserializeResponseError { internal }),
            ),
            IdentityOutcome::Fetched { user_info } => CallbackStep {
                state: CallbackState::AwaitingStore { user_info },
                action: CallbackAction::StoreIdentity { user_info },
            },
        },
        (CallbackState::AwaitingStore { user_info }, CallbackEvent::Stored { outcome }) => match outcome {
            StoreOutcome::SerializationFailed { internal } => finish(
                Err(AuthCallbackError::UserInfoSerializationError { internal }),
            ),
            StoreOutcome::WriteFailed { internal } => finish(
                Err(AuthCallbackError::UserInfoStorageError { internal }),
            ),
            StoreOutcome::NoIdentifier => finish(Err(AuthCallbackError::UserInfoStorageEmptyCookie)),
            StoreOutcome::Stored { session_id } => finish(
                Ok(CallbackSuccess { cookie: session_cookie(session_id), user_info }),
            ),
        },
        _ => finish(Err(AuthCallbackError::EmptySession)),
    }
}

} // verus!
