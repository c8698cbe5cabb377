//! The logout processor: destroys the caller's session if there is one.
//! Logging out without a session, or twice, is a success.

use vstd::prelude::*;
use crate::auth_errors::LogoutError;
use crate::session::{cookie_value_of, session_id_from_cookie, HomeRedirect, LoadOutcome};

verus! {

#[derive(Clone, Debug, PartialEq, Eq)]
pub enum LogoutState {
    AwaitingLoad { session_id: String },
    AwaitingDestroy,
    Finished,
}

#[derive(Debug, PartialEq, Eq)]
pub enum LogoutAction {
    LoadSession { session_id: String },
    DestroySession { session_id: String },
    Respond { outcome: Result<HomeRedirect, LogoutError> },
}

#[derive(Debug, PartialEq, Eq)]
pub enum LogoutEvent {
    Loaded { outcome: LoadOutcome },
    Destroyed { outcome: Result<(), String> },
}

#[derive(Debug, PartialEq, Eq)]
pub struct LogoutStep {
    pub state: LogoutState,
    pub action: LogoutAction,
}

pub open spec fn logout_finish(outcome: Result<HomeRedirect, LogoutError>) -> LogoutStep {
    LogoutStep { state: LogoutState::Finished, action: LogoutAction::Respond { outcome } }
}

/// The first step: without a readable session cookie there is nobody to log
/// out, and the answer is the home page.
pub open spec fn logout_started(cookie: Option<String>, r: LogoutStep) -> bool {
    match cookie {
        None => r == logout_finish(Ok(HomeRedirect)),
        Some(raw) => match cookie_value_of(raw@) {
            None => r == logout_finish(Ok(HomeRedirect)),
            Some(id) => r.action matches LogoutAction::LoadSession { session_id } && session_id@
                == id && r.state == (LogoutState::AwaitingLoad { session_id }),
        },
    }
}

pub open spec fn logout_accepts(s: LogoutState, e: LogoutEvent) -> bool {
    match s {
        LogoutState::AwaitingLoad { .. } => e is Loaded,
        LogoutState::AwaitingDestroy => e is Destroyed,
        LogoutState::Finished => false,
    }
}

/// One transition. A session that cannot be found, or read, is taken as
/// already gone; only a failed destruction is reported.
pub open spec fn logout_next(s: LogoutState, e: LogoutEvent) -> LogoutStep {
    match (s, e) {
        (LogoutState::AwaitingLoad { session_id }, LogoutEvent::Loaded { outcome }) => match outcome {
            LoadOutcome::Present { .. } => LogoutStep {
                state: LogoutState::AwaitingDestroy,
                action: LogoutAction::DestroySession { session_id },
            },
            _ => logout_finish(Ok(HomeRedirect)),
        },
        (LogoutState::AwaitingDestroy, LogoutEvent::Destroyed { outcome }) => match outcome {
            Ok(()) => logout_finish(Ok(HomeRedirect)),
            Err(internal) => logout_finish(Err(LogoutError::SessionDestructionError { internal })),
        },
        // A pair that `logout_accepts` refuses never occurs in a run.
        _ => logout_finish(Ok(HomeRedirect)),
    }
}

/// The actions of a run from state `s` on the answers `events`, up to the
/// first answer that does not fit.
pub open spec fn logout_trace(s: LogoutState, events: Seq<LogoutEvent>) -> Seq<LogoutAction>
    decreases events.len(),
{
    if events.len() == 0 || !logout_accepts(s, events[0]) {
        Seq::empty()
    } else {
        let r = logout_next(s, events[0]);
        seq![r.action] + logout_trace(r.state, events.drop_first())
    }
}

fn finish(outcome: Result<HomeRedirect, LogoutError>) -> (r: LogoutStep)
    ensures
        r == logout_finish(outcome),
{
    LogoutStep { state: LogoutState::Finished, action: LogoutAction::Respond { outcome } }
}

/// Starts a logout from the request's session cookie, written `key=value`.
pub fn logout_start(cookie: Option<String>) -> (r: LogoutStep)
    ensures
        logout_started(cookie, r),
{
    match cookie {
        None => finish(Ok(HomeRedirect)),
        Some(raw) => match session_id_from_cookie(raw.as_str()) {
            None => finish(Ok(HomeRedirect)),
            Some(session_id) => {
                let load_id = session_id.clone();
                LogoutStep {
                    state: LogoutState::AwaitingLoad { session_id },
                    action: LogoutAction::LoadSession { session_id: load_id },
                }
            },
        },
    }
}

impl LogoutState {
    pub fn accepts(&self, event: &LogoutEvent) -> (r: bool)
        ensures
            r == logout_accepts(*self, *event),
    {
        match self {
            LogoutState::AwaitingLoad { .. } => matches!(event, LogoutEvent::Loaded { .. }),
            LogoutState::AwaitingDestroy => matches!(event, LogoutEvent::Destroyed { .. }),
            LogoutState::Finished => false,
        }
    }
}

/// Takes the answer to the last call and decides what comes next.
pub fn logout_step(state: LogoutState, event: LogoutEvent) -> (r: LogoutStep)
    requires
        logout_accepts(state, event),
    ensures
        r == logout_next(state, event),
{
    match (state, event) {
        (LogoutState::AwaitingLoad { session_id }, LogoutEvent::Loaded { outcome }) => match outcome {
            LoadOutcome::Present { .. } => LogoutStep {
                state: LogoutState::AwaitingDestroy,
                action: LogoutAction::DestroySession { session_id },
            },
            _ => finish(Ok(HomeRedirect)),
        },
        (LogoutState::AwaitingDestroy, LogoutEvent::Destroyed { outcome }) => match outcome {
            Ok(()) => finish(Ok(HomeRedirect)),
            Err(internal) => finish(Err(LogoutError::SessionDestructionError { internal })),
        },
        _ => finish(Ok(HomeRedirect)),
    }
}

} // verus!
