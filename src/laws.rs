//! What holds of whole runs of the authentication flows.

use vstd::prelude::*;
use crate::auth_errors::{AuthCallbackError, LoginError};
use crate::callback::{
    callback_accepts, callback_next, callback_started, callback_trace, AuthCallbackQuery,
    CallbackAction, CallbackEvent, CallbackState, CallbackStep, CallbackSuccess,
};
use crate::login::{login_result, LoginRedirect};
use crate::logout::{
    logout_accepts, logout_next, logout_started, logout_trace, LogoutAction, LogoutEvent,
    LogoutState, LogoutStep,
};
use crate::session::{
    cookie_value_of, session_cookie_for, HomeRedirect, LoadOutcome, SessionValues, StoreOutcome,
};

verus! {

proof fn lemma_callback_finished_trace(events: Seq<CallbackEvent>)
    ensures
        callback_trace(CallbackState::Finished, events) == Seq::<CallbackAction>::empty(),
{
}

/// A run that has answered goes no further.
proof fn lemma_callback_trace_after_respond(s: CallbackState, events: Seq<CallbackEvent>)
    requires
        events.len() > 0,
        callback_accepts(s, events[0]),
        callback_next(s, events[0]).action is Respond,
    ensures
        callback_trace(s, events) == seq![callback_next(s, events[0]).action],
{
    let r = callback_next(s, events[0]);
    assert(r.state is Finished);
    lemma_callback_finished_trace(events.drop_first());
    assert(callback_trace(s, events) =~= seq![r.action]);
}

/// The answer of a run from a loaded pending session is a success only as
/// the fifth action, once its destruction went through and the store took
/// the identity under the identifier that the cookie then carries.
proof fn lemma_callback_success_shape(
    s: CallbackState,
    events: Seq<CallbackEvent>,
    i: int,
    success: CallbackSuccess,
)
    requires
        s is AwaitingLoad,
        0 <= i < callback_trace(s, events).len(),
        callback_trace(s, events)[i] == (CallbackAction::Respond { outcome: Ok(success) }),
    ensures
        i == 4,
        events.len() >= 5,
        events[1] matches CallbackEvent::Destroyed { outcome: Ok(_) },
        events[4] matches CallbackEvent::Stored { outcome: StoreOutcome::Stored { session_id } }
            && success.cookie == session_cookie_for(session_id),
        s->AwaitingLoad_query.state@ == events[0]->Loaded_outcome->Present_values.csrf_token->Some_0@,
{
    let t = callback_trace(s, events);
    let r0 = callback_next(s, events[0]);
    let e1 = events.drop_first();
    assert(t == seq![r0.action] + callback_trace(r0.state, e1));
    if r0.action is Respond {
        lemma_callback_trace_after_respond(s, events);
        return;
    }
    let t1 = callback_trace(r0.state, e1);
    assert(t[i] == t1[i - 1]);
    let r1 = callback_next(r0.state, e1[0]);
    let e2 = e1.drop_first();
    assert(t1 == seq![r1.action] + callback_trace(r1.state, e2));
    if r1.action is Respond {
        lemma_callback_trace_after_respond(r0.state, e1);
        return;
    }
    let t2 = callback_trace(r1.state, e2);
    assert(t1[i - 1] == t2[i - 2]);
    assert(e1[0] == events[1]);
    let r2 = callback_next(r1.state, e2[0]);
    let e3 = e2.drop_first();
    assert(t2 == seq![r2.action] + callback_trace(r2.state, e3));
    if r2.action is Respond {
        lemma_callback_trace_after_respond(r1.state, e2);
        return;
    }
    let t3 = callback_trace(r2.state, e3);
    assert(t2[i - 2] == t3[i - 3]);
    let r3 = callback_next(r2.state, e3[0]);
    let e4 = e3.drop_first();
    assert(t3 == seq![r3.action] + callback_trace(r3.state, e4));
    if r3.action is Respond {
        lemma_callback_trace_after_respond(r2.state, e3);
        return;
    }
    let t4 = callback_trace(r3.state, e4);
    assert(t3[i - 3] == t4[i - 4]);
    lemma_callback_trace_after_respond(r3.state, e4);
    assert(e1[0] == events[1]);
    assert(e4[0] == events[4]);
}

/// A callback whose `state` differs from the CSRF token kept in the pending
/// session never exchanges the code nor stores an identity: it destroys the
/// pending session and answers `CsrfTokensMismatch`.
pub proof fn lemma_forged_state_is_refused(
    cookie: Option<String>,
    query: AuthCallbackQuery,
    start: CallbackStep,
    values: SessionValues,
    events: Seq<CallbackEvent>,
)
    requires
        callback_started(cookie, query, start),
        start.action is LoadSession,
        values.csrf_token matches Some(token) && token@ != query.state@,
        events.len() >= 1,
        events[0] == (CallbackEvent::Loaded { outcome: LoadOutcome::Present { values } }),
    ensures
        ({
            let t = callback_trace(start.state, events);
            &&& 1 <= t.len() <= 2
            &&& t[0] is DestroySession
            &&& forall|i: int|
                0 <= i < t.len() ==> !(t[i] is ExchangeCode) && !(t[i] is StoreIdentity)
            &&& t.len() == 2 ==> t[1] == (CallbackAction::Respond {
                outcome: Err(AuthCallbackError::CsrfTokensMismatch),
            })
        }),
{
    let s = start.state;
    let t = callback_trace(s, events);
    let r0 = callback_next(s, events[0]);
    let e1 = events.drop_first();
    assert(t == seq![r0.action] + callback_trace(r0.state, e1));
    if e1.len() > 0 && callback_accepts(r0.state, e1[0]) {
        lemma_callback_trace_after_respond(r0.state, e1);
    }
}

/// A pending session is used once: when the callback has loaded one (a
/// session that holds a CSRF token), its next call, before any answer, is
/// the destruction of that very session, whatever comes after; and it
/// answers with success only where that destruction went through.
pub proof fn lemma_pending_session_is_consumed(
    cookie: Option<String>,
    query: AuthCallbackQuery,
    start: CallbackStep,
    values: SessionValues,
    events: Seq<CallbackEvent>,
)
    requires
        callback_started(cookie, query, start),
        start.action matches CallbackAction::LoadSession { .. },
        values.csrf_token is Some,
        events.len() >= 1,
        events[0] == (CallbackEvent::Loaded { outcome: LoadOutcome::Present { values } }),
    ensures
        ({
            let t = callback_trace(start.state, events);
            &&& t.len() >= 1
            &&& t[0] == (CallbackAction::DestroySession {
                session_id: start.action->LoadSession_session_id,
            })
            &&& forall|i: int|
                #![trigger t[i]]
                (0 <= i < t.len() && (t[i] matches CallbackAction::Respond { outcome: Ok(_) }))
                    ==> (events[1] matches CallbackEvent::Destroyed { outcome: Ok(_) })
        }),
{
    let s = start.state;
    let t = callback_trace(s, events);
    let r0 = callback_next(s, events[0]);
    assert(t == seq![r0.action] + callback_trace(r0.state, events.drop_first()));
    assert forall|i: int|
        #![trigger t[i]]
        0 <= i < t.len() && (t[i] matches CallbackAction::Respond { outcome: Ok(_) }) implies (events[1] matches CallbackEvent::Destroyed { outcome: Ok(_) }) by {
        let success = t[i]->Respond_outcome->Ok_0;
        lemma_callback_success_shape(s, events, i, success);
    }
}

/// Pending and authenticated sessions never share an identifier: the cookie
/// that login sets names the pending session, the one that a successful
/// callback sets names the session that the store created for the identity
/// after it destroyed the pending one. The two differ wherever the store
/// does not hand the destroyed identifier out again.
pub proof fn lemma_authenticated_cookie_is_new(
    authorize_url: String,
    login_stored: StoreOutcome,
    login: LoginRedirect,
    cookie: String,
    query: AuthCallbackQuery,
    start: CallbackStep,
    events: Seq<CallbackEvent>,
    i: int,
    success: CallbackSuccess,
)
    requires
        login_result(authorize_url, login_stored) == Ok::<LoginRedirect, LoginError>(login),
        cookie_value_of(cookie@) == Some(login.cookie.value@),
        callback_started(Some(cookie), query, start),
        0 <= i < callback_trace(start.state, events).len(),
        callback_trace(start.state, events)[i] == (CallbackAction::Respond {
            outcome: Ok(success),
        }),
        forall|j: int|
            #![trigger events[j]]
            (0 <= j < events.len() && (events[j] matches CallbackEvent::Stored {
                outcome: StoreOutcome::Stored { session_id },
            } && session_id@ == login.cookie.value@)) ==> false,
    ensures
        start.action == (CallbackAction::LoadSession {
            session_id: start.action->LoadSession_session_id,
        }),
        start.action->LoadSession_session_id@ == login.cookie.value@,
        events[4] matches CallbackEvent::Stored { outcome: StoreOutcome::Stored { session_id } }
            && success.cookie == session_cookie_for(session_id),
        success.cookie.value@ != login.cookie.value@,
{
    lemma_callback_success_shape(start.state, events, i, success);
    assert(events[4] matches CallbackEvent::Stored { outcome: StoreOutcome::Stored { .. } });
}

proof fn lemma_logout_finished_trace(events: Seq<LogoutEvent>)
    ensures
        logout_trace(LogoutState::Finished, events) == Seq::<LogoutAction>::empty(),
{
}

/// Logout is idempotent. It answers with the home redirect in every run but
/// one where the store failed to destroy a session that it had found; and
/// where there is no session to end (no cookie, or the store has none, as
/// after an earlier logout) it answers so at once and destroys nothing.
pub proof fn lemma_logout_is_idempotent(
    cookie: Option<String>,
    start: LogoutStep,
    events: Seq<LogoutEvent>,
)
    requires
        logout_started(cookie, start),
    ensures
        start.action is Respond ==> start.action == (LogoutAction::Respond {
            outcome: Ok(HomeRedirect),
        }),
        ({
            let t = logout_trace(start.state, events);
            &&& t.len() <= 2
            &&& forall|i: int|
                #![trigger t[i]]
                0 <= i < t.len() && t[i] is Respond && !(events[1] matches LogoutEvent::Destroyed {
                    outcome: Err(_),
                }) ==> t[i] == (LogoutAction::Respond { outcome: Ok(HomeRedirect) })
            &&& (events.len() >= 1 && start.action is LoadSession && (events[0] matches LogoutEvent::Loaded { outcome }
                && !(outcome is Present))) ==> t == seq![
                LogoutAction::Respond { outcome: Ok(HomeRedirect) },
            ]
        }),
{
    let s = start.state;
    if s is Finished {
        lemma_logout_finished_trace(events);
        return;
    }
    let t = logout_trace(s, events);
    if events.len() == 0 || !logout_accepts(s, events[0]) {
        return;
    }
    let r0 = logout_next(s, events[0]);
    let e1 = events.drop_first();
    assert(t == seq![r0.action] + logout_trace(r0.state, e1));
    if r0.state is Finished {
        lemma_logout_finished_trace(e1);
        assert(t =~= seq![r0.action]);
        return;
    }
    let t1 = logout_trace(r0.state, e1);
    if e1.len() == 0 || !logout_accepts(r0.state, e1[0]) {
        assert(t =~= seq![r0.action]);
        return;
    }
    let r1 = logout_next(r0.state, e1[0]);
    lemma_logout_finished_trace(e1.drop_first());
    assert(t1 =~= seq![r1.action]);
    assert(e1[0] == events[1]);
}

} // verus!
