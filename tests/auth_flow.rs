use std::collections::HashMap;

use session_gate::{
    authenticated_session, callback_start, callback_step, identity_from_session,
    identity_session_id, login_respond, logout_start, logout_step, pending_session,
    session_cookie, session_id_from_cookie, AuthCallbackError, AuthCallbackQuery, AuthRedirect,
    CallbackAction, CallbackEvent, CallbackState, CallbackSuccess, HomeRedirect, IdentityOutcome,
    LoadOutcome, LoginError, LoginRedirect, LogoutAction, LogoutError, LogoutEvent, LogoutState,
    SessionCookie, SessionValues, StoreOutcome, UserInfo, AUTH_PATH, COOKIE_NAME, HOME_PATH,
};

/// An in-memory session store that hands out S1, S2, ... in turn.
struct TestStore {
    sessions: HashMap<String, SessionValues>,
    issued: usize,
    loads: usize,
}

impl TestStore {
    fn new() -> Self {
        TestStore { sessions: HashMap::new(), issued: 0, loads: 0 }
    }

    fn store(&mut self, values: SessionValues) -> StoreOutcome {
        self.issued += 1;
        let id = format!("S{}", self.issued);
        self.sessions.insert(id.clone(), values);
        StoreOutcome::Stored { session_id: id }
    }

    fn load(&mut self, id: &str) -> LoadOutcome {
        self.loads += 1;
        match self.sessions.get(id) {
            Some(values) => LoadOutcome::Present { values: values.clone() },
            None => LoadOutcome::Absent,
        }
    }

    fn destroy(&mut self, id: &str) -> Result<(), String> {
        self.sessions.remove(id);
        Ok(())
    }
}

fn login(store: &mut TestStore, csrf: &str) -> LoginRedirect {
    let stored = store.store(pending_session(csrf.to_owned()));
    login_respond("https://provider.example/authorize".to_owned(), stored).unwrap()
}

/// Runs a callback against `store`, with a provider that gives token `tok`
/// and identity 42; returns the answer and the actions taken.
fn run_callback(
    store: &mut TestStore,
    cookie: Option<String>,
    code: &str,
    state: &str,
) -> (Result<CallbackSuccess, AuthCallbackError>, Vec<String>) {
    let mut step = callback_start(cookie, AuthCallbackQuery::new(code.to_owned(), state.to_owned()));
    let mut actions = Vec::new();
    loop {
        let event = match step.action {
            CallbackAction::LoadSession { session_id } => {
                actions.push(format!("load {session_id}"));
                CallbackEvent::Loaded { outcome: store.load(&session_id) }
            }
            CallbackAction::DestroySession { session_id } => {
                actions.push(format!("destroy {session_id}"));
                CallbackEvent::Destroyed { outcome: store.destroy(&session_id) }
            }
            CallbackAction::ExchangeCode { code } => {
                actions.push(format!("exchange {code}"));
                CallbackEvent::CodeExchanged { outcome: Ok("tok".to_owned()) }
            }
            CallbackAction::FetchIdentity { access_token } => {
                actions.push(format!("fetch {access_token}"));
                CallbackEvent::IdentityFetched {
                    outcome: IdentityOutcome::Fetched { user_info: UserInfo::new(42) },
                }
            }
            CallbackAction::StoreIdentity { user_info } => {
                actions.push("store".to_owned());
                CallbackEvent::Stored { outcome: store.store(authenticated_session(user_info)) }
            }
            CallbackAction::Respond { outcome } => return (outcome, actions),
        };
        assert!(step.state.accepts(&event));
        step = callback_step(step.state, event);
    }
}

fn run_logout(store: &mut TestStore, cookie: Option<String>) -> Result<HomeRedirect, LogoutError> {
    let mut step = logout_start(cookie);
    loop {
        let event = match step.action {
            LogoutAction::LoadSession { session_id } => {
                LogoutEvent::Loaded { outcome: store.load(&session_id) }
            }
            LogoutAction::DestroySession { session_id } => {
                LogoutEvent::Destroyed { outcome: store.destroy(&session_id) }
            }
            LogoutAction::Respond { outcome } => return outcome,
        };
        step = logout_step(step.state, event);
    }
}

fn cookie_header(value: &str) -> Option<String> {
    Some(format!("{COOKIE_NAME}={value}"))
}

#[test]
fn login_then_callback_issues_a_new_session() {
    let mut store = TestStore::new();
    let redirect = login(&mut store, "T1");
    assert_eq!(redirect.cookie.value, "S1");
    assert_eq!(redirect.location, "https://provider.example/authorize");

    let (outcome, actions) = run_callback(&mut store, cookie_header("S1"), "code", "T1");
    let success = outcome.unwrap();
    assert_eq!(success.cookie.value, "S2");
    assert_ne!(success.cookie.value, redirect.cookie.value);
    assert_eq!(success.user_info, UserInfo::new(42));
    assert_eq!(actions, vec!["load S1", "destroy S1", "exchange code", "fetch tok", "store"]);
    assert_eq!(store.load("S1"), LoadOutcome::Absent);
    assert_eq!(
        identity_from_session(store.load("S2")),
        Ok(UserInfo::new(42))
    );
}

#[test]
fn callback_with_wrong_state_destroys_pending_session() {
    let mut store = TestStore::new();
    login(&mut store, "T1");
    let (outcome, actions) = run_callback(&mut store, cookie_header("S1"), "code", "wrong");
    assert_eq!(outcome, Err(AuthCallbackError::CsrfTokensMismatch));
    assert_eq!(actions, vec!["load S1", "destroy S1"]);
    assert_eq!(store.load("S1"), LoadOutcome::Absent);
    assert_eq!(store.issued, 1);
    assert_eq!(AuthCallbackError::CsrfTokensMismatch.status_code(), 500);
}

#[test]
fn callback_without_cookie_touches_no_store() {
    let mut store = TestStore::new();
    let (outcome, actions) = run_callback(&mut store, None, "code", "T1");
    let err = outcome.unwrap_err();
    assert_eq!(err, AuthCallbackError::NoSuchCookie { cookie_name: COOKIE_NAME });
    assert_eq!(err.status_code(), 422);
    assert!(actions.is_empty());
    assert_eq!(store.loads, 0);
}

#[test]
fn callback_with_malformed_cookie_is_refused() {
    let mut store = TestStore::new();
    let (outcome, actions) = run_callback(&mut store, Some("no-equals-sign".to_owned()), "c", "s");
    assert_eq!(outcome, Err(AuthCallbackError::InappropriateCookieFormat));
    assert_eq!(AuthCallbackError::InappropriateCookieFormat.status_code(), 422);
    assert!(actions.is_empty());
}

#[test]
fn replayed_callback_finds_empty_session() {
    let mut store = TestStore::new();
    login(&mut store, "T1");
    let (first, _) = run_callback(&mut store, cookie_header("S1"), "code", "T1");
    assert!(first.is_ok());
    let (second, actions) = run_callback(&mut store, cookie_header("S1"), "code", "T1");
    assert_eq!(second, Err(AuthCallbackError::EmptySession));
    assert_eq!(actions, vec!["load S1"]);
}

#[test]
fn callback_on_session_without_token() {
    let mut store = TestStore::new();
    store.store(authenticated_session(UserInfo::new(7)));
    let (outcome, actions) = run_callback(&mut store, cookie_header("S1"), "code", "T1");
    assert_eq!(outcome, Err(AuthCallbackError::CsrfTokenDeserializationError));
    assert_eq!(actions, vec!["load S1"]);
    assert!(matches!(store.load("S1"), LoadOutcome::Present { .. }));
}

fn pending_load_step(state: &str) -> session_gate::CallbackStep {
    let start = callback_start(
        cookie_header("S1"),
        AuthCallbackQuery::new("code".to_owned(), state.to_owned()),
    );
    callback_step(
        start.state,
        CallbackEvent::Loaded {
            outcome: LoadOutcome::Present { values: pending_session("T1".to_owned()) },
        },
    )
}

#[test]
fn callback_store_failures() {
    let step = callback_start(
        cookie_header("S1"),
        AuthCallbackQuery::new("code".to_owned(), "T1".to_owned()),
    );
    let r = callback_step(
        step.state,
        CallbackEvent::Loaded { outcome: LoadOutcome::Failed { internal: "down".to_owned() } },
    );
    assert_eq!(r.state, CallbackState::Finished);
    assert_eq!(
        r.action,
        CallbackAction::Respond {
            outcome: Err(AuthCallbackError::SessionLoadingFailed { internal: "down".to_owned() })
        }
    );

    let r = callback_step(
        pending_load_step("T1").state,
        CallbackEvent::Destroyed { outcome: Err("gone".to_owned()) },
    );
    assert_eq!(
        r.action,
        CallbackAction::Respond {
            outcome: Err(AuthCallbackError::CsrfTokenSessionDestructionError {
                internal: "gone".to_owned()
            })
        }
    );

    // The comparison still runs after a failed destruction.
    let r = callback_step(
        pending_load_step("forged").state,
        CallbackEvent::Destroyed { outcome: Err("gone".to_owned()) },
    );
    assert_eq!(
        r.action,
        CallbackAction::Respond { outcome: Err(AuthCallbackError::CsrfTokensMismatch) }
    );
}

#[test]
fn callback_provider_failures() {
    let after_destroy = || {
        callback_step(pending_load_step("T1").state, CallbackEvent::Destroyed { outcome: Ok(()) })
    };
    let r = after_destroy();
    assert_eq!(r.action, CallbackAction::ExchangeCode { code: "code".to_owned() });
    let r = callback_step(
        r.state,
        CallbackEvent::CodeExchanged { outcome: Err("bad code".to_owned()) },
    );
    assert_eq!(
        r.action,
        CallbackAction::Respond {
            outcome: Err(AuthCallbackError::CodeExchangeError { internal: "bad code".to_owned() })
        }
    );

    let fetch = || {
        let r = after_destroy();
        callback_step(r.state, CallbackEvent::CodeExchanged { outcome: Ok("tok".to_owned()) })
    };
    let r = fetch();
    assert_eq!(r.action, CallbackAction::FetchIdentity { access_token: "tok".to_owned() });
    let r = callback_step(
        r.state,
        CallbackEvent::IdentityFetched {
            outcome: IdentityOutcome::RequestFailed { internal: "503".to_owned() },
        },
    );
    assert_eq!(
        r.action,
        CallbackAction::Respond {
            outcome: Err(AuthCallbackError::UserInfoRequestError { internal: "503".to_owned() })
        }
    );
    let r = callback_step(
        fetch().state,
        CallbackEvent::IdentityFetched {
            outcome: IdentityOutcome::DecodeFailed { internal: "json".to_owned() },
        },
    );
    assert_eq!(
        r.action,
        CallbackAction::Respond {
            outcome: Err(AuthCallbackError::UserInfoDeserializeResponseError {
                internal: "json".to_owned()
            })
        }
    );

    let store_step = || {
        callback_step(
            fetch().state,
            CallbackEvent::IdentityFetched {
                outcome: IdentityOutcome::Fetched { user_info: UserInfo::new(5) },
            },
        )
    };
    assert_eq!(store_step().action, CallbackAction::StoreIdentity { user_info: UserInfo::new(5) });
    let cases = vec![
        (
            StoreOutcome::SerializationFailed { internal: "ser".to_owned() },
            AuthCallbackError::UserInfoSerializationError { internal: "ser".to_owned() },
        ),
        (
            StoreOutcome::WriteFailed { internal: "w".to_owned() },
            AuthCallbackError::UserInfoStorageError { internal: "w".to_owned() },
        ),
        (StoreOutcome::NoIdentifier, AuthCallbackError::UserInfoStorageEmptyCookie),
    ];
    for (outcome, err) in cases {
        let r = callback_step(store_step().state, CallbackEvent::Stored { outcome });
        assert_eq!(err.status_code(), 500);
        assert_eq!(r.action, CallbackAction::Respond { outcome: Err(err) });
    }
    let r = callback_step(
        store_step().state,
        CallbackEvent::Stored { outcome: StoreOutcome::Stored { session_id: "S9".to_owned() } },
    );
    assert_eq!(
        r.action,
        CallbackAction::Respond {
            outcome: Ok(CallbackSuccess {
                cookie: session_cookie("S9".to_owned()),
                user_info: UserInfo::new(5)
            })
        }
    );
    assert!(!r.state.accepts(&CallbackEvent::Destroyed { outcome: Ok(()) }));
}

#[test]
fn session_cookie_attributes() {
    let c = session_cookie("abc".to_owned());
    assert_eq!(
        c,
        SessionCookie {
            name: "session",
            value: "abc".to_owned(),
            http_only: true,
            secure: true,
            same_site_lax: true,
            path: "/",
        }
    );
}

#[test]
fn cookie_value_parsing() {
    assert_eq!(session_id_from_cookie("session=abc"), Some("abc".to_owned()));
    assert_eq!(session_id_from_cookie("session=a=b"), Some("a=b".to_owned()));
    assert_eq!(session_id_from_cookie("=x"), Some("x".to_owned()));
    assert_eq!(session_id_from_cookie("session="), Some(String::new()));
    assert_eq!(session_id_from_cookie("session"), None);
    assert_eq!(session_id_from_cookie(""), None);
    assert_eq!(session_id_from_cookie("sé=ü"), Some("ü".to_owned()));
}

#[test]
fn login_store_outcomes() {
    let url = || "https://p/authorize".to_owned();
    assert_eq!(
        login_respond(url(), StoreOutcome::SerializationFailed { internal: "x".to_owned() }),
        Err(LoginError::CsrfTokenSerialization { internal: "x".to_owned() })
    );
    assert_eq!(
        login_respond(url(), StoreOutcome::WriteFailed { internal: "y".to_owned() }),
        Err(LoginError::CsrfTokenStorage { internal: "y".to_owned() })
    );
    let err = login_respond(url(), StoreOutcome::NoIdentifier).unwrap_err();
    assert_eq!(err, LoginError::CsrfTokenStorageEmptyCookie);
    assert_eq!(err.status_code(), 500);
    let ok = login_respond(url(), StoreOutcome::Stored { session_id: "P".to_owned() }).unwrap();
    assert_eq!(ok.cookie, session_cookie("P".to_owned()));
    assert_eq!(ok.location, "https://p/authorize");
    assert_eq!(
        pending_session("T".to_owned()),
        SessionValues { csrf_token: Some("T".to_owned()), user_info: None }
    );
}

#[test]
fn logout_on_absent_session_redirects_home() {
    let mut store = TestStore::new();
    assert_eq!(run_logout(&mut store, cookie_header("S404")), Ok(HomeRedirect));
    assert_eq!(HomeRedirect.location(), HOME_PATH);
}

#[test]
fn logout_twice_and_without_login() {
    let mut store = TestStore::new();
    login(&mut store, "T1");
    let (outcome, _) = run_callback(&mut store, cookie_header("S1"), "code", "T1");
    let cookie = outcome.unwrap().cookie.value;
    assert_eq!(run_logout(&mut store, cookie_header(&cookie)), Ok(HomeRedirect));
    assert_eq!(store.load(&cookie), LoadOutcome::Absent);
    assert_eq!(run_logout(&mut store, cookie_header(&cookie)), Ok(HomeRedirect));
    assert_eq!(run_logout(&mut store, None), Ok(HomeRedirect));
    assert_eq!(run_logout(&mut store, Some("garbage".to_owned())), Ok(HomeRedirect));
}

#[test]
fn logout_reports_failed_destruction_only() {
    let start = logout_start(cookie_header("S1"));
    assert_eq!(start.action, LogoutAction::LoadSession { session_id: "S1".to_owned() });
    let r = logout_step(
        start.state.clone(),
        LogoutEvent::Loaded { outcome: LoadOutcome::Failed { internal: "down".to_owned() } },
    );
    assert_eq!(r.action, LogoutAction::Respond { outcome: Ok(HomeRedirect) });
    let r = logout_step(
        start.state,
        LogoutEvent::Loaded {
            outcome: LoadOutcome::Present { values: authenticated_session(UserInfo::new(1)) },
        },
    );
    assert_eq!(r.action, LogoutAction::DestroySession { session_id: "S1".to_owned() });
    assert_eq!(r.state, LogoutState::AwaitingDestroy);
    assert!(r.state.accepts(&LogoutEvent::Destroyed { outcome: Ok(()) }));
    let r = logout_step(r.state, LogoutEvent::Destroyed { outcome: Err("nope".to_owned()) });
    let err = LogoutError::SessionDestructionError { internal: "nope".to_owned() };
    assert_eq!(err.status_code(), 500);
    assert_eq!(r.action, LogoutAction::Respond { outcome: Err(err) });
}

#[test]
fn guard_resolves_identity() {
    assert_eq!(identity_session_id(None), Err(AuthRedirect));
    assert_eq!(identity_session_id(Some("bad".to_owned())), Err(AuthRedirect));
    assert_eq!(identity_session_id(cookie_header("S2")), Ok("S2".to_owned()));
    assert_eq!(identity_from_session(LoadOutcome::Absent), Err(AuthRedirect));
    assert_eq!(
        identity_from_session(LoadOutcome::Failed { internal: "x".to_owned() }),
        Err(AuthRedirect)
    );
    assert_eq!(
        identity_from_session(LoadOutcome::Present { values: pending_session("T".to_owned()) }),
        Err(AuthRedirect)
    );
    assert_eq!(
        identity_from_session(LoadOutcome::Present {
            values: authenticated_session(UserInfo::new(3))
        }),
        Ok(UserInfo::new(3))
    );
    assert_eq!(AuthRedirect.location(), AUTH_PATH);
    assert_eq!(UserInfo::new(3).id(), 3);
}
