//! Session cookies and what the authentication flows read from a session.

use vstd::prelude::*;
use vstd::string::*;

verus! {

/// Name of the cookie that carries the session identifier.
pub const COOKIE_NAME: &'static str = "session";

/// Key under which a pending session keeps its CSRF token.
pub const CSRF_TOKEN: &'static str = "csrf_token";

/// Key under which an authenticated session keeps the identity.
pub const USER_INFO: &'static str = "user_info";

/// Entry point of the login flow.
pub const AUTH_PATH: &'static str = "/auth";

/// Home of the application.
pub const HOME_PATH: &'static str = "/";

/// The single provider scope that login asks for: the minimal profile.
pub const PROFILE_SCOPE: &'static str = "user";

/// Identity fetched from the provider and cached in an authenticated session.
#[derive(Clone, Copy, Debug, PartialEq, Eq, Structural)]
pub struct UserInfo {
    pub id: usize,
}

impl UserInfo {
    pub fn new(id: usize) -> (r: UserInfo)
        ensures
            r.id == id,
    {
        UserInfo { id }
    }

    pub fn id(&self) -> (r: usize)
        ensures
            r == self.id,
    {
        self.id
    }
}

/// Redirect to the login entry point, the answer to an anonymous caller.
#[derive(Clone, Copy, Debug, PartialEq, Eq, Structural)]
pub struct AuthRedirect;

impl AuthRedirect {
    pub fn location(&self) -> (r: &'static str)
        ensures
            r@ == AUTH_PATH@,
    {
        AUTH_PATH
    }
}

/// Redirect to the application home.
#[derive(Clone, Copy, Debug, PartialEq, Eq, Structural)]
pub struct HomeRedirect;

impl HomeRedirect {
    pub fn location(&self) -> (r: &'static str)
        ensures
            r@ == HOME_PATH@,
    {
        HOME_PATH
    }
}

/// The named values of a loaded session that the flows read, each already
/// decoded: `None` where the key is absent or its value does not decode.
#[derive(Clone, Debug, PartialEq, Eq)]
pub struct SessionValues {
    pub csrf_token: Option<String>,
    pub user_info: Option<UserInfo>,
}

/// The only value of a pending session: its CSRF token.
pub fn pending_session(csrf_token: String) -> (r: SessionValues)
    ensures
        r == (SessionValues { csrf_token: Some(csrf_token), user_info: None }),
{
    SessionValues { csrf_token: Some(csrf_token), user_info: None }
}

/// The only value of an authenticated session: the identity.
pub fn authenticated_session(user_info: UserInfo) -> (r: SessionValues)
    ensures
        r == (SessionValues { csrf_token: None, user_info: Some(user_info) }),
{
    SessionValues { csrf_token: None, user_info: Some(user_info) }
}

/// What the session store answered to a load.
#[derive(Clone, Debug, PartialEq, Eq)]
pub enum LoadOutcome {
    /// The store could not be read.
    Failed { internal: String },
    /// The store holds no session under that identifier.
    Absent,
    /// The session, as far as the flows read it.
    Present { values: SessionValues },
}

/// What came of creating a session and putting it in the store.
#[derive(Clone, Debug, PartialEq, Eq)]
pub enum StoreOutcome {
    /// The value could not be serialized into the session.
    SerializationFailed { internal: String },
    /// The store refused the write.
    WriteFailed { internal: String },
    /// The store took the session but handed back no identifier.
    NoIdentifier,
    /// The store took the session under this identifier.
    Stored { session_id: String },
}

/// A `Set-Cookie` for the session identifier, with its attributes.
#[derive(Clone, Debug, PartialEq, Eq)]
pub struct SessionCookie {
    pub name: &'static str,
    pub value: String,
    pub http_only: bool,
    pub secure: bool,
    pub same_site_lax: bool,
    pub path: &'static str,
}

/// The cookie carries the identifier and nothing else, under fixed attributes:
/// `HttpOnly; Secure; SameSite=Lax; Path=/`.
pub open spec fn session_cookie_for(session_id: String) -> SessionCookie {
    SessionCookie {
        name: COOKIE_NAME,
        value: session_id,
        http_only: true,
        secure: true,
        same_site_lax: true,
        path: HOME_PATH,
    }
}

pub fn session_cookie(session_id: String) -> (c: SessionCookie)
    ensures
        c == session_cookie_for(session_id),
{
    SessionCookie {
        name: COOKIE_NAME,
        value: session_id,
        http_only: true,
        secure: true,
        same_site_lax: true,
        path: HOME_PATH,
    }
}

/// The value half of a `key=value` cookie: what follows the first `=`, or
/// `None` where there is no `=`.
pub open spec fn cookie_value_of(raw: Seq<char>) -> Option<Seq<char>>
    decreases raw.len(),
{
    if raw.len() == 0 {
        None
    } else if raw[0] == '=' {
        Some(raw.drop_first())
    } else {
        cookie_value_of(raw.drop_first())
    }
}

proof fn lemma_cookie_value_of_suffix(raw: Seq<char>, i: int)
    requires
        0 <= i < raw.len(),
        raw[i] != '=',
    ensures
        cookie_value_of(raw.subrange(i, raw.len() as int)) == cookie_value_of(
            raw.subrange(i + 1, raw.len() as int),
        ),
{
    assert(raw.subrange(i, raw.len() as int).drop_first() =~= raw.subrange(
        i + 1,
        raw.len() as int,
    ));
}

/// Reads the session identifier out of a cookie written `key=value`.
pub fn session_id_from_cookie(raw: &str) -> (r: Option<String>)
    ensures
        r matches Some(id) ==> cookie_value_of(raw@) == Some(id@),
        r is None ==> cookie_value_of(raw@) is None,
{
    let n = raw.unicode_len();
    let mut i: usize = 0;
    assert(raw@.subrange(0, n as int) =~= raw@);
    while i < n
        invariant
            n == raw@.len(),
            i <= n,
            cookie_value_of(raw@) == cookie_value_of(raw@.subrange(i as int, n as int)),
        decreases n - i,
    {
        if raw.get_char(i) == '=' {
            let rest = raw.substring_char(i + 1, n);
            proof {
                assert(raw@.subrange(i as int, n as int).drop_first() =~= raw@.subrange(
                    i + 1,
                    n as int,
                ));
            }
            return Some(rest.to_owned());
        }
        proof {
            lemma_cookie_value_of_suffix(raw@, i as int);
        }
        i = i + 1;
    }
    proof {
        assert(raw@.subrange(n as int, n as int).len() == 0);
    }
    None
}

} // verus!
