//! Settings of the service, as plain values.

use vstd::prelude::*;

verus! {

/// Severity threshold of the log.
#[derive(Clone, Copy, Debug, PartialEq, Eq, Structural)]
pub enum LogLevel {
    Trace,
    Debug,
    Info,
    Warn,
    Error,
}

#[derive(Clone, Copy, Debug, PartialEq, Eq, Structural)]
pub enum LogFormat {
    Json,
    Default,
    Pretty,
}

impl Default for LogFormat {
    fn default() -> (r: LogFormat)
        ensures
            r == LogFormat::Default,
    {
        LogFormat::Default
    }
}

#[derive(Clone, Copy, Debug, PartialEq, Eq, Structural)]
pub struct Logging {
    pub log_level: LogLevel,
    pub log_format: LogFormat,
}

#[derive(Clone, Debug, PartialEq, Eq)]
pub struct Authentication {
    pub oauth_client_id: String,
    pub oauth_client_secret: String,
}

/// Where sessions are kept: in the process, or in Redis.
#[derive(Clone, Copy, Debug, PartialEq, Eq, Structural)]
pub enum SessionStoreType {
    Memory,
    Redis,
}

impl Default for SessionStoreType {
    fn default() -> (r: SessionStoreType)
        ensures
            r == SessionStoreType::Redis,
    {
        SessionStoreType::Redis
    }
}

#[derive(Clone, Debug, PartialEq, Eq)]
pub struct SessionStore {
    pub session_store_type: SessionStoreType,
    pub session_store_dsn: String,
}

impl SessionStore {
    /// A Redis store needs an address to connect to; the in-process one
    /// needs none.
    pub fn is_usable(&self) -> (r: bool)
        ensures
            r == !(self.session_store_type == SessionStoreType::Redis
                && self.session_store_dsn@.len() == 0),
    {
        match self.session_store_type {
            SessionStoreType::Memory => true,
            SessionStoreType::Redis => !self.session_store_dsn.as_str().is_empty(),
        }
    }
}

#[derive(Clone, Copy, Debug, PartialEq, Eq, Structural)]
pub enum ItemsDaoType {
    Mocked,
    HashMap,
}

impl Default for ItemsDaoType {
    fn default() -> (r: ItemsDaoType)
        ensures
            r == ItemsDaoType::HashMap,
    {
        ItemsDaoType::HashMap
    }
}

#[derive(Clone, Copy, Debug, PartialEq, Eq, Structural)]
pub enum UsersDaoType {
    Mocked,
    HashMap,
}

impl Default for UsersDaoType {
    fn default() -> (r: UsersDaoType)
        ensures
            r == UsersDaoType::HashMap,
    {
        UsersDaoType::HashMap
    }
}

} // verus!
