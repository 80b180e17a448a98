//! How the service is set up.
use vstd::prelude::*;

verus! {

#[derive(Debug, Clone, Copy, PartialEq, Eq)]
pub struct UsersConfig {
    /// Whether users may change their name.
    pub allow_changing_username: bool,
    /// How long a session lasts.
    pub token_valid_for_days: i32,
}

#[derive(Debug, Clone, Copy, PartialEq, Eq)]
pub struct WebConfig {
    /// Whether the session cookie may be sent over a connection that is not secure.
    pub insecure_cookie: bool,
}

#[derive(Debug, Clone, Copy, PartialEq, Eq)]
pub struct AppConfig {
    pub users: UsersConfig,
    pub web: WebConfig,
}

} // verus!
