//! The immutable settings a deployment loads once at startup. Loading from
//! the environment is the surrounding process's job; the core only states
//! what a usable settings value looks like.

use vstd::prelude::*;

verus! {

/// Where the server listens.
#[derive(Debug)]
pub struct ServerSettings {
    pub host: String,
    pub port: u16,
}

/// How to reach the backing store.
#[derive(Debug)]
pub struct DatabaseSettings {
    pub url: String,
    pub max_connections: u32,
}

/// The token codec's secret and the two token lifetimes, in seconds.
#[derive(Debug)]
pub struct JwtSettings {
    pub secret: String,
    pub access_token_expiry: i64,
    pub refresh_token_expiry: i64,
}

/// Everything a deployment configures.
#[derive(Debug)]
pub struct Settings {
    pub server: ServerSettings,
    pub database: DatabaseSettings,
    pub jwt: JwtSettings,
}

/// A usable token configuration: both lifetimes are positive, so every
/// issued token expires strictly after it is issued.
pub open spec fn jwt_settings_wf(s: JwtSettings) -> bool {
    &&& 1 <= s.access_token_expiry
    &&& 1 <= s.refresh_token_expiry
}

impl JwtSettings {
    /// Check that the token lifetimes are usable.
    pub fn is_well_formed(&self) -> (r: bool)
        ensures
            r == jwt_settings_wf(*self),
    {
        1 <= self.access_token_expiry && 1 <= self.refresh_token_expiry
    }
}

} // verus!
