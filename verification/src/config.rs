//! The endpoint configuration: fixed for the life of the process.

use vstd::prelude::*;

verus! {

/// The status endpoint that every invocation asks.
pub const ENDPOINT_URL: &'static str = "https://relaypulse.top/api/status";

/// The bound, in seconds, on the whole round trip of one request.
pub const REQUEST_TIMEOUT_SECS: u64 = 10;

/// The user agent that tells the relay's traffic from a browser's.
pub const USER_AGENT: &'static str = "cc-switch/health-proxy";

/// The content type asked for in the `Accept` header.
pub const ACCEPT: &'static str = "application/json";

/// What the host builds its transport client with.
#[derive(Clone, Copy, Debug, PartialEq, Eq)]
pub struct ClientSettings {
    /// The longest that connecting, sending and receiving may take together.
    pub timeout_secs: u64,
    pub user_agent: &'static str,
}

/// The one request of an invocation: a GET of `url` with an `Accept` header.
#[derive(Clone, Copy, Debug, PartialEq, Eq)]
pub struct GetRequest {
    pub url: &'static str,
    pub accept: &'static str,
}

pub open spec fn configured_settings() -> ClientSettings {
    ClientSettings { timeout_secs: REQUEST_TIMEOUT_SECS, user_agent: USER_AGENT }
}

pub open spec fn configured_request() -> GetRequest {
    GetRequest { url: ENDPOINT_URL, accept: ACCEPT }
}

/// The settings of the transport client: the ten-second bound and the
/// relay's user agent.
pub fn client_settings() -> (settings: ClientSettings)
    ensures
        settings == configured_settings(),
        settings.timeout_secs == 10,
{
    ClientSettings { timeout_secs: REQUEST_TIMEOUT_SECS, user_agent: USER_AGENT }
}

/// The request to the fixed endpoint.
pub fn request() -> (request: GetRequest)
    ensures
        request == configured_request(),
{
    GetRequest { url: ENDPOINT_URL, accept: ACCEPT }
}

} // verus!
