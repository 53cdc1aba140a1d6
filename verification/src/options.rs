use vstd::prelude::*;

verus! {

/// Configuration for one client instance: where to reach the deployment,
/// how to authenticate, and (optionally) how hard to throttle.
#[derive(Clone, Debug)]
pub struct GazelleClientOptions {
    /// The user agent to present to the upstream.
    pub user_agent: String,
    /// The API key sent in the authorization header.
    pub key: String,
    /// The base URL of the deployment.
    pub url: String,
    /// Requests allowed per window; the factory default applies when absent.
    pub requests_allowed_per_duration: Option<usize>,
    /// Window length in milliseconds; the factory default applies when absent.
    pub request_limit_duration: Option<u64>,
}

} // verus!
