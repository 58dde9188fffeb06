use vstd::prelude::*;
use vstd::string::StringExecFns;

verus! {

/// Immutable policy for the tunnel: the one upstream host that may be
/// targeted, the project identifiers that may receive relayed traffic,
/// the route path at which the endpoint is mounted, and the upper bound
/// on the upstream round trip.
#[derive(Debug, Clone)]
pub struct SentryTunnelConfig {
    /// Sentry host address (without scheme)
    pub sentry_host: String,
    /// Project identifiers permitted to receive relayed traffic
    pub allowed_project_ids: Vec<String>,
    /// Route path at which the tunnel endpoint is mounted
    pub path: String,
    /// Upper bound in seconds for the upstream round trip
    pub timeout_secs: u64,
}

/// Route path used when none is chosen.
pub fn default_path() -> (r: String)
    ensures
        r@ == "/tunnel"@,
{
    String::from_str("/tunnel")
}

/// Relay timeout in seconds used when none is chosen.
pub fn default_timeout() -> (r: u64)
    ensures
        r == 30,
{
    30
}

impl SentryTunnelConfig {
    /// The policy invariant: a configuration always names its upstream host.
    pub open spec fn wf(&self) -> bool {
        self.sentry_host@.len() > 0
    }

    /// Create a configuration with the default route path and timeout.
    pub fn new(sentry_host: String, allowed_project_ids: Vec<String>) -> (r: Self)
        requires
            sentry_host@.len() > 0,
        ensures
            r.wf(),
            r.sentry_host == sentry_host,
            r.allowed_project_ids == allowed_project_ids,
            r.path@ == "/tunnel"@,
            r.timeout_secs == 30,
    {
        SentryTunnelConfig {
            sentry_host,
            allowed_project_ids,
            path: default_path(),
            timeout_secs: default_timeout(),
        }
    }

    /// Replace the route path.
    pub fn with_path(self, path: String) -> (r: Self)
        ensures
            r.sentry_host == self.sentry_host,
            r.allowed_project_ids == self.allowed_project_ids,
            r.path == path,
            r.timeout_secs == self.timeout_secs,
    {
        SentryTunnelConfig {
            sentry_host: self.sentry_host,
            allowed_project_ids: self.allowed_project_ids,
            path,
            timeout_secs: self.timeout_secs,
        }
    }

    /// Replace the relay timeout.
    pub fn with_timeout(self, timeout_secs: u64) -> (r: Self)
        ensures
            r.sentry_host == self.sentry_host,
            r.allowed_project_ids == self.allowed_project_ids,
            r.path == self.path,
            r.timeout_secs == timeout_secs,
    {
        SentryTunnelConfig {
            sentry_host: self.sentry_host,
            allowed_project_ids: self.allowed_project_ids,
            path: self.path,
            timeout_secs,
        }
    }
}

} // verus!
