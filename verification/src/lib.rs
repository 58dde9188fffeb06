mod config;
mod error;
mod handler;
mod trusted;
mod upstream;

pub use config::{default_path, default_timeout, SentryTunnelConfig};
pub use error::{SentryTunnelError, TunnelErrorModel};
pub use handler::{
    decode_decision, decode_envelope_header, destination_decision, header_line_of,
    lemma_empty_envelope, lemma_pipeline_failures_are_client_class,
    lemma_relay_targets_allowed_destination, newline_pos, prepare_relay, relay_decision,
    strip_one_slash, upstream_url, upstream_url_of, validate_destination, RelayPlan,
};
pub use trusted::{json_header_dsn, url_host_path, DsnParts};
pub use upstream::{
    classify_upstream_status, dec_digit, dec_str, dec_string, finish_relay, upstream_decision,
    upstream_status_message, UpstreamOutcome, UpstreamOutcomeModel,
};

use vstd::prelude::*;

verus! {

/// Step-by-step construction of a tunnel configuration.
pub struct SentryTunnelBuilder {
    config: SentryTunnelConfig,
}

impl SentryTunnelBuilder {
    /// The configuration as built so far.
    pub closed spec fn spec_config(&self) -> SentryTunnelConfig {
        self.config
    }

    /// Start from an upstream host, with no allowed projects and the default
    /// route path and timeout.
    pub fn new(sentry_host: String) -> (r: Self)
        requires
            sentry_host@.len() > 0,
        ensures
            r.spec_config().sentry_host == sentry_host,
            r.spec_config().allowed_project_ids@.len() == 0,
            r.spec_config().path@ == "/tunnel"@,
            r.spec_config().timeout_secs == 30,
    {
        SentryTunnelBuilder { config: SentryTunnelConfig::new(sentry_host, Vec::new()) }
    }

    /// Allow one more project identifier.
    pub fn allow_project_id(self, project_id: String) -> (r: Self)
        ensures
            r.spec_config().allowed_project_ids@ == self.spec_config().allowed_project_ids@.push(
                project_id,
            ),
            r.spec_config().sentry_host == self.spec_config().sentry_host,
            r.spec_config().path == self.spec_config().path,
            r.spec_config().timeout_secs == self.spec_config().timeout_secs,
    {
        let mut config = self.config;
        config.allowed_project_ids.push(project_id);
        SentryTunnelBuilder { config }
    }

    /// Allow several more project identifiers.
    pub fn allow_project_ids(self, project_ids: Vec<String>) -> (r: Self)
        ensures
            r.spec_config().allowed_project_ids@ == self.spec_config().allowed_project_ids@
                + project_ids@,
            r.spec_config().sentry_host == self.spec_config().sentry_host,
            r.spec_config().path == self.spec_config().path,
            r.spec_config().timeout_secs == self.spec_config().timeout_secs,
    {
        let mut config = self.config;
        let mut more = project_ids;
        config.allowed_project_ids.append(&mut more);
        SentryTunnelBuilder { config }
    }

    /// Choose the route path.
    pub fn path(self, path: String) -> (r: Self)
        ensures
            r.spec_config().path == path,
            r.spec_config().sentry_host == self.spec_config().sentry_host,
            r.spec_config().allowed_project_ids == self.spec_config().allowed_project_ids,
            r.spec_config().timeout_secs == self.spec_config().timeout_secs,
    {
        SentryTunnelBuilder { config: self.config.with_path(path) }
    }

    /// Choose the relay timeout in seconds.
    pub fn timeout_secs(self, timeout: u64) -> (r: Self)
        ensures
            r.spec_config().timeout_secs == timeout,
            r.spec_config().sentry_host == self.spec_config().sentry_host,
            r.spec_config().allowed_project_ids == self.spec_config().allowed_project_ids,
            r.spec_config().path == self.spec_config().path,
    {
        SentryTunnelBuilder { config: self.config.with_timeout(timeout) }
    }

    /// The finished configuration.
    pub fn build(self) -> (r: SentryTunnelConfig)
        ensures
            r == self.spec_config(),
    {
        self.config
    }
}

} // verus!
