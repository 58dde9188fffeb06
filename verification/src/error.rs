use vstd::prelude::*;
use vstd::string::StringExecFns;

verus! {

/// Failure taxonomy of the tunnel pipeline. Every failure is terminal for
/// the current request: the pipeline never retries or recovers.
///
/// The first seven variants are client-input or policy failures; the last,
/// `TunnelError`, reports an upstream transport failure or a non-success
/// upstream status.
#[derive(Debug, Clone, PartialEq, Eq)]
pub enum SentryTunnelError {
    /// The payload is not valid text.
    InvalidEncoding,
    /// No header line is present (the payload is empty).
    EmptyEnvelope,
    /// The header line is not valid JSON; carries the parser diagnostic.
    InvalidHeader(String),
    /// The header JSON lacks a string `dsn` member.
    MissingDsn,
    /// The `dsn` member is not a parseable absolute URL; carries the
    /// parser diagnostic.
    InvalidDsnUrl(String),
    /// The destination host is not the configured upstream; carries the
    /// host that was found (empty when the URL has none).
    InvalidHostname(String),
    /// The path-derived identifier is empty or not allow-listed; carries
    /// that identifier.
    InvalidProjectId(String),
    /// The upstream relay failed; carries the transport diagnostic or the
    /// upstream status.
    TunnelError(String),
}

/// The mathematical value of a pipeline failure, with every diagnostic as a
/// character sequence.
pub enum TunnelErrorModel {
    InvalidEncoding,
    EmptyEnvelope,
    InvalidHeader(Seq<char>),
    MissingDsn,
    InvalidDsnUrl(Seq<char>),
    InvalidHostname(Seq<char>),
    InvalidProjectId(Seq<char>),
    TunnelError(Seq<char>),
}

impl View for SentryTunnelError {
    type V = TunnelErrorModel;

    open spec fn view(&self) -> TunnelErrorModel {
        match self {
            SentryTunnelError::InvalidEncoding => TunnelErrorModel::InvalidEncoding,
            SentryTunnelError::EmptyEnvelope => TunnelErrorModel::EmptyEnvelope,
            SentryTunnelError::InvalidHeader(d) => TunnelErrorModel::InvalidHeader(d@),
            SentryTunnelError::MissingDsn => TunnelErrorModel::MissingDsn,
            SentryTunnelError::InvalidDsnUrl(d) => TunnelErrorModel::InvalidDsnUrl(d@),
            SentryTunnelError::InvalidHostname(h) => TunnelErrorModel::InvalidHostname(h@),
            SentryTunnelError::InvalidProjectId(p) => TunnelErrorModel::InvalidProjectId(p@),
            SentryTunnelError::TunnelError(d) => TunnelErrorModel::TunnelError(d@),
        }
    }
}

impl SentryTunnelError {
    /// True exactly for the upstream-failure class, which callers surface as
    /// a server error; every other variant is a client-input or policy
    /// failure and is surfaced as a client error.
    pub fn is_upstream_failure(&self) -> (r: bool)
        ensures
            r == (self@ is TunnelError),
    {
        match self {
            SentryTunnelError::TunnelError(_) => true,
            _ => false,
        }
    }

    /// A human-readable description of the failure.
    pub fn message(&self) -> (r: String)
        ensures
            r@ == self@.message(),
    {
        match self {
            SentryTunnelError::InvalidEncoding => String::from_str("Invalid envelope encoding"),
            SentryTunnelError::EmptyEnvelope => String::from_str("Empty envelope"),
            SentryTunnelError::InvalidHeader(d) => {
                let mut m = String::from_str("Invalid envelope header: ");
                m.append(d.as_str());
                m
            },
            SentryTunnelError::MissingDsn => String::from_str("Missing DSN in envelope"),
            SentryTunnelError::InvalidDsnUrl(d) => {
                let mut m = String::from_str("Invalid DSN URL: ");
                m.append(d.as_str());
                m
            },
            SentryTunnelError::InvalidHostname(h) => {
                let mut m = String::from_str("Invalid sentry hostname: ");
                m.append(h.as_str());
                m
            },
            SentryTunnelError::InvalidProjectId(p) => {
                let mut m = String::from_str("Invalid sentry project id: ");
                m.append(p.as_str());
                m
            },
            SentryTunnelError::TunnelError(d) => {
                let mut m = String::from_str("Error tunneling to sentry: ");
                m.append(d.as_str());
                m
            },
        }
    }
}

impl TunnelErrorModel {
    /// The description that `SentryTunnelError::message` returns.
    pub open spec fn message(self) -> Seq<char> {
        match self {
            TunnelErrorModel::InvalidEncoding => "Invalid envelope encoding"@,
            TunnelErrorModel::EmptyEnvelope => "Empty envelope"@,
            TunnelErrorModel::InvalidHeader(d) => "Invalid envelope header: "@ + d,
            TunnelErrorModel::MissingDsn => "Missing DSN in envelope"@,
            TunnelErrorModel::InvalidDsnUrl(d) => "Invalid DSN URL: "@ + d,
            TunnelErrorModel::InvalidHostname(h) => "Invalid sentry hostname: "@ + h,
            TunnelErrorModel::InvalidProjectId(p) => "Invalid sentry project id: "@ + p,
            TunnelErrorModel::TunnelError(d) => "Error tunneling to sentry: "@ + d,
        }
    }
}

} // verus!
