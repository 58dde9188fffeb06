use vstd::prelude::*;
use vstd::string::{StrSliceExecFns, StringExecFns, StringSliceAdditionalSpecFns};
use vstd::utf8::{decode_utf8, encode_utf8_decode_utf8, valid_utf8};

use crate::config::SentryTunnelConfig;
use crate::error::{SentryTunnelError, TunnelErrorModel};
use crate::trusted::{dsn_url_parts, header_dsn, json_header_dsn, url_host_path};

verus! {

/// Index of the first newline in a character sequence, or its length when it
/// holds none.
pub open spec fn newline_pos(s: Seq<char>) -> int
    decreases s.len(),
{
    if s.len() == 0 {
        0
    } else if s[0] == '\n' {
        0
    } else {
        1 + newline_pos(s.drop_first())
    }
}

/// The header line of an envelope's text: everything before the first
/// newline (the whole text when it has none).
pub open spec fn header_line_of(s: Seq<char>) -> Seq<char> {
    s.take(newline_pos(s))
}

/// A candidate project identifier: the URL path with exactly one leading
/// slash stripped, when one is present.
pub open spec fn strip_one_slash(p: Seq<char>) -> Seq<char> {
    if p.len() > 0 && p[0] == '/' {
        p.drop_first()
    } else {
        p
    }
}

/// The fixed shape of the upstream endpoint for a project.
pub open spec fn upstream_url_of(host: Seq<char>, project_id: Seq<char>) -> Seq<char> {
    "https://"@ + host + "/api/"@ + project_id + "/envelope/"@
}

/// What the envelope decoder yields: the header line of the payload's text,
/// or the failure that ends the request.
pub open spec fn decode_decision(envelope: Seq<u8>) -> Result<Seq<char>, TunnelErrorModel> {
    if !valid_utf8(envelope) {
        Err(TunnelErrorModel::InvalidEncoding)
    } else if decode_utf8(envelope).len() == 0 {
        Err(TunnelErrorModel::EmptyEnvelope)
    } else {
        Ok(header_line_of(decode_utf8(envelope)))
    }
}

/// What the destination validator yields for a header line under a policy:
/// the validated project identifier, or the failure that ends the request.
pub open spec fn destination_decision(
    line: Seq<char>,
    host: Seq<char>,
    ids: Seq<Seq<char>>,
) -> Result<Seq<char>, TunnelErrorModel> {
    match json_header_dsn(line) {
        Err(detail) => Err(TunnelErrorModel::InvalidHeader(detail)),
        Ok(None) => Err(TunnelErrorModel::MissingDsn),
        Ok(Some(dsn)) => match url_host_path(dsn) {
            Err(detail) => Err(TunnelErrorModel::InvalidDsnUrl(detail)),
            Ok(parts) => if parts.0 != host {
                Err(TunnelErrorModel::InvalidHostname(parts.0))
            } else {
                let id = strip_one_slash(parts.1);
                if id.len() == 0 || !ids.contains(id) {
                    Err(TunnelErrorModel::InvalidProjectId(id))
                } else {
                    Ok(id)
                }
            },
        },
    }
}

/// What the whole pre-relay pipeline yields for an envelope under a policy:
/// the upstream URL to relay to, or the failure that ends the request.
pub open spec fn relay_decision(
    host: Seq<char>,
    ids: Seq<Seq<char>>,
    envelope: Seq<u8>,
) -> Result<Seq<char>, TunnelErrorModel> {
    match decode_decision(envelope) {
        Err(e) => Err(e),
        Ok(line) => match destination_decision(line, host, ids) {
            Err(e) => Err(e),
            Ok(id) => Ok(upstream_url_of(host, id)),
        },
    }
}

/// Every failure of the pre-relay pipeline is a client-input or policy
/// failure: `TunnelError` is reserved for the upstream relay itself.
pub proof fn lemma_pipeline_failures_are_client_class(
    host: Seq<char>,
    ids: Seq<Seq<char>>,
    envelope: Seq<u8>,
)
    ensures
        relay_decision(host, ids, envelope) matches Err(e) ==> !(e is TunnelError),
{
}

/// The allow-list is airtight: when the pipeline accepts an envelope, the URL
/// it relays to is the fixed-shape endpoint of the configured host and of a
/// non-empty, allow-listed project identifier — never any other destination.
pub proof fn lemma_relay_targets_allowed_destination(
    host: Seq<char>,
    ids: Seq<Seq<char>>,
    envelope: Seq<u8>,
)
    ensures
        relay_decision(host, ids, envelope) matches Ok(url) ==> exists|id: Seq<char>|
            ids.contains(id) && id.len() > 0 && url == upstream_url_of(host, id),
{
    if relay_decision(host, ids, envelope) is Ok {
        let line = decode_decision(envelope)->Ok_0;
        let dsn = json_header_dsn(line)->Ok_0->Some_0;
        let id = strip_one_slash(url_host_path(dsn)->Ok_0.1);
        assert(ids.contains(id) && id.len() > 0 && relay_decision(host, ids, envelope)->Ok_0
            == upstream_url_of(host, id));
    }
}

/// An empty payload, and only an empty payload, is the one that fails with
/// `EmptyEnvelope`.
pub proof fn lemma_empty_envelope(envelope: Seq<u8>)
    ensures
        decode_decision(envelope) == Err::<Seq<char>, TunnelErrorModel>(
            TunnelErrorModel::EmptyEnvelope,
        ) <==> envelope.len() == 0,
{
    if envelope.len() == 0 {
        assert(valid_utf8(envelope));
        assert(decode_utf8(envelope).len() == 0);
    } else {
        if valid_utf8(envelope) {
            assert(decode_utf8(envelope).len() > 0);
        }
    }
}

proof fn lemma_newline_pos_at(s: Seq<char>, i: int)
    requires
        0 <= i <= s.len(),
        forall|j: int| 0 <= j < i ==> s[j] != '\n',
        i < s.len() ==> s[i] == '\n',
    ensures
        newline_pos(s) == i,
    decreases i,
{
    if s.len() == 0 {
    } else if s[0] == '\n' {
        assert(i == 0);
    } else {
        assert(i != 0);
        let rest = s.drop_first();
        assert(forall|j: int| 0 <= j < i - 1 ==> rest[j] == s[j + 1] && s[j + 1] != '\n');
        assert(i - 1 < rest.len() ==> rest[i - 1] == s[i]);
        lemma_newline_pos_at(rest, i - 1);
    }
}

/// Decode an envelope: check that it is text, and take its header line.
///
/// Fails with `InvalidEncoding` on input that is not valid text, and with
/// `EmptyEnvelope` on empty input, exactly as `decode_decision` says.
pub fn decode_envelope_header(envelope: &[u8]) -> (r: Result<String, SentryTunnelError>)
    ensures
        r is Ok <==> decode_decision(envelope@) is Ok,
        r matches Ok(line) ==> line@ == decode_decision(envelope@)->Ok_0,
        r matches Err(e) ==> e@ == decode_decision(envelope@)->Err_0,
{
    let text = match crate::trusted::utf8_text(envelope) {
        None => {
            return Err(SentryTunnelError::InvalidEncoding);
        },
        Some(t) => t,
    };
    proof {
        encode_utf8_decode_utf8(text@);
        assert(decode_utf8(envelope@) == text@);
    }
    if text.is_empty() {
        return Err(SentryTunnelError::EmptyEnvelope);
    }
    let n = text.unicode_len();
    let mut i: usize = 0;
    loop
        invariant_except_break
            i <= n,
            n == text@.len(),
            forall|j: int| 0 <= j < i ==> text@[j] != '\n',
        ensures
            i <= n,
            n == text@.len(),
            forall|j: int| 0 <= j < i ==> text@[j] != '\n',
            i < n ==> text@[i as int] == '\n',
        decreases n - i,
    {
        if i == n {
            break ;
        }
        if text.get_char(i) == '\n' {
            break ;
        }
        i = i + 1;
    }
    proof {
        lemma_newline_pos_at(text@, i as int);
    }
    let line = text.substring_char(0, i);
    Ok(String::from_str(line))
}

fn strip_leading_slash(path: &String) -> (r: String)
    ensures
        r@ == strip_one_slash(path@),
{
    let n = path.as_str().unicode_len();
    if n > 0 && path.as_str().get_char(0) == '/' {
        let rest = path.as_str().substring_char(1, n);
        proof {
            assert(path@.subrange(1, n as int) =~= path@.drop_first());
        }
        String::from_str(rest)
    } else {
        path.clone()
    }
}

fn project_id_allowed(ids: &Vec<String>, id: &String) -> (r: bool)
    ensures
        r == ids.deep_view().contains(id@),
{
    let mut i: usize = 0;
    while i < ids.len()
        invariant
            i <= ids.len(),
            forall|j: int| 0 <= j < i ==> ids.deep_view()[j] != id@,
        decreases ids.len() - i,
    {
        if ids[i].eq(id) {
            proof {
                assert(ids.deep_view()[i as int] == id@);
            }
            return true;
        }
        i = i + 1;
    }
    proof {
        assert forall|j: int| 0 <= j < ids.deep_view().len() implies ids.deep_view()[j] != id@ by {
        }
        assert(!ids.deep_view().contains(id@));
    }
    false
}

/// Validate a header line against the policy: extract its `dsn`, parse it as
/// an absolute URL, and check host and path-derived identifier.
///
/// Returns the validated project identifier, or fails with `InvalidHeader`,
/// `MissingDsn`, `InvalidDsnUrl`, `InvalidHostname` (carrying the host that
/// was found, empty when the URL has none) or `InvalidProjectId` (carrying
/// the candidate identifier), exactly as `destination_decision` says.
pub fn validate_destination(line: &str, config: &SentryTunnelConfig) -> (r: Result<
    String,
    SentryTunnelError,
>)
    ensures
        r is Ok <==> destination_decision(
            line@,
            config.sentry_host@,
            config.allowed_project_ids.deep_view(),
        ) is Ok,
        r matches Ok(id) ==> id@ == destination_decision(
            line@,
            config.sentry_host@,
            config.allowed_project_ids.deep_view(),
        )->Ok_0,
        r matches Err(e) ==> e@ == destination_decision(
            line@,
            config.sentry_host@,
            config.allowed_project_ids.deep_view(),
        )->Err_0,
{
    let dsn = match header_dsn(line) {
        Err(detail) => {
            return Err(SentryTunnelError::InvalidHeader(detail));
        },
        Ok(None) => {
            return Err(SentryTunnelError::MissingDsn);
        },
        Ok(Some(d)) => d,
    };
    let parts = match dsn_url_parts(dsn.as_str()) {
        Err(detail) => {
            return Err(SentryTunnelError::InvalidDsnUrl(detail));
        },
        Ok(p) => p,
    };
    if !parts.host.eq(&config.sentry_host) {
        return Err(SentryTunnelError::InvalidHostname(parts.host));
    }
    let project_id = strip_leading_slash(&parts.path);
    if project_id.as_str().is_empty() {
        return Err(SentryTunnelError::InvalidProjectId(project_id));
    }
    if !project_id_allowed(&config.allowed_project_ids, &project_id) {
        return Err(SentryTunnelError::InvalidProjectId(project_id));
    }
    Ok(project_id)
}

/// Compose the fixed-shape upstream endpoint for a validated project.
pub fn upstream_url(host: &String, project_id: &String) -> (r: String)
    ensures
        r@ == upstream_url_of(host@, project_id@),
{
    let mut url = String::from_str("https://");
    url.append(host.as_str());
    url.append("/api/");
    url.append(project_id.as_str());
    url.append("/envelope/");
    url
}

/// Everything the relay needs for its single outbound call: the upstream
/// target and the hard deadline in seconds.
#[derive(Debug, PartialEq, Eq)]
pub struct RelayPlan {
    /// The upstream endpoint the envelope must be posted to.
    pub url: String,
    /// The hard deadline for the round trip, in seconds.
    pub timeout_secs: u64,
}

/// Run the whole pre-relay pipeline: decode the envelope, validate its
/// destination against the policy, and compose the upstream URL.
///
/// Succeeds exactly when `relay_decision` does, with the URL it names; fails
/// with the exact failure it names. The caller posts the unmodified envelope
/// bytes to the plan's URL under its deadline and classifies the outcome
/// with `finish_relay`.
pub fn prepare_relay(config: &SentryTunnelConfig, envelope: &[u8]) -> (r: Result<
    RelayPlan,
    SentryTunnelError,
>)
    ensures
        r is Ok <==> relay_decision(
            config.sentry_host@,
            config.allowed_project_ids.deep_view(),
            envelope@,
        ) is Ok,
        r matches Ok(plan) ==> plan.url@ == relay_decision(
            config.sentry_host@,
            config.allowed_project_ids.deep_view(),
            envelope@,
        )->Ok_0 && plan.timeout_secs == config.timeout_secs,
        r matches Err(e) ==> e@ == relay_decision(
            config.sentry_host@,
            config.allowed_project_ids.deep_view(),
            envelope@,
        )->Err_0,
{
    let line = match decode_envelope_header(envelope) {
        Err(e) => {
            return Err(e);
        },
        Ok(l) => l,
    };
    let project_id = match validate_destination(line.as_str(), config) {
        Err(e) => {
            return Err(e);
        },
        Ok(id) => id,
    };
    let url = upstream_url(&config.sentry_host, &project_id);
    Ok(RelayPlan { url, timeout_secs: config.timeout_secs })
}

} // verus!
