use vstd::prelude::*;
use vstd::string::StringSliceAdditionalSpecFns;
use vstd::utf8::valid_utf8;

verus! {

/// What serde_json finds in an envelope header line: `Err(detail)` when the
/// line is not valid JSON, with `detail` the parser diagnostic; `Ok(None)`
/// when the line is JSON but its top-level `dsn` member is absent or not a
/// string; `Ok(Some(d))` when the top-level `dsn` member is the string `d`.
/// A pure function of the line's characters.
pub uninterp spec fn json_header_dsn(line: Seq<char>) -> Result<Option<Seq<char>>, Seq<char>>;

/// What url::Url::parse yields for a string: `Err(detail)` when it is not a
/// parseable absolute URL, with `detail` the parser diagnostic; otherwise the
/// pair of the URL's host (the empty sequence when it has none) and its path.
/// A pure function of the input characters.
pub uninterp spec fn url_host_path(s: Seq<char>) -> Result<(Seq<char>, Seq<char>), Seq<char>>;

/// The host and path components of a destination descriptor, as plain values.
#[derive(Debug)]
pub struct DsnParts {
    /// The URL's host, or the empty string when it has none.
    pub host: String,
    /// The URL's path.
    pub path: String,
}

/// Relies on std::str::from_utf8: it returns `Ok` exactly when the input is
/// valid UTF-8, and the returned str borrows those same bytes.
#[verifier::external_body]
pub(crate) fn utf8_text(bytes: &[u8]) -> (r: Option<&str>)
    ensures
        r is Some <==> valid_utf8(bytes@),
        r matches Some(s) ==> s.spec_bytes() == bytes@,
{
    std::str::from_utf8(bytes).ok()
}

/// Relies on serde_json::from_str::<Value>, Value::as_str and the Display of
/// serde_json::Error: whether a line parses as JSON, the diagnostic when it
/// does not, and the value of its top-level `dsn` member all depend on the
/// line's characters alone, as `json_header_dsn` names them.
#[verifier::external_body]
pub(crate) fn header_dsn(line: &str) -> (r: Result<Option<String>, String>)
    ensures
        r is Ok <==> json_header_dsn(line@) is Ok,
        r matches Ok(dsn) ==> (dsn is Some <==> json_header_dsn(line@)->Ok_0 is Some),
        r matches Ok(dsn) ==> (dsn matches Some(d) ==> d@ == json_header_dsn(line@)->Ok_0->Some_0),
        r matches Err(detail) ==> detail@ == json_header_dsn(line@)->Err_0,
{
    match serde_json::from_str::<serde_json::Value>(line) {
        Ok(header) => Ok(header["dsn"].as_str().map(|d| d.to_string())),
        Err(e) => Err(e.to_string()),
    }
}

/// Relies on url::Url::parse, Url::host_str, Url::path and the Display of
/// url::ParseError: whether a string parses as an absolute URL, the
/// diagnostic when it does not, and the parsed host and path all depend on
/// the input characters alone, as `url_host_path` names them.
#[verifier::external_body]
pub(crate) fn dsn_url_parts(s: &str) -> (r: Result<DsnParts, String>)
    ensures
        r is Ok <==> url_host_path(s@) is Ok,
        r matches Ok(p) ==> p.host@ == url_host_path(s@)->Ok_0.0 && p.path@ == url_host_path(s@)->Ok_0.1,
        r matches Err(detail) ==> detail@ == url_host_path(s@)->Err_0,
{
    match url::Url::parse(s) {
        Ok(u) => Ok(DsnParts {
            host: u.host_str().unwrap_or("").to_string(),
            path: u.path().to_string(),
        }),
        Err(e) => Err(e.to_string()),
    }
}

} // verus!
