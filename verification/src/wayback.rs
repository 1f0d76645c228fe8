//! The Wayback Machine source: query-URL builder, response decoder, and the
//! runner's decision logic, stated as a small terminal state machine that
//! the caller drives around its network calls.

use vstd::prelude::*;
use vstd::string::StringExecFns;
use crate::extract::{IntoSubdomain, RawRecord, extract_hostnames, extracted_hosts};

verus! {

/// The name of this source, as its failures report it.
pub open spec fn source_name() -> Seq<char> {
    "Wayback Machine"@
}

/// The fixed part of the query URL that precedes the target host.
pub open spec fn url_prefix() -> Seq<char> {
    "https://web.archive.org/cdx/search/cdx?url=*."@
}

/// The fixed part of the query URL that follows the target host: JSON
/// output, the canonical URL field only, result collapsing and a cap.
pub open spec fn url_suffix() -> Seq<char> {
    "/*&output=json&fl=original&collapse=urlkey&limit=100000"@
}

/// The exact query URL for `host`: the literal template with the host
/// substituted between the fixed prefix and suffix.
pub open spec fn query_url(host: Seq<char>) -> Seq<char> {
    url_prefix() + host + url_suffix()
}

/// Builds the query URL for this source's public API: the literal template
/// with `host` substituted at its documented position. Pure and total; a
/// malformed host is the caller's problem, not the builder's.
pub fn build_url(host: &str) -> (r: String)
    ensures
        r@ == query_url(host@),
{
    let mut url = "https://web.archive.org/cdx/search/cdx?url=*.".to_owned();
    url.append(host);
    url.append("/*&output=json&fl=original&collapse=urlkey&limit=100000");
    url
}

/// One raw response of this source, decoded to the records the extraction
/// reads. Ephemeral: it exists only within one runner invocation.
pub struct WaybackResult {
    /// The response's records, in response order.
    pub data: Vec<RawRecord>,
}

impl WaybackResult {
    /// Wraps decoded records as one raw response of this source.
    pub fn new(data: Vec<RawRecord>) -> (r: WaybackResult)
        ensures
            r.data == data,
    {
        WaybackResult { data }
    }
}

impl IntoSubdomain for WaybackResult {
    open spec fn extracted(&self) -> Seq<Seq<char>> {
        extracted_hosts(self.data.deep_view())
    }

    fn subdomains(&self) -> (r: Vec<String>) {
        extract_hostnames(&self.data)
    }
}

#[verifier::external_type_specification]
#[verifier::external_body]
pub struct ExJsonError(serde_json::Error);

/// What a response body decodes to, fixed by its characters alone:
/// `None` where the body is not JSON, or is JSON whose top level is neither
/// `null` nor an array; `Some(None)` for JSON `null`, the absent payload;
/// `Some(Some(records))` for a top-level array, each record reduced to the
/// string at its first position where it has one. [`decode_records`] is the
/// sole executable window onto it.
pub uninterp spec fn json_payload(body: Seq<char>) -> Option<Option<Seq<Option<Seq<char>>>>>;

/// The records of a decoded payload, as the extraction reads them.
pub open spec fn payload_records(p: Option<Vec<RawRecord>>) -> Option<Seq<Option<Seq<char>>>> {
    match p {
        Some(records) => Some(records.deep_view()),
        None => None,
    }
}

/// Relies on `serde_json::from_str`, `serde_json::Value::get` and
/// `serde_json::Value::as_str`: a body either fails to deserialize as an
/// optional array of JSON values (`Err`), or yields `null` (no payload), or
/// yields the array's records; indexing a record at 0 gives its first
/// element only where the record is an array, and `as_str` gives the string
/// only where that element is a JSON string.
#[verifier::external_body]
fn decode_records(body: &str) -> (r: Result<Option<Vec<RawRecord>>, serde_json::Error>)
    ensures
        match r {
            Ok(payload) => json_payload(body@) == Some(payload_records(payload)),
            Err(_) => json_payload(body@) is None,
        },
{
    match serde_json::from_str::<Option<Vec<serde_json::Value>>>(body) {
        Err(e) => Err(e),
        Ok(None) => Ok(None),
        Ok(Some(records)) => Ok(Some(
            records.iter().map(
                |rec| RawRecord { url: rec.get(0).and_then(|v| v.as_str()).map(String::from) },
            ).collect(),
        )),
    }
}

/// What the runner decides from a response body: the body decodes to
/// nothing, to an absent payload, or to records whose extracted hostnames
/// it will act on.
pub open spec fn decoded_hosts(body: Seq<char>) -> Option<Option<Seq<Seq<char>>>> {
    match json_payload(body) {
        None => None,
        Some(None) => Some(None),
        Some(Some(records)) => Some(Some(extracted_hosts(records))),
    }
}

/// Decides one invocation's outcome from its decoded payload: an absent
/// payload or an empty extraction is a Source Error naming this source and
/// `host`; a non-empty extraction is the batch to deliver, exactly the
/// extracted hostnames in order.
pub fn outcome_of_payload(payload: Option<Vec<RawRecord>>, host: &str) -> (r: Result<
    Vec<String>,
    crate::error::Failure,
>)
    ensures
        match r {
            Ok(batch) => {
                &&& payload_records(payload) matches Some(records)
                &&& extracted_hosts(records).len() > 0
                &&& batch.deep_view() == extracted_hosts(records)
            },
            Err(e) => {
                &&& e@ == (crate::error::FailureView::SourceError {
                    source: source_name(),
                    host: host@,
                })
                &&& match payload_records(payload) {
                    Some(records) => extracted_hosts(records).len() == 0,
                    None => true,
                }
            },
        },
{
    match payload {
        None => Err(crate::error::Failure::source_error("Wayback Machine", host)),
        Some(records) => {
            let subdomains = WaybackResult::new(records).subdomains();
            if subdomains.len() > 0 {
                Ok(subdomains)
            } else {
                Err(crate::error::Failure::source_error("Wayback Machine", host))
            }
        },
    }
}

/// The phase one runner is in. A run starts `Idle`, fetches once, and ends
/// in exactly one of the three terminal phases.
#[derive(Debug, Clone, Copy, PartialEq, Eq)]
pub enum RunnerState {
    /// Not yet started.
    Idle,
    /// The query URL has been handed out; the caller is fetching it.
    Fetching,
    /// A non-empty batch of hostnames was produced for delivery.
    Delivered,
    /// The source answered with no payload or no extractable hostname.
    SourceEmpty,
    /// The fetch failed, or the body was not in the expected shape.
    NetworkOrParseFailed,
}

/// Whether a phase is terminal: once one is reached, no event moves the
/// runner again.
pub open spec fn is_terminal(s: RunnerState) -> bool {
    s is Delivered || s is SourceEmpty || s is NetworkOrParseFailed
}

/// One source runner: it owns one fetch-extract-report cycle for one target
/// host. The caller performs the network call and the channel send; the
/// runner makes every decision and never leaves a terminal phase.
#[derive(Debug)]
pub struct Runner {
    /// The target host, read-only for the run's duration.
    pub host: String,
    /// The phase the run is in.
    pub state: RunnerState,
}

impl Runner {
    /// A fresh runner for `host`, not yet started.
    pub fn new(host: &str) -> (r: Runner)
        ensures
            r.host@ == host@,
            r.state is Idle,
    {
        Runner { host: host.to_owned(), state: RunnerState::Idle }
    }

    /// Starts the run: hands the caller the exact query URL to fetch, and
    /// moves to `Fetching`. The network call itself is the caller's.
    pub fn query_url(&mut self) -> (u: String)
        requires
            old(self).state is Idle,
        ensures
            final(self).host == old(self).host,
            final(self).state is Fetching,
            u@ == query_url(old(self).host@),
    {
        self.state = RunnerState::Fetching;
        build_url(self.host.as_str())
    }

    /// The caller's fetch failed before any body was had: the run ends in
    /// `NetworkOrParseFailed`. The transport error itself stays with the
    /// caller, which wraps and propagates it.
    pub fn on_fetch_failed(&mut self)
        requires
            old(self).state is Fetching,
        ensures
            final(self).host == old(self).host,
            final(self).state is NetworkOrParseFailed,
    {
        self.state = RunnerState::NetworkOrParseFailed;
    }

    /// Decides the run's outcome from the fetched body. Exactly one
    /// terminal phase is reached: a body that does not decode fails the run
    /// with a Parse Error; an absent payload or an empty extraction is a
    /// Source Error naming this source and the host; a non-empty extraction
    /// is delivered as one batch, exactly the extracted hostnames in order.
    pub fn on_body(&mut self, body: &str) -> (r: Result<Vec<String>, crate::error::Failure>)
        requires
            old(self).state is Fetching,
        ensures
            final(self).host == old(self).host,
            is_terminal(final(self).state),
            match decoded_hosts(body@) {
                None => {
                    &&& final(self).state is NetworkOrParseFailed
                    &&& r matches Err(e)
                    &&& e@ == (crate::error::FailureView::ParseError {
                        source: source_name(),
                        host: old(self).host@,
                    })
                },
                Some(None) => {
                    &&& final(self).state is SourceEmpty
                    &&& r matches Err(e)
                    &&& e@ == (crate::error::FailureView::SourceError {
                        source: source_name(),
                        host: old(self).host@,
                    })
                },
                Some(Some(hosts)) => if hosts.len() == 0 {
                    &&& final(self).state is SourceEmpty
                    &&& r matches Err(e)
                    &&& e@ == (crate::error::FailureView::SourceError {
                        source: source_name(),
                        host: old(self).host@,
                    })
                } else {
                    &&& final(self).state is Delivered
                    &&& r matches Ok(batch)
                    &&& batch.deep_view() == hosts
                },
            },
    {
        match decode_records(body) {
            Err(_) => {
                self.state = RunnerState::NetworkOrParseFailed;
                Err(crate::error::Failure::parse_error("Wayback Machine", self.host.as_str()))
            },
            Ok(payload) => {
                let outcome = outcome_of_payload(payload, self.host.as_str());
                match &outcome {
                    Ok(_) => {
                        self.state = RunnerState::Delivered;
                    },
                    Err(_) => {
                        self.state = RunnerState::SourceEmpty;
                    },
                }
                outcome
            },
        }
    }
}

} // verus!
