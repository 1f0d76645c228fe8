//! Failure typing shared by every source: a source either came up empty for
//! a host, or its response could not be decoded into the expected shape.

use vstd::prelude::*;
use vstd::string::StringExecFns;

verus! {

/// The mathematical value of a [`Failure`]: which failure occurred, naming the
/// source and the target host as character sequences.
pub enum FailureView {
    SourceError { source: Seq<char>, host: Seq<char> },
    ParseError { source: Seq<char>, host: Seq<char> },
}

/// A failure of one source's fetch-extract-report cycle.
///
/// A `SourceError` is the normal, expected outcome of a source that has
/// nothing for the host; a `ParseError` means the response body was not in
/// the shape the source's API documents. Either failure is local to one
/// source and never aborts sibling sources.
#[derive(Debug)]
pub enum Failure {
    /// The source answered, but held no usable results for the host.
    SourceError { source: String, host: String },
    /// The response body could not be decoded into the source's expected shape.
    ParseError { source: String, host: String },
}

impl View for Failure {
    type V = FailureView;

    open spec fn view(&self) -> FailureView {
        match self {
            Failure::SourceError { source, host } => FailureView::SourceError {
                source: source@,
                host: host@,
            },
            Failure::ParseError { source, host } => FailureView::ParseError {
                source: source@,
                host: host@,
            },
        }
    }
}

/// The human-readable description of a failure, as one line naming the
/// source and the host.
pub open spec fn error_message(e: FailureView) -> Seq<char> {
    match e {
        FailureView::SourceError { source, host } => source + " couldn't find any results for: "@
            + host,
        FailureView::ParseError { source, host } => source + " couldn't decode the response for: "@
            + host,
    }
}

impl Failure {
    /// Builds the failure that reports a source which came up empty for `host`.
    pub fn source_error(source: &str, host: &str) -> (e: Failure)
        ensures
            e@ == (FailureView::SourceError { source: source@, host: host@ }),
    {
        Failure::SourceError { source: source.to_owned(), host: host.to_owned() }
    }

    /// Builds the failure that reports a response body `host`'s source
    /// returned but which could not be decoded.
    pub fn parse_error(source: &str, host: &str) -> (e: Failure)
        ensures
            e@ == (FailureView::ParseError { source: source@, host: host@ }),
    {
        Failure::ParseError { source: source.to_owned(), host: host.to_owned() }
    }

    /// The description of this failure, exactly as [`error_message`] states it.
    pub fn message(&self) -> (m: String)
        ensures
            m@ == error_message(self@),
    {
        match self {
            Failure::SourceError { source, host } => {
                let mut m = source.clone();
                m.append(" couldn't find any results for: ");
                m.append(host.as_str());
                m
            },
            Failure::ParseError { source, host } => {
                let mut m = source.clone();
                m.append(" couldn't decode the response for: ");
                m.append(host.as_str());
                m
            },
        }
    }
}

} // verus!

