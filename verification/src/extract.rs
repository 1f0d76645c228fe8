//! Hostname extraction: the per-record reduction of a source's response to
//! the host components of the URL-like strings it carries.
//!
//! A record is modelled by the one field the extraction reads: the URL-like
//! string at the record's documented position, or nothing when the record
//! does not have such a string there. Records whose field is missing, or
//! whose string is not a URL with a host, are silently dropped; the emitted
//! hostnames keep the record order, and duplicates are kept (deduplication
//! belongs to the aggregator).

use vstd::prelude::*;

verus! {

/// One record of a source's raw response, reduced to the field the
/// extraction reads: the URL-like string at the record's documented
/// position, if the record has a string there.
#[derive(Debug)]
pub struct RawRecord {
    /// The record's URL-like field; `None` marks a malformed record.
    pub url: Option<String>,
}

impl View for RawRecord {
    type V = Option<Seq<char>>;

    open spec fn view(&self) -> Option<Seq<char>> {
        match self.url {
            Some(s) => Some(s@),
            None => None,
        }
    }
}

impl DeepView for RawRecord {
    type V = Option<Seq<char>>;

    open spec fn deep_view(&self) -> Option<Seq<char>> {
        self.view()
    }
}

/// The host component of `s` read as a URL, or `None` where `s` is not a
/// URL or is a URL without a host. The value is fixed by the characters of
/// `s` alone; [`parse_host`] is the sole executable window onto it.
pub uninterp spec fn host_of(s: Seq<char>) -> Option<Seq<char>>;

/// Relies on `url::Url::parse` and `url::Url::host_str`: whether a string
/// parses as a URL with a host component, and what that component is,
/// depend on the string's characters alone.
#[verifier::external_body]
fn parse_host(s: &str) -> (r: Option<String>)
    ensures
        match r {
            Some(h) => host_of(s@) == Some(h@),
            None => host_of(s@) is None,
        },
{
    match url::Url::parse(s) {
        Ok(u) => u.host_str().map(String::from),
        Err(_) => None,
    }
}

/// The hostname one record contributes: the host component of its URL-like
/// field, or nothing where the field is missing or does not name a host.
pub open spec fn record_host(r: Option<Seq<char>>) -> Option<Seq<char>> {
    match r {
        Some(s) => host_of(s),
        None => None,
    }
}

/// The ordered hostnames extracted from a sequence of records: each record
/// contributes its [`record_host`] where there is one, in record order.
pub open spec fn extracted_hosts(records: Seq<Option<Seq<char>>>) -> Seq<Seq<char>> {
    records.filter_map(|r: Option<Seq<char>>| record_host(r))
}

/// The capability every source implements: reducing its own raw response
/// shape to an ordered sequence of hostnames.
pub trait IntoSubdomain {
    /// The hostnames this response holds, as [`subdomains`](Self::subdomains)
    /// must return them.
    spec fn extracted(&self) -> Seq<Seq<char>>;

    /// Returns the hostnames of this response, in response order, with
    /// malformed entries dropped and duplicates kept.
    fn subdomains(&self) -> (r: Vec<String>)
        ensures
            r.deep_view() == self.extracted(),
    ;
}

/// Extracts the hostnames of `records`, in order, dropping every record
/// whose URL-like field is missing or does not name a host.
pub fn extract_hostnames(records: &Vec<RawRecord>) -> (r: Vec<String>)
    ensures
        r.deep_view() == extracted_hosts(records.deep_view()),
{
    let ghost f = |rec: Option<Seq<char>>| record_host(rec);
    let ghost dv = records.deep_view();
    let mut out: Vec<String> = Vec::new();
    let mut i: usize = 0;
    while i < records.len()
        invariant
            i <= records.len(),
            f == (|rec: Option<Seq<char>>| record_host(rec)),
            dv == records.deep_view(),
            out.deep_view() == dv.take(i as int).filter_map(f),
        decreases records.len() - i,
    {
        let ghost prior = out.deep_view();
        match &records[i].url {
            Some(s) => {
                proof {
                    assert(dv[i as int] == Some(s@));
                }
                match parse_host(s.as_str()) {
                    Some(h) => {
                        let ghost hv = h@;
                        proof {
                            assert(f(dv[i as int]) == Some(hv));
                        }
                        out.push(h);
                        proof {
                            assert(out.deep_view() =~= prior.push(hv));
                        }
                    },
                    None => {
                        proof {
                            assert(f(dv[i as int]) is None);
                        }
                    },
                }
            },
            None => {
                proof {
                    assert(dv[i as int] is None);
                    assert(f(dv[i as int]) is None);
                }
            },
        }
        proof {
            dv.lemma_filter_map_take_succ(f, i as int);
            assert(out.deep_view() =~= dv.take(i as int + 1).filter_map(f));
        }
        i = i + 1;
    }
    proof {
        assert(records.deep_view().take(records.len() as int) =~= records.deep_view());
    }
    out
}

/// Extraction is deterministic: any two extractions from the same records
/// agree, element for element.
pub proof fn lemma_extraction_deterministic(
    records: Seq<Option<Seq<char>>>,
    a: Seq<Seq<char>>,
    b: Seq<Seq<char>>,
)
    requires
        a == extracted_hosts(records),
        b == extracted_hosts(records),
    ensures
        a == b,
{
}

/// A record that contributes no hostname is simply omitted: removing it
/// leaves the extracted sequence unchanged.
pub proof fn lemma_malformed_record_skipped(records: Seq<Option<Seq<char>>>, i: int)
    requires
        0 <= i < records.len(),
        record_host(records[i]) is None,
    ensures
        extracted_hosts(records) == extracted_hosts(records.remove(i)),
    decreases records.len(),
{
    let f = |rec: Option<Seq<char>>| record_host(rec);
    if i == records.len() - 1 {
        assert(records.remove(i) =~= records.drop_last());
    } else {
        lemma_malformed_record_skipped(records.drop_last(), i);
        assert(records.remove(i).drop_last() =~= records.drop_last().remove(i));
        assert(records.remove(i).last() == records.last());
        assert(extracted_hosts(records) =~= extracted_hosts(records.remove(i)));
    }
}

/// Every extracted hostname originates in some record: nothing is invented
/// by the extraction.
pub proof fn lemma_extracted_host_has_a_record(records: Seq<Option<Seq<char>>>, h: Seq<char>)
    requires
        extracted_hosts(records).contains(h),
    ensures
        exists|i: int| 0 <= i < records.len() && record_host(records[i]) == Some(h),
{
    let f = |rec: Option<Seq<char>>| record_host(rec);
    records.lemma_filter_map_contains(f, h);
    let rec = choose|rec: Option<Seq<char>>| #[trigger] records.contains(rec) && f(rec) == Some(h);
    let i = choose|i: int| 0 <= i < records.len() && records[i] == rec;
    assert(0 <= i < records.len() && record_host(records[i]) == Some(h));
}

} // verus!
