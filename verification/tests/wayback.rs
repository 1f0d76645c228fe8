use vita::error::Failure;
use vita::extract::IntoSubdomain;
use vita::extract::RawRecord;
use vita::wayback::build_url;
use vita::wayback::outcome_of_payload;
use vita::wayback::Runner;
use vita::wayback::RunnerState;
use vita::wayback::WaybackResult;

fn record(url: &str) -> RawRecord {
    RawRecord { url: Some(url.to_string()) }
}

#[test]
fn url_builder() {
    let correct_uri =
        "https://web.archive.org/cdx/search/cdx?url=*.hackerone.com/*&output=json\
    &fl=original&collapse=urlkey&limit=100000";
    assert_eq!(correct_uri, build_url("hackerone.com"));
}

#[test]
fn extractor_takes_hosts_in_record_order() {
    let result = WaybackResult::new(vec![
        record("https://a.example.com/x"),
        record("https://b.example.com/y"),
    ]);
    assert_eq!(
        result.subdomains(),
        vec!["a.example.com".to_string(), "b.example.com".to_string()]
    );
}

#[test]
fn extractor_drops_malformed_entries() {
    let result = WaybackResult::new(vec![
        record("https://a.example.com/x"),
        record("not a url"),
        RawRecord { url: None },
        record("data:text/plain,hi"),
        record("https://b.example.com/"),
    ]);
    assert_eq!(
        result.subdomains(),
        vec!["a.example.com".to_string(), "b.example.com".to_string()]
    );
}

#[test]
fn extractor_keeps_duplicates() {
    let result = WaybackResult::new(vec![
        record("https://a.example.com/1"),
        record("https://a.example.com/2"),
    ]);
    assert_eq!(
        result.subdomains(),
        vec!["a.example.com".to_string(), "a.example.com".to_string()]
    );
}

#[test]
fn extractor_is_deterministic() {
    let result = WaybackResult::new(vec![
        record("https://a.example.com/x"),
        record("original"),
        RawRecord { url: None },
        record("https://b.example.com/y"),
    ]);
    assert_eq!(result.subdomains(), result.subdomains());
}

#[test]
fn runner_delivers_batch() {
    let mut runner = Runner::new("example.com");
    let uri = runner.query_url();
    assert_eq!(uri, build_url("example.com"));
    let body = "[[\"https://a.example.com/x\"], [\"https://b.example.com/y\"]]";
    let batch = runner.on_body(body).unwrap();
    assert_eq!(
        batch,
        vec!["a.example.com".to_string(), "b.example.com".to_string()]
    );
    assert!(matches!(runner.state, RunnerState::Delivered));
}

#[test]
fn runner_skips_header_record() {
    let mut runner = Runner::new("example.com");
    let _uri = runner.query_url();
    let body = "[[\"original\"], [\"https://a.example.com/\"]]";
    let batch = runner.on_body(body).unwrap();
    assert_eq!(batch, vec!["a.example.com".to_string()]);
    assert!(matches!(runner.state, RunnerState::Delivered));
}

#[test]
fn runner_reports_empty_source() {
    let mut runner = Runner::new("anVubmxpa2VzdGVh.com");
    let _uri = runner.query_url();
    let err = runner.on_body("[]").unwrap_err();
    assert_eq!(
        err.message(),
        "Wayback Machine couldn't find any results for: anVubmxpa2VzdGVh.com"
    );
    assert!(matches!(runner.state, RunnerState::SourceEmpty));
}

#[test]
fn runner_reports_absent_payload() {
    let mut runner = Runner::new("anVubmxpa2VzdGVh.com");
    let _uri = runner.query_url();
    let err = runner.on_body("null").unwrap_err();
    assert!(matches!(err, Failure::SourceError { .. }));
    assert!(matches!(runner.state, RunnerState::SourceEmpty));
}

#[test]
fn runner_reports_all_records_malformed_as_empty() {
    let mut runner = Runner::new("example.com");
    let _uri = runner.query_url();
    let err = runner.on_body("[[\"original\"], [42], []]").unwrap_err();
    assert!(matches!(err, Failure::SourceError { .. }));
    assert!(matches!(runner.state, RunnerState::SourceEmpty));
}

#[test]
fn runner_rejects_body_that_is_not_json() {
    let mut runner = Runner::new("example.com");
    let _uri = runner.query_url();
    let err = runner.on_body("these are not the bytes you seek").unwrap_err();
    assert_eq!(
        err.message(),
        "Wayback Machine couldn't decode the response for: example.com"
    );
    assert!(matches!(runner.state, RunnerState::NetworkOrParseFailed));
}

#[test]
fn runner_rejects_wrong_top_level_shape() {
    let mut runner = Runner::new("example.com");
    let _uri = runner.query_url();
    let err = runner.on_body("{\"rows\": []}").unwrap_err();
    assert!(matches!(err, Failure::ParseError { .. }));
    assert!(matches!(runner.state, RunnerState::NetworkOrParseFailed));
}

#[test]
fn runner_fetch_failure_is_terminal() {
    let mut runner = Runner::new("example.com");
    let _uri = runner.query_url();
    runner.on_fetch_failed();
    assert!(matches!(runner.state, RunnerState::NetworkOrParseFailed));
}

#[test]
fn outcome_of_absent_payload_is_a_source_error() {
    let err = outcome_of_payload(None, "example.com").unwrap_err();
    assert_eq!(
        err.message(),
        "Wayback Machine couldn't find any results for: example.com"
    );
}

#[test]
fn outcome_of_nonempty_payload_is_the_batch() {
    let payload = Some(vec![record("https://a.example.com/x")]);
    let batch = outcome_of_payload(payload, "example.com").unwrap();
    assert_eq!(batch, vec!["a.example.com".to_string()]);
}

#[test]
fn failure_messages_name_source_and_host() {
    let e = Failure::source_error("Wayback Machine", "h.example.com");
    assert_eq!(
        e.message(),
        "Wayback Machine couldn't find any results for: h.example.com"
    );
    let e = Failure::parse_error("Wayback Machine", "h.example.com");
    assert_eq!(
        e.message(),
        "Wayback Machine couldn't decode the response for: h.example.com"
    );
}
