use rpc_source::endpoint::starts_with;
use rpc_source::{parse_rpc_url, Args, ParseError};

fn args_with(rpc: Option<&str>) -> Args {
    Args {
        rpc: rpc.map(|url| url.to_string()),
        requests_per_second: None,
        max_concurrent_requests: None,
        max_concurrent_chunks: None,
        inner_request_size: 1,
    }
}

fn resolve(rpc: Option<&str>, fallback: Option<&str>) -> Result<String, ParseError> {
    parse_rpc_url(&args_with(rpc), fallback.map(|url| url.to_string()))
}

#[test]
fn an_endpoint_without_scheme_is_given_http() {
    assert_eq!(resolve(Some("invalid_rpc"), None).unwrap(), "http://invalid_rpc");
    assert_eq!(resolve(Some("localhost:8545"), None).unwrap(), "http://localhost:8545");
    assert_eq!(resolve(Some("ws://node"), None).unwrap(), "http://ws://node");
}

#[test]
fn an_endpoint_with_scheme_is_kept() {
    assert_eq!(resolve(Some("http://localhost:8545"), None).unwrap(), "http://localhost:8545");
    assert_eq!(
        resolve(Some("https://rpc2.sepolia.org"), None).unwrap(),
        "https://rpc2.sepolia.org"
    );
}

#[test]
fn the_letters_http_alone_are_no_scheme() {
    assert_eq!(resolve(Some("httpbin.org"), None).unwrap(), "http://httpbin.org");
    assert_eq!(resolve(Some("http"), None).unwrap(), "http://http");
    assert_eq!(resolve(Some("https"), None).unwrap(), "http://https");
    assert_eq!(resolve(Some("httpx"), None).unwrap(), "http://httpx");
    assert_eq!(resolve(Some("http:"), None).unwrap(), "http://http:");
    assert_eq!(resolve(Some("http:/node"), None).unwrap(), "http://http:/node");
    assert_eq!(resolve(Some("https:/node"), None).unwrap(), "http://https:/node");
    assert_eq!(resolve(Some("httpss://node"), None).unwrap(), "http://httpss://node");
    assert_eq!(resolve(Some("htt"), None).unwrap(), "http://htt");
    assert_eq!(resolve(Some(""), None).unwrap(), "http://");
}

#[test]
fn a_bare_scheme_is_kept() {
    assert_eq!(resolve(Some("http://"), None).unwrap(), "http://");
    assert_eq!(resolve(Some("https://"), None).unwrap(), "https://");
}

#[test]
fn the_scheme_is_matched_exactly_and_at_the_start() {
    assert_eq!(resolve(Some("HTTP://node"), None).unwrap(), "http://HTTP://node");
    assert_eq!(resolve(Some("Https://node"), None).unwrap(), "http://Https://node");
    assert_eq!(resolve(Some(" http://node"), None).unwrap(), "http:// http://node");
    assert_eq!(resolve(Some("node/http://"), None).unwrap(), "http://node/http://");
}

#[test]
fn characters_outside_ascii_are_counted_one_by_one() {
    assert_eq!(resolve(Some("ünï.example"), None).unwrap(), "http://ünï.example");
    assert_eq!(resolve(Some("httpé"), None).unwrap(), "http://httpé");
    assert_eq!(resolve(Some("htté"), None).unwrap(), "http://htté");
    assert_eq!(resolve(Some("http://ünï.example"), None).unwrap(), "http://ünï.example");
    assert_eq!(resolve(Some("https://日本語"), None).unwrap(), "https://日本語");
}

#[test]
fn the_explicit_endpoint_wins() {
    assert_eq!(resolve(Some("first"), Some("second")).unwrap(), "http://first");
    assert_eq!(resolve(Some("first"), None).unwrap(), "http://first");
    assert_eq!(resolve(Some("https://a"), Some("https://b")).unwrap(), "https://a");
}

#[test]
fn the_fallback_is_taken_where_nothing_is_explicit() {
    assert_eq!(
        resolve(None, Some("https://rpc2.sepolia.org")).unwrap(),
        "https://rpc2.sepolia.org"
    );
    assert_eq!(resolve(None, Some("node:8545")).unwrap(), "http://node:8545");
}

#[test]
fn no_candidate_is_the_fatal_error() {
    let error = resolve(None, None).unwrap_err();
    assert!(matches!(error, ParseError::MissingEndpoint));
    assert!(error.is_fatal());
    assert_eq!(error.message(), "must provide --rpc or set ETH_RPC_URL");
}

#[test]
fn resolution_gives_the_same_url_each_time() {
    for (rpc, fallback) in [
        (Some("invalid_rpc"), None),
        (Some("https://rpc2.sepolia.org"), Some("other")),
        (None, Some("node")),
    ] {
        let first = resolve(rpc, fallback).unwrap();
        let second = resolve(rpc, fallback).unwrap();
        assert_eq!(first, second);
    }
    assert!(resolve(None, None).is_err());
    assert!(resolve(None, None).is_err());
}

#[test]
fn resolving_a_resolved_url_changes_nothing() {
    for rpc in ["invalid_rpc", "https://rpc2.sepolia.org", "", "htt", "httpbin.org", "http"] {
        let once = resolve(Some(rpc), None).unwrap();
        let twice = resolve(Some(&once), None).unwrap();
        assert_eq!(once, twice);
        assert!(once.starts_with("http://") || once.starts_with("https://"));
    }
}

#[test]
fn starts_with_compares_prefixes() {
    assert!(starts_with("http://node", "http"));
    assert!(starts_with("http", "http"));
    assert!(starts_with("anything", ""));
    assert!(starts_with("", ""));
    assert!(!starts_with("htt", "http"));
    assert!(!starts_with("", "http"));
    assert!(!starts_with("node", "http"));
    assert!(!starts_with("hTtp", "http"));
    assert!(starts_with("héllo", "hé"));
    assert!(!starts_with("héllo", "he"));
}

#[test]
fn starts_with_agrees_with_the_standard_library() {
    let texts = ["", "h", "http", "https://a", "ftp://a", "héllo", "hé", "日本語", "日本"];
    for text in texts {
        for prefix in texts {
            assert_eq!(starts_with(text, prefix), text.starts_with(prefix));
        }
    }
}
