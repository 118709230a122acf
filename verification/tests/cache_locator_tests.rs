use axon_desktop::cache::{
    encode_version_cache, parse_version_cache, VersionCache, VERSION_CACHE_TTL_SECS,
};
use axon_desktop::locator::{plan_fetch, resolve_fetch_outcome, FetchPlan, IndexOutcome};
use axon_desktop::types::OpencodeError;

#[test]
fn cache_record_encodes_canonically() {
    let s = encode_version_cache("v0.5.1", 1700000000);
    assert_eq!(s, "{\"version\":\"v0.5.1\",\"timestamp\":1700000000}");
}

#[test]
fn cache_record_round_trips() {
    let s = encode_version_cache("v0.5.1", 1700000000);
    let c = parse_version_cache(&s).unwrap();
    assert_eq!(c.version, "v0.5.1");
    assert_eq!(c.timestamp, 1700000000);

    let s = encode_version_cache("", 0);
    let c = parse_version_cache(&s).unwrap();
    assert_eq!(c.version, "");
    assert_eq!(c.timestamp, 0);
}

#[test]
fn cache_parser_rejects_malformed_records() {
    assert_eq!(parse_version_cache(""), None);
    assert_eq!(parse_version_cache("{}"), None);
    assert_eq!(parse_version_cache("{\"version\":\"v1\"}"), None);
    assert_eq!(parse_version_cache("{\"version\":\"v1\",\"timestamp\":}"), None);
    assert_eq!(parse_version_cache("{\"version\":\"v1\",\"timestamp\":12x}"), None);
    assert_eq!(parse_version_cache("{\"version\":\"v1\",\"timestamp\":12"), None);
    // One digit beyond the range of a 64-bit count.
    assert_eq!(
        parse_version_cache("{\"version\":\"v1\",\"timestamp\":18446744073709551616}"),
        None
    );
    // The largest count that still fits.
    let c = parse_version_cache("{\"version\":\"v1\",\"timestamp\":18446744073709551615}").unwrap();
    assert_eq!(c.timestamp, u64::MAX);
}

#[test]
fn cache_expiry_is_a_fixed_window() {
    let c = VersionCache { version: "v1".to_string(), timestamp: 1000 };
    assert!(!c.is_expired(1000));
    assert!(!c.is_expired(1000 + VERSION_CACHE_TTL_SECS));
    assert!(c.is_expired(1001 + VERSION_CACHE_TTL_SECS));
    // A record from the future counts as fresh.
    assert!(!c.is_expired(0));
    assert_eq!(VERSION_CACHE_TTL_SECS, 12 * 60 * 60);
}

#[test]
fn fresh_cache_answers_without_any_network_plan() {
    let c = VersionCache { version: "v0.5.1".to_string(), timestamp: 1000 };
    let plan = plan_fetch(Some(&c), 1000 + VERSION_CACHE_TTL_SECS);
    assert_eq!(plan, FetchPlan::UseCached { version: "v0.5.1".to_string() });
}

#[test]
fn stale_or_absent_cache_plans_a_query() {
    let c = VersionCache { version: "v0.5.1".to_string(), timestamp: 1000 };
    assert_eq!(plan_fetch(Some(&c), 1001 + VERSION_CACHE_TTL_SECS), FetchPlan::QueryIndex);
    assert_eq!(plan_fetch(None, 0), FetchPlan::QueryIndex);
}

#[test]
fn successful_index_response_is_stored() {
    let r = resolve_fetch_outcome(
        IndexOutcome::Response { status: 200, tag: Some("v0.6.0".to_string()) },
        None,
        None,
    )
    .unwrap();
    assert_eq!(r.version, "v0.6.0");
    assert!(r.store);
}

#[test]
fn rate_limit_with_cache_returns_cached_tag_without_error() {
    let c = VersionCache { version: "v0.5.1".to_string(), timestamp: 1 };
    let r = resolve_fetch_outcome(
        IndexOutcome::Response { status: 429, tag: None },
        Some(c),
        None,
    )
    .unwrap();
    assert_eq!(r.version, "v0.5.1");
    assert!(!r.store);

    // 403 counts as rate limiting too.
    let c = VersionCache { version: "v0.5.1".to_string(), timestamp: 1 };
    let r = resolve_fetch_outcome(
        IndexOutcome::Response { status: 403, tag: None },
        Some(c),
        None,
    )
    .unwrap();
    assert_eq!(r.version, "v0.5.1");
}

#[test]
fn rate_limit_without_cache_falls_back_to_installed() {
    let r = resolve_fetch_outcome(
        IndexOutcome::Response { status: 429, tag: None },
        None,
        Some("v0.4.0".to_string()),
    )
    .unwrap();
    assert_eq!(r.version, "v0.4.0");
    assert!(!r.store);
}

#[test]
fn rate_limit_with_no_fallback_is_a_download_error() {
    let r = resolve_fetch_outcome(IndexOutcome::Response { status: 429, tag: None }, None, None);
    match r {
        Err(OpencodeError::DownloadError { message }) => {
            assert_eq!(message, "release index rate limited and no cached or installed version");
        }
        other => panic!("unexpected resolution: {:?}", other),
    }
}

#[test]
fn other_http_errors_are_download_errors_naming_the_status() {
    let r = resolve_fetch_outcome(IndexOutcome::Response { status: 500, tag: None }, None, None);
    match r {
        Err(OpencodeError::DownloadError { message }) => {
            assert_eq!(message, "release index returned status: 500");
        }
        other => panic!("unexpected resolution: {:?}", other),
    }
}

#[test]
fn network_failure_degrades_to_the_fallback_chain() {
    let c = VersionCache { version: "v0.5.1".to_string(), timestamp: 1 };
    let r = resolve_fetch_outcome(
        IndexOutcome::NetworkFailure { message: "timed out".to_string() },
        Some(c),
        Some("v0.4.0".to_string()),
    )
    .unwrap();
    // The cache outranks the installed version in the chain.
    assert_eq!(r.version, "v0.5.1");
}

#[test]
fn successful_response_without_a_tag_is_an_error() {
    let r = resolve_fetch_outcome(IndexOutcome::Response { status: 200, tag: None }, None, None);
    match r {
        Err(OpencodeError::DownloadError { message }) => {
            assert_eq!(message, "invalid release response");
        }
        other => panic!("unexpected resolution: {:?}", other),
    }
}
