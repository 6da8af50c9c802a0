use qdrant::cluster_api::{metadata_read_check, remove_peer_check, QueryParams};
use qdrant::collections_api::WaitTimeout;
use qdrant::requester_context::{ActixRequesterContext, RequesterContext, RequesterMiddleware};
use qdrant::text::{ct_eq, decimal, starts_with, str_eq, strip_prefix};
use std::collections::HashMap;
use std::time::Duration;

#[test]
fn requester_context_from_connection() {
    let c = RequesterContext::from_connection(Some("203.0.113.5"), "localhost:6333");
    assert_eq!(c.remote_addr, "203.0.113.5");
    assert_eq!(c.local_addr, "localhost:6333");
    let c = RequesterContext::from_connection(None, "h");
    assert_eq!(c.remote_addr, "unknown");
    assert_eq!(c.local_addr, "h");
}

#[test]
fn requester_context_fallback() {
    let ActixRequesterContext(c) = ActixRequesterContext::from_stored(None);
    assert_eq!(c.remote_addr, "unknown");
    assert_eq!(c.local_addr, "unknown");
    let stored = RequesterContext::new("a".to_string(), "b".to_string());
    let ActixRequesterContext(c) = ActixRequesterContext::from_stored(Some(stored));
    assert_eq!(c.remote_addr, "a");
    assert_eq!(c.local_addr, "b");
    let svc = RequesterMiddleware.new_transform(7u8);
    assert_eq!(svc.service, 7);
}

#[test]
fn wait_timeout_validation_and_duration() {
    let none = WaitTimeout { timeout: None };
    assert!(none.is_valid());
    assert!(none.timeout().is_none());
    let ten = WaitTimeout { timeout: Some(10) };
    assert!(ten.is_valid());
    assert_eq!(ten.timeout(), Some(Duration::from_secs(10)));
    assert!(!WaitTimeout { timeout: Some(0) }.is_valid());
}

#[test]
fn remove_peer_decisions() {
    assert_eq!(
        remove_peer_check(42, false, true, true),
        Err("Cannot remove peer 42 as there are shards on it".to_string())
    );
    assert_eq!(remove_peer_check(42, true, true, true), Ok(()));
    assert_eq!(remove_peer_check(42, false, false, true), Ok(()));
    assert_eq!(
        remove_peer_check(7, true, true, false),
        Err("Distributed mode disabled.".to_string())
    );
    assert_eq!(
        remove_peer_check(18446744073709551615, false, true, false),
        Err("Cannot remove peer 18446744073709551615 as there are shards on it".to_string())
    );
    assert!(QueryParams { force: false, timeout: None }.is_valid());
    assert!(!QueryParams { force: true, timeout: Some(0) }.is_valid());
}

#[test]
fn metadata_needs_distributed_mode() {
    assert_eq!(metadata_read_check(true), Ok(()));
    assert_eq!(
        metadata_read_check(false),
        Err("Qdrant is running in standalone mode".to_string())
    );
}

#[test]
fn text_helpers() {
    assert!(str_eq("abc", "abc"));
    assert!(!str_eq("abc", "abd"));
    assert!(!str_eq("abc", "ab"));
    assert!(starts_with("abc", "ab"));
    assert!(!starts_with("ab", "abc"));
    assert_eq!(strip_prefix("Bearer xyz", "Bearer "), Some("xyz"));
    assert_eq!(strip_prefix("Bearxyz", "Bearer "), None);
    assert_eq!(strip_prefix("ünï", "ü"), Some("nï"));
    assert!(ct_eq("secret", "secret"));
    assert!(!ct_eq("secret", "secreT"));
    assert!(!ct_eq("secret", "secrets"));
    assert!(ct_eq("", ""));
    assert_eq!(decimal(0), "0");
    assert_eq!(decimal(9), "9");
    assert_eq!(decimal(10), "10");
    assert_eq!(decimal(1234567890), "1234567890");
}

fn wait_timeout_from_query(query: &str) -> WaitTimeout {
    let params: HashMap<String, u64> = actix_web::web::Query::from_query(query).unwrap().0;
    WaitTimeout { timeout: params.get("timeout").copied() }
}

#[test]
fn timeout_is_deserialized() {
    let timeout = wait_timeout_from_query("");
    assert!(timeout.timeout.is_none());
    let timeout = wait_timeout_from_query("timeout=10");
    assert_eq!(timeout.timeout, Some(10))
}
