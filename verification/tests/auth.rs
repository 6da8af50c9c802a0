use qdrant::audit_event::AuthType;
use qdrant::auth::{
    determine_auth_method, presented_key, Auth, AuthError, AuthKeys, AuthMethod, PathMode,
    WhitelistItem,
};

fn keys() -> AuthKeys {
    AuthKeys::new(Some("rw-secret".to_string()), Some("ro-secret".to_string()))
}

#[test]
fn path_mode_exact_and_prefix() {
    assert!(PathMode::Exact.check("/telemetry", "/telemetry"));
    assert!(!PathMode::Exact.check("/telemetry", "/telemetry/x"));
    assert!(PathMode::Prefix.check("/telemetry", "/telemetry/x"));
    assert!(PathMode::Prefix.check("/telemetry", "/telemetry"));
    assert!(!PathMode::Prefix.check("/telemetry", "/tele"));
    assert!(PathMode::Prefix.check("", "/anything"));
    assert!(PathMode::Exact.check("/é", "/é"));
    assert!(!PathMode::Exact.check("/é", "/e"));
}

#[test]
fn whitelist_items_match() {
    let exact = WhitelistItem::exact("/healthz");
    let prefix = WhitelistItem::prefix("/metrics");
    assert!(exact.matches("/healthz"));
    assert!(!exact.matches("/healthz/"));
    assert!(prefix.matches("/metrics/x"));
    assert!(!prefix.matches("/metric"));
    assert_eq!(exact.0, "/healthz");
    assert!(exact.1 == PathMode::Exact);
    assert!(prefix.1 == PathMode::Prefix);
}

#[test]
fn middleware_whitelist() {
    let auth = Auth::new(
        keys(),
        vec![WhitelistItem::exact("/healthz"), WhitelistItem::prefix("/dashboard")],
    );
    let mw = auth.new_transform(());
    assert!(mw.is_path_whitelisted("/healthz"));
    assert!(mw.is_path_whitelisted("/dashboard/index.html"));
    assert!(!mw.is_path_whitelisted("/collections"));
    assert!(!mw.is_path_whitelisted("/healthz/x"));
    assert_eq!(mw.whitelist.len(), 2);
    assert_eq!(mw.auth_keys.read_write_key(), Some("rw-secret"));
    assert_eq!(mw.auth_keys.read_only_key(), Some("ro-secret"));

    assert!(matches!(mw.method_without_validation("/healthz"), Some(AuthMethod::Anonymous)));
    assert!(mw.method_without_validation("/collections").is_none());

    let empty = Auth::new(keys(), vec![]).new_transform(());
    assert!(!empty.is_path_whitelisted("/healthz"));
}

#[test]
fn presented_key_prefers_api_key_header() {
    assert_eq!(presented_key(Some("k1"), Some("Bearer k2")), Some("k1"));
    assert_eq!(presented_key(None, Some("Bearer k2")), Some("k2"));
    assert_eq!(presented_key(None, Some("Basic k2")), None);
    assert_eq!(presented_key(None, Some("Bearer")), None);
    assert_eq!(presented_key(None, Some("Bearer ")), Some(""));
    assert_eq!(presented_key(None, None), None);
}

#[test]
fn auth_method_read_write_key() {
    let m = determine_auth_method(&keys(), Some("rw-secret"), Some(Some("sub".to_string())));
    assert!(matches!(m, AuthMethod::ApiKey));
}

#[test]
fn auth_method_read_only_key() {
    let m = determine_auth_method(&keys(), Some("ro-secret"), None);
    assert!(matches!(m, AuthMethod::ReadOnlyApiKey));
}

#[test]
fn auth_method_jwt_and_unknown() {
    let m = determine_auth_method(&keys(), Some("token"), Some(Some("alice".to_string())));
    assert!(matches!(m, AuthMethod::Jwt(Some(ref s)) if s == "alice"));
    let m = determine_auth_method(&keys(), Some("token"), Some(None));
    assert!(matches!(m, AuthMethod::Jwt(None)));
    let m = determine_auth_method(&keys(), Some("token"), None);
    assert!(matches!(m, AuthMethod::Anonymous));
    let m = determine_auth_method(&keys(), None, Some(Some("alice".to_string())));
    assert!(matches!(m, AuthMethod::Anonymous));
}

#[test]
fn auth_method_same_key_for_both_is_read_write() {
    let both = AuthKeys::new(Some("same".to_string()), Some("same".to_string()));
    let m = determine_auth_method(&both, Some("same"), None);
    assert!(matches!(m, AuthMethod::ApiKey));
    let none = AuthKeys::new(None, None);
    let m = determine_auth_method(&none, Some("same"), None);
    assert!(matches!(m, AuthMethod::Anonymous));
}

#[test]
fn to_audit_types_maps_each_method() {
    assert!(matches!(AuthMethod::ApiKey.to_audit_types(), (AuthType::ApiKey, None)));
    assert!(matches!(
        AuthMethod::ReadOnlyApiKey.to_audit_types(),
        (AuthType::ReadOnlyApiKey, None)
    ));
    let (t, s) = AuthMethod::Jwt(Some("bob".to_string())).to_audit_types();
    assert_eq!(t, AuthType::Jwt);
    assert_eq!(s, Some("bob".to_string()));
    assert!(matches!(AuthMethod::Anonymous.to_audit_types(), (AuthType::Anonymous, None)));
}

#[test]
fn stored_method_defaults_to_anonymous() {
    assert!(matches!(AuthMethod::from_stored(None), AuthMethod::Anonymous));
    assert!(matches!(AuthMethod::from_stored(Some(AuthMethod::ApiKey)), AuthMethod::ApiKey));
}

#[test]
fn refused_requests_status() {
    assert_eq!(AuthError::Unauthorized("no key".to_string()).status_code(), Some(401));
    assert_eq!(AuthError::Forbidden("read only".to_string()).status_code(), Some(403));
    assert_eq!(AuthError::StorageError("io".to_string()).status_code(), None);
}
