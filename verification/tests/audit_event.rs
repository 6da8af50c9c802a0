use qdrant::audit_event::{
    audit_log_file_name, check_audit_log_dir, default_timing, status_of, status_of_change,
    AuditEvent, AuthType, Status,
};
use qdrant::auth::AuthMethod;
use qdrant::operation_audit::OperationAudit;
use qdrant::requester_context::RequesterContext;

fn is_rfc3339_utc_text(s: &str) -> bool {
    let b = s.as_bytes();
    let Some(rest) = s.strip_suffix("+00:00") else { return false };
    let Some(t) = rest.find('T') else { return false };
    let (date, time) = (&rest[..t], &rest[t + 1..]);
    let digits = |x: &str| !x.is_empty() && x.bytes().all(|c| c.is_ascii_digit());
    let parts: Vec<&str> = date.rsplitn(3, '-').collect();
    if parts.len() != 3 || parts[0].len() != 2 || parts[1].len() != 2 {
        return false;
    }
    let year = parts[2];
    let year_ok = (year.len() == 4 && digits(year))
        || ((year.len() == 6 || year.len() == 7) && year.starts_with('+') && digits(&year[1..]));
    let (hms, frac) = match time.find('.') {
        Some(d) => (&time[..d], &time[d + 1..]),
        None => (time, ""),
    };
    let frac_ok = frac.is_empty() || (matches!(frac.len(), 3 | 6 | 9) && digits(frac));
    let hms_parts: Vec<&str> = hms.split(':').collect();
    b.len() > 0
        && year_ok
        && digits(parts[0])
        && digits(parts[1])
        && frac_ok
        && hms_parts.len() == 3
        && hms_parts.iter().all(|p| p.len() == 2 && digits(p))
}

fn sample() -> AuditEvent {
    AuditEvent::from_parts(
        AuthType::ApiKey,
        "2024-01-01T00:00:00+00:00".to_string(),
        "00000000-0000-4000-8000-000000000000".to_string(),
        "10.0.0.1".to_string(),
        "10.0.0.2".to_string(),
        "delete_collection".to_string(),
        Status::Accepted,
    )
}

#[test]
fn default_timing_is_minus_one() {
    assert_eq!(default_timing(), -1);
}

#[test]
fn new_event_has_defaults_and_fresh_uuid() {
    let ev = AuditEvent::new(
        AuthType::Jwt,
        "1.2.3.4".to_string(),
        "5.6.7.8".to_string(),
        "get_collections".to_string(),
        Status::Accepted,
    );
    assert_eq!(ev.auth_type, AuthType::Jwt);
    assert_eq!(ev.remote, "1.2.3.4");
    assert_eq!(ev.local, "5.6.7.8");
    assert_eq!(ev.operation, "get_collections");
    assert_eq!(ev.status, Status::Accepted);
    assert_eq!(ev.subject, "");
    assert!(ev.collection.is_none() && ev.point.is_none() && ev.result.is_none());
    assert_eq!(ev.timing, -1);
    assert_eq!(ev.uuid.len(), 36);
    for (i, c) in ev.uuid.chars().enumerate() {
        if i == 8 || i == 13 || i == 18 || i == 23 {
            assert_eq!(c, '-');
        } else {
            assert!(c.is_ascii_digit() || ('a'..='f').contains(&c));
        }
    }
    assert_eq!(ev.uuid.as_bytes()[14], b'4');
    assert!(matches!(ev.uuid.as_bytes()[19], b'8' | b'9' | b'a' | b'b'));
    assert!(is_rfc3339_utc_text(&ev.timestamp), "{}", ev.timestamp);
    let other = AuditEvent::new(
        AuthType::Jwt,
        String::new(),
        String::new(),
        String::new(),
        Status::Accepted,
    );
    assert_ne!(ev.uuid, other.uuid);
}

#[test]
fn builders_set_one_field_each() {
    let ev = sample()
        .with_subject("alice".to_string())
        .with_collection("col".to_string())
        .with_point("42".to_string())
        .with_result("done".to_string())
        .with_status(Status::Success)
        .with_timing(17);
    assert_eq!(ev.subject, "alice");
    assert_eq!(ev.collection.as_deref(), Some("col"));
    assert_eq!(ev.point.as_deref(), Some("42"));
    assert_eq!(ev.result.as_deref(), Some("done"));
    assert_eq!(ev.status, Status::Success);
    assert_eq!(ev.timing, 17);
    assert_eq!(ev.operation, "delete_collection");
    assert_eq!(ev.uuid, "00000000-0000-4000-8000-000000000000");
    assert_eq!(ev.auth_type, AuthType::ApiKey);
}

#[test]
fn for_request_builds_the_event_of_an_operation() {
    let requester = RequesterContext::new("9.9.9.9".to_string(), "host:6333".to_string());
    let ev = AuditEvent::for_request(
        &AuthMethod::Jwt(Some("carol".to_string())),
        &requester,
        "update_collection",
        Status::Failure,
        Some("col".to_string()),
        None,
        Some(12),
        Some("not found".to_string()),
    );
    assert_eq!(ev.auth_type, AuthType::Jwt);
    assert_eq!(ev.subject, "carol");
    assert_eq!(ev.remote, "9.9.9.9");
    assert_eq!(ev.local, "host:6333");
    assert_eq!(ev.operation, "update_collection");
    assert_eq!(ev.status, Status::Failure);
    assert_eq!(ev.collection.as_deref(), Some("col"));
    assert!(ev.point.is_none());
    assert_eq!(ev.timing, 12);
    assert_eq!(ev.result.as_deref(), Some("not found"));

    let accepted = AuditEvent::for_request(
        &AuthMethod::Anonymous,
        &requester,
        "get_collections",
        Status::Accepted,
        None,
        None,
        None,
        None,
    );
    assert_eq!(accepted.auth_type, AuthType::Anonymous);
    assert_eq!(accepted.subject, "");
    assert_eq!(accepted.timing, -1);
    assert!(accepted.result.is_none());
}

#[test]
fn statuses_of_results() {
    let ok: Result<u32, String> = Ok(3);
    let err: Result<u32, String> = Err("boom".to_string());
    assert_eq!(status_of(&ok), Status::Success);
    assert_eq!(status_of(&err), Status::Failure);
    let applied: Result<bool, String> = Ok(true);
    let not_applied: Result<bool, String> = Ok(false);
    let failed: Result<bool, String> = Err("x".to_string());
    assert_eq!(status_of_change(&applied), Status::Success);
    assert_eq!(status_of_change(&not_applied), Status::Failure);
    assert_eq!(status_of_change(&failed), Status::Failure);
}

#[test]
fn audit_log_file_name_has_date() {
    assert_eq!(audit_log_file_name("2024-05-06"), "qdrant-audit_2024-05-06.log");
}

#[test]
fn audit_log_dir_checks_in_order() {
    assert_eq!(
        check_audit_log_dir("/nope", false, false, Some("denied")),
        Err("Audit log path does not exist: /nope".to_string())
    );
    assert_eq!(
        check_audit_log_dir("/file", true, false, None),
        Err("Audit log path is not a directory: /file".to_string())
    );
    assert_eq!(
        check_audit_log_dir("/ro", true, true, Some("Permission denied")),
        Err("Audit log path is not writable: /ro. Error: Permission denied".to_string())
    );
    assert_eq!(check_audit_log_dir("/ok", true, true, None), Ok(()));
}

#[test]
fn operation_audit_protocol() {
    let audit = OperationAudit::new(
        AuthMethod::ReadOnlyApiKey,
        RequesterContext::new("r".to_string(), "l".to_string()),
        "count_points",
        Some("col".to_string()),
    );
    let accepted = audit.accepted();
    assert_eq!(accepted.status, Status::Accepted);
    assert_eq!(accepted.auth_type, AuthType::ReadOnlyApiKey);
    assert_eq!(accepted.operation, "count_points");
    assert_eq!(accepted.collection.as_deref(), Some("col"));
    assert_eq!(accepted.timing, -1);
    assert!(accepted.result.is_none());
    assert!(is_rfc3339_utc_text(&accepted.timestamp), "{}", accepted.timestamp);

    let refused = audit.refused("strict mode".to_string(), 3);
    assert_eq!(refused.status, Status::Failure);
    assert_eq!(refused.timing, 3);
    assert_eq!(refused.result.as_deref(), Some("strict mode"));

    let ok: Result<u64, String> = Ok(5);
    let done = audit.finished(&ok, 9);
    assert_eq!(done.status, Status::Success);
    assert_eq!(done.timing, 9);
    assert!(done.result.is_none());
    assert_eq!(done.remote, "r");
    assert_eq!(done.local, "l");

    let err: Result<u64, String> = Err("no such collection".to_string());
    let failed = audit.finished(&err, 4);
    assert_eq!(failed.status, Status::Failure);
    assert_eq!(failed.result.as_deref(), Some("no such collection"));

    assert_eq!(audit.finished_change(&Ok(true), 1).status, Status::Success);
    let unapplied = audit.finished_change(&Ok(false), 1);
    assert_eq!(unapplied.status, Status::Failure);
    assert!(unapplied.result.is_none());
    let err_change = audit.finished_change(&Err("timeout".to_string()), 2);
    assert_eq!(err_change.status, Status::Failure);
    assert_eq!(err_change.result.as_deref(), Some("timeout"));
    assert_ne!(accepted.uuid, done.uuid);
}
