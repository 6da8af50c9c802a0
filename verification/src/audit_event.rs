//! Audit events: what every REST operation records about who asked for what,
//! from where, and how it ended.

use crate::auth::AuthMethod;
use crate::requester_context::RequesterContext;
use vstd::prelude::*;
use vstd::string::StringExecFns;

verus! {

/// Authentication type for the audit event.
#[derive(Debug, Clone, Copy, PartialEq, Eq, Structural)]
pub enum AuthType {
    ApiKey,
    ReadOnlyApiKey,
    Jwt,
    Anonymous,
}

/// Status of the audit event.
#[derive(Debug, Clone, Copy, PartialEq, Eq, Structural)]
pub enum Status {
    Accepted,
    Success,
    Failure,
}

/// Audit event structure for tracking operations.
#[derive(Debug, Clone)]
pub struct AuditEvent {
    /// Authentication type used for this operation
    pub auth_type: AuthType,
    /// UTC timestamp of when the event occurred
    pub timestamp: String,
    /// Unique identifier for this event
    pub uuid: String,
    /// IP address of the client making the request
    pub remote: String,
    /// IP address of the local server
    pub local: String,
    /// The action being performed (e.g., "delete_collection", "upsert_point")
    pub operation: String,
    /// Status of the operation
    pub status: Status,
    /// Subject claim from JWT token (empty string if not using JWT)
    pub subject: String,
    /// Name of the collection being operated on (optional)
    pub collection: Option<String>,
    /// Point ID being operated on (optional)
    pub point: Option<String>,
    /// Result or error message for the operation (optional)
    pub result: Option<String>,
    /// Operation timing in milliseconds (-1 if not set)
    pub timing: i64,
}

/// The timing an event has when none was set.
pub fn default_timing() -> (res: i64)
    ensures
        res == -1,
{
    -1
}

/// Whether `s` is a lower-case hyphenated UUID: 36 characters, hyphens at
/// indices 8, 13, 18 and 23, lower-case hexadecimal digits elsewhere.
pub open spec fn is_hyphenated_lower_uuid(s: Seq<char>) -> bool {
    &&& s.len() == 36
    &&& forall|i: int|
        0 <= i < 36 ==> if i == 8 || i == 13 || i == 18 || i == 23 {
            s[i] == '-'
        } else {
            ('0' <= #[trigger] s[i] <= '9') || ('a' <= s[i] <= 'f')
        }
}

/// Whether `s` is a random (version 4, RFC 4122 variant) UUID in lower-case
/// hyphenated form: the version digit `4` at index 14 and one of `8`, `9`,
/// `a`, `b` at index 19.
pub open spec fn is_v4_uuid_text(s: Seq<char>) -> bool {
    &&& is_hyphenated_lower_uuid(s)
    &&& s[14] == '4'
    &&& (s[19] == '8' || s[19] == '9' || s[19] == 'a' || s[19] == 'b')
}

/// Whether `c` is a decimal digit.
pub open spec fn is_digit(c: char) -> bool {
    '0' <= c <= '9'
}

/// Whether every character of `s` is a decimal digit.
pub open spec fn all_digits(s: Seq<char>) -> bool {
    forall|i: int| 0 <= i < s.len() ==> is_digit(#[trigger] s[i])
}

/// Whether `y` is a year as RFC 3339 text writes it: four digits, or, for a
/// year past 9999, `+` followed by five or six digits.
pub open spec fn is_rfc3339_year(y: Seq<char>) -> bool {
    ||| y.len() == 4 && all_digits(y)
    ||| (y.len() == 6 || y.len() == 7) && y[0] == '+' && all_digits(y.drop_first())
}

/// Whether `f` is a fraction of a second as it may follow the seconds:
/// nothing, or `.` followed by 3, 6 or 9 digits.
pub open spec fn is_rfc3339_fraction(f: Seq<char>) -> bool {
    ||| f.len() == 0
    ||| (f.len() == 4 || f.len() == 7 || f.len() == 10) && f[0] == '.' && all_digits(
        f.drop_first(),
    )
}

/// `s` is a UTC time in RFC 3339 form whose year takes `yl` characters and
/// whose fraction of a second takes `fl`:
/// `YYYY-MM-DDTHH:MM:SS`, the fraction, then `+00:00`.
pub open spec fn is_rfc3339_utc_with(s: Seq<char>, yl: int, fl: int) -> bool {
    &&& yl == 4 || yl == 6 || yl == 7
    &&& s.len() == yl + 15 + fl + 6
    &&& is_rfc3339_year(s.subrange(0, yl))
    &&& s[yl] == '-'
    &&& is_digit(s[yl + 1]) && is_digit(s[yl + 2])
    &&& s[yl + 3] == '-'
    &&& is_digit(s[yl + 4]) && is_digit(s[yl + 5])
    &&& s[yl + 6] == 'T'
    &&& is_digit(s[yl + 7]) && is_digit(s[yl + 8])
    &&& s[yl + 9] == ':'
    &&& is_digit(s[yl + 10]) && is_digit(s[yl + 11])
    &&& s[yl + 12] == ':'
    &&& is_digit(s[yl + 13]) && is_digit(s[yl + 14])
    &&& is_rfc3339_fraction(s.subrange(yl + 15, yl + 15 + fl))
    &&& s.subrange(yl + 15 + fl, s.len() as int) == seq!['+', '0', '0', ':', '0', '0']
}

/// Whether `s` is a UTC time in the RFC 3339 form that chrono's
/// `to_rfc3339` writes for a `Utc` time: date, `T`, time to the second, an
/// optional fraction of 3, 6 or 9 digits, and the offset `+00:00`.
pub open spec fn is_rfc3339_utc(s: Seq<char>) -> bool {
    exists|yl: int, fl: int| is_rfc3339_utc_with(s, yl, fl)
}

/// The current UTC time in RFC 3339 form, from `chrono::Utc::now` and
/// `DateTime::to_rfc3339`.  The time itself is the clock's; only the form
/// that `to_rfc3339` writes for a `Utc` time is stated (a year past 9999 is
/// written with a `+` sign).
#[verifier::external_body]
fn now_rfc3339() -> (res: String)
    ensures
        is_rfc3339_utc(res@),
{
    chrono::Utc::now().to_rfc3339()
}

/// A fresh random identifier, from `uuid::Uuid::new_v4` written out with
/// its `Display` impl, which the uuid crate writes in lower-case hyphenated
/// form; `new_v4` fixes the version digit and the variant bits.  Its value
/// rests on chance; only its form is stated.
#[verifier::external_body]
fn new_uuid_v4() -> (res: String)
    ensures
        is_v4_uuid_text(res@),
{
    uuid::Uuid::new_v4().to_string()
}

/// Whether `timestamp` is a reading of the UTC clock: a value that
/// `now_rfc3339` returned.  Which time the clock reads when is not known
/// here; this names where the text came from.
pub closed spec fn is_clock_reading(timestamp: String) -> bool {
    call_ensures(now_rfc3339, (), timestamp)
}

/// Whether `uuid` is an identifier that `new_uuid_v4` returned.
pub closed spec fn is_fresh_uuid(uuid: String) -> bool {
    call_ensures(new_uuid_v4, (), uuid)
}

/// Every reading of the clock is a UTC time in RFC 3339 form.
pub proof fn lemma_clock_reading_is_rfc3339(timestamp: String)
    requires
        is_clock_reading(timestamp),
    ensures
        is_rfc3339_utc(timestamp@),
{
}

/// Every fresh identifier is a version 4 UUID in lower-case hyphenated form.
pub proof fn lemma_fresh_uuid_is_v4(uuid: String)
    requires
        is_fresh_uuid(uuid),
    ensures
        is_v4_uuid_text(uuid@),
{
}

impl AuditEvent {
    /// An event with the given required fields, timestamp and identifier,
    /// an empty subject, no collection, point or result, and no timing.
    pub fn from_parts(
        auth_type: AuthType,
        timestamp: String,
        uuid: String,
        remote: String,
        local: String,
        operation: String,
        status: Status,
    ) -> (res: Self)
        ensures
            res.auth_type == auth_type,
            res.timestamp == timestamp,
            res.uuid == uuid,
            res.remote == remote,
            res.local == local,
            res.operation == operation,
            res.status == status,
            res.subject@ == Seq::<char>::empty(),
            res.collection is None,
            res.point is None,
            res.result is None,
            res.timing == -1,
    {
        AuditEvent {
            auth_type,
            timestamp,
            uuid,
            remote,
            local,
            operation,
            status,
            subject: String::new(),
            collection: None,
            point: None,
            result: None,
            timing: default_timing(),
        }
    }

    /// Create a new audit event with required fields, stamped with the
    /// current time and a fresh random identifier.
    pub fn new(
        auth_type: AuthType,
        remote: String,
        local: String,
        operation: String,
        status: Status,
    ) -> (res: Self)
        ensures
            res.auth_type == auth_type,
            is_v4_uuid_text(res.uuid@),
            is_rfc3339_utc(res.timestamp@),
            is_fresh_uuid(res.uuid),
            is_clock_reading(res.timestamp),
            res.remote == remote,
            res.local == local,
            res.operation == operation,
            res.status == status,
            res.subject@ == Seq::<char>::empty(),
            res.collection is None,
            res.point is None,
            res.result is None,
            res.timing == -1,
    {
        let timestamp = now_rfc3339();
        let uuid = new_uuid_v4();
        Self::from_parts(auth_type, timestamp, uuid, remote, local, operation, status)
    }

    /// Set the subject (from JWT)
    pub fn with_subject(self, subject: String) -> (res: Self)
        ensures
            res == (AuditEvent { subject, ..self }),
    {
        let mut ev = self;
        ev.subject = subject;
        ev
    }

    /// Set the collection name
    pub fn with_collection(self, collection: String) -> (res: Self)
        ensures
            res == (AuditEvent { collection: Some(collection), ..self }),
    {
        let mut ev = self;
        ev.collection = Some(collection);
        ev
    }

    /// Set the point ID
    pub fn with_point(self, point: String) -> (res: Self)
        ensures
            res == (AuditEvent { point: Some(point), ..self }),
    {
        let mut ev = self;
        ev.point = Some(point);
        ev
    }

    /// Set the result message
    pub fn with_result(self, result: String) -> (res: Self)
        ensures
            res == (AuditEvent { result: Some(result), ..self }),
    {
        let mut ev = self;
        ev.result = Some(result);
        ev
    }

    /// Set the status
    pub fn with_status(self, status: Status) -> (res: Self)
        ensures
            res == (AuditEvent { status, ..self }),
    {
        let mut ev = self;
        ev.status = status;
        ev
    }

    /// Set the operation timing in milliseconds
    pub fn with_timing(self, timing: i64) -> (res: Self)
        ensures
            res == (AuditEvent { timing, ..self }),
    {
        let mut ev = self;
        ev.timing = timing;
        ev
    }
}

/// The subject an event records for an optional JWT subject claim: the
/// claim, or the empty string.
pub open spec fn subject_text(subject: Option<String>) -> Seq<char> {
    match subject {
        Some(s) => s@,
        None => Seq::empty(),
    }
}

impl AuditEvent {
    /// The event a REST operation records: authentication type and subject
    /// from how the request authenticated, addresses from its requester
    /// context, the operation and status given, and the optional collection,
    /// point, timing and result message when they are known.
    pub fn for_request(
        auth_method: &AuthMethod,
        requester: &RequesterContext,
        operation: &str,
        status: Status,
        collection: Option<String>,
        point: Option<String>,
        timing: Option<i64>,
        result: Option<String>,
    ) -> (res: Self)
        ensures
            res.auth_type == auth_method.to_audit_types_spec().0,
            res.subject@ == subject_text(auth_method.to_audit_types_spec().1),
            is_v4_uuid_text(res.uuid@),
            is_rfc3339_utc(res.timestamp@),
            is_fresh_uuid(res.uuid),
            is_clock_reading(res.timestamp),
            res.remote == requester.remote_addr,
            res.local == requester.local_addr,
            res.operation@ == operation@,
            res.status == status,
            res.collection == collection,
            res.point == point,
            res.result == result,
            res.timing == match timing {
                Some(t) => t,
                None => -1i64,
            },
    {
        let (auth_type, subject) = auth_method.to_audit_types();
        let mut ev = AuditEvent::new(
            auth_type,
            requester.remote_addr.clone(),
            requester.local_addr.clone(),
            String::from_str(operation),
            status,
        );
        if let Some(s) = subject {
            ev = ev.with_subject(s);
        }
        if let Some(c) = collection {
            ev = ev.with_collection(c);
        }
        if let Some(p) = point {
            ev = ev.with_point(p);
        }
        if let Some(t) = timing {
            ev = ev.with_timing(t);
        }
        if let Some(r) = result {
            ev = ev.with_result(r);
        }
        ev
    }
}

/// The status an operation ends with: success when it returned a result,
/// failure when it returned an error.
pub fn status_of<T, E>(result: &Result<T, E>) -> (res: Status)
    ensures
        res == if result is Ok {
            Status::Success
        } else {
            Status::Failure
        },
{
    if result.is_ok() {
        Status::Success
    } else {
        Status::Failure
    }
}

/// The status a submitted change ends with: success only when it was
/// applied (`Ok(true)`); an unapplied change or an error is a failure.
pub fn status_of_change<E>(response: &Result<bool, E>) -> (res: Status)
    ensures
        res == if response matches Ok(true) {
            Status::Success
        } else {
            Status::Failure
        },
{
    match response {
        Ok(true) => Status::Success,
        _ => Status::Failure,
    }
}

/// The name of the file an audit event of the day `date` (YYYY-MM-DD) is
/// appended to.
pub fn audit_log_file_name(date: &str) -> (res: String)
    ensures
        res@ == "qdrant-audit_"@ + date@ + ".log"@,
{
    let mut name = String::from_str("qdrant-audit_");
    name.append(date);
    name.append(".log");
    name
}

/// Why a configured audit log directory is refused: `path` is what was
/// configured, `exists` and `is_dir` what the file system says of it, and
/// `write_error` the error of creating a test file in it, when that failed.
/// A directory that does not exist, is not a directory, or cannot be
/// written to is refused, in that order of checks.
pub fn check_audit_log_dir(path: &str, exists: bool, is_dir: bool, write_error: Option<&str>) -> (res:
    Result<(), String>)
    ensures
        !exists ==> (res matches Err(m) && m@ == "Audit log path does not exist: "@ + path@),
        exists && !is_dir ==> (res matches Err(m) && m@ == "Audit log path is not a directory: "@
            + path@),
        exists && is_dir && write_error is Some ==> (res matches Err(m) && m@
            == "Audit log path is not writable: "@ + path@ + ". Error: "@ + write_error.unwrap()@),
        exists && is_dir && write_error is None ==> res is Ok,
{
    if !exists {
        let mut m = String::from_str("Audit log path does not exist: ");
        m.append(path);
        return Err(m);
    }
    if !is_dir {
        let mut m = String::from_str("Audit log path is not a directory: ");
        m.append(path);
        return Err(m);
    }
    match write_error {
        Some(e) => {
            let mut m = String::from_str("Audit log path is not writable: ");
            m.append(path);
            m.append(". Error: ");
            m.append(e);
            Err(m)
        },
        None => Ok(()),
    }
}

} // verus!
