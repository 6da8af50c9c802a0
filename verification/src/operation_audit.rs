//! The audit events of a REST operation: the `Accepted` event recorded when
//! the request arrives, and the closing events it may record afterwards: a
//! `Failure` when the request is refused before it runs, otherwise `Success`
//! or `Failure` by its outcome, with the time it took and the error message.
//! These functions build the events; the handler that runs the operation
//! decides which of them it records.

use crate::audit_event::{
    is_clock_reading, is_fresh_uuid, is_rfc3339_utc, is_v4_uuid_text, status_of, status_of_change,
    subject_text, AuditEvent, Status,
};
use crate::auth::AuthMethod;
use crate::requester_context::RequesterContext;
use vstd::prelude::*;
use vstd::string::StringExecFns;

verus! {

/// Who performs which operation on which collection.
pub struct OperationAudit {
    pub auth_method: AuthMethod,
    pub requester: RequesterContext,
    pub operation: String,
    pub collection: Option<String>,
}

/// `ev` is an event of the operation `op`: it names its authentication,
/// requester, operation and collection, and carries a fresh random
/// identifier and a reading of the UTC clock taken when it was made.
pub open spec fn describes(ev: AuditEvent, op: OperationAudit) -> bool {
    &&& ev.auth_type == op.auth_method.to_audit_types_spec().0
    &&& ev.subject@ == subject_text(op.auth_method.to_audit_types_spec().1)
    &&& ev.remote == op.requester.remote_addr
    &&& ev.local == op.requester.local_addr
    &&& ev.operation@ == op.operation@
    &&& ev.collection == op.collection
    &&& ev.point is None
    &&& is_v4_uuid_text(ev.uuid@)
    &&& is_rfc3339_utc(ev.timestamp@)
    &&& is_fresh_uuid(ev.uuid)
    &&& is_clock_reading(ev.timestamp)
}

fn copy_opt_string(s: &Option<String>) -> (res: Option<String>)
    ensures
        res == *s,
{
    match s {
        Some(v) => Some(v.clone()),
        None => None,
    }
}

impl OperationAudit {
    pub fn new(
        auth_method: AuthMethod,
        requester: RequesterContext,
        operation: &str,
        collection: Option<String>,
    ) -> (res: Self)
        ensures
            res.auth_method == auth_method,
            res.requester == requester,
            res.operation@ == operation@,
            res.collection == collection,
    {
        OperationAudit { auth_method, requester, operation: String::from_str(operation), collection }
    }

    fn event(&self, status: Status, timing: Option<i64>, result: Option<String>) -> (res:
        AuditEvent)
        ensures
            describes(res, *self),
            res.status == status,
            res.timing == match timing {
                Some(t) => t,
                None => -1i64,
            },
            res.result == result,
    {
        AuditEvent::for_request(
            &self.auth_method,
            &self.requester,
            self.operation.as_str(),
            status,
            copy_opt_string(&self.collection),
            None,
            timing,
            result,
        )
    }

    /// The event recorded when the request arrives.
    pub fn accepted(&self) -> (res: AuditEvent)
        ensures
            describes(res, *self),
            res.status == Status::Accepted,
            res.timing == -1,
            res.result is None,
    {
        self.event(Status::Accepted, None, None)
    }

    /// The event recorded when the request is refused before it runs (by
    /// the strict-mode checks), `elapsed_ms` after it arrived.
    pub fn refused(&self, error: String, elapsed_ms: i64) -> (res: AuditEvent)
        ensures
            describes(res, *self),
            res.status == Status::Failure,
            res.timing == elapsed_ms,
            res.result == Some(error),
    {
        self.event(Status::Failure, Some(elapsed_ms), Some(error))
    }

    /// The event recorded when the operation returned `result`, `elapsed_ms`
    /// after the request arrived: success for a result, failure with the
    /// error's message for an error.
    pub fn finished<T>(&self, result: &Result<T, String>, elapsed_ms: i64) -> (res: AuditEvent)
        ensures
            describes(res, *self),
            res.status == (if result is Ok {
                Status::Success
            } else {
                Status::Failure
            }),
            res.timing == elapsed_ms,
            res.result == match result {
                Ok(_) => None,
                Err(e) => Some(*e),
            },
    {
        let message = match result {
            Ok(_) => None,
            Err(e) => Some(e.clone()),
        };
        self.event(status_of(result), Some(elapsed_ms), message)
    }

    /// The event recorded when a submitted change returned `response`,
    /// `elapsed_ms` after the request arrived: success only when the change
    /// was applied, failure otherwise, with the error's message for an error.
    pub fn finished_change(&self, response: &Result<bool, String>, elapsed_ms: i64) -> (res:
        AuditEvent)
        ensures
            describes(res, *self),
            res.status == (if response matches Ok(true) {
                Status::Success
            } else {
                Status::Failure
            }),
            res.timing == elapsed_ms,
            res.result == match response {
                Ok(_) => None,
                Err(e) => Some(*e),
            },
    {
        let message = match response {
            Ok(_) => None,
            Err(e) => Some(e.clone()),
        };
        self.event(status_of_change(response), Some(elapsed_ms), message)
    }
}

/// The events of one operation agree on who did what where: any two events
/// of the same operation carry the same authentication type, subject,
/// addresses, operation and collection.
pub proof fn lemma_events_of_one_operation_agree(op: OperationAudit, first: AuditEvent, last: AuditEvent)
    requires
        describes(first, op),
        describes(last, op),
    ensures
        first.auth_type == last.auth_type,
        first.subject@ == last.subject@,
        first.remote == last.remote,
        first.local == last.local,
        first.operation@ == last.operation@,
        first.collection == last.collection,
{
}

} // verus!
