//! Request-side logic of a vector search service: the hierarchical progress
//! tracker of long-running tasks, the authentication decisions of the REST
//! middleware, the requester context, and the audit events that every REST
//! operation records.

pub mod text;

pub mod progress_tracker;
pub mod progress_laws;

pub mod audit_event;
pub mod auth;
pub mod requester_context;
pub mod operation_audit;

pub mod cluster_api;
pub mod collections_api;
