# qdrant request-side logic, verified

The verified library (`src/`) holds:

- `progress_tracker`, `progress_laws`: the span tree of the hierarchical
  progress tracker (appending spans, finishing them, finding the active one)
  and the laws of those operations.
- `auth`: path whitelisting, the key a request presents, the authentication
  method it used, how a refused request is answered.
- `audit_event`, `operation_audit`: audit events, their builders, the events
  every REST operation records, the audit log's file name and directory checks.
- `requester_context`: the requester's addresses.
- `cluster_api`, `collections_api`: parameters and decisions of the REST
  operations.
- `text`: character-level string helpers (equality, prefixes, constant-time
  comparison, decimal numbers).

`app/` holds the actix middleware and extractors, the audit log file and
tracing output, serde forms of the library's types, and the thread-shared
handles of the progress tracker, which apply the verified tree operations
under a lock.
