//! Connection information about the requester, as the requester middleware
//! records it for every request.

use vstd::prelude::*;
use vstd::string::StringExecFns;

verus! {

/// Connection information about the requester
#[derive(Debug, Clone)]
pub struct RequesterContext {
    /// Remote IP address of the client (considers proxy headers)
    pub remote_addr: String,
    /// Local IP address of the server handling the request
    pub local_addr: String,
}

/// The address recorded when none is known.
pub open spec fn unknown_addr() -> Seq<char> {
    "unknown"@
}

impl RequesterContext {
    pub fn new(remote_addr: String, local_addr: String) -> (res: Self)
        ensures
            res.remote_addr == remote_addr,
            res.local_addr == local_addr,
    {
        Self { remote_addr, local_addr }
    }

    /// The context of a connection: the client's real address (from proxy
    /// headers when present), `"unknown"` when none could be found, and the
    /// IP address of the server's local socket that accepted it.
    pub fn from_connection(realip_remote_addr: Option<&str>, local_ip: &str) -> (res: Self)
        ensures
            res.remote_addr@ == match realip_remote_addr {
                Some(a) => a@,
                None => unknown_addr(),
            },
            res.local_addr@ == local_ip@,
    {
        let remote_addr = match realip_remote_addr {
            Some(a) => String::from_str(a),
            None => String::from_str("unknown"),
        };
        Self::new(remote_addr, String::from_str(local_ip))
    }

    /// The context recorded when the requester middleware did not run.
    pub fn unknown() -> (res: Self)
        ensures
            res.remote_addr@ == unknown_addr(),
            res.local_addr@ == unknown_addr(),
    {
        Self::new(String::from_str("unknown"), String::from_str("unknown"))
    }
}

/// Middleware that extracts connection information and stores it in request
/// extensions.
pub struct RequesterMiddleware;

/// The requester middleware wrapped around the next service.
pub struct RequesterMiddlewareService<S> {
    pub service: S,
}

impl RequesterMiddleware {
    /// The middleware wrapped around `service`.
    pub fn new_transform<S>(&self, service: S) -> (res: RequesterMiddlewareService<S>)
        ensures
            res.service == service,
    {
        RequesterMiddlewareService { service }
    }
}

/// Extractor for RequesterContext
pub struct ActixRequesterContext(pub RequesterContext);

impl ActixRequesterContext {
    /// The context a handler sees: the one the middleware stored, or the
    /// `"unknown"` fallback when the middleware is not configured.
    pub fn from_stored(stored: Option<RequesterContext>) -> (res: Self)
        ensures
            match stored {
                Some(c) => res.0 == c,
                None => res.0.remote_addr@ == unknown_addr() && res.0.local_addr@ == unknown_addr(),
            },
    {
        match stored {
            Some(c) => ActixRequesterContext(c),
            None => ActixRequesterContext(RequesterContext::unknown()),
        }
    }
}

} // verus!
