//! Parameters of the collection REST operations.

use core::time::Duration;
use vstd::prelude::*;

verus! {

/// What `Duration::from_secs` gives for `secs` seconds.
pub uninterp spec fn duration_of_secs(secs: u64) -> Duration;

/// A duration of `secs` whole seconds, from `std::time::Duration::from_secs`;
/// a `Duration` shows no fields to specifications, so the result is stated
/// by name.
#[verifier::external_body]
fn duration_from_secs(secs: u64) -> (res: Duration)
    ensures
        res == duration_of_secs(secs),
{
    Duration::from_secs(secs)
}

/// The optional wait timeout of a collection operation, in seconds.
pub struct WaitTimeout {
    pub timeout: Option<u64>,
}

impl WaitTimeout {
    /// Whether the parameter is acceptable: a timeout, when given, is at
    /// least one second.
    pub fn is_valid(&self) -> (res: bool)
        ensures
            res == match self.timeout {
                Some(t) => t >= 1,
                None => true,
            },
    {
        match self.timeout {
            Some(t) => t >= 1,
            None => true,
        }
    }

    pub fn timeout(&self) -> (res: Option<Duration>)
        ensures
            res == match self.timeout {
                Some(t) => Some(duration_of_secs(t)),
                None => None,
            },
    {
        match self.timeout {
            Some(t) => Some(duration_from_secs(t)),
            None => None,
        }
    }
}

} // verus!
