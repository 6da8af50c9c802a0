//! Parameters and decisions of the cluster REST operations.

use crate::text::{decimal, decimal_text};
use vstd::prelude::*;
use vstd::string::StringExecFns;

verus! {

/// Parameters of removing a peer from the cluster.
pub struct QueryParams {
    /// Remove the peer even when shards are on it
    pub force: bool,
    /// Seconds to wait for the consensus to apply the removal
    pub timeout: Option<u64>,
}

impl QueryParams {
    /// Whether the parameters are acceptable: a timeout, when given, is at
    /// least one second.
    pub fn is_valid(&self) -> (res: bool)
        ensures
            res == match self.timeout {
                Some(t) => t >= 1,
                None => true,
            },
    {
        match self.timeout {
            Some(t) => t >= 1,
            None => true,
        }
    }
}

/// Parameters of changing cluster metadata.
pub struct MetadataParams {
    /// Wait until the change is applied
    pub wait: bool,
}

/// Decides whether a peer may be removed once the caller's right to manage
/// the cluster was checked: not while shards are on it unless forced, and
/// only in distributed mode.  `Ok` means the removal is proposed to the
/// consensus.
pub fn remove_peer_check(peer_id: u64, force: bool, has_shards: bool, distributed: bool) -> (res:
    Result<(), String>)
    ensures
        !force && has_shards ==> (res matches Err(m) && m@ == "Cannot remove peer "@ + decimal_text(
            peer_id as nat,
        ) + " as there are shards on it"@),
        (force || !has_shards) && !distributed ==> (res matches Err(m) && m@
            == "Distributed mode disabled."@),
        (force || !has_shards) && distributed ==> res is Ok,
{
    if !force && has_shards {
        let mut m = String::from_str("Cannot remove peer ");
        let id = decimal(peer_id);
        m.append(id.as_str());
        m.append(" as there are shards on it");
        return Err(m);
    }
    if !distributed {
        return Err(String::from_str("Distributed mode disabled."));
    }
    Ok(())
}

/// Decides whether cluster metadata can be read: only in distributed mode,
/// where the consensus state holds it.
pub fn metadata_read_check(distributed: bool) -> (res: Result<(), String>)
    ensures
        distributed ==> res is Ok,
        !distributed ==> (res matches Err(m) && m@ == "Qdrant is running in standalone mode"@),
{
    if distributed {
        Ok(())
    } else {
        Err(String::from_str("Qdrant is running in standalone mode"))
    }
}

} // verus!
