//! The dispatch and correlation core of a transaction-simulation service:
//! request validation, the single sequential executor's per-job decisions,
//! token-metadata assembly, and the correlation of results back to callers.

pub mod error;
pub mod executor;
pub mod frontend;
pub mod parse;
pub mod types;

use vstd::prelude::*;

verus! {

/// How many jobs may sit in the queue before submission suspends: the
/// system's only backpressure.
pub const JOB_QUEUE_CAPACITY: usize = 32;

/// How long a caller waits for its job's result before reporting a timeout.
pub const TRACE_TIMEOUT_SECS: u64 = 300;

/// Picks the block height a batch runs against: the caller's explicit choice
/// when one was given, otherwise the chain's current height.
pub fn resolve_block_number(requested: Option<u64>, current: u64) -> (r: u64)
    ensures
        r == if requested is Some { requested->0 } else { current },
{
    match requested {
        Some(n) => n,
        None => current,
    }
}

/// Binds a block height to the timestamp looked up for it; a height whose
/// block could not be fetched is a fatal request error.
pub fn block_env_of(number: u64, timestamp: Option<u64>) -> (r: Result<types::BlockEnv, String>)
    ensures
        timestamp matches Some(ts) ==> (r matches Ok(b) && b.number == number && b.timestamp
            == ts),
        timestamp is None ==> (r matches Err(m) && m@ == "Block get failed"@),
{
    match timestamp {
        Some(ts) => Ok(types::BlockEnv { number, timestamp: ts }),
        None => Err("Block get failed".to_owned()),
    }
}

} // verus!
