//! Thread pool whose bookkeeping is verified: the flag protocol of the
//! one-shot result channel, the resizing arithmetic of the pool, the job
//! queue, the spin lock and the panic payload text.

use vstd::prelude::*;

pub mod oneshot;
pub mod panic;
pub mod pool;
pub mod protocol;
pub mod spin;

verus! {

/// Describes possible reasons for join to fail.
#[derive(Debug, Clone, Copy, PartialEq, Eq, Structural)]
pub enum JoinError {
    /// Job wasn't finished and aborted.
    Disconnect,
    /// Timeout expired, job continues.
    Timeout,
    /// Job was already consumed.
    AlreadyConsumed,
}

} // verus!
