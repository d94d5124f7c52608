//! The watchdog of the hook callback.
//!
//! The platform removes a hook whose callback is slow. The program warns
//! when a callback took longer than it should; whether it did is decided
//! here, and the clock is read by the caller.

use vstd::prelude::*;

verus! {

/// Whether a piece of work that took `elapsed_ms` milliseconds overran a
/// limit of `timeout_ms` milliseconds. Work that took exactly as long as
/// the limit is in time.
pub fn timed_out(elapsed_ms: u64, timeout_ms: u64) -> (late: bool)
    ensures
        late == (elapsed_ms > timeout_ms),
{
    elapsed_ms > timeout_ms
}

} // verus!
