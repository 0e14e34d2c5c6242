//! One-shot cancellation latch.
//!
//! Every in-flight operation (an HTTP send or a gRPC connection) owns one
//! `CancelSignal`. The latch moves from "not cancelled" to "cancelled" at most
//! once and never back; signalling an already-cancelled latch changes nothing.
//! The wake-up plumbing that suspends waiters on the latch belongs to the
//! runtime around the library; the library holds the state and its rules.

use vstd::prelude::*;

verus! {

/// A single-writer, multi-reader boolean latch guarding one operation.
pub struct CancelSignal {
    cancelled: bool,
}

impl CancelSignal {
    /// A fresh latch: not cancelled.
    pub fn new() -> (s: CancelSignal)
        ensures
            !s.is_set(),
    {
        CancelSignal { cancelled: false }
    }

    /// Whether the latch has been signalled.
    pub closed spec fn is_set(&self) -> bool {
        self.cancelled
    }

    /// Flip the latch to cancelled. A no-op when already cancelled: the latch
    /// only ever moves from false to true.
    pub fn signal(&mut self)
        ensures
            final(self).is_set(),
    {
        self.cancelled = true;
    }

    /// Observe the latch.
    pub fn is_cancelled(&self) -> (r: bool)
        ensures
            r == self.is_set(),
    {
        self.cancelled
    }
}

} // verus!
