use vstd::prelude::*;
use std::sync::Arc;
use std::sync::atomic::AtomicBool;
use std::sync::atomic::Ordering;

verus! {

/// The liveness signal shared between one connection's keep-alive task and
/// the lifecycle callbacks. The task writes it exactly once — false to true —
/// when it terminates for any reason; `acquire` and `release` read it before
/// trusting the connection. It is never reset: a connection whose flag has
/// been observed true is discarded, never revived.
///
/// The flag is written by a genuinely concurrent task, so no verified caller
/// may assume anything about the value a read observes; every caller must
/// handle both outcomes.
pub struct LivenessFlag {
    cell: Arc<AtomicBool>,
}

impl LivenessFlag {
    /// Relies on std's `Arc::new` and `AtomicBool::new`: a freshly allocated
    /// shared cell holding `false`.
    #[verifier::external_body]
    pub fn new() -> (r: LivenessFlag) {
        LivenessFlag { cell: Arc::new(AtomicBool::new(false)) }
    }

    /// Relies on std's `Arc::clone`: a second handle on the same cell, to be
    /// bound to the keep-alive task.
    #[verifier::external_body]
    pub fn handle(&self) -> (r: LivenessFlag) {
        LivenessFlag { cell: Arc::clone(&self.cell) }
    }

    /// Relies on std's `AtomicBool::store` with sequentially consistent
    /// ordering: records that the keep-alive task has terminated, visibly to
    /// every subsequent read of any handle on the cell.
    #[verifier::external_body]
    pub fn set(&self) {
        self.cell.store(true, Ordering::SeqCst);
    }

    /// Relies on std's `AtomicBool::load` with sequentially consistent
    /// ordering. The keep-alive task writes the cell concurrently, so nothing
    /// is promised of the value observed.
    #[verifier::external_body]
    pub fn is_set(&self) -> (r: bool) {
        self.cell.load(Ordering::SeqCst)
    }
}

} // verus!
