//! Flags through which the heap-limit callback and the timeout watchdog
//! report to the runtime, and the heap limit granted once the limit is near.
use std::sync::atomic::AtomicBool;
use std::sync::Arc;
use vstd::prelude::*;

verus! {

/// Shared flags between the timeout watchdog, the heap-limit callback and
/// the runtime. Other threads may raise them at any moment.
#[derive(Clone)]
pub struct LimitFlags {
    pub oom: Arc<AtomicBool>,
    pub timed_out: Arc<AtomicBool>,
}

impl LimitFlags {
    /// Fresh flags, neither of them raised, shared with nobody yet.
    ///
    /// The flags are atomics that other threads write, so no clause states
    /// what they hold.
    pub fn new() -> Self {
        LimitFlags { oom: Arc::new(AtomicBool::new(false)), timed_out: Arc::new(AtomicBool::new(false)) }
    }

    /// Whether the heap-limit callback has reported that the heap ran out.
    ///
    /// The value is read from an atomic that another thread writes; any
    /// value may come back.
    pub fn is_oom(&self) -> bool {
        self.oom.load(std::sync::atomic::Ordering::SeqCst)
    }

    /// Whether the watchdog has reported that the time limit passed.
    ///
    /// The value is read from an atomic that another thread writes; any
    /// value may come back.
    pub fn is_timed_out(&self) -> bool {
        self.timed_out.load(std::sync::atomic::Ordering::SeqCst)
    }
}

impl Default for LimitFlags {
    /// The same as `LimitFlags::new`: fresh flags, neither raised. As there,
    /// no clause can state what atomics that other threads write hold.
    fn default() -> Self {
        LimitFlags::new()
    }
}

/// The heap limit to grant once the engine reports that `current_heap_limit`
/// is nearly reached: twice the current limit, so that the terminated script
/// can unwind.
pub fn heap_limit_after_oom(current_heap_limit: usize) -> (res: usize)
    requires
        current_heap_limit * 2 <= usize::MAX,
    ensures
        res == current_heap_limit * 2,
{
    current_heap_limit * 2
}

} // verus!
