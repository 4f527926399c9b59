//! Graceful-shutdown flag: a shared boolean the signal handler raises and
//! the server loop polls. The values read are whatever the concurrent writer
//! last stored, so nothing is stated of them.

use vstd::prelude::*;
use std::sync::Arc;
use std::sync::atomic::AtomicBool;
use std::sync::atomic::Ordering;

verus! {

/// A shared shutdown flag, initially unraised.
pub struct ShutdownSignal {
    pub event: Arc<AtomicBool>,
}

impl ShutdownSignal {
    /// A fresh, unraised flag.
    pub fn new() -> Self {
        ShutdownSignal { event: Arc::new(AtomicBool::new(false)) }
    }

    /// Raise the flag; the next poll observes it.
    pub fn trigger(&self) {
        self.event.store(true, Ordering::SeqCst);
    }

    /// Whether the flag has been raised.
    pub fn is_triggered(&self) -> bool {
        self.event.load(Ordering::SeqCst)
    }
}

} // verus!
