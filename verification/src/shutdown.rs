//! The shutdown flag: one shared boolean by which a run tells its unbounded
//! workers to stop.
//!
//! The flag has one writer and many readers. The writer's end is a
//! [`ShutdownSignal`], which the run keeps; it can raise the flag and can
//! never lower it. A reader's end is a [`ShutdownWatch`], handed to a worker
//! when it is spawned; it can only look.

use std::sync::atomic::AtomicBool;
use std::sync::atomic::Ordering;
use std::sync::Arc;
use vstd::prelude::*;

verus! {

/// The writer's end of the shutdown flag.
pub struct ShutdownSignal {
    flag: Arc<AtomicBool>,
    raised: bool,
}

/// A reader's end of the shutdown flag.
pub struct ShutdownWatch {
    flag: Arc<AtomicBool>,
}

impl ShutdownSignal {
    /// Whether this end has raised the flag.
    pub closed spec fn raised(&self) -> bool {
        self.raised
    }

    /// A flag that is not raised.
    pub fn new() -> (signal: Self)
        ensures
            !signal.raised(),
    {
        ShutdownSignal { flag: Arc::new(AtomicBool::new(false)), raised: false }
    }

    /// Raises the flag. Raising it again changes nothing. The readers' ends
    /// of the flag stay what they are.
    pub fn raise(&mut self)
        ensures
            final(self).raised(),
            forall|watch: ShutdownWatch| watch.watches(old(self)) <==> watch.watches(final(self)),
    {
        self.flag.store(true, Ordering::Relaxed);
        self.raised = true;
    }

    /// Whether the flag has been raised.
    pub fn is_raised(&self) -> (raised: bool)
        ensures
            raised == self.raised(),
    {
        self.raised
    }

    /// A reader's end of this flag, for a worker.
    pub fn watch(&self) -> (watch: ShutdownWatch)
        ensures
            watch.watches(self),
    {
        ShutdownWatch { flag: Arc::clone(&self.flag) }
    }
}

impl ShutdownWatch {
    /// Whether this end reads the flag that `signal` writes.
    pub closed spec fn watches(&self, signal: &ShutdownSignal) -> bool {
        self.flag == signal.flag
    }

    /// What the flag reads at this moment. The writer may raise the flag at
    /// any time, so nothing is promised of the answer; a worker hands it to
    /// [`crate::worker::UnboundedWorker::next`], which is verified for
    /// either answer.
    pub fn stop_requested(&self) -> (stop: bool) {
        self.flag.load(Ordering::Relaxed)
    }

    /// One more reader's end of the same flag.
    pub fn another(&self) -> (watch: ShutdownWatch)
        ensures
            forall|signal: &ShutdownSignal| self.watches(signal) ==> watch.watches(signal),
    {
        ShutdownWatch { flag: Arc::clone(&self.flag) }
    }
}

} // verus!
