//! The count of handled requests, shared by all of them.

use std::sync::atomic::AtomicUsize;
use std::sync::atomic::Ordering;
use vstd::prelude::*;

verus! {

/// Counts the requests that a process has handled. The count starts at zero,
/// only grows, and is lost when the process ends.
///
/// Any number of threads may share one counter: each increment is a single
/// atomic addition, so none is lost. Relaxed ordering is enough, since nothing
/// but the total is read. Because other threads may add at any time, no
/// contract here speaks of the value that a call finds.
pub struct RequestCounter {
    count: AtomicUsize,
}

impl RequestCounter {
    /// A counter at zero.
    pub fn new() -> (counter: RequestCounter) {
        RequestCounter { count: AtomicUsize::new(0) }
    }

    /// Adds one to the count.
    pub fn increment(&self) {
        self.count.fetch_add(1, Ordering::Relaxed);
    }

    /// The count at the time of the call.
    pub fn read(&self) -> (total: usize) {
        self.count.load(Ordering::Relaxed)
    }
}

} // verus!
