//! Bounded-concurrency accounting for part-upload tasks.
//!
//! The pool does not run tasks itself: the application spawns them and
//! reports every start and every completion here.  The contracts force
//! the application to test `has_capacity` before spawning, which is the
//! backpressure bounding memory use to
//! `MAX_CONCURRENT_UPLOADS * CHUNK_SIZE`.

use crate::MAX_CONCURRENT_UPLOADS;
use vstd::prelude::*;

verus! {

/// In-flight task counter with a fixed capacity.
pub struct UploadPool {
    /// Number of submitted tasks that have not yet yielded a result.
    pub in_flight: usize,
}

impl UploadPool {
    /// At most `MAX_CONCURRENT_UPLOADS` tasks are ever in flight at once.
    pub open spec fn wf(self) -> bool {
        self.in_flight <= MAX_CONCURRENT_UPLOADS
    }

    /// An idle pool.
    pub fn new() -> (p: UploadPool)
        ensures
            p.in_flight == 0,
            p.wf(),
    {
        UploadPool { in_flight: 0 }
    }

    /// Whether one more task may start without breaking the bound.
    pub fn has_capacity(&self) -> (r: bool)
        ensures
            r == (self.in_flight < MAX_CONCURRENT_UPLOADS),
    {
        self.in_flight < MAX_CONCURRENT_UPLOADS
    }

    /// Account for one task entering flight; only allowed below the
    /// bound, so the bound holds in every reachable state.
    pub fn task_started(&mut self)
        requires
            old(self).in_flight < MAX_CONCURRENT_UPLOADS,
        ensures
            final(self).in_flight == old(self).in_flight + 1,
            final(self).wf(),
    {
        self.in_flight = self.in_flight + 1;
    }

    /// Account for one task having yielded its result.
    pub fn task_finished(&mut self)
        requires
            old(self).in_flight > 0,
        ensures
            final(self).in_flight == old(self).in_flight - 1,
            old(self).wf() ==> final(self).wf(),
    {
        self.in_flight = self.in_flight - 1;
    }
}

} // verus!
