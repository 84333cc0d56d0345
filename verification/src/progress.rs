//! Shared progress accounting for one upload session.
//!
//! Every concurrently running part upload reports the bytes it has handed
//! to the transport layer; the counter only ever grows and never exceeds
//! the size of the source.  The surrounding application serializes calls
//! (an atomic or a mutex) and owns the wall clock: it measures the time
//! since the last emission and passes it in, so the emission decision is
//! verified for every possible clock reading.

use vstd::prelude::*;

verus! {

/// Accumulator of bytes transferred so far, out of a fixed total.
pub struct ProgressTracker {
    /// Bytes handed to the transport layer so far.
    pub transferred: u64,
    /// Byte length of the whole source, fixed at session start.
    pub total: u64,
}

impl ProgressTracker {
    /// The counter never exceeds the size of the source.
    pub open spec fn wf(self) -> bool {
        self.transferred <= self.total
    }

    /// A fresh tracker for a source of `total` bytes, with nothing reported yet.
    pub fn new(total: u64) -> (t: ProgressTracker)
        ensures
            t.transferred == 0,
            t.total == total,
            t.wf(),
    {
        ProgressTracker { transferred: 0, total }
    }

    /// Record that `n` more bytes were handed to the transport layer.
    ///
    /// The count grows by exactly `n`, never shrinks, and stays within
    /// `total`; the returned value is the new count, a snapshot callers
    /// may put into an `Update` event.
    pub fn record_transferred(&mut self, n: u64) -> (current: u64)
        requires
            old(self).wf(),
            n <= old(self).total - old(self).transferred,
        ensures
            final(self).transferred == old(self).transferred + n,
            final(self).total == old(self).total,
            final(self).wf(),
            old(self).transferred <= final(self).transferred,
            current == final(self).transferred,
    {
        self.transferred = self.transferred + n;
        self.transferred
    }

    /// Reports from concurrently running uploads interleave freely, and
    /// the order does not matter: two additions reach the same count
    /// either way round, every intermediate count is non-decreasing,
    /// and none exceeds the total.  This is why the tracker may sit
    /// behind a fetch-and-add or a mutex without further coordination.
    pub proof fn lemma_reports_commute(self, a: u64, b: u64)
        requires
            self.wf(),
            a + b <= self.total - self.transferred,
        ensures
            self.transferred <= self.transferred + a <= self.transferred + a + b <= self.total,
            self.transferred <= self.transferred + b <= self.transferred + b + a <= self.total,
            self.transferred + a + b == self.transferred + b + a,
    {
    }

    /// Decide whether an `Update` event is due: the throttle interval has
    /// elapsed, or the transfer just finished (so a final 100% event is
    /// always emitted).
    pub fn should_emit(&self, elapsed_ms: u64, threshold_ms: u64) -> (emit: bool)
        ensures
            emit == (elapsed_ms > threshold_ms || self.transferred == self.total),
    {
        elapsed_ms > threshold_ms || self.transferred == self.total
    }
}

} // verus!
