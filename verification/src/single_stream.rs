//! The single-stream upload variant: no chunking, one streaming PUT.
//!
//! Progress is keyed by the one reader's byte count at a fine 100 ms
//! throttle, and the payload carries only the identifier and the two
//! counters.  The application owns the file handle, the network call
//! and the clock; it reports every read and the elapsed time here and
//! emits whatever comes back.

use crate::ids::new_session_id;
use crate::SINGLE_STREAM_EMIT_THRESHOLD_MS;
use vstd::prelude::*;

verus! {

/// Progress snapshot of a single-stream upload.
#[derive(Debug)]
pub struct SingleStreamPayload {
    pub upload_id: String,
    /// Bytes drained into the request body so far.
    pub uploaded: u64,
    /// Byte length of the whole source.
    pub total: u64,
}

/// Progress state of one single-stream upload session.
pub struct SingleStreamUpload {
    /// Identifier generated at session start, correlating its events.
    pub upload_id: String,
    /// Bytes drained into the request body so far.
    pub uploaded: u64,
    /// Byte length of the whole source.
    pub total: u64,
}

impl SingleStreamUpload {
    /// The byte count never exceeds the size of the source.
    pub open spec fn wf(self) -> bool {
        self.uploaded <= self.total
    }

    /// A fresh session for a source of `total` bytes, with a newly
    /// generated identifier and nothing uploaded yet.
    pub fn new(total: u64) -> (s: SingleStreamUpload)
        ensures
            s.wf(),
            s.uploaded == 0,
            s.total == total,
            s.upload_id@.len() == 36,
    {
        SingleStreamUpload { upload_id: new_session_id(), uploaded: 0, total }
    }

    /// Record `n` more bytes drained into the request body, and decide
    /// whether a progress event is due: the count grows by exactly `n`
    /// and never exceeds the total, and a snapshot is returned exactly
    /// when the throttle interval has elapsed or the transfer just
    /// finished — so a final 100% event is always emitted.
    pub fn record_read(&mut self, n: u64, elapsed_ms: u64) -> (ev: Option<SingleStreamPayload>)
        requires
            old(self).wf(),
            n <= old(self).total - old(self).uploaded,
        ensures
            final(self).wf(),
            final(self).uploaded == old(self).uploaded + n,
            final(self).total == old(self).total,
            final(self).upload_id == old(self).upload_id,
            old(self).uploaded <= final(self).uploaded,
            (ev is Some) == (final(self).uploaded == final(self).total || elapsed_ms
                > SINGLE_STREAM_EMIT_THRESHOLD_MS),
            ev matches Some(p) ==> p.upload_id == old(self).upload_id
                && p.uploaded == final(self).uploaded && p.total == old(self).total,
    {
        self.uploaded = self.uploaded + n;
        if self.uploaded == self.total || elapsed_ms > SINGLE_STREAM_EMIT_THRESHOLD_MS {
            Some(
                SingleStreamPayload {
                    upload_id: self.upload_id.clone(),
                    uploaded: self.uploaded,
                    total: self.total,
                },
            )
        } else {
            None
        }
    }
}

} // verus!
