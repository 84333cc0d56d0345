//! Core of a chunked, concurrent object-storage upload coordinator.
//!
//! A local byte source is split into fixed-size chunks, each chunk is
//! uploaded as one numbered part of a remote multipart upload under a
//! bounded worker pool, per-byte progress is aggregated into a single
//! monotonic counter, and the remote object is finalized once every part
//! has succeeded.  The surrounding application performs the actual file
//! and network I/O and feeds the outcomes back into the state machines
//! defined here.

use vstd::prelude::*;

pub mod chunks;
pub mod coordinator;
pub mod credentials;
pub mod errors;
pub mod events;
mod ids;
pub mod parts;
pub mod pool;
pub mod progress;
pub mod single_stream;

verus! {

/// Fixed size of every chunk but the last, in bytes (10 MiB).
pub const CHUNK_SIZE: u64 = 10 * 1024 * 1024;

/// Upper bound on the number of part uploads in flight at once.
pub const MAX_CONCURRENT_UPLOADS: usize = 3;

/// Emission throttle for single-stream uploads, in milliseconds.
pub const SINGLE_STREAM_EMIT_THRESHOLD_MS: u64 = 100;

/// Emission throttle for multipart uploads, in milliseconds.
pub const MULTIPART_EMIT_THRESHOLD_MS: u64 = 1000;

} // verus!
