//! Lifecycle events emitted towards an external observer.
//!
//! The sink itself (a UI layer, a log) lives outside this crate and is
//! best-effort: delivery failures never abort an upload.  This module
//! only builds the event payloads, so each lifecycle moment carries
//! exactly the fields the outbound schema promises.

use vstd::prelude::*;

verus! {

/// The kind of lifecycle moment an event reports.
///
/// `Stop` and `Continue` are reserved for pause/resume semantics that no
/// code path currently drives.
#[derive(Clone, Copy, Debug, PartialEq, Eq, Structural)]
pub enum EventType {
    Start,
    End,
    Stop,
    Continue,
    Update,
    Failed,
}

/// One outbound event of a multipart upload session.
#[derive(Debug)]
pub struct Payload {
    pub event_type: EventType,
    /// Session identifier correlating every event of one upload.
    pub upload_id: String,
    /// Set on `Start` only: the local path of the source.
    pub file_path: Option<String>,
    /// Snapshot of the bytes transferred so far, not a delta.
    pub transferred_size: u64,
    /// Byte length of the whole source.
    pub total_size: u64,
    /// Set on `Failed` only: the cause.
    pub error: Option<String>,
}

/// The event emitted once, right after the remote upload session was
/// created: nothing transferred yet, and the source path attached.
pub fn start_payload(upload_id: String, file_path: String, total_size: u64) -> (p: Payload)
    ensures
        p.event_type == EventType::Start,
        p.upload_id == upload_id,
        p.file_path == Some(file_path),
        p.transferred_size == 0,
        p.total_size == total_size,
        p.error is None,
{
    Payload {
        event_type: EventType::Start,
        upload_id,
        file_path: Some(file_path),
        transferred_size: 0,
        total_size,
        error: None,
    }
}

/// A throttled progress snapshot.
pub fn update_payload(upload_id: String, transferred_size: u64, total_size: u64) -> (p: Payload)
    ensures
        p.event_type == EventType::Update,
        p.upload_id == upload_id,
        p.file_path is None,
        p.transferred_size == transferred_size,
        p.total_size == total_size,
        p.error is None,
{
    Payload {
        event_type: EventType::Update,
        upload_id,
        file_path: None,
        transferred_size,
        total_size,
        error: None,
    }
}

/// The event emitted once on success: every byte of the source was
/// transferred.
pub fn end_payload(upload_id: String, total_size: u64) -> (p: Payload)
    ensures
        p.event_type == EventType::End,
        p.upload_id == upload_id,
        p.file_path is None,
        p.transferred_size == total_size,
        p.total_size == total_size,
        p.error is None,
{
    Payload {
        event_type: EventType::End,
        upload_id,
        file_path: None,
        transferred_size: total_size,
        total_size,
        error: None,
    }
}

/// The terminal event of a failed session, carrying the cause.
pub fn failed_payload(
    upload_id: String,
    transferred_size: u64,
    total_size: u64,
    error: String,
) -> (p: Payload)
    ensures
        p.event_type == EventType::Failed,
        p.upload_id == upload_id,
        p.file_path is None,
        p.transferred_size == transferred_size,
        p.total_size == total_size,
        p.error == Some(error),
{
    Payload {
        event_type: EventType::Failed,
        upload_id,
        file_path: None,
        transferred_size,
        total_size,
        error: Some(error),
    }
}

} // verus!
