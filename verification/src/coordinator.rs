//! The end-to-end upload state machine.
//!
//! One coordinator owns one session: create the remote multipart upload,
//! number and hand out chunks under the pool bound, collect part results
//! that arrive in arbitrary order, and finalize — or fail — exactly once.
//! The surrounding application performs the file reads and network calls
//! and reports every outcome back; the decisions, the numbering, the
//! bound and the ordering all live here, verified for every outcome the
//! application can report.

use crate::errors::UploadError;
use crate::events::{end_payload, failed_payload, start_payload, EventType, Payload};
use crate::ids::new_session_id;
use crate::parts::{
    distinct_part_numbers, lemma_consecutive_part_numbers, sort_parts, CompletedPart,
};
use crate::pool::UploadPool;
use crate::MAX_CONCURRENT_UPLOADS;
use vstd::prelude::*;

verus! {

/// Where one session stands in its lifecycle.
#[derive(Clone, Copy, Debug, PartialEq, Eq, Structural)]
pub enum SessionState {
    /// Accepted, remote upload not created yet.
    Created,
    /// Remote upload created; chunks are being submitted and collected.
    PartsInFlight,
    /// Every part succeeded; the final assembly call is being made.
    Completing,
    /// The remote object is assembled: terminal success.
    Completed,
    /// Terminal failure; no further submissions, never completed.
    Failed,
}

/// Coordinator of one multipart upload session.
pub struct UploadCoordinator {
    /// Opaque identifier correlating every event of this session.
    pub session_id: String,
    /// Identifier the remote store returned for the multipart upload;
    /// absent until creation succeeds.
    pub remote_upload_id: Option<String>,
    /// Destination coordinates.
    pub bucket: String,
    /// Destination key; the source's file name is appended exactly once
    /// before the remote upload is created.
    pub key: String,
    /// Local path of the source, attached to the `Start` event.
    pub file_path: String,
    /// Whether the file name was already appended to `key`.
    pub key_finalized: bool,
    /// Byte length of the source, known up front.
    pub total_size: u64,
    pub state: SessionState,
    /// Number the next submitted chunk will bear; 1-based.
    pub next_part_number: usize,
    /// Bounded accounting of part uploads in flight.
    pub pool: UploadPool,
    /// Parts that succeeded so far, in completion order.
    pub completed: Vec<CompletedPart>,
    /// Whether the chunk source reported end of input.
    pub source_exhausted: bool,
    /// The failure that made the session terminal, if any.
    pub error: Option<UploadError>,
}

impl UploadCoordinator {
    /// Some part with this number has already been collected.
    pub open spec fn has_completed_part(self, part_number: usize) -> bool {
        exists|i: int|
            0 <= i < self.completed@.len() && (#[trigger] self.completed@[i]).part_number
                == part_number
    }

    /// The completion call may begin: every submitted chunk's part has
    /// succeeded and the source is exhausted.
    pub open spec fn can_begin_completion(self) -> bool {
        &&& self.state == SessionState::PartsInFlight
        &&& self.source_exhausted
        &&& self.pool.in_flight == 0
    }

    /// Session invariant, established by `new` and preserved by every
    /// transition.
    pub open spec fn wf(self) -> bool {
        &&& self.pool.wf()
        &&& 1 <= self.next_part_number
        &&& (self.state == SessionState::Created || self.state == SessionState::PartsInFlight
            ==> {
            &&& self.completed@.len() + self.pool.in_flight == self.next_part_number - 1
            &&& distinct_part_numbers(self.completed@)
            &&& forall|i: int|
                0 <= i < self.completed@.len() ==> 1 <= (
                #[trigger] self.completed@[i]).part_number < self.next_part_number
        })
        &&& (self.state == SessionState::Created ==> self.next_part_number == 1
            && !self.source_exhausted && self.remote_upload_id is None)
        &&& (self.state == SessionState::PartsInFlight || self.state == SessionState::Completing
            || self.state == SessionState::Completed ==> self.remote_upload_id is Some
            && self.key_finalized)
        &&& (self.state == SessionState::Completing || self.state == SessionState::Completed
            ==> self.pool.in_flight == 0 && self.source_exhausted && self.completed@.len() == 0)
        &&& (self.state == SessionState::Failed <==> self.error is Some)
    }

    /// Accept an upload request: a fresh session in `Created` state with
    /// a newly generated identifier and nothing submitted.
    pub fn new(file_path: String, bucket: String, key: String, total_size: u64) -> (c:
        UploadCoordinator)
        ensures
            c.wf(),
            c.state == SessionState::Created,
            c.session_id@.len() == 36,
            c.remote_upload_id is None,
            c.bucket == bucket,
            c.key == key,
            c.file_path == file_path,
            !c.key_finalized,
            c.total_size == total_size,
            c.next_part_number == 1,
            c.pool.in_flight == 0,
            c.completed@.len() == 0,
            !c.source_exhausted,
            c.error is None,
    {
        UploadCoordinator {
            session_id: new_session_id(),
            remote_upload_id: None,
            bucket,
            key,
            file_path,
            key_finalized: false,
            total_size,
            state: SessionState::Created,
            next_part_number: 1,
            pool: UploadPool::new(),
            completed: Vec::new(),
            source_exhausted: false,
            error: None,
        }
    }

    /// Append the source's file name to the key prefix — exactly once,
    /// before the remote upload is created.
    ///
    /// An empty file name is a configuration error: the session fails
    /// terminally and the `Failed` event to emit is returned; otherwise
    /// the key grows by the file name and nothing else changes.
    pub fn finalize_key(&mut self, file_name: &str) -> (r: Result<(), Payload>)
        requires
            old(self).wf(),
            old(self).state == SessionState::Created,
            !old(self).key_finalized,
        ensures
            final(self).wf(),
            final(self).session_id == old(self).session_id,
            final(self).bucket == old(self).bucket,
            final(self).file_path == old(self).file_path,
            final(self).total_size == old(self).total_size,
            final(self).next_part_number == old(self).next_part_number,
            final(self).pool == old(self).pool,
            final(self).completed == old(self).completed,
            final(self).source_exhausted == old(self).source_exhausted,
            final(self).remote_upload_id is None,
            file_name@.len() > 0 ==> {
                &&& r is Ok
                &&& final(self).state == SessionState::Created
                &&& final(self).key@ == old(self).key@ + file_name@
                &&& final(self).key_finalized
                &&& final(self).error is None
            },
            file_name@.len() == 0 ==> {
                &&& r is Err
                &&& final(self).state == SessionState::Failed
                &&& final(self).key == old(self).key
                &&& !final(self).key_finalized
                &&& final(self).error matches Some(UploadError::Config(_))
                &&& (r matches Err(ev) ==> ev.event_type == EventType::Failed
                    && ev.upload_id == old(self).session_id && ev.error is Some)
            },
    {
        if file_name.unicode_len() == 0 {
            let msg = String::from_str("invalid file name");
            self.state = SessionState::Failed;
            self.error = Some(UploadError::Config(msg.clone()));
            Err(failed_payload(self.session_id.clone(), 0, self.total_size, msg))
        } else {
            self.key.append(file_name);
            self.key_finalized = true;
            Ok(())
        }
    }

    /// The remote store accepted the create call: record the upload
    /// identifier it returned, enter `PartsInFlight`, and return the
    /// `Start` event — emitted once, with nothing transferred yet and
    /// the source path attached.
    pub fn on_create_succeeded(&mut self, remote_upload_id: String) -> (ev: Payload)
        requires
            old(self).wf(),
            old(self).state == SessionState::Created,
            old(self).key_finalized,
        ensures
            final(self).wf(),
            final(self).state == SessionState::PartsInFlight,
            final(self).remote_upload_id == Some(remote_upload_id),
            final(self).session_id == old(self).session_id,
            final(self).bucket == old(self).bucket,
            final(self).key == old(self).key,
            final(self).file_path == old(self).file_path,
            final(self).key_finalized,
            final(self).total_size == old(self).total_size,
            final(self).next_part_number == 1,
            final(self).pool.in_flight == 0,
            final(self).completed@.len() == 0,
            !final(self).source_exhausted,
            final(self).error is None,
            ev.event_type == EventType::Start,
            ev.upload_id == old(self).session_id,
            ev.file_path == Some(old(self).file_path),
            ev.transferred_size == 0,
            ev.total_size == old(self).total_size,
            ev.error is None,
    {
        self.remote_upload_id = Some(remote_upload_id);
        self.state = SessionState::PartsInFlight;
        start_payload(self.session_id.clone(), self.file_path.clone(), self.total_size)
    }

    /// The remote create call failed: terminal, with no parts ever
    /// attempted; returns the `Failed` event to emit.
    pub fn on_create_failed(&mut self, cause: String) -> (ev: Payload)
        requires
            old(self).wf(),
            old(self).state == SessionState::Created,
        ensures
            final(self).wf(),
            final(self).state == SessionState::Failed,
            final(self).error == Some(UploadError::SessionCreate(cause)),
            final(self).session_id == old(self).session_id,
            final(self).total_size == old(self).total_size,
            final(self).next_part_number == old(self).next_part_number,
            final(self).pool == old(self).pool,
            ev.event_type == EventType::Failed,
            ev.upload_id == old(self).session_id,
            ev.transferred_size == 0,
            ev.total_size == old(self).total_size,
            ev.error == Some(cause),
    {
        let msg = cause.clone();
        self.state = SessionState::Failed;
        self.error = Some(UploadError::SessionCreate(cause));
        failed_payload(self.session_id.clone(), 0, self.total_size, msg)
    }

    /// Whether one more chunk may be submitted right now: the session is
    /// collecting parts, the source still has input, a pool slot is
    /// free, and the numbering cannot overflow.
    pub fn can_submit_part(&self) -> (r: bool)
        ensures
            r == (self.state == SessionState::PartsInFlight && !self.source_exhausted
                && self.pool.in_flight < MAX_CONCURRENT_UPLOADS && self.next_part_number
                < usize::MAX),
    {
        self.state == SessionState::PartsInFlight && !self.source_exhausted
            && self.pool.has_capacity() && self.next_part_number < usize::MAX
    }

    /// Hand out the number for the next chunk and account for its upload
    /// task entering flight.  Numbers are assigned 1, 2, 3, … in the
    /// order chunks are read, before the task runs, so completion order
    /// cannot disturb them; the pool bound is never exceeded.
    pub fn submit_part(&mut self) -> (part_number: usize)
        requires
            old(self).wf(),
            old(self).state == SessionState::PartsInFlight,
            !old(self).source_exhausted,
            old(self).pool.in_flight < MAX_CONCURRENT_UPLOADS,
            old(self).next_part_number < usize::MAX,
        ensures
            final(self).wf(),
            part_number == old(self).next_part_number,
            1 <= part_number,
            final(self).next_part_number == old(self).next_part_number + 1,
            final(self).pool.in_flight == old(self).pool.in_flight + 1,
            final(self).pool.in_flight <= MAX_CONCURRENT_UPLOADS,
            final(self).state == SessionState::PartsInFlight,
            final(self).completed == old(self).completed,
            final(self).session_id == old(self).session_id,
            final(self).bucket == old(self).bucket,
            final(self).key == old(self).key,
            final(self).remote_upload_id == old(self).remote_upload_id,
            final(self).total_size == old(self).total_size,
            !final(self).source_exhausted,
            final(self).error is None,
            !final(self).has_completed_part(part_number),
    {
        let part_number = self.next_part_number;
        self.next_part_number = self.next_part_number + 1;
        self.pool.task_started();
        part_number
    }

    /// One part's upload succeeded: its task leaves flight and, unless
    /// the session already failed, its result joins the collected set —
    /// at most once per part number.
    pub fn on_part_succeeded(&mut self, part_number: usize, e_tag: String)
        requires
            old(self).wf(),
            old(self).state == SessionState::PartsInFlight || old(self).state
                == SessionState::Failed,
            old(self).pool.in_flight > 0,
            old(self).state == SessionState::PartsInFlight ==> 1 <= part_number < old(
                self,
            ).next_part_number && !old(self).has_completed_part(part_number),
        ensures
            final(self).wf(),
            final(self).state == old(self).state,
            final(self).pool.in_flight == old(self).pool.in_flight - 1,
            final(self).next_part_number == old(self).next_part_number,
            final(self).session_id == old(self).session_id,
            final(self).bucket == old(self).bucket,
            final(self).key == old(self).key,
            final(self).remote_upload_id == old(self).remote_upload_id,
            final(self).total_size == old(self).total_size,
            final(self).source_exhausted == old(self).source_exhausted,
            final(self).error == old(self).error,
            old(self).state == SessionState::PartsInFlight ==> final(self).completed@ == old(
                self,
            ).completed@.push(CompletedPart { part_number, e_tag }),
            old(self).state == SessionState::Failed ==> final(self).completed == old(
                self,
            ).completed,
    {
        self.pool.task_finished();
        if self.state == SessionState::PartsInFlight {
            let ghost prev = self.completed@;
            self.completed.push(CompletedPart { part_number, e_tag });
            proof {
                assert forall|i: int, j: int| 0 <= i < j < self.completed@.len() implies (
                #[trigger] self.completed@[i]).part_number != (
                #[trigger] self.completed@[j]).part_number by {
                    if j < prev.len() {
                        assert(self.completed@[i] == prev[i]);
                        assert(self.completed@[j] == prev[j]);
                    } else {
                        assert(self.completed@[i] == prev[i]);
                        assert(self.completed@[j].part_number == part_number);
                    }
                }
            }
        }
    }

    /// One part's upload failed: terminal.  The session moves to
    /// `Failed` (no further submissions pass `can_submit_part`), and on
    /// the first failure the `Failed` event to emit is returned; parts
    /// already in flight may still report back and are discarded.
    pub fn on_part_failed(&mut self, part_number: usize, transferred_size: u64, cause: String)
        -> (ev: Option<Payload>)
        requires
            old(self).wf(),
            old(self).state == SessionState::PartsInFlight || old(self).state
                == SessionState::Failed,
            old(self).pool.in_flight > 0,
        ensures
            final(self).wf(),
            final(self).state == SessionState::Failed,
            final(self).pool.in_flight == old(self).pool.in_flight - 1,
            final(self).next_part_number == old(self).next_part_number,
            final(self).session_id == old(self).session_id,
            final(self).completed == old(self).completed,
            final(self).total_size == old(self).total_size,
            final(self).source_exhausted == old(self).source_exhausted,
            old(self).state == SessionState::PartsInFlight ==> {
                &&& final(self).error == Some(UploadError::PartUpload(part_number, cause))
                &&& ev matches Some(p) && p.event_type == EventType::Failed && p.upload_id == old(
                    self,
                ).session_id && p.transferred_size == transferred_size && p.total_size == old(
                    self,
                ).total_size && p.error == Some(cause)
            },
            old(self).state == SessionState::Failed ==> final(self).error == old(self).error
                && ev is None,
    {
        self.pool.task_finished();
        if self.state == SessionState::PartsInFlight {
            let msg = cause.clone();
            self.state = SessionState::Failed;
            self.error = Some(UploadError::PartUpload(part_number, cause));
            Some(failed_payload(self.session_id.clone(), transferred_size, self.total_size, msg))
        } else {
            None
        }
    }

    /// Reading the source failed: terminal, like a part failure but
    /// without a task leaving flight.
    pub fn on_source_read_failed(&mut self, transferred_size: u64, cause: String) -> (ev: Option<
        Payload,
    >)
        requires
            old(self).wf(),
            old(self).state == SessionState::PartsInFlight || old(self).state
                == SessionState::Failed,
        ensures
            final(self).wf(),
            final(self).state == SessionState::Failed,
            final(self).pool == old(self).pool,
            final(self).session_id == old(self).session_id,
            final(self).total_size == old(self).total_size,
            old(self).state == SessionState::PartsInFlight ==> {
                &&& final(self).error == Some(UploadError::SourceRead(cause))
                &&& ev matches Some(p) && p.event_type == EventType::Failed && p.upload_id == old(
                    self,
                ).session_id && p.error == Some(cause)
            },
            old(self).state == SessionState::Failed ==> final(self).error == old(self).error
                && ev is None,
    {
        if self.state == SessionState::PartsInFlight {
            let msg = cause.clone();
            self.state = SessionState::Failed;
            self.error = Some(UploadError::SourceRead(cause));
            Some(failed_payload(self.session_id.clone(), transferred_size, self.total_size, msg))
        } else {
            None
        }
    }

    /// The chunk source reported end of input: no further chunks will be
    /// submitted; remaining in-flight tasks are drained.
    pub fn on_source_exhausted(&mut self)
        requires
            old(self).wf(),
            old(self).state == SessionState::PartsInFlight || old(self).state
                == SessionState::Failed,
        ensures
            final(self).wf(),
            *final(self) == (UploadCoordinator { source_exhausted: true, ..*old(self) }),
    {
        self.source_exhausted = true;
    }

    /// Every submitted chunk's part succeeded and the source is
    /// exhausted: enter `Completing` and hand back the collected parts
    /// sorted for the remote completion call.
    ///
    /// The returned list is exactly the collected parts, with part
    /// numbers `1, 2, …, n` in ascending order — one per submitted
    /// chunk, no gap, no duplicate — as the completion protocol
    /// requires.
    pub fn begin_completion(&mut self) -> (parts: Vec<CompletedPart>)
        requires
            old(self).wf(),
            old(self).can_begin_completion(),
        ensures
            final(self).wf(),
            final(self).state == SessionState::Completing,
            final(self).session_id == old(self).session_id,
            final(self).bucket == old(self).bucket,
            final(self).key == old(self).key,
            final(self).remote_upload_id == old(self).remote_upload_id,
            final(self).total_size == old(self).total_size,
            final(self).next_part_number == old(self).next_part_number,
            final(self).error is None,
            parts@.len() == old(self).completed@.len(),
            parts@.len() == old(self).next_part_number - 1,
            forall|i: int|
                0 <= i < parts@.len() ==> (#[trigger] parts@[i]).part_number == i + 1,
            forall|p: CompletedPart| #[trigger] parts@.contains(p) <==> old(
                self,
            ).completed@.contains(p),
    {
        let ghost prev = self.completed@;
        let mut collected: Vec<CompletedPart> = Vec::new();
        core::mem::swap(&mut collected, &mut self.completed);
        let sorted = sort_parts(collected);
        self.state = SessionState::Completing;
        proof {
            assert forall|i: int| 0 <= i < sorted@.len() implies 1 <= (
            #[trigger] sorted@[i]).part_number <= sorted@.len() by {
                assert(sorted@.contains(sorted@[i]));
                assert(prev.contains(sorted@[i]));
                let t = choose|t: int| 0 <= t < prev.len() && prev[t] == sorted@[i];
                assert(1 <= prev[t].part_number < old(self).next_part_number);
            }
            lemma_consecutive_part_numbers(sorted@);
        }
        sorted
    }

    /// The remote completion call succeeded: terminal success; returns
    /// the `End` event — emitted once, reporting the full source
    /// transferred.
    pub fn on_complete_succeeded(&mut self) -> (ev: Payload)
        requires
            old(self).wf(),
            old(self).state == SessionState::Completing,
        ensures
            final(self).wf(),
            final(self).state == SessionState::Completed,
            final(self).session_id == old(self).session_id,
            final(self).total_size == old(self).total_size,
            final(self).error is None,
            ev.event_type == EventType::End,
            ev.upload_id == old(self).session_id,
            ev.transferred_size == old(self).total_size,
            ev.total_size == old(self).total_size,
            ev.error is None,
    {
        self.state = SessionState::Completed;
        end_payload(self.session_id.clone(), self.total_size)
    }

    /// The remote completion call failed although every part succeeded:
    /// terminal failure; returns the `Failed` event to emit.
    pub fn on_complete_failed(&mut self, cause: String) -> (ev: Payload)
        requires
            old(self).wf(),
            old(self).state == SessionState::Completing,
        ensures
            final(self).wf(),
            final(self).state == SessionState::Failed,
            final(self).error == Some(UploadError::Completion(cause)),
            final(self).session_id == old(self).session_id,
            final(self).total_size == old(self).total_size,
            ev.event_type == EventType::Failed,
            ev.upload_id == old(self).session_id,
            ev.transferred_size == old(self).total_size,
            ev.total_size == old(self).total_size,
            ev.error == Some(cause),
    {
        let msg = cause.clone();
        self.state = SessionState::Failed;
        self.error = Some(UploadError::Completion(cause));
        failed_payload(self.session_id.clone(), self.total_size, self.total_size, msg)
    }

    /// Whether a dangling remote multipart session is left to abort:
    /// the session failed after the remote upload had been created, so
    /// the store still holds its parts until an abort releases them.
    pub fn needs_abort(&self) -> (r: bool)
        ensures
            r == (self.state == SessionState::Failed && self.remote_upload_id is Some),
    {
        self.state == SessionState::Failed && self.remote_upload_id.is_some()
    }

    /// Once a session has failed, completion is out of reach for good:
    /// neither the transition into `Completing` nor the completion
    /// call's own precondition can ever be satisfied again, so
    /// `CompleteUpload` is never invoked for a failed session.
    pub proof fn lemma_failed_never_completes(self)
        requires
            self.state == SessionState::Failed,
        ensures
            !self.can_begin_completion(),
            self.state != SessionState::Completing,
    {
    }
}

} // verus!
