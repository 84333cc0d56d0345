use upload_core::coordinator::{SessionState, UploadCoordinator};
use upload_core::errors::UploadError;
use upload_core::events::{
    end_payload, failed_payload, start_payload, update_payload, EventType,
};
use upload_core::progress::ProgressTracker;
use upload_core::{CHUNK_SIZE, MULTIPART_EMIT_THRESHOLD_MS};

fn fresh(total: u64) -> UploadCoordinator {
    UploadCoordinator::new(
        "local/file.bin".to_string(),
        "bucket".to_string(),
        "prefix/".to_string(),
        total,
    )
}

#[test]
fn session_ids_are_generated_fresh() {
    let a = fresh(1);
    let b = fresh(1);
    assert_eq!(a.session_id.len(), 36);
    assert_eq!(b.session_id.len(), 36);
    assert_ne!(a.session_id, b.session_id);
}

#[test]
fn key_gains_file_name_exactly_once_before_creation() {
    let mut c = fresh(10);
    let r = c.finalize_key("file.bin");
    assert!(r.is_ok());
    assert_eq!(c.key, "prefix/file.bin");
    assert!(c.key_finalized);
}

#[test]
fn empty_file_name_is_a_config_error() {
    let mut c = fresh(10);
    let r = c.finalize_key("");
    let ev = r.err().unwrap();
    assert_eq!(ev.event_type, EventType::Failed);
    assert!(ev.error.is_some());
    assert_eq!(c.state, SessionState::Failed);
    match &c.error {
        Some(UploadError::Config(m)) => assert_eq!(m.as_str(), "invalid file name"),
        other => panic!("expected a config error, got {:?}", other),
    }
}

#[test]
fn twentyfive_mib_source_uploads_as_three_parts() {
    // 25 MiB at 10 MiB chunks: parts 1..3 of 10, 10 and 5 MiB, one
    // Start, at least one Update, one End reporting 26214400 bytes.
    let total: u64 = 25 * 1024 * 1024;
    let chunk_lens: Vec<u64> = vec![CHUNK_SIZE, CHUNK_SIZE, total - 2 * CHUNK_SIZE];
    let mut c = fresh(total);
    c.finalize_key("file.bin").unwrap();
    let start = c.on_create_succeeded("remote-upload-1".to_string());
    assert_eq!(start.event_type, EventType::Start);
    assert_eq!(start.transferred_size, 0);
    assert_eq!(start.total_size, total);
    assert_eq!(start.file_path.as_deref(), Some("local/file.bin"));
    assert_eq!(c.remote_upload_id.as_deref(), Some("remote-upload-1"));

    let mut tracker = ProgressTracker::new(total);
    let mut submitted = Vec::new();
    for _ in 0..3 {
        assert!(c.can_submit_part());
        submitted.push(c.submit_part());
    }
    assert_eq!(submitted, vec![1, 2, 3]);
    // The pool is saturated: no fourth submission.
    assert!(!c.can_submit_part());

    // Completions arrive out of order; progress accumulates per chunk.
    let mut updates = 0;
    for &pn in &[2usize, 3, 1] {
        let current = tracker.record_transferred(chunk_lens[pn - 1]);
        if tracker.should_emit(MULTIPART_EMIT_THRESHOLD_MS + 1, MULTIPART_EMIT_THRESHOLD_MS) {
            let u = update_payload(c.session_id.clone(), current, total);
            assert_eq!(u.event_type, EventType::Update);
            updates += 1;
        }
        c.on_part_succeeded(pn, format!("etag-{pn}"));
    }
    assert!(updates >= 1);
    assert_eq!(tracker.transferred, 26214400);

    c.on_source_exhausted();
    let parts = c.begin_completion();
    let numbers: Vec<usize> = parts.iter().map(|p| p.part_number).collect();
    assert_eq!(numbers, vec![1, 2, 3]);
    assert_eq!(parts[0].e_tag, "etag-1");
    assert_eq!(parts[1].e_tag, "etag-2");
    assert_eq!(parts[2].e_tag, "etag-3");

    let end = c.on_complete_succeeded();
    assert_eq!(end.event_type, EventType::End);
    assert_eq!(end.transferred_size, 26214400);
    assert_eq!(c.state, SessionState::Completed);
}

#[test]
fn zero_byte_source_completes_with_no_parts() {
    // A 0-byte source: no chunks, creation immediately followed by
    // completion with an empty parts list, Start directly before End.
    let mut c = fresh(0);
    c.finalize_key("empty.bin").unwrap();
    let start = c.on_create_succeeded("remote-upload-2".to_string());
    assert_eq!(start.event_type, EventType::Start);
    assert_eq!(start.total_size, 0);
    c.on_source_exhausted();
    let parts = c.begin_completion();
    assert!(parts.is_empty());
    let end = c.on_complete_succeeded();
    assert_eq!(end.event_type, EventType::End);
    assert_eq!(end.transferred_size, 0);
    assert_eq!(c.state, SessionState::Completed);
}

#[test]
fn failing_part_fails_the_session_and_blocks_completion() {
    // Part 2 of 3 fails: a Failed event with the cause, parts 1 and 3
    // may still report back (they were in flight), and the session can
    // never reach completion.
    let mut c = fresh(30);
    c.finalize_key("f.bin").unwrap();
    c.on_create_succeeded("remote-upload-3".to_string());
    let p1 = c.submit_part();
    let p2 = c.submit_part();
    let p3 = c.submit_part();
    c.on_part_succeeded(p1, "e1".to_string());
    let ev = c.on_part_failed(p2, 10, "connection reset".to_string());
    let ev = ev.expect("first failure must produce the Failed event");
    assert_eq!(ev.event_type, EventType::Failed);
    assert_eq!(ev.error.as_deref(), Some("connection reset"));
    assert_eq!(c.state, SessionState::Failed);
    match &c.error {
        Some(UploadError::PartUpload(n, m)) => {
            assert_eq!(*n, 2);
            assert_eq!(m.as_str(), "connection reset");
        }
        other => panic!("expected a part upload error, got {:?}", other),
    }
    // Part 3 was already in flight: its result arrives and is absorbed.
    c.on_part_succeeded(p3, "e3".to_string());
    assert_eq!(c.state, SessionState::Failed);
    // No further submissions once failed.
    assert!(!c.can_submit_part());
    // The remote session dangles and should be aborted.
    assert!(c.needs_abort());
}

#[test]
fn create_failure_is_terminal_with_no_parts_attempted() {
    let mut c = fresh(10);
    c.finalize_key("f.bin").unwrap();
    let ev = c.on_create_failed("access denied".to_string());
    assert_eq!(ev.event_type, EventType::Failed);
    assert_eq!(ev.error.as_deref(), Some("access denied"));
    assert_eq!(c.state, SessionState::Failed);
    assert!(matches!(c.error, Some(UploadError::SessionCreate(_))));
    assert_eq!(c.next_part_number, 1);
    // Nothing was created remotely, so there is nothing to abort.
    assert!(!c.needs_abort());
}

#[test]
fn source_read_failure_is_terminal() {
    let mut c = fresh(10);
    c.finalize_key("f.bin").unwrap();
    c.on_create_succeeded("remote-upload-4".to_string());
    let ev = c.on_source_read_failed(0, "disk error".to_string());
    let ev = ev.expect("first failure must produce the Failed event");
    assert_eq!(ev.event_type, EventType::Failed);
    assert_eq!(c.state, SessionState::Failed);
    assert!(matches!(c.error, Some(UploadError::SourceRead(_))));
}

#[test]
fn completion_failure_is_terminal() {
    let mut c = fresh(0);
    c.finalize_key("f.bin").unwrap();
    c.on_create_succeeded("remote-upload-5".to_string());
    c.on_source_exhausted();
    let parts = c.begin_completion();
    assert!(parts.is_empty());
    let ev = c.on_complete_failed("assembly rejected".to_string());
    assert_eq!(ev.event_type, EventType::Failed);
    assert_eq!(ev.error.as_deref(), Some("assembly rejected"));
    assert_eq!(c.state, SessionState::Failed);
    assert!(matches!(c.error, Some(UploadError::Completion(_))));
}

#[test]
fn payload_constructors_carry_the_schema_fields() {
    let s = start_payload("id-1".to_string(), "a/b.bin".to_string(), 7);
    assert_eq!(s.event_type, EventType::Start);
    assert_eq!(s.upload_id, "id-1");
    assert_eq!(s.file_path.as_deref(), Some("a/b.bin"));
    assert_eq!(s.transferred_size, 0);
    assert_eq!(s.total_size, 7);
    assert!(s.error.is_none());

    let u = update_payload("id-1".to_string(), 3, 7);
    assert_eq!(u.event_type, EventType::Update);
    assert_eq!(u.transferred_size, 3);
    assert!(u.file_path.is_none());

    let e = end_payload("id-1".to_string(), 7);
    assert_eq!(e.event_type, EventType::End);
    assert_eq!(e.transferred_size, 7);
    assert_eq!(e.total_size, 7);

    let f = failed_payload("id-1".to_string(), 3, 7, "boom".to_string());
    assert_eq!(f.event_type, EventType::Failed);
    assert_eq!(f.error.as_deref(), Some("boom"));
    assert_eq!(f.transferred_size, 3);
}

#[test]
fn credentials_carry_their_fields() {
    let c = upload_core::credentials::AwsCredentials::new(
        "AKID".to_string(),
        "SECRET-REDACTED".to_string(),
        "TOKEN".to_string(),
        "IDENTITY".to_string(),
    );
    assert_eq!(c.access_key_id, "AKID");
    assert_eq!(c.secret_access_key, "SECRET-REDACTED");
    assert_eq!(c.session_token, "TOKEN");
    assert_eq!(c.identity_id, "IDENTITY");
}

#[test]
fn error_messages_surface_their_cause() {
    assert_eq!(
        UploadError::SourceRead("a".to_string()).message().as_str(),
        "a"
    );
    assert_eq!(
        UploadError::SessionCreate("b".to_string()).message().as_str(),
        "b"
    );
    assert_eq!(
        UploadError::PartUpload(2, "c".to_string()).message().as_str(),
        "c"
    );
    assert_eq!(
        UploadError::Completion("d".to_string()).message().as_str(),
        "d"
    );
    assert_eq!(UploadError::Config("e".to_string()).message().as_str(), "e");
}
