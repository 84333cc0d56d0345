use upload_core::pool::UploadPool;
use upload_core::progress::ProgressTracker;
use upload_core::single_stream::SingleStreamUpload;
use upload_core::{MAX_CONCURRENT_UPLOADS, MULTIPART_EMIT_THRESHOLD_MS, SINGLE_STREAM_EMIT_THRESHOLD_MS};

#[test]
fn progress_grows_monotonically_and_stays_bounded() {
    let mut t = ProgressTracker::new(100);
    assert_eq!(t.transferred, 0);
    let a = t.record_transferred(40);
    assert_eq!(a, 40);
    let b = t.record_transferred(0);
    assert_eq!(b, 40);
    let c = t.record_transferred(60);
    assert_eq!(c, 100);
    assert!(t.transferred <= t.total);
}

#[test]
fn progress_emission_is_throttled_but_final_event_always_fires() {
    let mut t = ProgressTracker::new(100);
    t.record_transferred(10);
    // Too soon and not finished: hold the event back.
    assert!(!t.should_emit(MULTIPART_EMIT_THRESHOLD_MS, MULTIPART_EMIT_THRESHOLD_MS));
    // The throttle interval elapsed: emit.
    assert!(t.should_emit(MULTIPART_EMIT_THRESHOLD_MS + 1, MULTIPART_EMIT_THRESHOLD_MS));
    // Finished: emit no matter how recent the last event was.
    t.record_transferred(90);
    assert!(t.should_emit(0, MULTIPART_EMIT_THRESHOLD_MS));
}

#[test]
fn pool_bounds_in_flight_tasks() {
    let mut p = UploadPool::new();
    assert_eq!(p.in_flight, 0);
    let mut started = 0;
    while p.has_capacity() {
        p.task_started();
        started += 1;
    }
    assert_eq!(started, MAX_CONCURRENT_UPLOADS);
    assert_eq!(p.in_flight, MAX_CONCURRENT_UPLOADS);
    assert!(!p.has_capacity());
    p.task_finished();
    assert!(p.has_capacity());
    assert_eq!(p.in_flight, MAX_CONCURRENT_UPLOADS - 1);
}

#[test]
fn single_stream_reports_and_throttles() {
    let mut s = SingleStreamUpload::new(10);
    assert_eq!(s.upload_id.len(), 36);
    // Not finished, throttle not elapsed: no event.
    let ev = s.record_read(5, SINGLE_STREAM_EMIT_THRESHOLD_MS);
    assert!(ev.is_none());
    assert_eq!(s.uploaded, 5);
    // Throttle elapsed: a snapshot comes out.
    let ev = s.record_read(1, SINGLE_STREAM_EMIT_THRESHOLD_MS + 1);
    let p = ev.unwrap();
    assert_eq!(p.uploaded, 6);
    assert_eq!(p.total, 10);
    assert_eq!(p.upload_id, s.upload_id);
    // Finishing always emits, even right after the last event.
    let ev = s.record_read(4, 0);
    let p = ev.unwrap();
    assert_eq!(p.uploaded, 10);
    assert_eq!(p.total, 10);
}
