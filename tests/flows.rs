use meeting_core::{
    finalize_step, AudioSource, FinalizeStep, MeetingError, MeetingSession, MeetingSessionManager,
    MeetingStatus, SinkLatch,
};

fn engine() -> MeetingSessionManager {
    MeetingSessionManager::new(Vec::new()).unwrap().0
}

fn recording(m: &mut MeetingSessionManager, id: &str, created_at: i64) -> MeetingSession {
    m.add_session(id.to_string(), "Weekly".to_string(), created_at, AudioSource::MicrophoneOnly)
        .unwrap();
    m.start_recording(id).unwrap()
}

#[test]
fn normal_microphone_flow() {
    let mut m = engine();
    let s = recording(&mut m, "abc", 1000);
    assert_eq!(s.status, MeetingStatus::Recording);
    assert_eq!(s.audio_path.as_deref(), Some("abc/audio.wav"));

    let mut latch = SinkLatch::new();
    assert!(latch.accept(16000));
    assert!(latch.accept(16000));
    assert_eq!(latch.samples_written(), 32000);
    latch.close();
    assert_eq!(finalize_step(true, 0, 5000), FinalizeStep::Commit);

    assert_eq!(m.stop_recording(1002).unwrap(), "abc/audio.wav");
    let row = m.get_session("abc").unwrap();
    assert_eq!(row.status, MeetingStatus::Processing);
    assert_eq!(row.duration, Some(2));

    let done = m.complete_transcription("abc", "hello world").unwrap();
    assert_eq!(done.status, MeetingStatus::Completed);
    assert_eq!(done.transcript_path.as_deref(), Some("abc/transcript.txt"));
    assert_eq!(m.get_current_status(), Some(MeetingStatus::Completed));
}

#[test]
fn disconnect_mid_recording() {
    let mut m = engine();
    recording(&mut m, "abc", 1000);
    let mut latch = SinkLatch::new();
    assert!(latch.accept(16000));

    let failed = m.handle_disconnect("device removed", 1001).unwrap();
    assert_eq!(failed.status, MeetingStatus::Failed);
    assert_eq!(failed.error_message.as_deref(), Some("Microphone disconnected: device removed"));
    assert_eq!(failed.duration, Some(1));
    assert_eq!(latch.samples_written(), 16000);

    // later reports of the same fault are collapsed
    assert!(m.handle_disconnect("device removed", 1002).is_none());
    assert!(m.handle_disconnect("other", 1003).is_none());
    assert_eq!(m.get_session("abc").unwrap().status, MeetingStatus::Failed);
}

#[test]
fn app_shutdown_interrupts_recording() {
    let mut m = engine();
    recording(&mut m, "abc", 1000);
    let s = m.handle_app_shutdown(1010).unwrap();
    assert_eq!(s.status, MeetingStatus::Interrupted);
    assert_eq!(s.error_message.as_deref(), Some("Session interrupted due to app shutdown"));
    assert_eq!(s.duration, Some(10));
    assert_eq!(m.get_current_status(), None);

    let (next, changed) = MeetingSessionManager::new(m.list_sessions()).unwrap();
    assert!(changed.is_empty());
    let row = next.get_session("abc").unwrap();
    assert_eq!(row.status, MeetingStatus::Interrupted);
    assert_eq!(row.error_message.as_deref(), Some("Session interrupted due to app shutdown"));
}

#[test]
fn shutdown_without_recording_changes_nothing() {
    let mut m = engine();
    m.add_session("abc".to_string(), "T".to_string(), 5, AudioSource::Mixed).unwrap();
    assert!(m.handle_app_shutdown(10).is_none());
    assert_eq!(m.get_session("abc").unwrap().status, MeetingStatus::Idle);
}

#[test]
fn unclean_shutdown_recovery() {
    let mut row = MeetingSession::new("crashed".to_string(), "T".to_string(), 50);
    row.status = MeetingStatus::Recording;
    row.audio_path = Some("crashed/audio.wav".to_string());
    let other = MeetingSession::new("idle".to_string(), "U".to_string(), 60);
    let (m, changed) = MeetingSessionManager::new(vec![row, other]).unwrap();
    let swept = m.get_session("crashed").unwrap();
    assert_eq!(swept.status, MeetingStatus::Interrupted);
    assert_eq!(
        swept.error_message.as_deref(),
        Some("Session interrupted due to app shutdown (recovered on next launch)")
    );
    assert_eq!(changed.len(), 1);
    assert_eq!(changed[0].id, "crashed");
    assert_eq!(m.get_session("idle").unwrap().status, MeetingStatus::Idle);
    assert_eq!(m.get_current_status(), None);
}

#[test]
fn duplicate_rows_are_refused() {
    let a = MeetingSession::new("x".to_string(), "A".to_string(), 1);
    let b = MeetingSession::new("x".to_string(), "B".to_string(), 2);
    let r = MeetingSessionManager::new(vec![a, b]);
    assert!(matches!(r, Err(MeetingError::DuplicateSession(ref id)) if id == "x"));
}

#[test]
fn retry_failed_session() {
    let mut m = engine();
    recording(&mut m, "abc", 1000);
    m.handle_disconnect("device removed", 1005).unwrap();

    assert_eq!(m.retry("abc").unwrap(), "abc/audio.wav");
    let row = m.get_session("abc").unwrap();
    assert_eq!(row.status, MeetingStatus::Processing);
    assert_eq!(row.error_message, None);

    let done = m.complete_transcription("abc", "hello").unwrap();
    assert_eq!(done.status, MeetingStatus::Completed);
}

#[test]
fn retry_refusals() {
    let mut m = engine();
    m.add_session("idle".to_string(), "T".to_string(), 1, AudioSource::MicrophoneOnly).unwrap();
    let e = m.retry("idle").unwrap_err();
    assert!(matches!(e, MeetingError::NotRetryable(MeetingStatus::Idle)));
    assert_eq!(e.message(), "Cannot retry transcription: session is in idle status");
    assert!(matches!(m.retry("nope"), Err(MeetingError::SessionNotFound(_))));

    let mut no_audio = MeetingSession::new("old".to_string(), "T".to_string(), 2);
    no_audio.status = MeetingStatus::Failed;
    let (mut m2, _) = MeetingSessionManager::new(vec![no_audio]).unwrap();
    assert!(matches!(m2.retry("old"), Err(MeetingError::NoAudioFile)));

    // a second session cannot be transcribed while one records
    let mut m3 = engine();
    recording(&mut m3, "a", 10);
    m3.handle_disconnect("gone", 11).unwrap();
    m3.add_session("b".to_string(), "T".to_string(), 12, AudioSource::MicrophoneOnly).unwrap();
    m3.start_recording("b").unwrap();
    assert!(matches!(m3.retry("a"), Err(MeetingError::SessionBusy)));
}

#[test]
fn transcription_failure_marks_failed() {
    let mut m = engine();
    recording(&mut m, "abc", 1);
    m.stop_recording(3).unwrap();
    assert!(matches!(m.complete_transcription("abc", ""), Err(MeetingError::EmptyTranscript)));
    let f = m.fail_transcription("abc", "Transcription failed: model not loaded".to_string()).unwrap();
    assert_eq!(f.status, MeetingStatus::Failed);
    assert_eq!(f.error_message.as_deref(), Some("Transcription failed: model not loaded"));
    assert!(matches!(
        m.fail_transcription("abc", "again".to_string()),
        Err(MeetingError::InvalidTransition(MeetingStatus::Failed, MeetingStatus::Failed))
    ));
}

#[test]
fn stop_refuses_clock_skew() {
    let mut m = engine();
    recording(&mut m, "abc", 1000);
    let e = m.stop_recording(999).unwrap_err();
    assert!(matches!(e, MeetingError::NegativeDuration(_)));
    assert_eq!(m.get_current_status(), Some(MeetingStatus::Recording));
    assert_eq!(m.check_can_stop().unwrap(), "abc/audio.wav");
}

#[test]
fn start_refused_while_active_and_allowed_after() {
    let mut m = engine();
    recording(&mut m, "a", 1);
    m.add_session("b".to_string(), "T".to_string(), 2, AudioSource::SystemOnly).unwrap();
    let e = m.start_recording("b").unwrap_err();
    assert!(matches!(e, MeetingError::AlreadyRecording));
    assert_eq!(e.message(), "Cannot start recording: already recording an active session");
    m.stop_recording(3).unwrap();
    assert!(matches!(m.start_recording("b"), Err(MeetingError::AlreadyProcessing)));
    m.complete_transcription("a", "x").unwrap();
    let b = m.start_recording("b").unwrap();
    assert_eq!(b.status, MeetingStatus::Recording);
    assert_eq!(b.audio_source, AudioSource::SystemOnly);
}

#[test]
fn failed_start_rolls_back() {
    let mut m = engine();
    m.add_session("a".to_string(), "T".to_string(), 1, AudioSource::MicrophoneOnly).unwrap();
    let f = m.fail_start("a", "Failed to open audio recorder: no device".to_string()).unwrap();
    assert_eq!(f.status, MeetingStatus::Failed);
    assert!(m.check_can_start().is_ok());
}

#[test]
fn title_update_and_delete() {
    let mut m = engine();
    m.add_session("a".to_string(), "Old".to_string(), 1, AudioSource::MicrophoneOnly).unwrap();
    assert!(matches!(m.update_title("a", "   ".to_string()), Err(MeetingError::EmptyTitle)));
    assert!(matches!(m.update_title("zz", "New".to_string()), Err(MeetingError::SessionNotFound(_))));
    assert_eq!(m.update_title("a", "New".to_string()).unwrap().title, "New");
    assert_eq!(m.set_summary_path("a").unwrap().summary_path.as_deref(), Some("a/summary.md"));

    recording(&mut m, "b", 2);
    let removed = m.delete_session("b").unwrap();
    assert_eq!(removed.id, "b");
    assert_eq!(m.get_current_status(), None);
    assert!(m.get_session("b").is_none());
    assert!(matches!(m.delete_session("b"), Err(MeetingError::SessionNotFound(_))));
    assert_eq!(m.list_sessions().len(), 1);
}

#[test]
fn listing_is_newest_first() {
    let mut m = engine();
    m.add_session("mid".to_string(), "T".to_string(), 20, AudioSource::MicrophoneOnly).unwrap();
    m.add_session("old".to_string(), "T".to_string(), 10, AudioSource::MicrophoneOnly).unwrap();
    m.add_session("new".to_string(), "T".to_string(), 30, AudioSource::MicrophoneOnly).unwrap();
    let ids: Vec<String> = m.list_sessions().into_iter().map(|s| s.id).collect();
    assert_eq!(ids, vec!["new", "mid", "old"]);
}

#[test]
fn at_most_one_active_session() {
    let mut m = engine();
    recording(&mut m, "a", 1);
    m.stop_recording(2).unwrap();
    m.add_session("b".to_string(), "T".to_string(), 3, AudioSource::MicrophoneOnly).unwrap();
    assert!(m.start_recording("b").is_err());
    let active = m
        .list_sessions()
        .iter()
        .filter(|s| matches!(s.status, MeetingStatus::Recording | MeetingStatus::Processing))
        .count();
    assert_eq!(active, 1);
}

#[test]
fn closed_latch_discards_writes() {
    let mut latch = SinkLatch::new();
    assert!(latch.accept(10));
    latch.close();
    assert!(latch.is_closed());
    assert!(!latch.accept(5));
    assert!(!latch.accept(7));
    assert_eq!(latch.samples_written(), 10);
}

#[test]
fn finalize_waits_then_times_out() {
    assert_eq!(finalize_step(false, 0, 5000), FinalizeStep::Retry(10));
    assert_eq!(finalize_step(false, 4990, 5000), FinalizeStep::Retry(10));
    assert_eq!(finalize_step(false, 5000, 5000), FinalizeStep::TimedOut);
    assert_eq!(finalize_step(true, 6000, 5000), FinalizeStep::Commit);
}
