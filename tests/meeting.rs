use meeting_core::{AudioSource, MeetingError, MeetingSession, MeetingSessionManager, MeetingStatus};

fn empty_manager() -> MeetingSessionManager {
    MeetingSessionManager::new(Vec::new()).unwrap().0
}

fn is_uuid_v4(s: &str) -> bool {
    let c: Vec<char> = s.chars().collect();
    if c.len() != 36 {
        return false;
    }
    for (i, ch) in c.iter().enumerate() {
        let ok = match i {
            8 | 13 | 18 | 23 => *ch == '-',
            14 => *ch == '4',
            19 => matches!(ch, '8' | '9' | 'a' | 'b'),
            _ => ch.is_ascii_digit() || ('a'..='f').contains(ch),
        };
        if !ok {
            return false;
        }
    }
    true
}

#[test]
fn test_meeting_status_default() {
    let status = MeetingStatus::default();
    assert_eq!(status, MeetingStatus::Idle);
}

#[test]
fn test_meeting_session_new() {
    let session = MeetingSession::new(
        "test-uuid-123".to_string(),
        "Meeting - January 15, 2025 3:30 PM".to_string(),
        1705340400,
    );

    assert_eq!(session.id, "test-uuid-123");
    assert_eq!(session.title, "Meeting - January 15, 2025 3:30 PM");
    assert_eq!(session.created_at, 1705340400);
    assert_eq!(session.duration, None);
    assert_eq!(session.status, MeetingStatus::Idle);
    assert_eq!(session.audio_path, None);
    assert_eq!(session.transcript_path, None);
    assert_eq!(session.error_message, None);
}

#[test]
fn test_create_session_unique_ids() {
    let mut manager = empty_manager();
    let session1 = manager.create_session(AudioSource::MicrophoneOnly).expect("Failed to create session 1");
    let session2 = manager.create_session(AudioSource::MicrophoneOnly).expect("Failed to create session 2");
    let session3 = manager.create_session(AudioSource::MicrophoneOnly).expect("Failed to create session 3");

    assert_ne!(session1.id, session2.id, "Session IDs should be unique");
    assert_ne!(session2.id, session3.id, "Session IDs should be unique");
    assert_ne!(session1.id, session3.id, "Session IDs should be unique");

    assert!(is_uuid_v4(&session1.id), "Session ID should be valid UUID v4");
    assert!(is_uuid_v4(&session2.id), "Session ID should be valid UUID v4");
}

#[test]
fn test_get_session() {
    let mut manager = empty_manager();
    let created_session = manager.create_session(AudioSource::MicrophoneOnly).expect("Failed to create session");

    let retrieved = manager.get_session(&created_session.id);
    assert!(retrieved.is_some(), "Session should be found");
    let retrieved = retrieved.unwrap();

    assert_eq!(retrieved.id, created_session.id);
    assert_eq!(retrieved.title, created_session.title);
    assert_eq!(retrieved.created_at, created_session.created_at);
    assert_eq!(retrieved.status, MeetingStatus::Idle);
}

#[test]
fn test_get_session_not_found() {
    let manager = empty_manager();
    let result = manager.get_session("non-existent-id");
    assert!(result.is_none(), "Non-existent session should return None");
}

#[test]
fn test_list_sessions() {
    let mut manager = empty_manager();

    let sessions = manager.list_sessions();
    assert!(sessions.is_empty(), "Initially should have no sessions");

    let session1 = manager.create_session(AudioSource::MicrophoneOnly).expect("Failed to create session 1");
    let session2 = manager.create_session(AudioSource::MicrophoneOnly).expect("Failed to create session 2");
    let session3 = manager.create_session(AudioSource::MicrophoneOnly).expect("Failed to create session 3");

    let sessions = manager.list_sessions();
    assert_eq!(sessions.len(), 3, "Should have 3 sessions");

    assert_eq!(sessions[0].id, session3.id, "Newest session should be first");
    assert_eq!(sessions[1].id, session2.id);
    assert_eq!(sessions[2].id, session1.id, "Oldest session should be last");
}

#[test]
fn test_state_transition_validation() {
    assert!(MeetingStatus::Idle.can_transition_to(&MeetingStatus::Recording), "Idle -> Recording should be valid");
    assert!(MeetingStatus::Recording.can_transition_to(&MeetingStatus::Processing), "Recording -> Processing should be valid");
    assert!(MeetingStatus::Processing.can_transition_to(&MeetingStatus::Completed), "Processing -> Completed should be valid");
    assert!(MeetingStatus::Processing.can_transition_to(&MeetingStatus::Failed), "Processing -> Failed should be valid");
    assert!(MeetingStatus::Failed.can_transition_to(&MeetingStatus::Processing), "Failed -> Processing (retry) should be valid");

    assert!(!MeetingStatus::Recording.can_transition_to(&MeetingStatus::Recording), "Recording -> Recording should be invalid");
    assert!(!MeetingStatus::Completed.can_transition_to(&MeetingStatus::Recording), "Completed -> Recording should be invalid");
    assert!(!MeetingStatus::Processing.can_transition_to(&MeetingStatus::Recording), "Processing -> Recording should be invalid");
    assert!(!MeetingStatus::Idle.can_transition_to(&MeetingStatus::Idle), "Idle -> Idle should be invalid");
    // re-transcribing a completed session is an explicit transition
    assert!(MeetingStatus::Completed.can_transition_to(&MeetingStatus::Processing), "Completed -> Processing is a re-transcription");
}

fn manager_with_current(status_after: &str) -> (MeetingSessionManager, String) {
    let mut m = empty_manager();
    let s = m
        .add_session("s1".to_string(), "T".to_string(), 100, AudioSource::MicrophoneOnly)
        .unwrap();
    m.start_recording(&s.id).unwrap();
    match status_after {
        "recording" => {}
        "processing" => {
            m.stop_recording(105).unwrap();
        }
        "completed" => {
            m.stop_recording(105).unwrap();
            m.complete_transcription(&s.id, "text").unwrap();
        }
        "failed" => {
            m.handle_disconnect("gone", 105).unwrap();
        }
        _ => panic!("unknown status"),
    }
    (m, s.id)
}

#[test]
fn test_cannot_start_recording_while_recording() {
    let (m, _) = manager_with_current("recording");
    assert!(matches!(m.check_can_start(), Err(MeetingError::AlreadyRecording)), "Guard should prevent starting while recording");
    assert_eq!(m.get_current_status(), Some(MeetingStatus::Recording), "Should be in Recording state");
}

#[test]
fn test_cannot_start_recording_while_processing() {
    let (m, _) = manager_with_current("processing");
    assert!(matches!(m.check_can_start(), Err(MeetingError::AlreadyProcessing)), "Guard should prevent starting while processing");
    assert_eq!(m.get_current_status(), Some(MeetingStatus::Processing), "Should be in Processing state");
}

#[test]
fn test_cannot_stop_when_idle() {
    let mut m = empty_manager();
    let s = m.add_session("s1".to_string(), "T".to_string(), 100, AudioSource::MicrophoneOnly).unwrap();
    assert_eq!(s.status, MeetingStatus::Idle, "Should be in Idle state");
    assert!(matches!(m.stop_recording(200), Err(MeetingError::NoActiveSession)), "Guard should prevent stopping when Idle");
}

#[test]
fn test_cannot_stop_when_completed() {
    let (mut m, id) = manager_with_current("completed");
    assert_eq!(m.get_session(&id).unwrap().status, MeetingStatus::Completed, "Should be in Completed state");
    let r = m.stop_recording(200);
    assert!(matches!(r, Err(MeetingError::NotRecording(MeetingStatus::Completed))), "Guard should prevent stopping when Completed");
    assert_eq!(r.unwrap_err().message(), "Cannot stop recording: session has already been completed");
}

#[test]
fn test_cannot_stop_when_failed() {
    let (mut m, id) = manager_with_current("failed");
    assert_eq!(m.get_session(&id).unwrap().status, MeetingStatus::Failed, "Should be in Failed state");
    let r = m.stop_recording(200);
    assert!(matches!(r, Err(MeetingError::NotRecording(MeetingStatus::Failed))), "Guard should prevent stopping when Failed");
    assert_eq!(r.unwrap_err().message(), "Cannot stop recording: session has failed");
}
