use meeting_core::checks::{
    check_audio_format, check_samples, check_transcript, check_transcript_size,
    SUMMARY_TRANSCRIPT_LIMIT,
};
use meeting_core::session::{audio_path_for, partial_duration, summary_path_for, transcript_path_for};
use meeting_core::text::{decimal_string, is_blank_str, signed_decimal_string, two_digit_string};
use meeting_core::{
    format_meeting_title, log_meeting_event, meeting_title, resample_by, resampled_len,
    session_from_columns, zip_padded, AudioSource, AudioSourceConfig, CivilTime, LogLevel,
    MeetingError, MeetingLogContext, MeetingStatus, MeetingTimer, MixerBuffers,
};

fn mix(a: &[f32], b: &[f32]) -> Vec<f32> {
    zip_padded(a, b, 0.0f32, |m: f32, s: f32| ((m + s) * 0.5).clamp(-1.0, 1.0))
}

fn lerp(a: f32, b: f32, num: u64, den: u64) -> f32 {
    a + (b - a) * (num as f32 / den as f32)
}

#[test]
fn test_mix_audio_same_length() {
    let mic = vec![0.5, -0.5, 0.0];
    let sys = vec![0.5, 0.5, 0.0];
    let mixed = mix(&mic, &sys);
    assert_eq!(mixed.len(), 3);
    assert!((mixed[0] - 0.5).abs() < 0.001);
    assert!((mixed[1] - 0.0).abs() < 0.001);
    assert!((mixed[2] - 0.0).abs() < 0.001);
}

#[test]
fn test_mix_audio_different_lengths() {
    let mic = vec![0.5, -0.5];
    let sys = vec![0.5, 0.5, 1.0, 1.0];
    let mixed = mix(&mic, &sys);
    assert_eq!(mixed.len(), 4);
}

#[test]
fn mix_stays_in_range_and_pads() {
    let mixed = mix(&[1.0, 1.0, -1.0], &[1.0]);
    assert_eq!(mixed, vec![1.0, 0.5, -0.5]);
    assert!(mixed.iter().all(|x| (-1.0..=1.0).contains(x)));
    assert!(mix(&[], &[]).is_empty());
}

#[test]
fn test_resample_same_rate() {
    let samples = vec![1.0f32, 2.0, 3.0];
    let resampled = resample_by(&samples, 16000, 16000, 0.0, lerp);
    assert_eq!(resampled, samples);
}

#[test]
fn test_resample_upsample() {
    let samples = vec![0.0f32, 1.0];
    let resampled = resample_by(&samples, 8000, 16000, 0.0, lerp);
    assert!(resampled.len() >= 3);
}

#[test]
fn resample_interpolates_and_counts() {
    let r = resample_by(&[0.0f32, 1.0], 8000, 16000, 0.0, lerp);
    assert_eq!(r, vec![0.0, 0.5, 1.0, 1.0]);
    let down = resample_by(&[0.0f32, 1.0, 2.0, 3.0, 4.0], 48000, 16000, 0.0, lerp);
    assert_eq!(down, vec![0.0, 3.0]);
    assert_eq!(resampled_len(5, 48000, 16000), 2);
    assert_eq!(resampled_len(3, 2, 3), 5);
    assert_eq!(resampled_len(0, 8000, 16000), 0);
    assert!(resample_by(&[1.0f32, 2.0], 8000, 0, 0.0, lerp).is_empty());
}

#[test]
fn default_title_from_local_time() {
    let t = CivilTime { year: 2025, month: 1, day: 15, hour: 15, minute: 30 };
    assert_eq!(meeting_title(Some(t), 0), "Meeting - January 15, 2025 3:30 PM");
    let midnight = CivilTime { year: 2024, month: 12, day: 5, hour: 0, minute: 7 };
    assert_eq!(meeting_title(Some(midnight), 0), "Meeting - December 5, 2024 12:07 AM");
    let noon = CivilTime { year: 2024, month: 6, day: 30, hour: 12, minute: 0 };
    assert_eq!(meeting_title(Some(noon), 0), "Meeting - June 30, 2024 12:00 PM");
    assert_eq!(meeting_title(None, -42), "Meeting -42");
}

#[test]
fn title_of_now_is_formatted() {
    let title = format_meeting_title(1705340400);
    assert!(title.starts_with("Meeting - "));
    assert!(title.contains(", 2024 ") || title.contains(", 2025 "));
    assert_eq!(format_meeting_title(i64::MAX), format!("Meeting {}", i64::MAX));
}

#[test]
fn relative_paths() {
    assert_eq!(audio_path_for("id1"), "id1/audio.wav");
    assert_eq!(transcript_path_for("id1"), "id1/transcript.txt");
    assert_eq!(summary_path_for("id1"), "id1/summary.md");
}

#[test]
fn durations_clamp_at_zero() {
    assert_eq!(partial_duration(100, 160), 60);
    assert_eq!(partial_duration(100, 90), 0);
    assert_eq!(partial_duration(i64::MIN, i64::MAX), i64::MAX);
}

#[test]
fn numerals() {
    assert_eq!(decimal_string(0), "0");
    assert_eq!(decimal_string(1234567890123), "1234567890123");
    assert_eq!(signed_decimal_string(-905), "-905");
    assert_eq!(signed_decimal_string(i64::MIN), "-9223372036854775808");
    assert_eq!(two_digit_string(7), "07");
    assert_eq!(two_digit_string(42), "42");
    assert!(is_blank_str(" \t\n\u{3000}"));
    assert!(is_blank_str(""));
    assert!(!is_blank_str("  a "));
}

#[test]
fn status_and_source_names() {
    let all = [
        MeetingStatus::Idle,
        MeetingStatus::Recording,
        MeetingStatus::Processing,
        MeetingStatus::Completed,
        MeetingStatus::Failed,
        MeetingStatus::Interrupted,
    ];
    for s in all {
        assert_eq!(MeetingStatus::from_name(s.as_str()), s);
    }
    assert_eq!(MeetingStatus::Interrupted.as_str(), "interrupted");
    assert_eq!(MeetingStatus::from_name("bogus"), MeetingStatus::Idle);
    assert_eq!(AudioSource::from_name("system_only"), Some(AudioSource::SystemOnly));
    assert_eq!(AudioSource::Mixed.as_str(), "mixed");
    assert_eq!(AudioSource::from_name("both"), None);
    assert_eq!(AudioSource::default(), AudioSource::MicrophoneOnly);
    assert_eq!(AudioSourceConfig::default(), AudioSourceConfig::MicrophoneOnly);
    let mixed = AudioSource::Mixed.config();
    assert!(mixed.needs_mixer() && mixed.uses_microphone() && mixed.uses_system_audio());
    assert!(!AudioSourceConfig::SystemOnly.uses_microphone());
}

#[test]
fn bridge_checks() {
    assert!(check_audio_format(16, 16000).is_ok());
    let e = check_audio_format(8, 44100).unwrap_err();
    assert_eq!(e.message(), "Audio format mismatch: expected 16-bit/16000Hz, got 8/44100Hz");
    assert!(matches!(check_samples(0), Err(MeetingError::NoSamples)));
    assert!(check_samples(1).is_ok());
    assert!(matches!(check_transcript(""), Err(MeetingError::EmptyTranscript)));
    assert!(check_transcript("hi").is_ok());
    assert!(check_transcript_size(SUMMARY_TRANSCRIPT_LIMIT, SUMMARY_TRANSCRIPT_LIMIT).is_ok());
    let big = check_transcript_size(SUMMARY_TRANSCRIPT_LIMIT + 1, SUMMARY_TRANSCRIPT_LIMIT).unwrap_err();
    assert_eq!(big.message(), "Transcript too large: 1048577 bytes exceeds the limit of 1048576 bytes");
}

#[test]
fn error_messages() {
    assert_eq!(
        MeetingError::InvalidTransition(MeetingStatus::Idle, MeetingStatus::Completed).message(),
        "Invalid state transition: idle -> completed"
    );
    assert_eq!(MeetingError::SessionNotFound("q".to_string()).message(), "Session not found: q");
    assert_eq!(
        MeetingError::NotRecording(MeetingStatus::Idle).message(),
        "Cannot stop recording: no recording in progress (session is Idle)"
    );
    assert_eq!(MeetingError::EmptyTitle.message(), "Title cannot be empty");
}

#[test]
fn log_lines() {
    let ctx = MeetingLogContext::new("s1", "stop");
    let r = ctx.log_start();
    assert_eq!(r.level, LogLevel::Info);
    assert_eq!(r.message, "[MEETING] [s1] stop - Started");
    assert_eq!(ctx.log_success("ok").message, "[MEETING] [s1] stop - Success: ok");
    assert_eq!(ctx.log_success_with_duration(250, "done").message, "[MEETING] [s1] stop - Success (250ms): done");
    let e = ctx.log_error("bad");
    assert_eq!(e.level, LogLevel::Error);
    assert_eq!(e.message, "[MEETING] [s1] stop - Error: bad");
    assert_eq!(ctx.log_warning("w").level, LogLevel::Warn);
    assert_eq!(ctx.log_debug("d").message, "[MEETING] [s1] stop - d");
    assert_eq!(ctx.log_state_transition("recording", "processing").message, "[MEETING] [s1] stop - State transition: recording -> processing");
    assert_eq!(ctx.log_timing("finalize", 12).message, "[MEETING] [s1] stop - Timing: finalize = 12ms");
    assert_eq!(ctx.log_file_op("s1/audio.wav", Some(64044)).message, "[MEETING] [s1] stop - File: s1/audio.wav (64044 bytes)");
    assert_eq!(ctx.log_file_op("s1/audio.wav", None).message, "[MEETING] [s1] stop - File: s1/audio.wav");
    assert_eq!(log_meeting_event("s1", "started", "mic").message, "[MEETING_EVENT] session=s1 event=started details=mic");
}

#[test]
fn timer_measures_forward() {
    let t = MeetingTimer::start();
    let a = t.elapsed_ms();
    let b = t.elapsed_ms();
    assert!(b >= a);
}

#[test]
fn mixer_tick_aligns_and_clears() {
    let mut b: MixerBuffers<i32> = MixerBuffers::new();
    assert!(b.tick(0, |x: i32, y: i32| x + y).is_none());
    b.push_mic(vec![1, 2, 3]);
    b.push_sys(vec![10]);
    b.push_mic(vec![4]);
    assert_eq!(b.tick(0, |x: i32, y: i32| x + y), Some(vec![11, 2, 3, 4]));
    assert!(b.tick(0, |x: i32, y: i32| x + y).is_none());
    b.push_sys(vec![5, 6]);
    assert_eq!(b.tick(0, |x: i32, y: i32| x * 10 + y), Some(vec![5, 6]));
}

#[test]
fn stored_columns_decode() {
    let s = session_from_columns(
        "id9".to_string(),
        "Standup".to_string(),
        77,
        Some(12),
        "interrupted",
        Some("id9/audio.wav".to_string()),
        None,
        Some("boom".to_string()),
        "mixed",
        None,
    );
    assert_eq!(s.status, MeetingStatus::Interrupted);
    assert_eq!(s.audio_source, AudioSource::Mixed);
    assert_eq!(s.duration, Some(12));
    assert_eq!(s.error_message.as_deref(), Some("boom"));
    let t = session_from_columns("x".to_string(), "y".to_string(), 1, None, "weird", None, None, None, "", None);
    assert_eq!(t.status, MeetingStatus::Idle);
    assert_eq!(t.audio_source, AudioSource::MicrophoneOnly);
}

use meeting_core::templates::{
    create_meeting_template, delete_meeting_template, update_meeting_template, MeetingTemplate,
    TemplateError,
};
use meeting_core::text::{contains_placeholder, starts_with, trim};

fn template(id: &str, name: &str) -> MeetingTemplate {
    MeetingTemplate {
        id: id.to_string(),
        name: name.to_string(),
        icon: "i".to_string(),
        title_template: "t".to_string(),
        audio_source: "mixed".to_string(),
        prompt_id: None,
        summary_prompt_template: None,
        created_at: 1,
        updated_at: 1,
    }
}

#[test]
fn template_creation_rules() {
    let mut ts = vec![template("template_default", "Standup")];
    let e = create_meeting_template(&mut ts, "  ".into(), "i".into(), "t".into(), "mixed".into(), None, None).unwrap_err();
    assert_eq!(e.message(), "Template name cannot be empty");
    let long = "x".repeat(51);
    assert!(matches!(
        create_meeting_template(&mut ts, long, "i".into(), "t".into(), "mixed".into(), None, None),
        Err(TemplateError::NameTooLong)
    ));
    let e = create_meeting_template(&mut ts, "A".into(), "i".into(), "t".into(), "both".into(), None, None).unwrap_err();
    assert_eq!(e.message(), "Invalid audio_source: both");
    assert!(matches!(
        create_meeting_template(&mut ts, "A".into(), "i".into(), "t".into(), "mixed".into(), None, Some("no slot".into())),
        Err(TemplateError::MissingPlaceholder)
    ));
    assert!(matches!(
        create_meeting_template(&mut ts, "A".into(), "i".into(), "t".into(), "mixed".into(), None, Some(format!("{{}}{}", "y".repeat(10000)))),
        Err(TemplateError::PromptTooLong)
    ));
    let e = create_meeting_template(&mut ts, " Standup ".into(), "i".into(), "t".into(), "mixed".into(), None, None).unwrap_err();
    assert_eq!(e.message(), "Template with name 'Standup' already exists");
    assert_eq!(ts.len(), 1);

    let t = create_meeting_template(&mut ts, "  Retro ".into(), "r".into(), "Retro {date}".into(), "system_only".into(), Some("p1".into()), Some("Summarize: {}".into())).unwrap();
    assert_eq!(t.name, "Retro");
    assert_eq!(t.id.len(), 36);
    assert_eq!(t.created_at, t.updated_at);
    assert_eq!(ts.len(), 2);
    assert_eq!(ts[1].name, "Retro");
}

#[test]
fn template_update_rules() {
    let mut ts = vec![template("a", "One"), template("b", "Two")];
    let e = update_meeting_template(&mut ts, "zz", None, None, None, None, None, None).unwrap_err();
    assert_eq!(e.message(), "Template with id 'zz' not found");
    assert!(matches!(
        update_meeting_template(&mut ts, "b", Some(" ".into()), None, None, None, None, None),
        Err(TemplateError::EmptyName)
    ));
    assert!(matches!(
        update_meeting_template(&mut ts, "b", None, None, None, Some("loud".into()), None, None),
        Err(TemplateError::InvalidAudioSource(_))
    ));
    assert!(matches!(
        update_meeting_template(&mut ts, "b", None, None, None, None, None, Some("x".into())),
        Err(TemplateError::MissingPlaceholder)
    ));
    assert_eq!(ts[1].name, "Two");
    let t = update_meeting_template(&mut ts, "b", Some(" Deux ".into()), Some("d".into()), None, Some("microphone_only".into()), Some("p".into()), Some(String::new())).unwrap();
    assert_eq!(t.name, "Deux");
    assert_eq!(t.icon, "d");
    assert_eq!(t.title_template, "t");
    assert_eq!(t.audio_source, "microphone_only");
    assert_eq!(t.prompt_id.as_deref(), Some("p"));
    assert_eq!(t.summary_prompt_template.as_deref(), Some(""));
    assert_eq!(t.created_at, 1);
    assert_eq!(ts[1].name, "Deux");
    assert_eq!(ts[0].name, "One");
}

#[test]
fn template_delete_rules() {
    let mut ts = vec![template("template_default", "Std"), template("a", "One"), template("b", "Two")];
    assert!(matches!(delete_meeting_template(&mut ts, "template_default"), Err(TemplateError::DefaultTemplate)));
    assert!(matches!(delete_meeting_template(&mut ts, "zz"), Err(TemplateError::NotFound(_))));
    assert_eq!(ts.len(), 3);
    delete_meeting_template(&mut ts, "a").unwrap();
    assert_eq!(ts.len(), 2);
    assert_eq!(ts[0].id, "template_default");
    assert_eq!(ts[1].id, "b");
}

#[test]
fn trimming_and_scanning() {
    assert_eq!(trim("  a b \n"), "a b");
    assert_eq!(trim("   "), "");
    assert_eq!(trim("x"), "x");
    assert!(contains_placeholder("Summary of {} please"));
    assert!(!contains_placeholder("{ }"));
    assert!(starts_with("template_x", "template_"));
    assert!(!starts_with("templ", "template_"));
}
