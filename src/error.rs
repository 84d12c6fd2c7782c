//! Errors of the engine and of its checks, each with the message a caller shows.
use vstd::prelude::*;
use crate::status::{status_name, MeetingStatus};
use crate::text::decimal;

verus! {

/// Why an engine operation or a check was refused.
#[derive(Debug)]
pub enum MeetingError {
    /// A session is already recording.
    AlreadyRecording,
    /// A session is being transcribed.
    AlreadyProcessing,
    /// Stop without a current session.
    NoActiveSession,
    /// Stop while the current session is not recording.
    NotRecording(MeetingStatus),
    /// The current session has no audio file.
    NoAudioPath(String),
    /// The clock reads earlier than the session's creation.
    NegativeDuration(String),
    /// No session has this id.
    SessionNotFound(String),
    /// Two sessions with this id.
    DuplicateSession(String),
    /// The state machine has no such transition.
    InvalidTransition(MeetingStatus, MeetingStatus),
    /// Retry from a status that does not allow it.
    NotRetryable(MeetingStatus),
    /// Retry of a session without audio.
    NoAudioFile,
    /// Retry while another session records or is transcribed.
    SessionBusy,
    /// A title that is empty after trimming.
    EmptyTitle,
    /// A WAV file that is not 16-bit at 16000 Hz: bits per sample, sample rate.
    AudioFormat(u16, u32),
    /// A WAV file without samples.
    NoSamples,
    /// Speech-to-text returned nothing.
    EmptyTranscript,
    /// A transcript over the size limit: its size and the limit, in bytes.
    TranscriptTooLarge(u64, u64),
}

pub open spec fn stop_refusal_text(s: MeetingStatus) -> Seq<char> {
    match s {
        MeetingStatus::Idle => "Cannot stop recording: no recording in progress (session is Idle)"@,
        MeetingStatus::Processing => "Cannot stop recording: session is already being processed"@,
        MeetingStatus::Completed => "Cannot stop recording: session has already been completed"@,
        MeetingStatus::Failed => "Cannot stop recording: session has failed"@,
        MeetingStatus::Interrupted => "Cannot stop recording: session was interrupted"@,
        MeetingStatus::Recording => "Cannot stop recording: session is recording"@,
    }
}

/// The message of each error.
pub open spec fn error_text(e: MeetingError) -> Seq<char> {
    match e {
        MeetingError::AlreadyRecording =>
            "Cannot start recording: already recording an active session"@,
        MeetingError::AlreadyProcessing =>
            "Cannot start recording: another session is currently being processed"@,
        MeetingError::NoActiveSession => "Cannot stop recording: no active session"@,
        MeetingError::NotRecording(s) => stop_refusal_text(s),
        MeetingError::NoAudioPath(id) =>
            "Cannot stop recording: no audio path set for session "@ + id@,
        MeetingError::NegativeDuration(id) =>
            "Invalid duration for session "@ + id@ + ": created after the current time"@,
        MeetingError::SessionNotFound(id) => "Session not found: "@ + id@,
        MeetingError::DuplicateSession(id) => "Duplicate session id: "@ + id@,
        MeetingError::InvalidTransition(from, to) =>
            "Invalid state transition: "@ + status_name(from) + " -> "@ + status_name(to),
        MeetingError::NotRetryable(s) =>
            "Cannot retry transcription: session is in "@ + status_name(s) + " status"@,
        MeetingError::NoAudioFile => "Session has no audio file to transcribe"@,
        MeetingError::SessionBusy =>
            "Cannot retry transcription: another session is recording or being processed"@,
        MeetingError::EmptyTitle => "Title cannot be empty"@,
        MeetingError::AudioFormat(bits, rate) =>
            "Audio format mismatch: expected 16-bit/16000Hz, got "@ + decimal(bits as nat) + "/"@
                + decimal(rate as nat) + "Hz"@,
        MeetingError::NoSamples => "Audio file contains no samples"@,
        MeetingError::EmptyTranscript => "Transcription returned no text"@,
        MeetingError::TranscriptTooLarge(size, limit) =>
            "Transcript too large: "@ + decimal(size as nat) + " bytes exceeds the limit of "@
                + decimal(limit as nat) + " bytes"@,
    }
}

fn stop_refusal(s: MeetingStatus) -> (r: &'static str)
    ensures
        r@ == stop_refusal_text(s),
{
    match s {
        MeetingStatus::Idle => "Cannot stop recording: no recording in progress (session is Idle)",
        MeetingStatus::Processing => "Cannot stop recording: session is already being processed",
        MeetingStatus::Completed => "Cannot stop recording: session has already been completed",
        MeetingStatus::Failed => "Cannot stop recording: session has failed",
        MeetingStatus::Interrupted => "Cannot stop recording: session was interrupted",
        MeetingStatus::Recording => "Cannot stop recording: session is recording",
    }
}

fn joined(a: &str, b: &str) -> (r: String)
    ensures
        r@ == a@ + b@,
{
    let mut s = a.to_owned();
    s.append(b);
    s
}

impl MeetingError {
    /// The human-readable message of this error.
    pub fn message(&self) -> (r: String)
        ensures
            r@ == error_text(*self),
    {
        match self {
            MeetingError::AlreadyRecording => String::from_str(
                "Cannot start recording: already recording an active session",
            ),
            MeetingError::AlreadyProcessing => String::from_str(
                "Cannot start recording: another session is currently being processed",
            ),
            MeetingError::NoActiveSession => String::from_str(
                "Cannot stop recording: no active session",
            ),
            MeetingError::NotRecording(s) => String::from_str(stop_refusal(*s)),
            MeetingError::NoAudioPath(id) => joined(
                "Cannot stop recording: no audio path set for session ",
                id.as_str(),
            ),
            MeetingError::NegativeDuration(id) => {
                let mut m = joined("Invalid duration for session ", id.as_str());
                m.append(": created after the current time");
                m
            },
            MeetingError::SessionNotFound(id) => joined("Session not found: ", id.as_str()),
            MeetingError::DuplicateSession(id) => joined("Duplicate session id: ", id.as_str()),
            MeetingError::InvalidTransition(from, to) => {
                let mut m = joined("Invalid state transition: ", from.as_str());
                m.append(" -> ");
                m.append(to.as_str());
                m
            },
            MeetingError::NotRetryable(s) => {
                let mut m = joined("Cannot retry transcription: session is in ", s.as_str());
                m.append(" status");
                m
            },
            MeetingError::NoAudioFile => String::from_str(
                "Session has no audio file to transcribe",
            ),
            MeetingError::SessionBusy => String::from_str(
                "Cannot retry transcription: another session is recording or being processed",
            ),
            MeetingError::EmptyTitle => String::from_str("Title cannot be empty"),
            MeetingError::AudioFormat(bits, rate) => {
                let mut m = String::from_str("Audio format mismatch: expected 16-bit/16000Hz, got ");
                let b = crate::text::decimal_string(*bits as u128);
                m.append(b.as_str());
                m.append("/");
                let r = crate::text::decimal_string(*rate as u128);
                m.append(r.as_str());
                m.append("Hz");
                m
            },
            MeetingError::NoSamples => String::from_str("Audio file contains no samples"),
            MeetingError::EmptyTranscript => String::from_str("Transcription returned no text"),
            MeetingError::TranscriptTooLarge(size, limit) => {
                let mut m = String::from_str("Transcript too large: ");
                let a = crate::text::decimal_string(*size as u128);
                m.append(a.as_str());
                m.append(" bytes exceeds the limit of ");
                let b = crate::text::decimal_string(*limit as u128);
                m.append(b.as_str());
                m.append(" bytes");
                m
            },
        }
    }
}

} // verus!
