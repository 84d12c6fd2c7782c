//! Session lifecycle engine for recording meetings: the session record and
//! its status machine, the decisions of the engine that coordinates capture,
//! the WAV sink and the store, the checks made before transcription and
//! summaries, the alignment and resampling of sample streams, structured log
//! lines, and meeting templates.
use vstd::prelude::*;

pub mod audio;
pub mod checks;
pub mod engine;
pub mod error;
pub mod logger;
pub mod platform;
pub mod session;
pub mod sink;
pub mod status;
pub mod templates;
pub mod text;

pub use audio::{resample_by, resampled_len, zip_padded, MixerBuffers};
pub use engine::MeetingSessionManager;
pub use error::MeetingError;
pub use logger::{log_meeting_event, LogLevel, LogRecord, MeetingLogContext, MeetingTimer};
pub use session::{
    format_meeting_title, meeting_title, session_from_columns, CivilTime, MeetingSession,
};
pub use sink::{finalize_step, FinalizeStep, SinkLatch};
pub use status::{AudioSource, AudioSourceConfig, MeetingStatus};

verus! {

} // verus!
