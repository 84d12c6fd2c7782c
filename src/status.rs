//! Lifecycle status of a session and the capture configuration it was started with.
use vstd::prelude::*;

verus! {

/// Lifecycle status of a meeting session.
#[derive(Clone, Copy, Debug, PartialEq, Eq, Structural)]
pub enum MeetingStatus {
    /// Created, not yet recording.
    Idle,
    /// Audio is being captured.
    Recording,
    /// Recording stopped, transcription in progress.
    Processing,
    /// Transcription saved.
    Completed,
    /// Device disconnect, transcription or save failure; audio preserved.
    Failed,
    /// Recording ended by application shutdown.
    Interrupted,
}

/// The spelling of a status in the store.
pub open spec fn status_name(s: MeetingStatus) -> Seq<char> {
    match s {
        MeetingStatus::Idle => seq!['i', 'd', 'l', 'e'],
        MeetingStatus::Recording => seq!['r', 'e', 'c', 'o', 'r', 'd', 'i', 'n', 'g'],
        MeetingStatus::Processing => seq!['p', 'r', 'o', 'c', 'e', 's', 's', 'i', 'n', 'g'],
        MeetingStatus::Completed => seq!['c', 'o', 'm', 'p', 'l', 'e', 't', 'e', 'd'],
        MeetingStatus::Failed => seq!['f', 'a', 'i', 'l', 'e', 'd'],
        MeetingStatus::Interrupted => seq![
            'i', 'n', 't', 'e', 'r', 'r', 'u', 'p', 't', 'e', 'd'
        ],
    }
}

/// The status a stored spelling stands for; an unknown spelling reads as `Idle`.
pub open spec fn status_of_name(s: Seq<char>) -> MeetingStatus {
    if s == status_name(MeetingStatus::Recording) {
        MeetingStatus::Recording
    } else if s == status_name(MeetingStatus::Processing) {
        MeetingStatus::Processing
    } else if s == status_name(MeetingStatus::Completed) {
        MeetingStatus::Completed
    } else if s == status_name(MeetingStatus::Failed) {
        MeetingStatus::Failed
    } else if s == status_name(MeetingStatus::Interrupted) {
        MeetingStatus::Interrupted
    } else {
        MeetingStatus::Idle
    }
}

/// The transitions of the session state machine.
pub open spec fn transition_allowed(from: MeetingStatus, to: MeetingStatus) -> bool {
    match (from, to) {
        (MeetingStatus::Idle, MeetingStatus::Recording) => true,
        (MeetingStatus::Recording, MeetingStatus::Processing) => true,
        (MeetingStatus::Recording, MeetingStatus::Failed) => true,
        (MeetingStatus::Recording, MeetingStatus::Interrupted) => true,
        (MeetingStatus::Processing, MeetingStatus::Completed) => true,
        (MeetingStatus::Processing, MeetingStatus::Failed) => true,
        (MeetingStatus::Failed, MeetingStatus::Processing) => true,
        (MeetingStatus::Interrupted, MeetingStatus::Processing) => true,
        (MeetingStatus::Completed, MeetingStatus::Processing) => true,
        _ => false,
    }
}

/// Recording or Processing: the statuses of which at most one session may hold one.
pub open spec fn is_active(s: MeetingStatus) -> bool {
    s == MeetingStatus::Recording || s == MeetingStatus::Processing
}

/// The statuses from which transcription may be run again.
pub open spec fn is_retryable(s: MeetingStatus) -> bool {
    s == MeetingStatus::Failed || s == MeetingStatus::Interrupted || s == MeetingStatus::Completed
}

impl Default for MeetingStatus {
    fn default() -> (r: Self)
        ensures
            r == MeetingStatus::Idle,
    {
        MeetingStatus::Idle
    }
}

impl MeetingStatus {
    /// The spelling of this status in the store.
    pub fn as_str(&self) -> (r: &'static str)
        ensures
            r@ == status_name(*self),
    {
        proof {
            reveal_strlit("idle");
            reveal_strlit("recording");
            reveal_strlit("processing");
            reveal_strlit("completed");
            reveal_strlit("failed");
            reveal_strlit("interrupted");
        }
        match self {
            MeetingStatus::Idle => "idle",
            MeetingStatus::Recording => "recording",
            MeetingStatus::Processing => "processing",
            MeetingStatus::Completed => "completed",
            MeetingStatus::Failed => "failed",
            MeetingStatus::Interrupted => "interrupted",
        }
    }

    /// Reads a stored spelling; an unknown one reads as `Idle`.
    pub fn from_name(s: &str) -> (r: MeetingStatus)
        ensures
            r == status_of_name(s@),
    {
        if crate::text::str_equal(s, MeetingStatus::Recording.as_str()) {
            MeetingStatus::Recording
        } else if crate::text::str_equal(s, MeetingStatus::Processing.as_str()) {
            MeetingStatus::Processing
        } else if crate::text::str_equal(s, MeetingStatus::Completed.as_str()) {
            MeetingStatus::Completed
        } else if crate::text::str_equal(s, MeetingStatus::Failed.as_str()) {
            MeetingStatus::Failed
        } else if crate::text::str_equal(s, MeetingStatus::Interrupted.as_str()) {
            MeetingStatus::Interrupted
        } else {
            MeetingStatus::Idle
        }
    }

    /// Whether the state machine permits moving from `self` to `to`.
    pub fn can_transition_to(&self, to: &MeetingStatus) -> (r: bool)
        ensures
            r == transition_allowed(*self, *to),
    {
        match (self, to) {
            (MeetingStatus::Idle, MeetingStatus::Recording) => true,
            (MeetingStatus::Recording, MeetingStatus::Processing) => true,
            (MeetingStatus::Recording, MeetingStatus::Failed) => true,
            (MeetingStatus::Recording, MeetingStatus::Interrupted) => true,
            (MeetingStatus::Processing, MeetingStatus::Completed) => true,
            (MeetingStatus::Processing, MeetingStatus::Failed) => true,
            (MeetingStatus::Failed, MeetingStatus::Processing) => true,
            (MeetingStatus::Interrupted, MeetingStatus::Processing) => true,
            (MeetingStatus::Completed, MeetingStatus::Processing) => true,
            _ => false,
        }
    }

    /// Recording or Processing.
    pub fn is_active(&self) -> (r: bool)
        ensures
            r == is_active(*self),
    {
        match self {
            MeetingStatus::Recording | MeetingStatus::Processing => true,
            _ => false,
        }
    }

    /// Failed, Interrupted or Completed.
    pub fn is_retryable(&self) -> (r: bool)
        ensures
            r == is_retryable(*self),
    {
        match self {
            MeetingStatus::Failed | MeetingStatus::Interrupted | MeetingStatus::Completed => true,
            _ => false,
        }
    }
}

/// The statuses' spellings are distinct, so reading back a written status gives it again.
pub proof fn lemma_status_name_round_trip(s: MeetingStatus)
    ensures
        status_of_name(status_name(s)) == s,
{
    let r = status_name(MeetingStatus::Recording);
    let p = status_name(MeetingStatus::Processing);
    let c = status_name(MeetingStatus::Completed);
    let f = status_name(MeetingStatus::Failed);
    let i = status_name(MeetingStatus::Interrupted);
    let d = status_name(MeetingStatus::Idle);
    assert(r[0] != p[0] && r[0] != c[0] && r[0] != f[0] && r[0] != i[0] && r[0] != d[0]);
    assert(p[0] != c[0] && p[0] != f[0] && p[0] != i[0] && p[0] != d[0]);
    assert(c[0] != f[0] && c[0] != i[0] && c[0] != d[0]);
    assert(f[0] != i[0] && f[0] != d[0]);
    assert(i.len() != d.len());
}

/// Where the captured audio comes from; fixed when a session is created.
#[derive(Clone, Copy, Debug, PartialEq, Eq, Structural)]
pub enum AudioSource {
    MicrophoneOnly,
    SystemOnly,
    Mixed,
}

/// The spelling of an audio source in the store.
pub open spec fn source_name(s: AudioSource) -> Seq<char> {
    match s {
        AudioSource::MicrophoneOnly => seq![
            'm', 'i', 'c', 'r', 'o', 'p', 'h', 'o', 'n', 'e', '_', 'o', 'n', 'l', 'y'
        ],
        AudioSource::SystemOnly => seq!['s', 'y', 's', 't', 'e', 'm', '_', 'o', 'n', 'l', 'y'],
        AudioSource::Mixed => seq!['m', 'i', 'x', 'e', 'd'],
    }
}

/// The source a stored spelling stands for, if any.
pub open spec fn source_of_name(s: Seq<char>) -> Option<AudioSource> {
    if s == source_name(AudioSource::MicrophoneOnly) {
        Some(AudioSource::MicrophoneOnly)
    } else if s == source_name(AudioSource::SystemOnly) {
        Some(AudioSource::SystemOnly)
    } else if s == source_name(AudioSource::Mixed) {
        Some(AudioSource::Mixed)
    } else {
        None
    }
}

/// The sources' spellings are distinct, so reading back a written source gives it again.
pub proof fn lemma_source_name_round_trip(s: AudioSource)
    ensures
        source_of_name(source_name(s)) == Some(s),
{
    let m = source_name(AudioSource::MicrophoneOnly);
    let y = source_name(AudioSource::SystemOnly);
    let x = source_name(AudioSource::Mixed);
    assert(m.len() != y.len() && m.len() != x.len() && y.len() != x.len());
}

impl Default for AudioSource {
    fn default() -> (r: Self)
        ensures
            r == AudioSource::MicrophoneOnly,
    {
        AudioSource::MicrophoneOnly
    }
}

impl AudioSource {
    /// The spelling of this source in the store.
    pub fn as_str(&self) -> (r: &'static str)
        ensures
            r@ == source_name(*self),
    {
        proof {
            reveal_strlit("microphone_only");
            reveal_strlit("system_only");
            reveal_strlit("mixed");
        }
        match self {
            AudioSource::MicrophoneOnly => "microphone_only",
            AudioSource::SystemOnly => "system_only",
            AudioSource::Mixed => "mixed",
        }
    }

    /// Reads a stored spelling.
    pub fn from_name(s: &str) -> (r: Option<AudioSource>)
        ensures
            r == source_of_name(s@),
    {
        if crate::text::str_equal(s, AudioSource::MicrophoneOnly.as_str()) {
            Some(AudioSource::MicrophoneOnly)
        } else if crate::text::str_equal(s, AudioSource::SystemOnly.as_str()) {
            Some(AudioSource::SystemOnly)
        } else if crate::text::str_equal(s, AudioSource::Mixed.as_str()) {
            Some(AudioSource::Mixed)
        } else {
            None
        }
    }

    /// The recorder configuration that captures this source.
    pub fn config(&self) -> (r: AudioSourceConfig)
        ensures
            r == source_config(*self),
    {
        match self {
            AudioSource::MicrophoneOnly => AudioSourceConfig::MicrophoneOnly,
            AudioSource::SystemOnly => AudioSourceConfig::SystemOnly,
            AudioSource::Mixed => AudioSourceConfig::Mixed,
        }
    }
}

/// Which recorders a capture runs.
#[derive(Clone, Copy, Debug, PartialEq, Eq, Structural)]
pub enum AudioSourceConfig {
    /// Only the microphone.
    MicrophoneOnly,
    /// Only system output audio.
    SystemOnly,
    /// Both, combined by the mixer.
    Mixed,
}

pub open spec fn source_config(s: AudioSource) -> AudioSourceConfig {
    match s {
        AudioSource::MicrophoneOnly => AudioSourceConfig::MicrophoneOnly,
        AudioSource::SystemOnly => AudioSourceConfig::SystemOnly,
        AudioSource::Mixed => AudioSourceConfig::Mixed,
    }
}

impl Default for AudioSourceConfig {
    fn default() -> (r: Self)
        ensures
            r == AudioSourceConfig::MicrophoneOnly,
    {
        AudioSourceConfig::MicrophoneOnly
    }
}

impl AudioSourceConfig {
    /// Whether the microphone recorder runs.
    pub fn uses_microphone(&self) -> (r: bool)
        ensures
            r == (*self != AudioSourceConfig::SystemOnly),
    {
        !matches!(self, AudioSourceConfig::SystemOnly)
    }

    /// Whether the system-audio recorder runs.
    pub fn uses_system_audio(&self) -> (r: bool)
        ensures
            r == (*self != AudioSourceConfig::MicrophoneOnly),
    {
        !matches!(self, AudioSourceConfig::MicrophoneOnly)
    }

    /// Whether the two streams go through the mixer.
    pub fn needs_mixer(&self) -> (r: bool)
        ensures
            r == (*self == AudioSourceConfig::Mixed),
    {
        matches!(self, AudioSourceConfig::Mixed)
    }
}

} // verus!
