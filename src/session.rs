//! The session record, its on-disk names, its default title and its duration.
use vstd::prelude::*;
use crate::status::{AudioSource, MeetingStatus};
use crate::text::{decimal, signed_decimal, two_digits};

verus! {

/// One recording attempt: its identity, its files and where it stands.
#[derive(Debug)]
pub struct MeetingSession {
    /// Version-4 UUID in lowercase hex.
    pub id: String,
    /// User-editable title.
    pub title: String,
    /// Seconds since the Unix epoch, set once at creation.
    pub created_at: i64,
    /// Length of the recording in seconds, set when recording ends.
    pub duration: Option<i64>,
    pub status: MeetingStatus,
    /// `<id>/audio.wav`, set when recording begins.
    pub audio_path: Option<String>,
    /// `<id>/transcript.txt`, set when transcription succeeds.
    pub transcript_path: Option<String>,
    /// Why the session failed or was interrupted.
    pub error_message: Option<String>,
    pub audio_source: AudioSource,
    /// `<id>/summary.md`, set when a summary is saved.
    pub summary_path: Option<String>,
}

/// `"<id>/audio.wav"`.
pub open spec fn audio_rel_path(id: Seq<char>) -> Seq<char> {
    id + "/audio.wav"@
}

/// `"<id>/transcript.txt"`.
pub open spec fn transcript_rel_path(id: Seq<char>) -> Seq<char> {
    id + "/transcript.txt"@
}

/// `"<id>/summary.md"`.
pub open spec fn summary_rel_path(id: Seq<char>) -> Seq<char> {
    id + "/summary.md"@
}

/// `max(0, end - start)`, capped at what an `i64` holds.
pub open spec fn clamped_duration(start: i64, end: i64) -> i64 {
    if end - start <= 0 {
        0
    } else if end - start > i64::MAX {
        i64::MAX
    } else {
        (end - start) as i64
    }
}

/// A fresh session: no duration, no files, status `Idle`, microphone capture.
pub open spec fn fresh_session(id: String, title: String, created_at: i64) -> MeetingSession {
    MeetingSession {
        id,
        title,
        created_at,
        duration: None,
        status: MeetingStatus::Idle,
        audio_path: None,
        transcript_path: None,
        error_message: None,
        audio_source: AudioSource::MicrophoneOnly,
        summary_path: None,
    }
}

pub fn copy_opt_string(o: &Option<String>) -> (r: Option<String>)
    ensures
        r == *o,
{
    match o {
        Some(s) => Some(s.clone()),
        None => None,
    }
}

fn with_suffix(id: &str, suffix: &str) -> (r: String)
    ensures
        r@ == id@ + suffix@,
{
    let mut s = id.to_owned();
    s.append(suffix);
    s
}

/// The audio file of a session, relative to the meetings root.
pub fn audio_path_for(id: &str) -> (r: String)
    ensures
        r@ == audio_rel_path(id@),
{
    with_suffix(id, "/audio.wav")
}

/// The transcript file of a session, relative to the meetings root.
pub fn transcript_path_for(id: &str) -> (r: String)
    ensures
        r@ == transcript_rel_path(id@),
{
    with_suffix(id, "/transcript.txt")
}

/// The summary file of a session, relative to the meetings root.
pub fn summary_path_for(id: &str) -> (r: String)
    ensures
        r@ == summary_rel_path(id@),
{
    with_suffix(id, "/summary.md")
}

/// Duration of an interrupted recording: `max(0, now - created_at)`.
pub fn partial_duration(created_at: i64, now: i64) -> (r: i64)
    ensures
        r == clamped_duration(created_at, now),
        r >= 0,
{
    match now.checked_sub(created_at) {
        Some(d) => if d > 0 { d } else { 0 },
        None => if now > created_at { i64::MAX } else { 0 },
    }
}

impl MeetingSession {
    /// A session with the given identity, title and creation time, status `Idle`,
    /// and nothing recorded yet.
    pub fn new(id: String, title: String, created_at: i64) -> (r: Self)
        ensures
            r == fresh_session(id, title, created_at),
    {
        MeetingSession {
            id,
            title,
            created_at,
            duration: None,
            status: MeetingStatus::Idle,
            audio_path: None,
            transcript_path: None,
            error_message: None,
            audio_source: AudioSource::MicrophoneOnly,
            summary_path: None,
        }
    }

    /// The same session, captured from `source`.
    pub fn with_audio_source(self, source: AudioSource) -> (r: Self)
        ensures
            r == (MeetingSession { audio_source: source, ..self }),
    {
        MeetingSession { audio_source: source, ..self }
    }

    /// A field-by-field copy.
    pub fn copy(&self) -> (r: Self)
        ensures
            r == *self,
    {
        MeetingSession {
            id: self.id.clone(),
            title: self.title.clone(),
            created_at: self.created_at,
            duration: self.duration,
            status: self.status,
            audio_path: copy_opt_string(&self.audio_path),
            transcript_path: copy_opt_string(&self.transcript_path),
            error_message: copy_opt_string(&self.error_message),
            audio_source: self.audio_source,
            summary_path: copy_opt_string(&self.summary_path),
        }
    }
}

/// A local wall-clock time, as the title shows it.
#[derive(Clone, Copy, Debug, PartialEq, Eq, Structural)]
pub struct CivilTime {
    pub year: i32,
    /// 1 to 12.
    pub month: u32,
    /// 1 to 31.
    pub day: u32,
    /// 0 to 23.
    pub hour: u32,
    /// 0 to 59.
    pub minute: u32,
}

impl CivilTime {
    pub open spec fn wf(&self) -> bool {
        1 <= self.month <= 12 && 1 <= self.day <= 31 && self.hour < 24 && self.minute < 60
    }
}

pub open spec fn month_name(m: u32) -> Seq<char> {
    if m == 1 { "January"@ }
    else if m == 2 { "February"@ }
    else if m == 3 { "March"@ }
    else if m == 4 { "April"@ }
    else if m == 5 { "May"@ }
    else if m == 6 { "June"@ }
    else if m == 7 { "July"@ }
    else if m == 8 { "August"@ }
    else if m == 9 { "September"@ }
    else if m == 10 { "October"@ }
    else if m == 11 { "November"@ }
    else { "December"@ }
}

/// The hour on a twelve-hour clock: 12, 1, ..., 11.
pub open spec fn hour12(h: u32) -> nat {
    if h % 12 == 0 { 12 } else { (h % 12) as nat }
}

pub open spec fn meridiem(h: u32) -> Seq<char> {
    if h < 12 { "AM"@ } else { "PM"@ }
}

/// `"<month> <day>, <year> <hour>:<minute> <AM/PM>"`.
pub open spec fn civil_text(c: CivilTime) -> Seq<char> {
    month_name(c.month) + " "@ + decimal(c.day as nat) + ", "@ + signed_decimal(c.year as int)
        + " "@ + decimal(hour12(c.hour)) + ":"@ + two_digits(c.minute as nat) + " "@
        + meridiem(c.hour)
}

/// The default title: `"Meeting - <local time>"`, or `"Meeting <timestamp>"` when the
/// timestamp has no local time.
pub open spec fn title_text(local: Option<CivilTime>, timestamp: i64) -> Seq<char> {
    match local {
        Some(c) => "Meeting - "@ + civil_text(c),
        None => "Meeting "@ + signed_decimal(timestamp as int),
    }
}

fn month_str(m: u32) -> (r: &'static str)
    ensures
        r@ == month_name(m),
{
    if m == 1 { "January" }
    else if m == 2 { "February" }
    else if m == 3 { "March" }
    else if m == 4 { "April" }
    else if m == 5 { "May" }
    else if m == 6 { "June" }
    else if m == 7 { "July" }
    else if m == 8 { "August" }
    else if m == 9 { "September" }
    else if m == 10 { "October" }
    else if m == 11 { "November" }
    else { "December" }
}

/// The default title of a session created at `timestamp`, whose local time is `local`.
pub fn meeting_title(local: Option<CivilTime>, timestamp: i64) -> (r: String)
    requires
        local is Some ==> local.unwrap().wf(),
    ensures
        r@ == title_text(local, timestamp),
{
    match local {
        Some(c) => {
            let mut s = String::from_str("Meeting - ");
            s.append(month_str(c.month));
            s.append(" ");
            let day = crate::text::decimal_string(c.day as u128);
            s.append(day.as_str());
            s.append(", ");
            let year = crate::text::signed_decimal_string(c.year as i64);
            s.append(year.as_str());
            s.append(" ");
            let h: u32 = if c.hour % 12 == 0 { 12 } else { c.hour % 12 };
            let hour = crate::text::decimal_string(h as u128);
            s.append(hour.as_str());
            s.append(":");
            let minute = crate::text::two_digit_string(c.minute);
            s.append(minute.as_str());
            s.append(" ");
            s.append(if c.hour < 12 { "AM" } else { "PM" });
            s
        },
        None => {
            let mut s = String::from_str("Meeting ");
            let n = crate::text::signed_decimal_string(timestamp);
            s.append(n.as_str());
            s
        },
    }
}

} // verus!

verus! {

/// A local time that is absent or within the calendar ranges.
pub open spec fn civil_ok(local: Option<CivilTime>) -> bool {
    match local {
        Some(c) => c.wf(),
        None => true,
    }
}

/// The default title of a session created at `timestamp`, in the machine's time zone.
pub fn format_meeting_title(timestamp: i64) -> (r: String)
    ensures
        exists|local: Option<CivilTime>| civil_ok(local) && r@ == title_text(local, timestamp),
{
    let local = crate::platform::local_time_of(timestamp);
    let r = meeting_title(local, timestamp);
    assert(civil_ok(local) && r@ == title_text(local, timestamp));
    r
}

/// Rebuilds a session from the columns of its stored row. An unknown status
/// reads as `Idle`, an unknown source as the microphone.
pub fn session_from_columns(
    id: String,
    title: String,
    created_at: i64,
    duration: Option<i64>,
    status: &str,
    audio_path: Option<String>,
    transcript_path: Option<String>,
    error_message: Option<String>,
    audio_source: &str,
    summary_path: Option<String>,
) -> (r: MeetingSession)
    ensures
        r == (MeetingSession {
            id,
            title,
            created_at,
            duration,
            status: crate::status::status_of_name(status@),
            audio_path,
            transcript_path,
            error_message,
            audio_source: match crate::status::source_of_name(audio_source@) {
                Some(s) => s,
                None => AudioSource::MicrophoneOnly,
            },
            summary_path,
        }),
{
    let source = match AudioSource::from_name(audio_source) {
        Some(s) => s,
        None => AudioSource::MicrophoneOnly,
    };
    MeetingSession {
        id,
        title,
        created_at,
        duration,
        status: MeetingStatus::from_name(status),
        audio_path,
        transcript_path,
        error_message,
        audio_source: source,
        summary_path,
    }
}

/// Storing a session's columns, with the status and source as spelled by
/// `as_str`, and decoding them with `session_from_columns` gives the session back.
pub proof fn lemma_columns_round_trip(s: MeetingSession)
    ensures
        (MeetingSession {
            status: crate::status::status_of_name(crate::status::status_name(s.status)),
            audio_source: match crate::status::source_of_name(crate::status::source_name(s.audio_source)) {
                Some(a) => a,
                None => AudioSource::MicrophoneOnly,
            },
            ..s
        }) == s,
{
    crate::status::lemma_status_name_round_trip(s.status);
    crate::status::lemma_source_name_round_trip(s.audio_source);
}

} // verus!
