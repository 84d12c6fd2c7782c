//! The session engine: the table of sessions, the slot of the current session,
//! and every transition of the lifecycle. Each operation decides; the caller
//! persists the rows it returns, runs capture and transcription, and emits events.
use vstd::prelude::*;
use crate::error::MeetingError;
use crate::platform::is_uuid_v4;
use crate::session::{
    audio_rel_path, civil_ok, clamped_duration, summary_rel_path, title_text, transcript_rel_path,
    CivilTime, MeetingSession,
};
use crate::status::{is_active, is_retryable, AudioSource, MeetingStatus};

verus! {

/// No two rows share an id.
pub open spec fn ids_distinct(rows: Seq<MeetingSession>) -> bool {
    forall|i: int, j: int|
        0 <= i < rows.len() && 0 <= j < rows.len() && i != j ==> #[trigger] rows[i].id@
            != #[trigger] rows[j].id@
}

pub open spec fn has_id(rows: Seq<MeetingSession>, id: Seq<char>) -> bool {
    exists|i: int| 0 <= i < rows.len() && #[trigger] rows[i].id@ == id
}

/// The position of the row with this id.
pub open spec fn index_of(rows: Seq<MeetingSession>, id: Seq<char>) -> int {
    choose|i: int| 0 <= i < rows.len() && #[trigger] rows[i].id@ == id
}

/// The row with this id.
pub open spec fn row_with(rows: Seq<MeetingSession>, id: Seq<char>) -> MeetingSession {
    rows[index_of(rows, id)]
}

/// Newest first, by creation time.
pub open spec fn newest_first(rows: Seq<MeetingSession>) -> bool {
    forall|i: int, j: int|
        0 <= i < j < rows.len() ==> #[trigger] rows[i].created_at >= #[trigger] rows[j].created_at
}

pub open spec fn recovery_text() -> Seq<char> {
    "Session interrupted due to app shutdown (recovered on next launch)"@
}

pub open spec fn shutdown_text() -> Seq<char> {
    "Session interrupted due to app shutdown"@
}

pub open spec fn disconnect_text(detail: Seq<char>) -> Seq<char> {
    "Microphone disconnected: "@ + detail
}

/// An optional string that is present and reads `t`.
pub open spec fn holds_text(o: Option<String>, t: Seq<char>) -> bool {
    match o {
        Some(m) => m@ == t,
        None => false,
    }
}

/// `after` is `before` as found at startup: a row left `Recording` by a crash
/// becomes `Interrupted` with the recovery message; any other row is kept.
pub open spec fn recovered_row(before: MeetingSession, after: MeetingSession) -> bool {
    if before.status == MeetingStatus::Recording {
        after == (MeetingSession {
            status: MeetingStatus::Interrupted,
            error_message: after.error_message,
            ..before
        }) && holds_text(after.error_message, recovery_text())
    } else {
        after == before
    }
}

pub proof fn lemma_index_of(rows: Seq<MeetingSession>, id: Seq<char>, i: int)
    requires
        ids_distinct(rows),
        0 <= i < rows.len(),
        rows[i].id@ == id,
    ensures
        index_of(rows, id) == i,
        has_id(rows, id),
{
    assert(has_id(rows, id));
    let k = index_of(rows, id);
    assert(rows[k].id@ == id);
}

/// Replacing one row, with the slot unchanged, keeps both lifecycle invariants
/// when the new row keeps them itself.
proof fn lemma_replace_keeps(before: MeetingSessionManager, after: MeetingSessionManager, i: int)
    requires
        0 <= i < before.rows().len(),
        after.rows() == before.rows().update(i, after.rows()[i]),
        after.current_id() == before.current_id(),
        after.rows()[i].id@ == before.rows()[i].id@,
        is_active(after.rows()[i].status) ==> is_active(before.rows()[i].status),
        after.rows()[i].status == MeetingStatus::Completed ==> holds_text(
            after.rows()[i].transcript_path,
            transcript_rel_path(after.rows()[i].id@),
        ) || (before.rows()[i].status == MeetingStatus::Completed
            && after.rows()[i].transcript_path == before.rows()[i].transcript_path),
    ensures
        before.only_current_active() ==> after.only_current_active(),
        before.completed_have_transcripts() ==> after.completed_have_transcripts(),
{
    if before.only_current_active() {
        assert forall|k: int|
            0 <= k < after.rows().len() && is_active(#[trigger] after.rows()[k].status)
            implies after.current_id() == Some(after.rows()[k].id@) by {
            if k != i {
                assert(before.rows()[k] == after.rows()[k]);
            }
        }
    }
    if before.completed_have_transcripts() {
        assert forall|k: int|
            0 <= k < after.rows().len() && #[trigger] after.rows()[k].status
            == MeetingStatus::Completed implies holds_text(
            after.rows()[k].transcript_path,
            transcript_rel_path(after.rows()[k].id@),
        ) by {
            if k != i {
                assert(before.rows()[k] == after.rows()[k]);
            }
        }
    }
}

fn recovery_message() -> (r: &'static str)
    ensures
        r@ == recovery_text(),
{
    "Session interrupted due to app shutdown (recovered on next launch)"
}

fn shutdown_message() -> (r: &'static str)
    ensures
        r@ == shutdown_text(),
{
    "Session interrupted due to app shutdown"
}

/// The engine: every session row in the order it was added, the current session, and the
/// one-shot flag that lets only the first device error of a recording through.
#[derive(Debug)]
pub struct MeetingSessionManager {
    sessions: Vec<MeetingSession>,
    current: Option<String>,
    disconnect_seen: bool,
}

impl MeetingSessionManager {
    /// The session rows, in the order they were added.
    pub closed spec fn rows(&self) -> Seq<MeetingSession> {
        self.sessions@
    }

    /// The id held in the current-session slot.
    pub closed spec fn current_id(&self) -> Option<Seq<char>> {
        match self.current {
            Some(c) => Some(c@),
            None => None,
        }
    }

    /// Whether a device error has been handled since the current recording began.
    pub closed spec fn disconnect_seen(&self) -> bool {
        self.disconnect_seen
    }

    /// The row of the current session.
    pub open spec fn current_row(&self) -> Option<MeetingSession> {
        match self.current_id() {
            Some(c) => Some(row_with(self.rows(), c)),
            None => None,
        }
    }

    /// Ids are distinct and the slot names a row.
    pub open spec fn wf(&self) -> bool {
        &&& ids_distinct(self.rows())
        &&& self.current_id() matches Some(c) ==> has_id(self.rows(), c)
    }

    /// Every session in `Recording` or `Processing` is the current one.
    pub open spec fn only_current_active(&self) -> bool {
        forall|i: int|
            0 <= i < self.rows().len() && is_active(#[trigger] self.rows()[i].status)
                ==> self.current_id() == Some(self.rows()[i].id@)
    }

    /// Every completed session names its transcript file.
    pub open spec fn completed_have_transcripts(&self) -> bool {
        forall|i: int|
            0 <= i < self.rows().len() && #[trigger] self.rows()[i].status
                == MeetingStatus::Completed ==> holds_text(
                self.rows()[i].transcript_path,
                transcript_rel_path(self.rows()[i].id@),
            )
    }

    /// The position of the session with this id.
    fn find(&self, id: &str) -> (r: Option<usize>)
        requires
            self.wf(),
        ensures
            match r {
                Some(i) => i < self.rows().len() && self.rows()[i as int].id@ == id@ && i
                    == index_of(self.rows(), id@),
                None => !has_id(self.rows(), id@),
            },
    {
        let mut i: usize = 0;
        while i < self.sessions.len()
            invariant
                self.wf(),
                i <= self.sessions.len(),
                forall|k: int| 0 <= k < i ==> #[trigger] self.rows()[k].id@ != id@,
            decreases self.sessions.len() - i,
        {
            if crate::text::str_equal(self.sessions[i].id.as_str(), id) {
                proof {
                    lemma_index_of(self.rows(), id@, i as int);
                }
                return Some(i);
            }
            i = i + 1;
        }
        None
    }

    /// Starts the engine on the rows found in the store. A row left `Recording`
    /// by an unclean shutdown becomes `Interrupted`; those rows are returned
    /// beside the engine so that the store can be updated. Two rows with one
    /// id are refused.
    pub fn new(rows: Vec<MeetingSession>) -> (r: Result<
        (MeetingSessionManager, Vec<MeetingSession>),
        MeetingError,
    >)
        ensures
            r is Ok <==> ids_distinct(rows@),
            r matches Ok((m, changed)) ==> {
                &&& m.wf()
                &&& m.current_id() is None
                &&& !m.disconnect_seen()
                &&& m.rows().len() == rows@.len()
                &&& forall|i: int|
                    0 <= i < m.rows().len() ==> #[trigger] m.rows()[i].status
                        != MeetingStatus::Recording
                &&& (forall|i: int|
                    0 <= i < rows@.len() ==> #[trigger] rows@[i].status
                        != MeetingStatus::Processing) ==> m.only_current_active()
                &&& forall|i: int|
                    0 <= i < rows@.len() ==> recovered_row(#[trigger] rows@[i], m.rows()[i])
                &&& forall|k: int|
                    0 <= k < changed@.len() ==> m.rows().contains(#[trigger] changed@[k])
                        && changed@[k].status == MeetingStatus::Interrupted
                &&& forall|i: int|
                    0 <= i < rows@.len() && #[trigger] rows@[i].status == MeetingStatus::Recording
                        ==> changed@.contains(m.rows()[i])
            },
    {
        let n = rows.len();
        let mut i: usize = 0;
        while i < n
            invariant
                n == rows@.len(),
                i <= n,
                forall|a: int, b: int|
                    0 <= a < i && 0 <= b < n && a != b ==> #[trigger] rows@[a].id@
                        != #[trigger] rows@[b].id@,
            decreases n - i,
        {
            let mut j: usize = 0;
            while j < n
                invariant
                    n == rows@.len(),
                    i < n,
                    j <= n,
                    forall|a: int, b: int|
                        0 <= a < i && 0 <= b < n && a != b ==> #[trigger] rows@[a].id@
                            != #[trigger] rows@[b].id@,
                    forall|b: int|
                        0 <= b < j && b != i ==> rows@[i as int].id@ != #[trigger] rows@[b].id@,
                decreases n - j,
            {
                if j != i && crate::text::str_equal(rows[i].id.as_str(), rows[j].id.as_str()) {
                    return Err(MeetingError::DuplicateSession(rows[i].id.clone()));
                }
                j = j + 1;
            }
            i = i + 1;
        }
        assert(ids_distinct(rows@));
        let mut out: Vec<MeetingSession> = Vec::new();
        let mut changed: Vec<MeetingSession> = Vec::new();
        let mut i: usize = 0;
        while i < n
            invariant
                n == rows@.len(),
                i <= n,
                out@.len() == i,
                ids_distinct(rows@),
                forall|a: int| 0 <= a < i ==> recovered_row(#[trigger] rows@[a], out@[a]),
                forall|a: int| 0 <= a < i ==> (#[trigger] out@[a]).id@ == rows@[a].id@,
                forall|a: int| 0 <= a < i ==> (#[trigger] out@[a]).status != MeetingStatus::Recording,
                forall|c: int|
                    0 <= c < changed@.len() ==> out@.contains(#[trigger] changed@[c])
                        && changed@[c].status == MeetingStatus::Interrupted,
                forall|a: int|
                    0 <= a < i && #[trigger] rows@[a].status == MeetingStatus::Recording
                        ==> changed@.contains(out@[a]),
            decreases n - i,
        {
            let row = rows[i].copy();
            let ghost old_out = out@;
            let ghost old_changed = changed@;
            if row.status == MeetingStatus::Recording {
                let fixed = MeetingSession {
                    status: MeetingStatus::Interrupted,
                    error_message: Some(String::from_str(recovery_message())),
                    ..row
                };
                out.push(fixed.copy());
                changed.push(fixed);
                proof {
                    assert(out@[i as int] == changed@[changed@.len() - 1]);
                    assert forall|c: int| 0 <= c < changed@.len() implies out@.contains(
                        #[trigger] changed@[c],
                    ) && changed@[c].status == MeetingStatus::Interrupted by {
                        if c < old_changed.len() {
                            assert(old_out.contains(old_changed[c]));
                            let w = choose|w: int| 0 <= w < old_out.len() && old_out[w] == old_changed[c];
                            assert(out@[w] == changed@[c]);
                        } else {
                            assert(out@[i as int] == changed@[c]);
                        }
                    }
                    assert forall|a: int|
                        0 <= a <= i && #[trigger] rows@[a].status == MeetingStatus::Recording
                        implies changed@.contains(out@[a]) by {
                        if a < i {
                            let w = choose|w: int| 0 <= w < old_changed.len() && old_changed[w] == old_out[a];
                            assert(changed@[w] == out@[a]);
                        } else {
                            assert(changed@[changed@.len() - 1] == out@[a]);
                        }
                    }
                }
            } else {
                out.push(row);
                proof {
                    assert forall|c: int| 0 <= c < changed@.len() implies out@.contains(
                        #[trigger] changed@[c],
                    ) && changed@[c].status == MeetingStatus::Interrupted by {
                        let w = choose|w: int| 0 <= w < old_out.len() && old_out[w] == old_changed[c];
                        assert(out@[w] == changed@[c]);
                    }
                    assert forall|a: int|
                        0 <= a <= i && #[trigger] rows@[a].status == MeetingStatus::Recording
                        implies changed@.contains(out@[a]) by {
                        if a < i {
                            let w = choose|w: int| 0 <= w < old_changed.len() && old_changed[w] == old_out[a];
                            assert(changed@[w] == out@[a]);
                        }
                    }
                }
            }
            i = i + 1;
        }
        let m = MeetingSessionManager { sessions: out, current: None, disconnect_seen: false };
        assert(ids_distinct(m.rows()));
        proof {
            if forall|a: int|
                0 <= a < rows@.len() ==> #[trigger] rows@[a].status != MeetingStatus::Processing {
                assert forall|a: int| 0 <= a < m.rows().len() implies !is_active(
                    #[trigger] m.rows()[a].status,
                ) by {
                    assert(recovered_row(rows@[a], m.rows()[a]));
                }
            }
        }
        Ok((m, changed))
    }

    /// The status of the current session, if there is one.
    pub open spec fn current_status(&self) -> Option<MeetingStatus> {
        match self.current_row() {
            Some(row) => Some(row.status),
            None => None,
        }
    }

    /// The current session records or is being transcribed.
    pub open spec fn current_is_active(&self) -> bool {
        match self.current_status() {
            Some(st) => is_active(st),
            None => false,
        }
    }

    fn replace_row(&mut self, i: usize, row: MeetingSession)
        requires
            old(self).wf(),
            i < old(self).rows().len(),
            row.id@ == old(self).rows()[i as int].id@,
        ensures
            final(self).wf(),
            final(self).rows() == old(self).rows().update(i as int, row),
            final(self).current_id() == old(self).current_id(),
            final(self).disconnect_seen() == old(self).disconnect_seen(),
    {
        self.sessions[i] = row;
        proof {
            let rows = self.rows();
            assert forall|a: int, b: int|
                0 <= a < rows.len() && 0 <= b < rows.len() && a != b implies #[trigger] rows[a].id@
                != #[trigger] rows[b].id@ by {
                assert(old(self).rows()[a].id@ == rows[a].id@);
                assert(old(self).rows()[b].id@ == rows[b].id@);
            }
            if let Some(c) = self.current_id() {
                let k = index_of(old(self).rows(), c);
                assert(rows[k].id@ == c);
            }
        }
    }

    /// The status of the current session, if there is one.
    pub fn get_current_status(&self) -> (r: Option<MeetingStatus>)
        requires
            self.wf(),
        ensures
            r == self.current_status(),
    {
        match &self.current {
            Some(c) => match self.find(c.as_str()) {
                Some(i) => Some(self.sessions[i].status),
                None => None,
            },
            None => None,
        }
    }

    /// The current session, if there is one.
    pub fn get_current_session(&self) -> (r: Option<MeetingSession>)
        requires
            self.wf(),
        ensures
            r == self.current_row(),
    {
        match &self.current {
            Some(c) => match self.find(c.as_str()) {
                Some(i) => Some(self.sessions[i].copy()),
                None => None,
            },
            None => None,
        }
    }

    /// The session with this id, if there is one.
    pub fn get_session(&self, id: &str) -> (r: Option<MeetingSession>)
        requires
            self.wf(),
        ensures
            has_id(self.rows(), id@) ==> r == Some(row_with(self.rows(), id@)),
            !has_id(self.rows(), id@) ==> r is None,
    {
        match self.find(id) {
            Some(i) => Some(self.sessions[i].copy()),
            None => None,
        }
    }

    /// Refuses a new recording while the current session records or is transcribed.
    pub fn check_can_start(&self) -> (r: Result<(), MeetingError>)
        requires
            self.wf(),
        ensures
            self.current_status() == Some(MeetingStatus::Recording) ==> r matches Err(
                MeetingError::AlreadyRecording,
            ),
            self.current_status() == Some(MeetingStatus::Processing) ==> r matches Err(
                MeetingError::AlreadyProcessing,
            ),
            !self.current_is_active() ==> r is Ok,
    {
        match self.get_current_status() {
            Some(MeetingStatus::Recording) => Err(MeetingError::AlreadyRecording),
            Some(MeetingStatus::Processing) => Err(MeetingError::AlreadyProcessing),
            _ => Ok(()),
        }
    }

    /// Adds a fresh `Idle` session captured from `source`. Refused when the id is taken.
    pub fn add_session(
        &mut self,
        id: String,
        title: String,
        created_at: i64,
        source: AudioSource,
    ) -> (r: Result<MeetingSession, MeetingError>)
        requires
            old(self).wf(),
        ensures
            final(self).wf(),
            r is Ok <==> !has_id(old(self).rows(), id@),
            match r {
                Ok(s) => {
                    &&& s == (MeetingSession {
                        audio_source: source,
                        ..crate::session::fresh_session(id, title, created_at)
                    })
                    &&& final(self).rows() == old(self).rows().push(s)
                    &&& final(self).current_id() == old(self).current_id()
                    &&& final(self).disconnect_seen() == old(self).disconnect_seen()
                },
                Err(e) => *final(self) == *old(self) && (e matches MeetingError::DuplicateSession(x)
                    && x@ == id@),
            },
            old(self).only_current_active() ==> final(self).only_current_active(),
            old(self).completed_have_transcripts() ==> final(self).completed_have_transcripts(),
    {
        if self.find(id.as_str()).is_some() {
            return Err(MeetingError::DuplicateSession(id));
        }
        let s = MeetingSession::new(id, title, created_at).with_audio_source(source);
        self.sessions.push(s.copy());
        proof {
            let rows = self.rows();
            let n = old(self).rows().len();
            assert forall|a: int, b: int|
                0 <= a < rows.len() && 0 <= b < rows.len() && a != b implies #[trigger] rows[a].id@
                != #[trigger] rows[b].id@ by {
                if a == n {
                    assert(old(self).rows()[b].id@ == rows[b].id@);
                } else if b == n {
                    assert(old(self).rows()[a].id@ == rows[a].id@);
                }
            }
            if let Some(c) = self.current_id() {
                let k = index_of(old(self).rows(), c);
                assert(rows[k].id@ == c);
                lemma_index_of(rows, c, k);
            }
        }
        Ok(s)
    }

    /// Marks the session as recording once its capture has started: its audio path
    /// is set, it becomes the current session, and the device-error flag is re-armed.
    pub fn start_recording(&mut self, id: &str) -> (r: Result<MeetingSession, MeetingError>)
        requires
            old(self).wf(),
        ensures
            final(self).wf(),
            old(self).current_status() == Some(MeetingStatus::Recording) ==> r matches Err(
                MeetingError::AlreadyRecording,
            ),
            old(self).current_status() == Some(MeetingStatus::Processing) ==> r matches Err(
                MeetingError::AlreadyProcessing,
            ),
            !old(self).current_is_active() && !has_id(old(self).rows(), id@) ==> (r matches Err(
                MeetingError::SessionNotFound(x),
            ) && x@ == id@),
            !old(self).current_is_active() && has_id(old(self).rows(), id@) && row_with(
                old(self).rows(),
                id@,
            ).status != MeetingStatus::Idle ==> (r matches Err(
                MeetingError::InvalidTransition(from, MeetingStatus::Recording),
            ) && from == row_with(old(self).rows(), id@).status),
            !old(self).current_is_active() && has_id(old(self).rows(), id@) && row_with(
                old(self).rows(),
                id@,
            ).status == MeetingStatus::Idle ==> r is Ok,
            match r {
                Ok(s) => {
                    &&& has_id(old(self).rows(), id@)
                    &&& s == (MeetingSession {
                        status: MeetingStatus::Recording,
                        audio_path: s.audio_path,
                        ..row_with(old(self).rows(), id@)
                    })
                    &&& holds_text(s.audio_path, audio_rel_path(id@))
                    &&& final(self).rows() == old(self).rows().update(index_of(old(self).rows(), id@), s)
                    &&& final(self).current_id() == Some(id@)
                    &&& !final(self).disconnect_seen()
                },
                Err(_) => *final(self) == *old(self),
            },
            old(self).only_current_active() ==> final(self).only_current_active(),
            old(self).completed_have_transcripts() ==> final(self).completed_have_transcripts(),
    {
        self.check_can_start()?;
        let i = match self.find(id) {
            Some(i) => i,
            None => return Err(MeetingError::SessionNotFound(id.to_owned())),
        };
        let row = self.sessions[i].copy();
        if row.status != MeetingStatus::Idle {
            return Err(MeetingError::InvalidTransition(row.status, MeetingStatus::Recording));
        }
        let s = MeetingSession {
            status: MeetingStatus::Recording,
            audio_path: Some(crate::session::audio_path_for(id)),
            ..row
        };
        let ghost before = *self;
        self.replace_row(i, s.copy());
        self.current = Some(id.to_owned());
        self.disconnect_seen = false;
        proof {
            lemma_index_of(self.rows(), id@, i as int);
            if before.only_current_active() {
                assert forall|k: int|
                    0 <= k < self.rows().len() && is_active(#[trigger] self.rows()[k].status)
                    implies self.current_id() == Some(self.rows()[k].id@) by {
                    if k != i {
                        assert(before.rows()[k] == self.rows()[k]);
                    }
                }
            }
            if before.completed_have_transcripts() {
                assert forall|k: int|
                    0 <= k < self.rows().len() && #[trigger] self.rows()[k].status
                    == MeetingStatus::Completed implies holds_text(
                    self.rows()[k].transcript_path,
                    transcript_rel_path(self.rows()[k].id@),
                ) by {
                    assert(before.rows()[k] == self.rows()[k]);
                }
            }
        }
        Ok(s)
    }

    /// Rolls back a start that failed after the session was added: the session
    /// becomes `Failed` with the error that stopped it.
    pub fn fail_start(&mut self, id: &str, message: String) -> (r: Result<
        MeetingSession,
        MeetingError,
    >)
        requires
            old(self).wf(),
        ensures
            final(self).wf(),
            !has_id(old(self).rows(), id@) ==> (r matches Err(MeetingError::SessionNotFound(x))
                && x@ == id@),
            has_id(old(self).rows(), id@) && row_with(old(self).rows(), id@).status
                != MeetingStatus::Idle && row_with(old(self).rows(), id@).status
                != MeetingStatus::Recording ==> (r matches Err(
                MeetingError::InvalidTransition(from, MeetingStatus::Failed),
            ) && from == row_with(old(self).rows(), id@).status),
            has_id(old(self).rows(), id@) && (row_with(old(self).rows(), id@).status
                == MeetingStatus::Idle || row_with(old(self).rows(), id@).status
                == MeetingStatus::Recording) ==> r is Ok,
            match r {
                Ok(s) => {
                    &&& has_id(old(self).rows(), id@)
                    &&& s == (MeetingSession {
                        status: MeetingStatus::Failed,
                        error_message: Some(message),
                        ..row_with(old(self).rows(), id@)
                    })
                    &&& final(self).rows() == old(self).rows().update(index_of(old(self).rows(), id@), s)
                    &&& final(self).current_id() == old(self).current_id()
                    &&& final(self).disconnect_seen() == old(self).disconnect_seen()
                },
                Err(_) => *final(self) == *old(self),
            },
            old(self).only_current_active() ==> final(self).only_current_active(),
            old(self).completed_have_transcripts() ==> final(self).completed_have_transcripts(),
    {
        let i = match self.find(id) {
            Some(i) => i,
            None => return Err(MeetingError::SessionNotFound(id.to_owned())),
        };
        let row = self.sessions[i].copy();
        if row.status != MeetingStatus::Idle && row.status != MeetingStatus::Recording {
            return Err(MeetingError::InvalidTransition(row.status, MeetingStatus::Failed));
        }
        let s = MeetingSession { status: MeetingStatus::Failed, error_message: Some(message), ..row };
        let ghost before = *self;
        self.replace_row(i, s.copy());
        proof {
            lemma_replace_keeps(before, *self, i as int);
        }
        Ok(s)
    }

    /// Refuses to stop unless the current session is recording and has its audio
    /// file; gives that file's path.
    pub fn check_can_stop(&self) -> (r: Result<String, MeetingError>)
        requires
            self.wf(),
        ensures
            self.current_row() is None ==> (r matches Err(MeetingError::NoActiveSession)),
            self.current_row() matches Some(row) ==> {
                &&& row.status != MeetingStatus::Recording ==> (r matches Err(
                    MeetingError::NotRecording(st),
                ) && st == row.status)
                &&& row.status == MeetingStatus::Recording && row.audio_path is None ==> (r matches Err(
                    MeetingError::NoAudioPath(x),
                ) && x@ == row.id@)
                &&& row.status == MeetingStatus::Recording && row.audio_path is Some ==> r
                    == Ok::<String, MeetingError>(row.audio_path.unwrap())
            },
    {
        let row = match self.get_current_session() {
            Some(row) => row,
            None => return Err(MeetingError::NoActiveSession),
        };
        if row.status != MeetingStatus::Recording {
            return Err(MeetingError::NotRecording(row.status));
        }
        match row.audio_path {
            Some(p) => Ok(p),
            None => Err(MeetingError::NoAudioPath(row.id)),
        }
    }

    /// Ends the current recording once capture has stopped and the sink is
    /// finalized: the session moves to `Processing` with its duration. Refused, as
    /// `check_can_stop` refuses, and when the clock reads earlier than the
    /// session's creation. Gives the audio path to transcribe.
    pub fn stop_recording(&mut self, now: i64) -> (r: Result<String, MeetingError>)
        requires
            old(self).wf(),
        ensures
            final(self).wf(),
            old(self).current_row() is None ==> (r matches Err(MeetingError::NoActiveSession)),
            old(self).current_row() matches Some(row) ==> {
                &&& row.status != MeetingStatus::Recording ==> (r matches Err(
                    MeetingError::NotRecording(st),
                ) && st == row.status)
                &&& row.status == MeetingStatus::Recording && row.audio_path is None ==> (r matches Err(
                    MeetingError::NoAudioPath(x),
                ) && x@ == row.id@)
                &&& row.status == MeetingStatus::Recording && row.audio_path is Some && now
                    < row.created_at ==> (r matches Err(MeetingError::NegativeDuration(x)) && x@
                    == row.id@)
                &&& row.status == MeetingStatus::Recording && row.audio_path is Some && now
                    >= row.created_at ==> {
                    &&& r == Ok::<String, MeetingError>(row.audio_path.unwrap())
                    &&& final(self).rows() == old(self).rows().update(
                        index_of(old(self).rows(), row.id@),
                        MeetingSession {
                            status: MeetingStatus::Processing,
                            duration: Some(clamped_duration(row.created_at, now)),
                            ..row
                        },
                    )
                    &&& final(self).current_id() == old(self).current_id()
                    &&& final(self).disconnect_seen() == old(self).disconnect_seen()
                }
            },
            r is Err ==> *final(self) == *old(self),
            old(self).only_current_active() ==> final(self).only_current_active(),
            old(self).completed_have_transcripts() ==> final(self).completed_have_transcripts(),
    {
        let path = self.check_can_stop()?;
        let c = self.current.as_ref().unwrap();
        let i = self.find(c.as_str()).unwrap();
        let row = self.sessions[i].copy();
        if now < row.created_at {
            return Err(MeetingError::NegativeDuration(row.id));
        }
        let d = crate::session::partial_duration(row.created_at, now);
        let s = MeetingSession { status: MeetingStatus::Processing, duration: Some(d), ..row };
        let ghost before = *self;
        self.replace_row(i, s);
        proof {
            lemma_replace_keeps(before, *self, i as int);
        }
        Ok(path)
    }

    /// A device error reported during capture. Only the first report since the
    /// recording began is handled; if the current session is recording, it
    /// becomes `Failed` with a disconnect message and its partial duration, and
    /// the changed session is given back.
    pub fn handle_disconnect(&mut self, detail: &str, now: i64) -> (r: Option<MeetingSession>)
        requires
            old(self).wf(),
        ensures
            final(self).wf(),
            final(self).disconnect_seen(),
            final(self).current_id() == old(self).current_id(),
            old(self).disconnect_seen() ==> r is None && *final(self) == *old(self),
            old(self).disconnect_seen() || old(self).current_status() != Some(
                MeetingStatus::Recording,
            ) ==> r is None && final(self).rows() == old(self).rows(),
            old(self).current_row() matches Some(row) ==> (!old(self).disconnect_seen()
                && row.status == MeetingStatus::Recording ==> {
                &&& r matches Some(s)
                &&& s == (MeetingSession {
                    status: MeetingStatus::Failed,
                    duration: Some(clamped_duration(row.created_at, now)),
                    error_message: s.error_message,
                    ..row
                })
                &&& holds_text(s.error_message, disconnect_text(detail@))
                &&& final(self).rows() == old(self).rows().update(index_of(old(self).rows(), row.id@), s)
            }),
            old(self).only_current_active() ==> final(self).only_current_active(),
            old(self).completed_have_transcripts() ==> final(self).completed_have_transcripts(),
    {
        if self.disconnect_seen {
            return None;
        }
        self.disconnect_seen = true;
        let c = match &self.current {
            Some(c) => c.clone(),
            None => return None,
        };
        let i = self.find(c.as_str()).unwrap();
        let row = self.sessions[i].copy();
        if row.status != MeetingStatus::Recording {
            return None;
        }
        let mut msg = String::from_str("Microphone disconnected: ");
        msg.append(detail);
        let d = crate::session::partial_duration(row.created_at, now);
        let s = MeetingSession {
            status: MeetingStatus::Failed,
            duration: Some(d),
            error_message: Some(msg),
            ..row
        };
        let ghost before = *self;
        self.replace_row(i, s.copy());
        proof {
            lemma_replace_keeps(before, *self, i as int);
        }
        Some(s)
    }

    /// The host is shutting down. A recording in progress becomes `Interrupted`
    /// with the shutdown message and its partial duration, the slot is cleared,
    /// and the changed session is given back.
    pub fn handle_app_shutdown(&mut self, now: i64) -> (r: Option<MeetingSession>)
        requires
            old(self).wf(),
        ensures
            final(self).wf(),
            old(self).current_status() != Some(MeetingStatus::Recording) ==> r is None
                && *final(self) == *old(self),
            old(self).current_row() matches Some(row) ==> (row.status == MeetingStatus::Recording
                ==> {
                &&& r matches Some(s)
                &&& s == (MeetingSession {
                    status: MeetingStatus::Interrupted,
                    duration: Some(clamped_duration(row.created_at, now)),
                    error_message: s.error_message,
                    ..row
                })
                &&& holds_text(s.error_message, shutdown_text())
                &&& final(self).rows() == old(self).rows().update(index_of(old(self).rows(), row.id@), s)
                &&& final(self).current_id() is None
            }),
            old(self).only_current_active() ==> final(self).only_current_active(),
            old(self).completed_have_transcripts() ==> final(self).completed_have_transcripts(),
    {
        let c = match &self.current {
            Some(c) => c.clone(),
            None => return None,
        };
        let i = self.find(c.as_str()).unwrap();
        let row = self.sessions[i].copy();
        if row.status != MeetingStatus::Recording {
            return None;
        }
        let d = crate::session::partial_duration(row.created_at, now);
        let s = MeetingSession {
            status: MeetingStatus::Interrupted,
            duration: Some(d),
            error_message: Some(String::from_str(shutdown_message())),
            ..row
        };
        let ghost before = *self;
        self.replace_row(i, s.copy());
        let ghost mid = *self;
        self.current = None;
        proof {
            lemma_replace_keeps(before, mid, i as int);
            if before.only_current_active() {
                assert forall|k: int|
                    0 <= k < self.rows().len() && is_active(#[trigger] self.rows()[k].status)
                    implies self.current_id() == Some(self.rows()[k].id@) by {
                    if k != i {
                        assert(before.rows()[k] == self.rows()[k]);
                        assert(before.rows()[k].id@ != before.rows()[i as int].id@);
                    }
                }
            }
        }
        Some(s)
    }

    /// Runs transcription again for a `Failed`, `Interrupted` or `Completed`
    /// session that has audio. Refused while another session records or is
    /// transcribed, so that at most one session is ever active. The session moves
    /// to `Processing` without an error message and becomes the current one.
    /// Gives the audio path to transcribe.
    pub fn retry(&mut self, id: &str) -> (r: Result<String, MeetingError>)
        requires
            old(self).wf(),
        ensures
            final(self).wf(),
            !has_id(old(self).rows(), id@) ==> (r matches Err(MeetingError::SessionNotFound(x))
                && x@ == id@),
            has_id(old(self).rows(), id@) ==> ({
                let row = row_with(old(self).rows(), id@);
                &&& !is_retryable(row.status) ==> (r matches Err(MeetingError::NotRetryable(st))
                    && st == row.status)
                &&& is_retryable(row.status) && row.audio_path is None ==> (r matches Err(
                    MeetingError::NoAudioFile,
                ))
                &&& is_retryable(row.status) && row.audio_path is Some
                    && old(self).current_is_active() ==> (r matches Err(MeetingError::SessionBusy))
                &&& is_retryable(row.status) && row.audio_path is Some
                    && !old(self).current_is_active() ==> {
                    &&& r == Ok::<String, MeetingError>(row.audio_path.unwrap())
                    &&& final(self).rows() == old(self).rows().update(
                        index_of(old(self).rows(), id@),
                        MeetingSession {
                            status: MeetingStatus::Processing,
                            error_message: None,
                            ..row
                        },
                    )
                    &&& final(self).current_id() == Some(id@)
                    &&& final(self).disconnect_seen() == old(self).disconnect_seen()
                }
            }),
            r is Err ==> *final(self) == *old(self),
            old(self).only_current_active() ==> final(self).only_current_active(),
            old(self).completed_have_transcripts() ==> final(self).completed_have_transcripts(),
    {
        let i = match self.find(id) {
            Some(i) => i,
            None => return Err(MeetingError::SessionNotFound(id.to_owned())),
        };
        let row = self.sessions[i].copy();
        if !row.status.is_retryable() {
            return Err(MeetingError::NotRetryable(row.status));
        }
        let path = match &row.audio_path {
            Some(p) => p.clone(),
            None => return Err(MeetingError::NoAudioFile),
        };
        match self.get_current_status() {
            Some(st) => {
                if st.is_active() {
                    return Err(MeetingError::SessionBusy);
                }
            },
            None => {},
        }
        let s = MeetingSession { status: MeetingStatus::Processing, error_message: None, ..row };
        let ghost before = *self;
        self.replace_row(i, s);
        self.current = Some(id.to_owned());
        proof {
            lemma_index_of(self.rows(), id@, i as int);
            if before.only_current_active() {
                assert forall|k: int|
                    0 <= k < self.rows().len() && is_active(#[trigger] self.rows()[k].status)
                    implies self.current_id() == Some(self.rows()[k].id@) by {
                    if k != i {
                        assert(before.rows()[k] == self.rows()[k]);
                        lemma_index_of(before.rows(), before.rows()[k].id@, k);
                    }
                }
            }
            if before.completed_have_transcripts() {
                assert forall|k: int|
                    0 <= k < self.rows().len() && #[trigger] self.rows()[k].status
                    == MeetingStatus::Completed implies holds_text(
                    self.rows()[k].transcript_path,
                    transcript_rel_path(self.rows()[k].id@),
                ) by {
                    assert(before.rows()[k] == self.rows()[k]);
                }
            }
        }
        Ok(path)
    }

    /// Records a successful transcription, after the transcript was written: the
    /// session moves from `Processing` to `Completed` and names its transcript.
    /// An empty transcript is refused.
    pub fn complete_transcription(&mut self, id: &str, transcript: &str) -> (r: Result<
        MeetingSession,
        MeetingError,
    >)
        requires
            old(self).wf(),
        ensures
            final(self).wf(),
            !has_id(old(self).rows(), id@) ==> (r matches Err(MeetingError::SessionNotFound(x))
                && x@ == id@),
            has_id(old(self).rows(), id@) && row_with(old(self).rows(), id@).status
                != MeetingStatus::Processing ==> (r matches Err(
                MeetingError::InvalidTransition(from, MeetingStatus::Completed),
            ) && from == row_with(old(self).rows(), id@).status),
            has_id(old(self).rows(), id@) && row_with(old(self).rows(), id@).status
                == MeetingStatus::Processing && transcript@.len() == 0 ==> (r matches Err(
                MeetingError::EmptyTranscript,
            )),
            has_id(old(self).rows(), id@) && row_with(old(self).rows(), id@).status
                == MeetingStatus::Processing && transcript@.len() > 0 ==> r is Ok,
            match r {
                Ok(s) => {
                    &&& has_id(old(self).rows(), id@)
                    &&& transcript@.len() > 0
                    &&& s == (MeetingSession {
                        status: MeetingStatus::Completed,
                        transcript_path: s.transcript_path,
                        ..row_with(old(self).rows(), id@)
                    })
                    &&& holds_text(s.transcript_path, transcript_rel_path(id@))
                    &&& final(self).rows() == old(self).rows().update(index_of(old(self).rows(), id@), s)
                    &&& final(self).current_id() == old(self).current_id()
                    &&& final(self).disconnect_seen() == old(self).disconnect_seen()
                },
                Err(_) => *final(self) == *old(self),
            },
            old(self).only_current_active() ==> final(self).only_current_active(),
            old(self).completed_have_transcripts() ==> final(self).completed_have_transcripts(),
    {
        let i = match self.find(id) {
            Some(i) => i,
            None => return Err(MeetingError::SessionNotFound(id.to_owned())),
        };
        let row = self.sessions[i].copy();
        if row.status != MeetingStatus::Processing {
            return Err(MeetingError::InvalidTransition(row.status, MeetingStatus::Completed));
        }
        if transcript.unicode_len() == 0 {
            return Err(MeetingError::EmptyTranscript);
        }
        let s = MeetingSession {
            status: MeetingStatus::Completed,
            transcript_path: Some(crate::session::transcript_path_for(id)),
            ..row
        };
        let ghost before = *self;
        self.replace_row(i, s.copy());
        proof {
            lemma_replace_keeps(before, *self, i as int);
        }
        Ok(s)
    }

    /// Records a failed transcription or save: the session moves from
    /// `Processing` to `Failed` with the captured error.
    pub fn fail_transcription(&mut self, id: &str, message: String) -> (r: Result<
        MeetingSession,
        MeetingError,
    >)
        requires
            old(self).wf(),
        ensures
            final(self).wf(),
            !has_id(old(self).rows(), id@) ==> (r matches Err(MeetingError::SessionNotFound(x))
                && x@ == id@),
            has_id(old(self).rows(), id@) && row_with(old(self).rows(), id@).status
                != MeetingStatus::Processing ==> (r matches Err(
                MeetingError::InvalidTransition(from, MeetingStatus::Failed),
            ) && from == row_with(old(self).rows(), id@).status),
            has_id(old(self).rows(), id@) && row_with(old(self).rows(), id@).status
                == MeetingStatus::Processing ==> r is Ok,
            match r {
                Ok(s) => {
                    &&& has_id(old(self).rows(), id@)
                    &&& s == (MeetingSession {
                        status: MeetingStatus::Failed,
                        error_message: Some(message),
                        ..row_with(old(self).rows(), id@)
                    })
                    &&& final(self).rows() == old(self).rows().update(index_of(old(self).rows(), id@), s)
                    &&& final(self).current_id() == old(self).current_id()
                    &&& final(self).disconnect_seen() == old(self).disconnect_seen()
                },
                Err(_) => *final(self) == *old(self),
            },
            old(self).only_current_active() ==> final(self).only_current_active(),
            old(self).completed_have_transcripts() ==> final(self).completed_have_transcripts(),
    {
        let i = match self.find(id) {
            Some(i) => i,
            None => return Err(MeetingError::SessionNotFound(id.to_owned())),
        };
        let row = self.sessions[i].copy();
        if row.status != MeetingStatus::Processing {
            return Err(MeetingError::InvalidTransition(row.status, MeetingStatus::Failed));
        }
        let s = MeetingSession { status: MeetingStatus::Failed, error_message: Some(message), ..row };
        let ghost before = *self;
        self.replace_row(i, s.copy());
        proof {
            lemma_replace_keeps(before, *self, i as int);
        }
        Ok(s)
    }

    /// Renames a session. A title that is empty after trimming is refused.
    pub fn update_title(&mut self, id: &str, title: String) -> (r: Result<
        MeetingSession,
        MeetingError,
    >)
        requires
            old(self).wf(),
        ensures
            final(self).wf(),
            crate::text::is_blank(title@) ==> (r matches Err(MeetingError::EmptyTitle)),
            !crate::text::is_blank(title@) && !has_id(old(self).rows(), id@) ==> (r matches Err(
                MeetingError::SessionNotFound(x),
            ) && x@ == id@),
            !crate::text::is_blank(title@) && has_id(old(self).rows(), id@) ==> r is Ok,
            match r {
                Ok(s) => {
                    &&& has_id(old(self).rows(), id@)
                    &&& !crate::text::is_blank(title@)
                    &&& s == (MeetingSession { title, ..row_with(old(self).rows(), id@) })
                    &&& final(self).rows() == old(self).rows().update(index_of(old(self).rows(), id@), s)
                    &&& final(self).current_id() == old(self).current_id()
                    &&& final(self).disconnect_seen() == old(self).disconnect_seen()
                },
                Err(_) => *final(self) == *old(self),
            },
            old(self).only_current_active() ==> final(self).only_current_active(),
            old(self).completed_have_transcripts() ==> final(self).completed_have_transcripts(),
    {
        if crate::text::is_blank_str(title.as_str()) {
            return Err(MeetingError::EmptyTitle);
        }
        let i = match self.find(id) {
            Some(i) => i,
            None => return Err(MeetingError::SessionNotFound(id.to_owned())),
        };
        let row = self.sessions[i].copy();
        let s = MeetingSession { title, ..row };
        let ghost before = *self;
        self.replace_row(i, s.copy());
        proof {
            lemma_replace_keeps(before, *self, i as int);
        }
        Ok(s)
    }

    /// Records that a summary was saved for the session.
    pub fn set_summary_path(&mut self, id: &str) -> (r: Result<MeetingSession, MeetingError>)
        requires
            old(self).wf(),
        ensures
            final(self).wf(),
            !has_id(old(self).rows(), id@) ==> (r matches Err(MeetingError::SessionNotFound(x))
                && x@ == id@),
            has_id(old(self).rows(), id@) ==> r is Ok,
            match r {
                Ok(s) => {
                    &&& has_id(old(self).rows(), id@)
                    &&& s == (MeetingSession {
                        summary_path: s.summary_path,
                        ..row_with(old(self).rows(), id@)
                    })
                    &&& holds_text(s.summary_path, summary_rel_path(id@))
                    &&& final(self).rows() == old(self).rows().update(index_of(old(self).rows(), id@), s)
                    &&& final(self).current_id() == old(self).current_id()
                    &&& final(self).disconnect_seen() == old(self).disconnect_seen()
                },
                Err(_) => *final(self) == *old(self),
            },
            old(self).only_current_active() ==> final(self).only_current_active(),
            old(self).completed_have_transcripts() ==> final(self).completed_have_transcripts(),
    {
        let i = match self.find(id) {
            Some(i) => i,
            None => return Err(MeetingError::SessionNotFound(id.to_owned())),
        };
        let row = self.sessions[i].copy();
        let s = MeetingSession { summary_path: Some(crate::session::summary_path_for(id)), ..row };
        let ghost before = *self;
        self.replace_row(i, s.copy());
        proof {
            lemma_replace_keeps(before, *self, i as int);
        }
        Ok(s)
    }

    /// Removes a session's row, after its folder was removed. If it was the
    /// current session, the slot is cleared. Gives back the removed row.
    pub fn delete_session(&mut self, id: &str) -> (r: Result<MeetingSession, MeetingError>)
        requires
            old(self).wf(),
        ensures
            final(self).wf(),
            r is Ok <==> has_id(old(self).rows(), id@),
            match r {
                Ok(s) => {
                    &&& s == row_with(old(self).rows(), id@)
                    &&& final(self).rows() == old(self).rows().remove(index_of(old(self).rows(), id@))
                    &&& final(self).current_id() == (if old(self).current_id() == Some(id@) {
                        None
                    } else {
                        old(self).current_id()
                    })
                    &&& final(self).disconnect_seen() == old(self).disconnect_seen()
                },
                Err(e) => *final(self) == *old(self) && (e matches MeetingError::SessionNotFound(x)
                    && x@ == id@),
            },
            old(self).only_current_active() ==> final(self).only_current_active(),
            old(self).completed_have_transcripts() ==> final(self).completed_have_transcripts(),
    {
        let i = match self.find(id) {
            Some(i) => i,
            None => return Err(MeetingError::SessionNotFound(id.to_owned())),
        };
        let ghost before = *self;
        let s = self.sessions.remove(i);
        let clear = match &self.current {
            Some(c) => crate::text::str_equal(c.as_str(), id),
            None => false,
        };
        if clear {
            self.current = None;
        }
        proof {
            let rows = self.rows();
            let old_rows = before.rows();
            assert forall|a: int| 0 <= a < rows.len() implies #[trigger] rows[a] == old_rows[if a
                < i {
                a
            } else {
                a + 1
            }] by {}
            assert forall|a: int, b: int|
                0 <= a < rows.len() && 0 <= b < rows.len() && a != b implies #[trigger] rows[a].id@
                != #[trigger] rows[b].id@ by {
                let a2 = if a < i { a } else { a + 1 };
                let b2 = if b < i { b } else { b + 1 };
                assert(rows[a] == old_rows[a2]);
                assert(rows[b] == old_rows[b2]);
            }
            if let Some(c) = self.current_id() {
                let k = index_of(old_rows, c);
                assert(old_rows[k].id@ == c);
                assert(k != i);
                let k2 = if k < i { k } else { k - 1 };
                assert(rows[k2] == old_rows[k]);
                assert(has_id(rows, c));
            }
            if before.only_current_active() {
                assert forall|a: int|
                    0 <= a < rows.len() && is_active(#[trigger] rows[a].status)
                    implies self.current_id() == Some(rows[a].id@) by {
                    let a2 = if a < i { a } else { a + 1 };
                    assert(rows[a] == old_rows[a2]);
                    assert(old_rows[a2].id@ != old_rows[i as int].id@);
                }
            }
            if before.completed_have_transcripts() {
                assert forall|a: int|
                    0 <= a < rows.len() && #[trigger] rows[a].status == MeetingStatus::Completed
                    implies holds_text(rows[a].transcript_path, transcript_rel_path(rows[a].id@)) by {
                    let a2 = if a < i { a } else { a + 1 };
                    assert(rows[a] == old_rows[a2]);
                }
            }
        }
        Ok(s)
    }

    /// Every session, newest first.
    pub fn list_sessions(&self) -> (r: Vec<MeetingSession>)
        requires
            self.wf(),
        ensures
            r@.len() == self.rows().len(),
            r@.to_multiset() == self.rows().to_multiset(),
            newest_first(r@),
    {
        let n = self.sessions.len();
        let mut out: Vec<MeetingSession> = Vec::new();
        assert(out@ =~= self.rows().take(0));
        let mut i: usize = 0;
        while i < n
            invariant
                n == self.rows().len(),
                i <= n,
                out@.len() == i,
                newest_first(out@),
                out@.to_multiset() == self.rows().take(i as int).to_multiset(),
            decreases n - i,
        {
            let x = self.sessions[i].copy();
            let mut p: usize = 0;
            while p < out.len() && out[p].created_at > x.created_at
                invariant
                    p <= out@.len(),
                    forall|q: int| 0 <= q < p ==> (#[trigger] out@[q]).created_at > x.created_at,
                decreases out@.len() - p,
            {
                p = p + 1;
            }
            let ghost before = out@;
            out.insert(p, x);
            proof {
                assert forall|a: int, b: int|
                    0 <= a < b < out@.len() implies #[trigger] out@[a].created_at
                    >= #[trigger] out@[b].created_at by {
                    if b < p {
                        assert(out@[a] == before[a] && out@[b] == before[b]);
                    } else if b == p {
                        assert(out@[a] == before[a]);
                    } else if a < p {
                        assert(out@[a] == before[a] && out@[b] == before[b - 1]);
                    } else if a == p {
                        assert(out@[b] == before[b - 1]);
                        assert(before[p as int].created_at <= x.created_at);
                        if b - 1 > p {
                            assert(before[p as int].created_at >= before[b - 1].created_at);
                        }
                    } else {
                        assert(out@[a] == before[a - 1] && out@[b] == before[b - 1]);
                    }
                }
                vstd::seq_lib::to_multiset_insert(before, p as int, x);
                assert(self.rows().take(i + 1) =~= self.rows().take(i as int).push(x));
                vstd::seq_lib::to_multiset_build(self.rows().take(i as int), x);
            }
            i = i + 1;
        }
        assert(self.rows().take(n as int) =~= self.rows());
        out
    }

    /// Creates a session captured from `source`: a fresh version-4 id, the time
    /// now, and the default title for that time. It is added `Idle`; the caller
    /// then makes its folder and its row in the store.
    pub fn create_session(&mut self, source: AudioSource) -> (r: Result<MeetingSession, MeetingError>)
        requires
            old(self).wf(),
        ensures
            final(self).wf(),
            match r {
                Ok(s) => {
                    &&& is_uuid_v4(s.id@)
                    &&& s == (MeetingSession {
                        audio_source: source,
                        ..crate::session::fresh_session(s.id, s.title, s.created_at)
                    })
                    &&& exists|local: Option<CivilTime>|
                        civil_ok(local) && s.title@ == title_text(local, s.created_at)
                    &&& final(self).rows() == old(self).rows().push(s)
                    &&& final(self).current_id() == old(self).current_id()
                    &&& final(self).disconnect_seen() == old(self).disconnect_seen()
                },
                Err(e) => *final(self) == *old(self) && (e matches MeetingError::DuplicateSession(x)
                    && has_id(old(self).rows(), x@)),
            },
            old(self).only_current_active() ==> final(self).only_current_active(),
            old(self).completed_have_transcripts() ==> final(self).completed_have_transcripts(),
    {
        let id = crate::platform::new_uuid_v4();
        let created_at = crate::platform::unix_now();
        let title = crate::session::format_meeting_title(created_at);
        self.add_session(id, title, created_at, source)
    }
}

/// At every instant at most one session records or is being transcribed: in an
/// engine whose active sessions are all the current one, two active rows are one row.
pub proof fn lemma_at_most_one_active(m: MeetingSessionManager)
    requires
        m.wf(),
        m.only_current_active(),
    ensures
        forall|i: int, j: int|
            0 <= i < m.rows().len() && 0 <= j < m.rows().len() && is_active(
                #[trigger] m.rows()[i].status,
            ) && is_active(#[trigger] m.rows()[j].status) ==> i == j,
{
    assert forall|i: int, j: int|
        0 <= i < m.rows().len() && 0 <= j < m.rows().len() && is_active(
            #[trigger] m.rows()[i].status,
        ) && is_active(#[trigger] m.rows()[j].status) implies i == j by {
        assert(m.rows()[i].id@ == m.rows()[j].id@);
    }
}

/// The listing is strictly newest first when no two sessions were created in
/// the same second.
pub proof fn lemma_listing_strictly_newest_first(
    m: MeetingSessionManager,
    listed: Seq<MeetingSession>,
)
    requires
        m.wf(),
        listed.to_multiset() == m.rows().to_multiset(),
        newest_first(listed),
        forall|a: int, b: int|
            0 <= a < m.rows().len() && 0 <= b < m.rows().len() && a != b ==> #[trigger] m.rows()[a].created_at
                != #[trigger] m.rows()[b].created_at,
    ensures
        forall|i: int, j: int|
            0 <= i < j < listed.len() ==> #[trigger] listed[i].created_at
                > #[trigger] listed[j].created_at,
{
    let rows = m.rows();
    broadcast use vstd::seq_lib::to_multiset_contains;
    assert(rows.no_duplicates()) by {
        assert forall|a: int, b: int| 0 <= a < rows.len() && 0 <= b < rows.len() && a != b implies rows[a]
            != rows[b] by {
            assert(rows[a].id@ != rows[b].id@);
        }
    }
    rows.lemma_multiset_has_no_duplicates();
    listed.lemma_multiset_has_no_duplicates_conv();
    assert forall|i: int, j: int| 0 <= i < j < listed.len() implies #[trigger] listed[i].created_at
        > #[trigger] listed[j].created_at by {
        assert(listed.contains(listed[i]));
        assert(listed.contains(listed[j]));
        vstd::seq_lib::to_multiset_contains(listed, listed[i]);
        vstd::seq_lib::to_multiset_contains(listed, listed[j]);
        vstd::seq_lib::to_multiset_contains(rows, listed[i]);
        vstd::seq_lib::to_multiset_contains(rows, listed[j]);
        assert(rows.contains(listed[i]));
        assert(rows.contains(listed[j]));
        let a = choose|a: int| 0 <= a < rows.len() && rows[a] == listed[i];
        let b = choose|b: int| 0 <= b < rows.len() && rows[b] == listed[j];
        assert(listed[i] != listed[j]);
        assert(a != b);
    }
}

} // verus!
