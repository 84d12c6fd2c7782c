//! The latch in front of the incremental WAV writer, and the decisions of its
//! timeout-bounded finalization. Once finalization has begun the latch lets no
//! more samples, so a producer still in flight cannot change the file.
use vstd::prelude::*;

verus! {

/// Canonical audio layout: mono, 16 kHz, 16-bit signed PCM.
pub const SAMPLE_RATE: u32 = 16000;
pub const BITS_PER_SAMPLE: u16 = 16;
pub const CHANNELS: u16 = 1;

/// Back-off between two attempts to take the writer, in milliseconds.
pub const FINALIZE_RETRY_MS: u64 = 10;
/// Default bound on finalization, in milliseconds.
pub const FINALIZE_TIMEOUT_MS: u64 = 5000;

/// What the latch has seen: whether it is closed, and how many samples it let through.
pub struct SinkState {
    pub closed: bool,
    pub written: nat,
}

/// The state after a producer offers `n` samples: a closed latch is unchanged;
/// an open one counts them, up to what a `u64` holds.
pub open spec fn write_step(s: SinkState, n: nat) -> SinkState {
    if s.closed {
        s
    } else {
        SinkState {
            written: if s.written + n > u64::MAX { u64::MAX as nat } else { s.written + n },
            ..s
        }
    }
}

/// The state after offers of `ns[0]`, `ns[1]`, ... samples in turn.
pub open spec fn write_all(s: SinkState, ns: Seq<nat>) -> SinkState
    decreases ns.len(),
{
    if ns.len() == 0 {
        s
    } else {
        write_all(write_step(s, ns[0]), ns.drop_first())
    }
}

/// Admits or discards sample chunks on their way to the WAV writer.
pub struct SinkLatch {
    closed: bool,
    written: u64,
}

impl View for SinkLatch {
    type V = SinkState;

    closed spec fn view(&self) -> SinkState {
        SinkState { closed: self.closed, written: self.written as nat }
    }
}

impl SinkLatch {
    /// An open latch that has let nothing through.
    pub fn new() -> (r: Self)
        ensures
            r@ == (SinkState { closed: false, written: 0 }),
    {
        SinkLatch { closed: false, written: 0 }
    }

    /// Offers `n` samples. They may be written only if this returns true,
    /// which it does exactly while the latch is open.
    pub fn accept(&mut self, n: u64) -> (r: bool)
        ensures
            r == !old(self)@.closed,
            final(self)@ == write_step(old(self)@, n as nat),
    {
        if self.closed {
            return false;
        }
        self.written = if self.written > u64::MAX - n { u64::MAX } else { self.written + n };
        true
    }

    /// Closes the latch for good: the first step of finalization.
    pub fn close(&mut self)
        ensures
            final(self)@ == (SinkState { closed: true, ..old(self)@ }),
    {
        self.closed = true;
    }

    pub fn is_closed(&self) -> (r: bool)
        ensures
            r == self@.closed,
    {
        self.closed
    }

    /// Samples let through so far.
    pub fn samples_written(&self) -> (r: u64)
        ensures
            r == self@.written,
    {
        self.written
    }
}

/// After finalization has closed the latch, no sequence of writes changes what
/// was let through, so the file's bytes stay as finalized.
pub proof fn lemma_closed_latch_ignores_writes(s: SinkState, ns: Seq<nat>)
    requires
        s.closed,
    ensures
        write_all(s, ns) == s,
    decreases ns.len(),
{
    if ns.len() > 0 {
        lemma_closed_latch_ignores_writes(write_step(s, ns[0]), ns.drop_first());
    }
}

/// The next move of the finalizing thread.
#[derive(Clone, Copy, Debug, PartialEq, Eq, Structural)]
pub enum FinalizeStep {
    /// The writer was taken: patch the header and close the file.
    Commit,
    /// Sleep this many milliseconds, then try to take the writer again.
    Retry(u64),
    /// The deadline passed: give up; the file keeps what was last flushed.
    TimedOut,
}

/// Decides the next move after an attempt to take the writer, `elapsed_ms`
/// after finalization began, with a bound of `timeout_ms`.
pub fn finalize_step(acquired: bool, elapsed_ms: u64, timeout_ms: u64) -> (r: FinalizeStep)
    ensures
        acquired ==> r == FinalizeStep::Commit,
        !acquired && elapsed_ms >= timeout_ms ==> r == FinalizeStep::TimedOut,
        !acquired && elapsed_ms < timeout_ms ==> r == FinalizeStep::Retry(FINALIZE_RETRY_MS),
{
    if acquired {
        FinalizeStep::Commit
    } else if elapsed_ms >= timeout_ms {
        FinalizeStep::TimedOut
    } else {
        FinalizeStep::Retry(FINALIZE_RETRY_MS)
    }
}

} // verus!
