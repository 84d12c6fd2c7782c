//! Checks of the transcription and summary bridges, made before any outside
//! work: the audio format, the sample count, the transcript size.
use vstd::prelude::*;
use crate::error::MeetingError;
use crate::sink::{BITS_PER_SAMPLE, SAMPLE_RATE};

verus! {

/// Default bound on the transcript sent for a summary: 1 MiB.
pub const SUMMARY_TRANSCRIPT_LIMIT: u64 = 1048576;

/// The recording must be 16-bit at 16000 Hz.
pub fn check_audio_format(bits_per_sample: u16, sample_rate: u32) -> (r: Result<(), MeetingError>)
    ensures
        r is Ok <==> bits_per_sample == 16 && sample_rate == 16000,
        r is Err ==> (r matches Err(MeetingError::AudioFormat(b, s)) && b == bits_per_sample && s
            == sample_rate),
{
    if bits_per_sample != BITS_PER_SAMPLE || sample_rate != SAMPLE_RATE {
        Err(MeetingError::AudioFormat(bits_per_sample, sample_rate))
    } else {
        Ok(())
    }
}

/// A recording without samples is not transcribed.
pub fn check_samples(count: usize) -> (r: Result<(), MeetingError>)
    ensures
        r is Ok <==> count > 0,
        r is Err ==> (r matches Err(MeetingError::NoSamples)),
{
    if count == 0 {
        Err(MeetingError::NoSamples)
    } else {
        Ok(())
    }
}

/// Speech-to-text must return some text.
pub fn check_transcript(text: &str) -> (r: Result<(), MeetingError>)
    ensures
        r is Ok <==> text@.len() > 0,
        r is Err ==> (r matches Err(MeetingError::EmptyTranscript)),
{
    if text.unicode_len() == 0 {
        Err(MeetingError::EmptyTranscript)
    } else {
        Ok(())
    }
}

/// A transcript over the limit is refused before any request is made.
pub fn check_transcript_size(size: u64, limit: u64) -> (r: Result<(), MeetingError>)
    ensures
        r is Ok <==> size <= limit,
        r is Err ==> (r matches Err(MeetingError::TranscriptTooLarge(s, l)) && s == size && l
            == limit),
{
    if size > limit {
        Err(MeetingError::TranscriptTooLarge(size, limit))
    } else {
        Ok(())
    }
}

} // verus!
