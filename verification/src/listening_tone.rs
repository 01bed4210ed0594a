//! Shape of the finite, low-level PCM signal used by the receiver listening
//! check: its length, its fades, and its channel layout.
//!
//! The waveform itself is sampled in floating point by the application, which
//! scales each sample by the fade given here.

use vstd::prelude::*;

use crate::bridge::{CAPTURE_CHANNELS, CAPTURE_SAMPLE_RATE};

verus! {

/// Duration of the listening tone in seconds.
pub const LISTENING_TONE_DURATION_SECS: usize = 2;

/// Linear fade length at either edge in sample frames, about 25 ms, avoiding
/// an audible click.
pub const LISTENING_TONE_FADE_SAMPLES: usize = 1_103;

/// Sample frames of the listening tone.
pub open spec fn tone_frame_total() -> int {
    CAPTURE_SAMPLE_RATE * LISTENING_TONE_DURATION_SECS
}

/// Sample frames of the listening tone.
pub fn tone_frames() -> (r: usize)
    ensures
        r == tone_frame_total(),
{
    CAPTURE_SAMPLE_RATE as usize * LISTENING_TONE_DURATION_SECS
}

/// The smaller of two numbers.
pub open spec fn smaller(a: int, b: int) -> int {
    if a < b { a } else { b }
}

/// Loudness of sample frame `index` in steps of one fade length: it rises
/// from silence, stays full, and falls back to silence.
pub open spec fn fade_level(index: int) -> int {
    smaller(
        smaller(index, tone_frame_total() - 1 - index),
        LISTENING_TONE_FADE_SAMPLES as int,
    )
}

/// Loudness of sample frame `index` in steps of one fade length.
pub fn fade_steps(index: usize) -> (r: usize)
    requires
        index < tone_frame_total(),
    ensures
        r == fade_level(index as int),
{
    let remaining: usize = tone_frames() - 1 - index;
    let edge: usize = if index < remaining { index } else { remaining };
    if edge < LISTENING_TONE_FADE_SAMPLES { edge } else { LISTENING_TONE_FADE_SAMPLES }
}

/// Repeats each sample of a mono signal on every channel.
pub fn spread_over_channels(mono: &Vec<i16>) -> (r: Vec<i16>)
    ensures
        r@.len() == mono@.len() * CAPTURE_CHANNELS,
        forall|i: int| 0 <= i < r@.len() ==> #[trigger] r@[i] == mono@[i / CAPTURE_CHANNELS as int],
{
    let mut samples: Vec<i16> = Vec::new();
    let mut i: usize = 0;
    while i < mono.len()
        invariant
            i <= mono@.len(),
            samples@.len() == i * CAPTURE_CHANNELS,
            forall|k: int| 0 <= k < samples@.len() ==> #[trigger] samples@[k]
                == mono@[k / CAPTURE_CHANNELS as int],
        decreases mono@.len() - i,
    {
        samples.push(mono[i]);
        samples.push(mono[i]);
        i = i + 1;
    }
    samples
}

/// The tone starts and ends silent, its fades mirror each other, and between
/// them it is at full level.
pub proof fn law_tone_fades_in_and_out(index: int)
    requires
        0 <= index < tone_frame_total(),
    ensures
        fade_level(0) == 0,
        fade_level(tone_frame_total() - 1) == 0,
        fade_level(index) == fade_level(tone_frame_total() - 1 - index),
        0 <= fade_level(index) <= LISTENING_TONE_FADE_SAMPLES,
        LISTENING_TONE_FADE_SAMPLES <= index < tone_frame_total() - LISTENING_TONE_FADE_SAMPLES
            ==> fade_level(index) == LISTENING_TONE_FADE_SAMPLES,
{
}

} // verus!
