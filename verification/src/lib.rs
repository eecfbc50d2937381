//! Synthesis of 16-bit mono PCM audio from numeric performance data.
//!
//! The library covers the decision and format logic of a small waveform
//! synthesizer: validation of oscillator parameters and cubic-curve shape
//! coefficients, the note model of the twelve-tone chromatic scale, fail-fast
//! validation of note sequences, clamping and integer truncation of computed
//! sample values, concatenation of per-note sample runs, and the encoder
//! that turns a sample buffer into a complete WAV container.
//!
//! Real-valued parameters are carried as IEEE-754 binary64 bit patterns (see
//! [`binary64`]); the transcendental sample evaluation itself is left to the
//! host layer, which feeds the resulting values back through the verified
//! clamping and truncation steps.

use vstd::prelude::*;

pub mod binary64;
pub mod orchestrator;
pub mod oscillator;
pub mod wav;

use crate::binary64::{gt_one, gt_one_bits, le_zero, le_zero_bits, lt_zero, lt_zero_bits,
    outside_unit, outside_unit_bits};

verus! {

/// Why a synthesis request was rejected. Each variant carries the offending
/// value: real-valued fields as their binary64 bit pattern.
#[derive(Clone, Copy, Debug, PartialEq, Eq, Structural)]
pub enum SynthError {
    /// Oscillator frequency at or below zero.
    NonPositiveFrequency { bits: u64 },
    /// Sample rate of zero.
    ZeroSampleRate,
    /// Requested duration at or below zero seconds.
    NonPositiveDuration { bits: u64 },
    /// Oscillator amplitude outside the range from zero to one.
    AmplitudeOutOfRange { bits: u64 },
    /// A curve needs exactly four shape coefficients.
    ControlPointCount { count: usize },
    /// A shape coefficient outside [-1, 1].
    ControlPointOutOfRange { index: usize, bits: u64 },
    /// A note's pitch class id above eleven.
    NoteIdOutOfRange { id: u8 },
    /// A note's amplitude outside the range from zero to one.
    NoteAmplitudeOutOfRange { bits: u64 },
    /// A note's duration in beats at or below zero.
    NonPositiveBeats { bits: u64 },
    /// A tempo of zero beats per minute.
    ZeroBpm,
    /// A sequence with no notes.
    EmptyNotes,
}

/// The oscillator parameter checks, in the order they are applied: frequency
/// must be above zero, the sample rate non-zero, the duration above zero and
/// the amplitude within the unit interval. A NaN passes the frequency,
/// duration and amplitude checks, since every ordered comparison against it
/// is false.
pub open spec fn oscillator_params_check(
    frequency: u64,
    sample_rate: u32,
    duration: u64,
    amplitude: u64,
) -> Result<(), SynthError> {
    if le_zero(frequency) {
        Err(SynthError::NonPositiveFrequency { bits: frequency })
    } else if sample_rate == 0 {
        Err(SynthError::ZeroSampleRate)
    } else if le_zero(duration) {
        Err(SynthError::NonPositiveDuration { bits: duration })
    } else if lt_zero(amplitude) || gt_one(amplitude) {
        Err(SynthError::AmplitudeOutOfRange { bits: amplitude })
    } else {
        Ok(())
    }
}

/// Validates the common oscillator parameters.
pub fn validate_oscillator_params(
    frequency: u64,
    sample_rate: u32,
    duration: u64,
    amplitude: u64,
) -> (r: Result<(), SynthError>)
    ensures
        r == oscillator_params_check(frequency, sample_rate, duration, amplitude),
{
    if le_zero_bits(frequency) {
        Err(SynthError::NonPositiveFrequency { bits: frequency })
    } else if sample_rate == 0 {
        Err(SynthError::ZeroSampleRate)
    } else if le_zero_bits(duration) {
        Err(SynthError::NonPositiveDuration { bits: duration })
    } else if lt_zero_bits(amplitude) || gt_one_bits(amplitude) {
        Err(SynthError::AmplitudeOutOfRange { bits: amplitude })
    } else {
        Ok(())
    }
}

/// The first shape coefficient at or past position `i` that lies outside
/// [-1, 1], reported as an error; success when the rest are in range. A NaN
/// coefficient is not flagged: both ordered comparisons against it are
/// false.
pub open spec fn control_points_check_from(points: Seq<u64>, i: int) -> Result<(), SynthError>
    decreases points.len() - i,
{
    if i < 0 || i >= points.len() {
        Ok(())
    } else if outside_unit(points[i]) {
        Err(SynthError::ControlPointOutOfRange { index: i as usize, bits: points[i] })
    } else {
        control_points_check_from(points, i + 1)
    }
}

/// The shape-coefficient checks: exactly four coefficients, each within
/// [-1, 1], the first offender reported.
pub open spec fn control_points_check(points: Seq<u64>) -> Result<(), SynthError> {
    if points.len() != 4 {
        Err(SynthError::ControlPointCount { count: points.len() as usize })
    } else {
        control_points_check_from(points, 0)
    }
}

/// Validates the shape coefficients of a curve oscillator.
pub fn validate_control_points(points: &Vec<u64>) -> (r: Result<(), SynthError>)
    ensures
        r == control_points_check(points@),
{
    if points.len() != 4 {
        return Err(SynthError::ControlPointCount { count: points.len() });
    }
    let mut i: usize = 0;
    while i < points.len()
        invariant
            0 <= i <= points@.len(),
            points@.len() == 4,
            control_points_check_from(points@, i as int) == control_points_check_from(points@, 0),
        decreases points@.len() - i,
    {
        if outside_unit_bits(points[i]) {
            proof {
                assert(control_points_check_from(points@, i as int)
                    == Err::<(), SynthError>(SynthError::ControlPointOutOfRange {
                    index: i,
                    bits: points@[i as int],
                }));
            }
            return Err(SynthError::ControlPointOutOfRange { index: i, bits: points[i] });
        }
        i = i + 1;
    }
    Ok(())
}

/// The sequencing entry checks: a non-zero tempo and at least one note.
pub open spec fn sequence_params_check(bpm: u8, note_count: usize) -> Result<(), SynthError> {
    if bpm == 0 {
        Err(SynthError::ZeroBpm)
    } else if note_count == 0 {
        Err(SynthError::EmptyNotes)
    } else {
        Ok(())
    }
}

/// Validates the tempo and the note count of a sequencing request.
pub fn validate_sequence_params(bpm: u8, note_count: usize) -> (r: Result<(), SynthError>)
    ensures
        r == sequence_params_check(bpm, note_count),
{
    if bpm == 0 {
        Err(SynthError::ZeroBpm)
    } else if note_count == 0 {
        Err(SynthError::EmptyNotes)
    } else {
        Ok(())
    }
}

} // verus!
