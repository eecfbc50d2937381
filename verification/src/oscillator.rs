//! The oscillator configurations.
//!
//! An oscillator is described by a frequency, an amplitude and a sample
//! rate, the first two as binary64 bit patterns; the cubic-curve variant
//! adds exactly four shape coefficients, the control ordinates of a cubic
//! Bezier blend evaluated at the phase within the current cycle. The curve
//! constructor applies every range check in order and is proved to accept a
//! configuration exactly when all of them pass. Evaluating a configuration
//! at a sample index is transcendental arithmetic and is left to the host
//! layer, which pushes each computed value back through the verified
//! clamping and truncation steps of [`crate::binary64`].

use vstd::prelude::*;

use crate::SynthError;
use crate::binary64::{gt_one, gt_one_bits, le_zero, le_zero_bits, lt_zero, lt_zero_bits};
use crate::binary64::outside_unit_bits;
use crate::control_points_check_from;

verus! {

/// A pure sine generator's configuration. `frequency` and `amplitude` carry
/// binary64 bit patterns.
#[derive(Clone, Copy, Debug, PartialEq, Eq, Structural)]
pub struct SinOscillator {
    /// Frequency in Hz; meaningful when it represents a value above zero.
    pub frequency: u64,
    /// Amplitude; meaningful when it represents a value between zero and
    /// one.
    pub amplitude: u64,
    /// Samples per second of audio.
    pub sample_rate: u32,
}

/// A cubic-curve generator's configuration. `frequency`, `amplitude` and the
/// shape coefficients carry binary64 bit patterns.
#[derive(Clone, Debug)]
pub struct BezierOscillator {
    /// Frequency in Hz.
    pub frequency: u64,
    /// Amplitude.
    pub amplitude: u64,
    /// Samples per second of audio.
    pub sample_rate: u32,
    /// The curve's four shape coefficients.
    pub control_points: Vec<u64>,
}

/// The curve constructor's checks, in the order they are applied: exactly
/// four shape coefficients, each within [-1, 1], then a frequency above
/// zero, an amplitude within the unit interval and a non-zero sample rate.
pub open spec fn bezier_config_check(
    frequency: u64,
    amplitude: u64,
    sample_rate: u32,
    control_points: Seq<u64>,
) -> Result<(), SynthError> {
    if control_points.len() != 4 {
        Err(SynthError::ControlPointCount { count: control_points.len() as usize })
    } else {
        match control_points_check_from(control_points, 0) {
            Err(e) => Err(e),
            Ok(_) => if le_zero(frequency) {
                Err(SynthError::NonPositiveFrequency { bits: frequency })
            } else if lt_zero(amplitude) || gt_one(amplitude) {
                Err(SynthError::AmplitudeOutOfRange { bits: amplitude })
            } else if sample_rate == 0 {
                Err(SynthError::ZeroSampleRate)
            } else {
                Ok(())
            },
        }
    }
}

impl BezierOscillator {
    /// Builds a curve configuration, applying every range check in order;
    /// the accepted configuration holds the arguments unchanged.
    pub fn new(
        frequency: u64,
        amplitude: u64,
        sample_rate: u32,
        control_points: Vec<u64>,
    ) -> (r: Result<Self, SynthError>)
        ensures
            r matches Err(e) ==> Err::<(), SynthError>(e) == bezier_config_check(
                frequency,
                amplitude,
                sample_rate,
                control_points@,
            ),
            r matches Ok(o) ==> bezier_config_check(
                frequency,
                amplitude,
                sample_rate,
                control_points@,
            ) is Ok && o.frequency == frequency && o.amplitude == amplitude && o.sample_rate
                == sample_rate && o.control_points@ == control_points@,
    {
        if control_points.len() != 4 {
            return Err(SynthError::ControlPointCount { count: control_points.len() });
        }
        let mut i: usize = 0;
        while i < control_points.len()
            invariant
                0 <= i <= control_points@.len(),
                control_points@.len() == 4,
                control_points_check_from(control_points@, i as int) == control_points_check_from(
                    control_points@,
                    0,
                ),
            decreases control_points@.len() - i,
        {
            if outside_unit_bits(control_points[i]) {
                proof {
                    assert(control_points_check_from(control_points@, i as int) == Err::<
                        (),
                        SynthError,
                    >(SynthError::ControlPointOutOfRange {
                        index: i,
                        bits: control_points@[i as int],
                    }));
                }
                return Err(SynthError::ControlPointOutOfRange {
                    index: i,
                    bits: control_points[i],
                });
            }
            i = i + 1;
        }
        if le_zero_bits(frequency) {
            return Err(SynthError::NonPositiveFrequency { bits: frequency });
        }
        if lt_zero_bits(amplitude) || gt_one_bits(amplitude) {
            return Err(SynthError::AmplitudeOutOfRange { bits: amplitude });
        }
        if sample_rate == 0 {
            return Err(SynthError::ZeroSampleRate);
        }
        Ok(Self { frequency, amplitude, sample_rate, control_points })
    }
}

} // verus!
