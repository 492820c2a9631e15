//! Hall-effect magnetic presence detection: [`HallSensor`] and
//! [`HallCalibrationError`].
//!
//! A pure threshold evaluator for linear Hall-effect sensors: the absolute
//! deviation of a raw ADC reading from a calibrated no-magnet midpoint is
//! compared against a threshold. Pair it with
//! [`SlidingAverage`](crate::smoothing::SlidingAverage) to absorb ADC noise.
use crate::presence::Presence;
use crate::smoothing::{lemma_sum_bounds, lemma_sum_prefix, seq_sum};
use vstd::prelude::*;

verus! {

/// Error returned by [`HallSensor::calibrate_from_samples`].
#[derive(Debug, Clone, Copy, PartialEq, Eq, Structural, Hash)]
pub enum HallCalibrationError {
    /// Calibration was requested with an empty sample slice.
    EmptySamples,
}

impl HallCalibrationError {
    /// The human-readable message of this error.
    pub fn to_string(&self) -> (r: String)
        ensures
            r@ == "calibration requires at least one sample"@,
    {
        match self {
            HallCalibrationError::EmptySamples => String::from_str("calibration requires at least one sample"),
        }
    }
}

/// Absolute difference of two `u16` values.
pub open spec fn abs_diff_spec(a: u16, b: u16) -> int {
    if a >= b {
        a - b
    } else {
        b - a
    }
}

/// Pure threshold-based presence detector for a linear Hall-effect sensor.
///
/// A deviation from the midpoint at or above the threshold is
/// [`Presence::Present`]; below it, [`Presence::Absent`]. A single threshold,
/// no hysteresis.
#[derive(Debug, Clone, Copy, PartialEq, Eq, Structural, Hash)]
pub struct HallSensor {
    midpoint: u16,
    threshold: u16,
}

impl HallSensor {
    /// The no-magnet midpoint.
    pub closed spec fn midpoint_spec(self) -> u16 {
        self.midpoint
    }

    /// The presence threshold.
    pub closed spec fn threshold_spec(self) -> u16 {
        self.threshold
    }

    /// The presence reading of `raw`.
    pub open spec fn evaluate_spec(self, raw: u16) -> Presence {
        if abs_diff_spec(raw, self.midpoint_spec()) >= self.threshold_spec() {
            Presence::Present
        } else {
            Presence::Absent
        }
    }

    /// Creates a new evaluator with the given presence threshold and
    /// midpoint (typically `2048` for a 12-bit ADC centered at VCC/2).
    pub fn new(threshold: u16, midpoint: u16) -> (r: Self)
        ensures
            r.threshold_spec() == threshold,
            r.midpoint_spec() == midpoint,
    {
        Self { midpoint, threshold }
    }

    /// Returns the configured presence threshold.
    pub fn threshold(&self) -> (r: u16)
        ensures
            r == self.threshold_spec(),
    {
        self.threshold
    }

    /// Returns the current no-magnet midpoint.
    pub fn midpoint(&self) -> (r: u16)
        ensures
            r == self.midpoint_spec(),
    {
        self.midpoint
    }

    /// Sets the midpoint directly, overriding any previous calibration.
    pub fn set_midpoint(&mut self, midpoint: u16)
        ensures
            final(self).midpoint_spec() == midpoint,
            final(self).threshold_spec() == old(self).threshold_spec(),
    {
        self.midpoint = midpoint;
    }

    /// Sets the presence threshold directly.
    pub fn set_threshold(&mut self, threshold: u16)
        ensures
            final(self).threshold_spec() == threshold,
            final(self).midpoint_spec() == old(self).midpoint_spec(),
    {
        self.threshold = threshold;
    }

    /// Calibrates the midpoint as the (truncated) average of the given
    /// no-magnet samples. The midpoint is left unchanged on error.
    ///
    /// The samples' sum must fit the `u32` accumulator (always the case for
    /// up to 65537 samples).
    ///
    /// # Errors
    ///
    /// Returns [`HallCalibrationError::EmptySamples`] if `samples` is empty.
    pub fn calibrate_from_samples(&mut self, samples: &[u16]) -> (r: Result<(), HallCalibrationError>)
        requires
            seq_sum(samples@) <= u32::MAX,
        ensures
            r is Err <==> samples@.len() == 0,
            r == Err::<(), HallCalibrationError>(HallCalibrationError::EmptySamples) <==> samples@.len() == 0,
            r is Err ==> *final(self) == *old(self),
            r is Ok ==> final(self).midpoint_spec() == seq_sum(samples@) / (samples@.len() as int),
            final(self).threshold_spec() == old(self).threshold_spec(),
    {
        if samples.len() == 0 {
            return Err(HallCalibrationError::EmptySamples);
        }
        let mut sum: u32 = 0;
        let mut i: usize = 0;
        while i < samples.len()
            invariant
                0 <= i <= samples@.len(),
                sum == seq_sum(samples@.take(i as int)),
                seq_sum(samples@) <= u32::MAX,
            decreases samples@.len() - i,
        {
            proof {
                assert(samples@.take(i + 1).drop_last() =~= samples@.take(i as int));
                lemma_sum_prefix(samples@, i + 1);
            }
            sum = sum + samples[i] as u32;
            i = i + 1;
        }
        proof {
            assert(samples@.take(i as int) =~= samples@);
            lemma_sum_bounds(samples@);
            let s = seq_sum(samples@);
            let k = samples@.len() as int;
            assert(s / k <= 65535) by (nonlinear_arith)
                requires
                    0 <= s <= k * 65535,
                    k > 0,
            ;
        }
        self.midpoint = (sum as u64 / samples.len() as u64) as u16;
        Ok(())
    }

    /// Evaluates a raw ADC reading: [`Presence::Present`] if the absolute
    /// deviation from the midpoint is at or above the threshold.
    pub fn evaluate(&self, raw: u16) -> (r: Presence)
        ensures
            r == self.evaluate_spec(raw),
    {
        if self.deviation(raw) >= self.threshold {
            Presence::Present
        } else {
            Presence::Absent
        }
    }

    /// Returns the absolute deviation of `raw` from the midpoint.
    pub fn deviation(&self, raw: u16) -> (r: u16)
        ensures
            r == abs_diff_spec(raw, self.midpoint_spec()),
    {
        if raw >= self.midpoint {
            raw - self.midpoint
        } else {
            self.midpoint - raw
        }
    }
}

} // verus!
