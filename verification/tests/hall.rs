//! Tests for `tamer::hall`.
use tamer::hall::{HallCalibrationError, HallSensor};
use tamer::presence::Presence;

#[test]
fn new_sets_midpoint_and_threshold() {
    let sensor = HallSensor::new(300, 2048);

    assert_eq!(sensor.midpoint(), 2048);
    assert_eq!(sensor.threshold(), 300);
}

#[test]
fn calibrate_averages_samples() {
    let mut sensor = HallSensor::new(300, 0);

    sensor.calibrate_from_samples(&[2040, 2050, 2060]).unwrap();

    assert_eq!(sensor.midpoint(), 2050);
}

#[test]
fn calibrate_single_sample() {
    let mut sensor = HallSensor::new(300, 0);

    sensor.calibrate_from_samples(&[2048]).unwrap();

    assert_eq!(sensor.midpoint(), 2048);
}

#[test]
fn calibrate_empty_samples_returns_err() {
    let mut sensor = HallSensor::new(300, 2048);

    assert_eq!(
        sensor.calibrate_from_samples(&[]),
        Err(HallCalibrationError::EmptySamples)
    );
}

#[test]
fn calibrate_midpoint_unchanged_on_error() {
    let mut sensor = HallSensor::new(300, 2048);

    let _ = sensor.calibrate_from_samples(&[]);

    assert_eq!(sensor.midpoint(), 2048);
}

#[test]
fn hall_calibration_error_display() {
    let err = HallCalibrationError::EmptySamples;

    assert_eq!(err.to_string(), "calibration requires at least one sample");
}

#[test]
fn set_midpoint_overrides() {
    let mut sensor = HallSensor::new(300, 2048);
    sensor.calibrate_from_samples(&[2040, 2050, 2060]).unwrap();

    sensor.set_midpoint(1000);

    assert_eq!(sensor.midpoint(), 1000);
}

#[test]
fn set_threshold_overrides() {
    let mut sensor = HallSensor::new(300, 2048);

    sensor.set_threshold(100);

    assert_eq!(sensor.threshold(), 100);
    // deviation from 2048: 2150 - 2048 = 102 >= 100 → Present
    // (would have been Absent under the original threshold of 300)
    assert_eq!(sensor.evaluate(2150), Presence::Present);
}

#[test]
fn evaluate_after_set_midpoint() {
    let mut sensor = HallSensor::new(100, 2048);
    sensor.set_midpoint(3000);

    // deviation from 3000: 3150 - 3000 = 150 >= 100 → Present
    assert_eq!(sensor.evaluate(3150), Presence::Present);
    // deviation from 3000: 3050 - 3000 = 50 < 100 → Absent
    assert_eq!(sensor.evaluate(3050), Presence::Absent);
}

#[test]
fn evaluate_present_above_midpoint() {
    let sensor = HallSensor::new(300, 2048);

    // raw=2400, deviation=352 >= 300 → Present
    assert_eq!(sensor.evaluate(2400), Presence::Present);
}

#[test]
fn evaluate_present_below_midpoint() {
    let sensor = HallSensor::new(300, 2048);

    // raw=1700, deviation=348 >= 300 → Present
    assert_eq!(sensor.evaluate(1700), Presence::Present);
}

#[test]
fn evaluate_absent_near_midpoint() {
    let sensor = HallSensor::new(300, 2048);

    // raw=2100, deviation=52 < 300 → Absent
    assert_eq!(sensor.evaluate(2100), Presence::Absent);
}

#[test]
fn evaluate_present_at_exact_threshold() {
    let sensor = HallSensor::new(300, 2048);

    // raw=2348, deviation=300 >= 300 → Present
    assert_eq!(sensor.evaluate(2348), Presence::Present);
}

#[test]
fn evaluate_absent_just_below_threshold() {
    let sensor = HallSensor::new(300, 2048);

    // raw=2347, deviation=299 < 300 → Absent
    assert_eq!(sensor.evaluate(2347), Presence::Absent);
}

#[test]
fn evaluate_present_at_extremes() {
    let sensor = HallSensor::new(300, 2048);

    assert_eq!(sensor.evaluate(0), Presence::Present);
    assert_eq!(sensor.evaluate(4095), Presence::Present);
}

#[test]
fn deviation_returns_absolute_difference() {
    let sensor = HallSensor::new(300, 2048);

    assert_eq!(sensor.deviation(2400), 352);
    assert_eq!(sensor.deviation(1700), 348);
    assert_eq!(sensor.deviation(2048), 0);
}

#[test]
fn calibrate_handles_large_values() {
    let mut sensor = HallSensor::new(300, 0);

    // Values near u16::MAX — sum fits in u32.
    sensor.calibrate_from_samples(&[4095, 4095]).unwrap();

    assert_eq!(sensor.midpoint(), 4095);
}

#[test]
fn typical_calibrated_workflow() {
    let mut sensor = HallSensor::new(300, 0);

    // Realistic no-magnet samples clustered around 2050.
    sensor
        .calibrate_from_samples(&[2048, 2050, 2052, 2049, 2051])
        .unwrap();
    assert_eq!(sensor.midpoint(), 2050);

    // raw=2100, deviation=|2100-2050|=50 < 300 → Absent (no magnet).
    assert_eq!(sensor.evaluate(2100), Presence::Absent);

    // raw=2400, deviation=|2400-2050|=350 >= 300 → Present (above midpoint).
    assert_eq!(sensor.evaluate(2400), Presence::Present);

    // raw=1700, deviation=|1700-2050|=350 >= 300 → Present (below midpoint).
    assert_eq!(sensor.evaluate(1700), Presence::Present);
}
