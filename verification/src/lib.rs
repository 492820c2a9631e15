//! `tamer`: taming unruly hardware inputs and sequencing outputs into clean,
//! verified logic.
//!
//! The pure core of a peripherals stack: debounce state machines, rotary
//! quadrature decoding, button and touch gestures, analog normalization,
//! Hall-effect presence, MPU6050 burst parsing and calibration, and a tone
//! sequencer. Nothing here touches hardware: the caller supplies samples and
//! a monotonic clock, and hardware reads go through the [`DigitalRead`] and
//! [`AnalogRead`] traits. Every public function carries a contract that
//! Verus proves.
//!
//! - [`analog`]: raw ADC range normalization and deadbanded analog movement.
//! - [`debounce`]: sampled-input debounce state machine and edge detector.
//! - [`hall`]: Hall-effect magnetic presence by deviation threshold.
//! - [`smoothing`]: O(1) sliding-window average.
//! - [`presence`]: polarity-aware debounced present/absent detection.
//! - [`range_map`]: clamped linear remap from `u16` readings to `u8` output.
//! - [`rotary`]: quadrature decoding with detent accumulation.
//! - [`button`]: press/release/click/double-click/long-press events.
//! - [`mpu6050`]: MPU6050 register map, burst parsing and calibration.
//! - [`tone`]: tone/duration sequencer.
//! - [`touch`]: touch down/move/up edges and tap/long-press/swipe gestures.
//! - [`encoder`]: configuration and decisions of the interrupt-driven
//!   rotary-encoder driver.

pub mod analog;
pub mod button;
pub mod debounce;
pub mod digital;
pub mod encoder;
pub mod hall;
pub mod mock;
pub mod mpu6050;
pub mod prelude;
pub mod presence;
pub mod range_map;
pub mod rotary;
pub mod scale;
pub mod smoothing;
pub mod tone;
pub mod touch;

pub use analog::{AnalogInput, AnalogRange, AnalogRead, AnalogSample, AnalogValue, MockAnalogRead};
pub use button::{ButtonDecoder, ButtonEvent, ButtonInput};
pub use debounce::{DebouncedInput, Debouncer, Edge, EdgeDetector};
pub use digital::DigitalRead;
pub use encoder::EncoderConfig;
pub use hall::{HallCalibrationError, HallSensor};
pub use mock::MockInputPin;
pub use mpu6050::{apply_offsets, parse_raw, AccelCalibration, AccelOffsets, RawReading};
pub use presence::{DigitalPresence, DigitalPresenceInput, Polarity, Presence};
pub use range_map::RangeMap;
pub use rotary::{EncoderDirection, QuadratureDecoder, QuadratureInput};
pub use smoothing::SlidingAverage;
pub use tone::{Note, SequenceEvent, SequenceMode, ToneOutput, ToneSequencer};
pub use touch::{SwipeDirection, TouchEvent, TouchPoint, TouchTracker};
