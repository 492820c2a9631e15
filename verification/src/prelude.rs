//! Curated re-exports of the most-used types, for `use tamer::prelude::*;`.
pub use crate::analog::{AnalogInput, AnalogRange, AnalogRead, AnalogSample, AnalogValue, MockAnalogRead};
pub use crate::button::{ButtonDecoder, ButtonEvent, ButtonInput};
pub use crate::debounce::{DebouncedInput, Debouncer, Edge, EdgeDetector};
pub use crate::digital::DigitalRead;
pub use crate::hall::{HallCalibrationError, HallSensor};
pub use crate::mock::MockInputPin;
pub use crate::mpu6050::{AccelCalibration, RawReading};
pub use crate::presence::{DigitalPresence, DigitalPresenceInput, Polarity, Presence};
pub use crate::range_map::RangeMap;
pub use crate::rotary::{EncoderDirection, QuadratureDecoder, QuadratureInput};
pub use crate::smoothing::SlidingAverage;
pub use crate::tone::{Note, SequenceMode, ToneSequencer};
pub use crate::touch::{SwipeDirection, TouchEvent, TouchPoint, TouchTracker};
