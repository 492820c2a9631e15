//! The digital-input seam: [`DigitalRead`].
use vstd::prelude::*;

verus! {

/// Minimal trait for digital input pins.
///
/// The pin adapters in this crate ([`DebouncedInput`](crate::debounce::DebouncedInput),
/// [`ButtonInput`](crate::button::ButtonInput) and the others) read their pin
/// through this trait. Hardware crates implement it for their GPIO types;
/// tests use [`MockInputPin`](crate::mock::MockInputPin).
pub trait DigitalRead {
    /// The read error type.
    type Error;

    /// Reads the pin level: `Ok(true)` when the pin is high.
    fn read_level(&mut self) -> Result<bool, Self::Error>;
}

} // verus!
