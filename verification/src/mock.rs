//! Test-support mock for digital input pins: [`MockInputPin`].
//!
//! It implements both this crate's [`DigitalRead`] seam and
//! `embedded_hal::digital::InputPin`, with an [`Infallible`] error type.
use crate::digital::DigitalRead;
use core::convert::Infallible;
use embedded_hal::digital::{ErrorType, InputPin};
use vstd::prelude::*;

verus! {

/// Settable mock input pin. [`Default`] yields a low pin.
#[derive(Debug, Clone, Copy, PartialEq, Eq, Structural)]
pub struct MockInputPin {
    high: bool,
}

impl MockInputPin {
    /// The current level: `true` when high.
    pub closed spec fn level(self) -> bool {
        self.high
    }

    /// Creates a new mock pin with the given initial level (`true` = high).
    pub fn new(high: bool) -> (r: Self)
        ensures
            r.level() == high,
    {
        Self { high }
    }

    /// Drives the pin high.
    pub fn set_high(&mut self)
        ensures
            final(self).level(),
    {
        self.high = true;
    }

    /// Drives the pin low.
    pub fn set_low(&mut self)
        ensures
            !final(self).level(),
    {
        self.high = false;
    }

    /// Sets the pin level: `true` for high, `false` for low.
    pub fn set(&mut self, high: bool)
        ensures
            final(self).level() == high,
    {
        self.high = high;
    }
}

impl Default for MockInputPin {
    fn default() -> (r: Self)
        ensures
            !r.level(),
    {
        Self { high: false }
    }
}

impl DigitalRead for MockInputPin {
    type Error = Infallible;

    fn read_level(&mut self) -> (r: Result<bool, Infallible>)
        ensures
            r == Ok::<bool, Infallible>(old(self).level()),
            *final(self) == *old(self),
    {
        Ok(self.high)
    }
}

impl ErrorType for MockInputPin {
    type Error = Infallible;
}

impl InputPin for MockInputPin {
    fn is_high(&mut self) -> (r: Result<bool, Self::Error>)
        ensures
            r == Ok::<bool, Infallible>(old(self).level()),
            *final(self) == *old(self),
    {
        Ok(self.high)
    }

    fn is_low(&mut self) -> (r: Result<bool, Self::Error>)
        ensures
            r == Ok::<bool, Infallible>(!old(self).level()),
            *final(self) == *old(self),
    {
        Ok(!self.high)
    }
}

} // verus!
