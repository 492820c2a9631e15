//! Configuration and decision logic of the interrupt-driven rotary encoder
//! driver: [`EncoderConfig`], [`mirror_detent`] and [`isr_service_ready`].
//!
//! The driver itself (GPIO setup, the persistent edge interrupts and their
//! teardown) lives with the hardware glue; everything it decides is here.
use crate::button::{ButtonDecoder, ButtonView};
use crate::rotary::{ab_state, EncoderDirection, QuadratureDecoder, QuadratureView};
use vstd::prelude::*;

verus! {

/// Encoder configuration.
#[derive(Debug, Clone, Copy, PartialEq, Eq, Structural)]
#[non_exhaustive]
pub struct EncoderConfig {
    /// Valid quadrature transitions per physical detent: `4` for full-step
    /// EC11 encoders, `2` for half-step. Must be non-zero.
    pub steps_per_detent: u8,
    /// Button debounce window in milliseconds.
    pub debounce_ms: u64,
    /// Minimum button hold in milliseconds for a long press.
    pub long_press_ms: u64,
    /// Maximum gap in milliseconds between two clicks for a double click.
    pub double_click_ms: u64,
}

impl Default for EncoderConfig {
    /// EC11 full-step defaults: `steps_per_detent = 4`, `debounce_ms = 50`,
    /// `long_press_ms = 1000`, `double_click_ms = 300`.
    fn default() -> (r: Self)
        ensures
            r == (EncoderConfig { steps_per_detent: 4, debounce_ms: 50, long_press_ms: 1000, double_click_ms: 300 }),
    {
        Self { steps_per_detent: 4, debounce_ms: 50, long_press_ms: 1000, double_click_ms: 300 }
    }
}

impl EncoderConfig {
    /// Whether the configuration is usable: `steps_per_detent` is non-zero.
    pub fn is_valid(&self) -> (r: bool)
        ensures
            r == (self.steps_per_detent > 0),
    {
        self.steps_per_detent > 0
    }

    /// Builds the quadrature decoder for this configuration, seeded from the
    /// live A/B levels. Requires a valid configuration.
    pub fn quadrature_decoder(&self, initial_a: bool, initial_b: bool) -> (r: QuadratureDecoder)
        requires
            self.steps_per_detent > 0,
        ensures
            r@ == (QuadratureView {
                last_state: ab_state(initial_a, initial_b),
                accumulator: 0,
                steps_per_detent: self.steps_per_detent as int,
                position: 0,
            }),
    {
        QuadratureDecoder::new(initial_a, initial_b, self.steps_per_detent)
    }

    /// Builds the button decoder for this configuration, seeded from the
    /// live button state so a button already held at construction does not
    /// register a phantom press.
    pub fn button_decoder(&self, button_pressed: bool) -> (r: ButtonDecoder)
        ensures
            r@ == ButtonView::initial(button_pressed, self.debounce_ms, self.long_press_ms, self.double_click_ms),
    {
        ButtonDecoder::new(button_pressed, self.debounce_ms, self.long_press_ms, self.double_click_ms)
    }
}

/// `position` moved one detent in `direction`, wrapping around the `i32`
/// range like an atomic `fetch_add` / `fetch_sub`.
pub open spec fn mirror_detent_spec(position: i32, direction: Option<EncoderDirection>) -> i32 {
    match direction {
        Some(EncoderDirection::Clockwise) => if position == i32::MAX {
            i32::MIN
        } else {
            (position + 1) as i32
        },
        Some(EncoderDirection::CounterClockwise) => if position == i32::MIN {
            i32::MAX
        } else {
            (position - 1) as i32
        },
        None => position,
    }
}

/// Mirrors a confirmed detent onto the shared position counter the driver
/// publishes: `+1` clockwise, `-1` counter-clockwise, wrapping.
pub fn mirror_detent(position: i32, direction: Option<EncoderDirection>) -> (r: i32)
    ensures
        r == mirror_detent_spec(position, direction),
{
    match direction {
        Some(EncoderDirection::Clockwise) => if position == i32::MAX {
            i32::MIN
        } else {
            position + 1
        },
        Some(EncoderDirection::CounterClockwise) => if position == i32::MIN {
            i32::MAX
        } else {
            position - 1
        },
        None => position,
    }
}

/// Whether the status code of installing the shared GPIO interrupt service
/// means the service is ready: it was installed now (`ok`), or another
/// driver had installed it already (`already_installed`). Any other code is
/// a failure.
pub fn isr_service_ready(status: i32, ok: i32, already_installed: i32) -> (r: bool)
    ensures
        r == (status == ok || status == already_installed),
{
    status == ok || status == already_installed
}

} // verus!
