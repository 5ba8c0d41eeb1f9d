//! Pulse widths for driving the two servos straight from the Pi's PWM pins.

use vstd::prelude::*;
use crate::uno_serial::{clamp, clamp_spec};

verus! {

/// Pulse width of the lowest control value, in microseconds.
pub const MIN_PULSE_US: u64 = 1_000;

/// Width added across the whole control range, in microseconds.
pub const PULSE_RANGE_US: u64 = 1_000;

/// `1000 + clamp(value, 0, 255) * 1000 / 255`, with integer division.
pub open spec fn pulse_width_spec(value: i32) -> int {
    MIN_PULSE_US + clamp_spec(value as int, 0, 255) * (PULSE_RANGE_US as int) / 255
}

/// Maps a control value onto a servo pulse of 1000 to 2000 microseconds;
/// values outside `0..=255` are first limited to that range.
pub fn pulse_width_us(value: i32) -> (width: u64)
    ensures
        width as int == pulse_width_spec(value),
        MIN_PULSE_US <= width <= MIN_PULSE_US + PULSE_RANGE_US,
{
    let clamped = clamp(value, 0, 255);
    assert(0 <= (clamped as int) * 1000 / 255 <= 1000) by (nonlinear_arith)
        requires
            0 <= clamped <= 255,
    ;
    MIN_PULSE_US + clamped as u64 * PULSE_RANGE_US / 255
}

/// Clamping first means every value outside the range gives the pulse of the
/// nearest end of the range, and the mapping never decreases.
pub proof fn lemma_pulse_width_monotonic(a: i32, b: i32)
    requires
        a <= b,
    ensures
        pulse_width_spec(a) <= pulse_width_spec(b),
        a <= 0 ==> pulse_width_spec(a) == MIN_PULSE_US,
        a >= 255 ==> pulse_width_spec(a) == MIN_PULSE_US + PULSE_RANGE_US,
{
    let ca = clamp_spec(a as int, 0, 255);
    let cb = clamp_spec(b as int, 0, 255);
    assert(ca * 1000 / 255 <= cb * 1000 / 255) by (nonlinear_arith)
        requires
            0 <= ca <= cb,
    ;
}

} // verus!
