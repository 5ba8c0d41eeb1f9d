//! Laws of the ball firmware's motor and LED outputs.

use vstd::prelude::*;
use crate::esp32_ball::{led_level, motor_levels, LedAction, MotorAction, TiltSensation};

verus! {

/// A stop command switches both motors off whatever the tilt. A start
/// command runs both motors, except that a lean to one side switches off
/// the motor on that side, so the ball turns that way.
pub proof fn lemma_motor_outputs(tilt: TiltSensation)
    ensures
        motor_levels(MotorAction::Stop, tilt) == (false, false),
        motor_levels(MotorAction::Start, tilt).0 == (tilt != TiltSensation::TiltingLeft),
        motor_levels(MotorAction::Start, tilt).1 == (tilt != TiltSensation::TiltingRight),
        motor_levels(MotorAction::Start, tilt).0 || motor_levels(MotorAction::Start, tilt).1,
{
}

/// Blinking has a two-second period: the LED is on for the first second of
/// every two and off for the second; the level at `t` is the level at
/// `t + 2000`. With the LED off it is never on.
pub proof fn lemma_led_blinks(t: u64)
    ensures
        !led_level(LedAction::Off, t),
        led_level(LedAction::Blink, t) <==> t % 2000 < 1000,
        led_level(LedAction::Blink, t) <==> (t / 1000) % 2 == 0,
        t + 2000 <= u64::MAX ==> led_level(LedAction::Blink, t) == led_level(
            LedAction::Blink,
            (t + 2000) as u64,
        ),
{
    let q = t / 1000;
    assert(((t / 1000) % 2 == 0) <==> (t % 2000 < 1000)) by (nonlinear_arith);
    if t + 2000 <= u64::MAX {
        let u = (t + 2000) as u64;
        assert(u / 1000 == t / 1000 + 2) by (nonlinear_arith)
            requires
                u == t + 2000,
        ;
    }
}

} // verus!
