//! Decisions of the ESP32 ball firmware: what the server's motor reply
//! means, how the two drive motors follow the motor command and the tilt of
//! the ball, and how the status LED blinks.

use vstd::prelude::*;
use vstd::utf8::{decode_utf8, valid_utf8};
use crate::external::{str_equal, str_from_utf8, trim, trim_spec};

verus! {

/// Which way the tilt sensor says the ball leans.
#[derive(Clone, Copy, PartialEq, Eq, Structural)]
pub enum TiltSensation {
    Idle,
    TiltingLeft,
    TiltingRight,
    TiltingForward,
    TiltingBack,
}

/// Whether the server asks the motors to run.
#[derive(Clone, Copy, PartialEq, Eq, Structural)]
pub enum MotorAction {
    Stop,
    Start,
}

/// What the status LED shows: off, or blinking while the server answers.
#[derive(Clone, Copy, PartialEq, Eq, Structural)]
pub enum LedAction {
    Off,
    Blink,
}

/// The outcome of asking the server for the motor command.
#[derive(Clone, Copy, PartialEq, Eq, Structural)]
pub struct ServerResult {
    pub motor_action: MotorAction,
    pub led_action: LedAction,
}

/// The result when the server could not be asked or gave no usable reply:
/// motors stopped, LED off.
pub open spec fn no_reply() -> ServerResult {
    ServerResult { motor_action: MotorAction::Stop, led_action: LedAction::Off }
}

/// The result for a reply body: `1` (surrounded by any whitespace) starts
/// the motors and `0` stops them, both with the LED blinking; any other
/// body, or one that is not UTF-8, gives `no_reply()`.
pub open spec fn reply_spec(body: Seq<u8>) -> ServerResult {
    if !valid_utf8(body) {
        no_reply()
    } else if trim_spec(decode_utf8(body)) == seq!['1'] {
        ServerResult { motor_action: MotorAction::Start, led_action: LedAction::Blink }
    } else if trim_spec(decode_utf8(body)) == seq!['0'] {
        ServerResult { motor_action: MotorAction::Stop, led_action: LedAction::Blink }
    } else {
        no_reply()
    }
}

/// Interprets the server's reply to the motor request. `body` is the reply
/// body of a successful (2xx) answer, or `None` when the request could not
/// be built or sent, the answer was not successful, or its body could not
/// be read.
pub fn poll_server(body: Option<&[u8]>) -> (result: ServerResult)
    ensures
        result == (match body {
            Some(bytes) => reply_spec(bytes@),
            None => no_reply(),
        }),
{
    let motor = MotorAction::Stop;
    let led = LedAction::Off;
    let bytes = match body {
        Some(bytes) => bytes,
        None => {
            return ServerResult { motor_action: motor, led_action: led };
        },
    };
    let text = match str_from_utf8(bytes) {
        Some(text) => trim(text),
        None => {
            return ServerResult { motor_action: motor, led_action: led };
        },
    };
    proof {
        reveal_strlit("1");
        reveal_strlit("0");
        assert("1"@ =~= seq!['1']);
        assert("0"@ =~= seq!['0']);
    }
    if str_equal(text, "1") {
        ServerResult { motor_action: MotorAction::Start, led_action: LedAction::Blink }
    } else if str_equal(text, "0") {
        ServerResult { motor_action: MotorAction::Stop, led_action: LedAction::Blink }
    } else {
        ServerResult { motor_action: motor, led_action: led }
    }
}

/// The output levels the firmware drives: `true` is high.
pub struct HardwareControls {
    pub led: bool,
    pub motor_left: bool,
    pub motor_right: bool,
}

/// Levels of the left and right motor for a command and a tilt: both off
/// when stopped; when running, the motor on the side the ball leans to is
/// switched off so that it turns that way, and otherwise both run (leaning
/// back included).
pub open spec fn motor_levels(input: MotorAction, tilt: TiltSensation) -> (bool, bool) {
    match input {
        MotorAction::Stop => (false, false),
        MotorAction::Start => match tilt {
            TiltSensation::TiltingLeft => (false, true),
            TiltSensation::TiltingRight => (true, false),
            _ => (true, true),
        },
    }
}

/// Sets both motors for the server's command and the ball's tilt.
pub fn drive_motors(hardware: &mut HardwareControls, input: MotorAction, tilt: TiltSensation)
    ensures
        (final(hardware).motor_left, final(hardware).motor_right) == motor_levels(input, tilt),
        final(hardware).led == old(hardware).led,
{
    match input {
        MotorAction::Stop => stop_motors(hardware),
        MotorAction::Start => start_motors(hardware, tilt),
    }
}

/// Switches both motors off.
fn stop_motors(hardware: &mut HardwareControls)
    ensures
        !final(hardware).motor_left,
        !final(hardware).motor_right,
        final(hardware).led == old(hardware).led,
{
    hardware.motor_left = false;
    hardware.motor_right = false;
}

/// Runs the motors, steering by the tilt.
fn start_motors(hardware: &mut HardwareControls, tilt: TiltSensation)
    ensures
        (final(hardware).motor_left, final(hardware).motor_right) == motor_levels(
            MotorAction::Start,
            tilt,
        ),
        final(hardware).led == old(hardware).led,
{
    match tilt {
        TiltSensation::Idle => {
            hardware.motor_left = true;
            hardware.motor_right = true;
        },
        TiltSensation::TiltingLeft => {
            hardware.motor_left = false;
            hardware.motor_right = true;
        },
        TiltSensation::TiltingRight => {
            hardware.motor_left = true;
            hardware.motor_right = false;
        },
        TiltSensation::TiltingForward => {
            hardware.motor_left = true;
            hardware.motor_right = true;
        },
        TiltSensation::TiltingBack => {
            hardware.motor_left = true;
            hardware.motor_right = true;
        },
    }
}

/// LED level for an action at `now_millis` (milliseconds since boot): off,
/// or blinking with one second on and one second off, on during even
/// seconds.
pub open spec fn led_level(input: LedAction, now_millis: u64) -> bool {
    match input {
        LedAction::Off => false,
        LedAction::Blink => (now_millis / 1000) % 2 == 0,
    }
}

/// Sets the status LED for the action at `now_millis`.
pub fn drive_led(hardware: &mut HardwareControls, input: LedAction, now_millis: u64)
    ensures
        final(hardware).led == led_level(input, now_millis),
        final(hardware).motor_left == old(hardware).motor_left,
        final(hardware).motor_right == old(hardware).motor_right,
{
    match input {
        LedAction::Off => hardware.led = false,
        LedAction::Blink => {
            let phase = (now_millis / 1000) % 2;
            hardware.led = phase == 0;
        },
    }
}

} // verus!
