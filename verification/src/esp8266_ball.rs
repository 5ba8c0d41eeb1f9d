//! The ESP8266 build of the ball firmware, which has no tilt sensor and no
//! motor outputs yet.

use vstd::prelude::*;
use crate::esp32_ball::MotorAction;
use crate::external::spin_loop;

verus! {

/// Which way the ball leans.
#[derive(Clone, Copy, PartialEq, Eq, Structural)]
pub enum TiltSensation {
    Idle,
    TiltingLeft,
    TiltingRight,
    TiltingForward,
    TiltingBack,
}

/// Whether the WiFi link is up.
#[derive(Clone, Copy, PartialEq, Eq, Structural)]
pub enum WifiState {
    NotConnected,
    Connected,
}

/// What the firmware knows of its hardware.
pub struct HardwareControls {
    pub wifi: WifiState,
}

/// Without a sensor the ball never reports a tilt.
pub fn read_tilt_sensor() -> (tilt: TiltSensation)
    ensures
        tilt == TiltSensation::Idle,
{
    TiltSensation::Idle
}

/// Drives the motors; this board has none wired, so every command and tilt
/// leaves all outputs as they are.
pub fn drive_motors(input: MotorAction, tilt: TiltSensation) {
    match input {
        MotorAction::Stop => stop_motors(),
        MotorAction::Start => start_motors(tilt),
    }
}

fn stop_motors() {
}

fn start_motors(tilt: TiltSensation) {
    match tilt {
        TiltSensation::Idle => {},
        TiltSensation::TiltingLeft => {},
        TiltSensation::TiltingRight => {},
        TiltSensation::TiltingForward => {},
        TiltSensation::TiltingBack => {},
    }
}

/// Marks the WiFi link as connected; this board has no credentials, so
/// connecting always succeeds.
pub fn connect_wifi(controls: HardwareControls) -> (connected: Result<HardwareControls, ()>)
    ensures
        connected matches Ok(c) && c.wifi == WifiState::Connected,
{
    let mut controls = controls;
    controls.wifi = WifiState::Connected;
    Ok(controls)
}

/// Waits about `ms` milliseconds by busy-waiting 10 000 rounds per
/// millisecond (at most `u32::MAX` rounds).
pub fn delay_ms(ms: u32) {
    let iterations = if ms > u32::MAX / 10_000 {
        u32::MAX
    } else {
        ms * 10_000
    };
    let mut i: u32 = 0;
    while i < iterations
        invariant
            i <= iterations,
        decreases iterations - i,
    {
        spin_loop();
        i = i + 1;
    }
}

} // verus!
