use motorball::countdown::MotorAction as ServerMotor;
use motorball::esp32_ball::{
    drive_led, drive_motors, poll_server, HardwareControls, LedAction, MotorAction, ServerResult,
    TiltSensation,
};

fn result(motor: MotorAction, led: LedAction) -> ServerResult {
    ServerResult { motor_action: motor, led_action: led }
}

#[test]
fn server_reply_one_starts_and_zero_stops() {
    assert!(poll_server(Some(b"1")) == result(MotorAction::Start, LedAction::Blink));
    assert!(poll_server(Some(b" 1\r\n")) == result(MotorAction::Start, LedAction::Blink));
    assert!(poll_server(Some(b"0")) == result(MotorAction::Stop, LedAction::Blink));
    assert!(poll_server(Some("\u{3000}0\t".as_bytes())) == result(MotorAction::Stop, LedAction::Blink));
}

#[test]
fn unusable_replies_stop_the_motor_with_the_led_off() {
    let off = result(MotorAction::Stop, LedAction::Off);
    assert!(poll_server(None) == off);
    assert!(poll_server(Some(b"2")) == off);
    assert!(poll_server(Some(b"10")) == off);
    assert!(poll_server(Some(b"")) == off);
    assert!(poll_server(Some(&[0xFF, 0x31])) == off);
}

#[test]
fn motors_follow_command_and_tilt() {
    let mut hw = HardwareControls { led: true, motor_left: true, motor_right: true };
    drive_motors(&mut hw, MotorAction::Stop, TiltSensation::TiltingLeft);
    assert!(!hw.motor_left && !hw.motor_right && hw.led);
    drive_motors(&mut hw, MotorAction::Start, TiltSensation::Idle);
    assert!(hw.motor_left && hw.motor_right);
    drive_motors(&mut hw, MotorAction::Start, TiltSensation::TiltingLeft);
    assert!(!hw.motor_left && hw.motor_right);
    drive_motors(&mut hw, MotorAction::Start, TiltSensation::TiltingRight);
    assert!(hw.motor_left && !hw.motor_right);
    drive_motors(&mut hw, MotorAction::Start, TiltSensation::TiltingForward);
    assert!(hw.motor_left && hw.motor_right);
    drive_motors(&mut hw, MotorAction::Start, TiltSensation::TiltingBack);
    assert!(hw.motor_left && hw.motor_right);
}

#[test]
fn led_blinks_once_per_two_seconds() {
    let mut hw = HardwareControls { led: false, motor_left: true, motor_right: false };
    drive_led(&mut hw, LedAction::Blink, 999);
    assert!(hw.led);
    drive_led(&mut hw, LedAction::Blink, 1_000);
    assert!(!hw.led);
    drive_led(&mut hw, LedAction::Blink, 2_500);
    assert!(hw.led);
    drive_led(&mut hw, LedAction::Off, 2_500);
    assert!(!hw.led);
    assert!(hw.motor_left && !hw.motor_right);
}

#[test]
fn ball_reads_what_the_motor_endpoint_reports() {
    let start = format!(" {}\n", ServerMotor::Start.as_num());
    let stop = format!("{}\r\n", ServerMotor::Stop.as_num());
    assert!(poll_server(Some(start.as_bytes())) == result(MotorAction::Start, LedAction::Blink));
    assert!(poll_server(Some(stop.as_bytes())) == result(MotorAction::Stop, LedAction::Blink));
}
