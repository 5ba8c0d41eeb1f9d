use motorball::esp32_ball::MotorAction;
use motorball::esp8266_ball::{
    connect_wifi, delay_ms, drive_motors, read_tilt_sensor, HardwareControls, TiltSensation,
    WifiState,
};

#[test]
fn tilt_is_always_idle() {
    assert!(read_tilt_sensor() == TiltSensation::Idle);
    drive_motors(MotorAction::Start, read_tilt_sensor());
    drive_motors(MotorAction::Stop, TiltSensation::TiltingBack);
}

#[test]
fn connecting_marks_wifi_up() {
    let controls = HardwareControls { wifi: WifiState::NotConnected };
    let connected = connect_wifi(controls).unwrap();
    assert!(connected.wifi == WifiState::Connected);
}

#[test]
fn short_delays_return() {
    delay_ms(0);
    delay_ms(3);
}
