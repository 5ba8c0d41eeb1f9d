use motorball::servo_pwm::pulse_width_us;

#[test]
fn maps_full_control_range_to_servo_pulses() {
    assert_eq!(pulse_width_us(0), 1_000);
    assert_eq!(pulse_width_us(128), 1_501);
    assert_eq!(pulse_width_us(255), 2_000);
}

#[test]
fn clamps_values_before_mapping() {
    assert_eq!(pulse_width_us(-1), 1_000);
    assert_eq!(pulse_width_us(256), 2_000);
}

#[test]
fn pulse_width_rounds_down() {
    assert_eq!(pulse_width_us(1), 1_003);
    assert_eq!(pulse_width_us(i32::MIN), 1_000);
    assert_eq!(pulse_width_us(i32::MAX), 2_000);
}
