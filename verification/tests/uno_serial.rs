use motorball::protocol::{crc8, SYNC};
use motorball::uno_serial::{
    inverted_servo_value, link_start, link_step, packet, LinkAction, LinkEvent, LinkState,
};

#[test]
fn builds_a_valid_packet() {
    let frame = packet(7, 0, 255);
    assert_eq!(frame[0], SYNC);
    assert_eq!(&frame[1..4], &[7, 255, 0]);
    assert_eq!(frame[4], crc8(&frame[..4]));
}

#[test]
fn clamps_control_values() {
    let frame = packet(0, -1, 256);
    assert_eq!(&frame[2..4], &[255, 0]);
}

#[test]
fn inverts_both_servo_channels_around_centre() {
    assert_eq!(&packet(0, 64, 192)[2..4], &[191, 63]);
    assert_eq!(&packet(0, 127, 128)[2..4], &[128, 127]);
}

#[test]
fn crc8_matches_the_standard_check_value() {
    assert_eq!(crc8(b"123456789"), 0xF4);
    assert_eq!(crc8(&[]), 0);
}

#[test]
fn packet_checksum_has_a_fixed_value() {
    assert_eq!(packet(7, 0, 255), [0xA5, 7, 255, 0, 112]);
    assert_eq!(packet(0, 128, 127)[4], 89);
}

#[test]
fn inverted_value_extremes() {
    assert_eq!(inverted_servo_value(i32::MIN), 255);
    assert_eq!(inverted_servo_value(i32::MAX), 0);
    assert_eq!(inverted_servo_value(100), 155);
}

#[test]
fn transmitter_opens_waits_for_bootloader_and_sends_every_50_ms() {
    let (state, action) = link_start();
    assert!(state == LinkState::Closed { sequence: 0 });
    assert!(action == LinkAction::Open { delay_ms: 0 });

    let (state, action) = link_step(state, LinkEvent::OpenFailed);
    assert!(state == LinkState::Closed { sequence: 0 });
    assert!(action == LinkAction::Open { delay_ms: 1_000 });

    let (state, action) = link_step(state, LinkEvent::Opened);
    assert!(state == LinkState::Open { sequence: 0 });
    assert!(action == LinkAction::Send { delay_ms: 2_000, sequence: 0 });

    let (state, action) = link_step(state, LinkEvent::Written);
    assert!(state == LinkState::Open { sequence: 1 });
    assert!(action == LinkAction::Send { delay_ms: 50, sequence: 1 });
}

#[test]
fn transmitter_reconnects_keeping_the_sequence() {
    let (state, action) = link_step(LinkState::Open { sequence: 9 }, LinkEvent::WriteFailed);
    assert!(state == LinkState::Closed { sequence: 9 });
    assert!(action == LinkAction::Open { delay_ms: 0 });
    let (state, action) = link_step(state, LinkEvent::Opened);
    assert!(action == LinkAction::Send { delay_ms: 2_000, sequence: 9 });
    assert!(state == LinkState::Open { sequence: 9 });
}

#[test]
fn sequence_wraps_after_255() {
    let (state, action) = link_step(LinkState::Open { sequence: 255 }, LinkEvent::Written);
    assert!(state == LinkState::Open { sequence: 0 });
    assert!(action == LinkAction::Send { delay_ms: 50, sequence: 0 });
}

#[test]
fn unexpected_events_repeat_the_action() {
    let (state, action) = link_step(LinkState::Closed { sequence: 3 }, LinkEvent::Written);
    assert!(state == LinkState::Closed { sequence: 3 });
    assert!(action == LinkAction::Open { delay_ms: 0 });
    let (state, action) = link_step(LinkState::Open { sequence: 3 }, LinkEvent::OpenFailed);
    assert!(state == LinkState::Open { sequence: 3 });
    assert!(action == LinkAction::Send { delay_ms: 0, sequence: 3 });
}
