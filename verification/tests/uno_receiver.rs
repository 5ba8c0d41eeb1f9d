use motorball::protocol::SYNC;
use motorball::uno_receiver::{
    receive_byte, servo_counts, PacketParser, ReceiverState, CENTRE_COUNTS, TIMEOUT_FRAMES,
};
use motorball::uno_serial::packet;

#[test]
fn servo_counts_span_one_to_two_milliseconds() {
    assert_eq!(servo_counts(0), 2_000);
    assert_eq!(servo_counts(128), 3_003);
    assert_eq!(servo_counts(255), 4_000);
}

#[test]
fn parser_returns_values_of_a_sent_frame() {
    let mut parser = PacketParser::new();
    let frame = packet(9, 64, 192);
    for &byte in &frame[..4] {
        assert_eq!(parser.push(byte), None);
    }
    assert_eq!(parser.push(frame[4]), Some((191, 63)));
}

#[test]
fn parser_skips_noise_before_a_frame() {
    let mut parser = PacketParser::new();
    for byte in [0x00, 0x13, 0xFF] {
        assert_eq!(parser.push(byte), None);
    }
    let frame = packet(1, 0, 255);
    let mut result = None;
    for byte in frame {
        result = parser.push(byte);
    }
    assert_eq!(result, Some((255, 0)));
}

#[test]
fn parser_drops_a_frame_with_a_bad_checksum() {
    let mut parser = PacketParser::new();
    let mut frame = packet(3, 10, 20);
    frame[4] ^= 1;
    let mut result = Some((0, 0));
    for byte in frame {
        result = parser.push(byte);
    }
    assert_eq!(result, None);
    let good = packet(4, 10, 20);
    for byte in good {
        result = parser.push(byte);
    }
    assert_eq!(result, Some((245, 235)));
}

#[test]
fn parser_resynchronises_on_a_sync_byte_ending_a_bad_frame() {
    let mut parser = PacketParser::new();
    let good = packet(5, 1, 2);
    // A bad frame whose last byte is SYNC: that byte starts the next frame.
    let bad = [SYNC, 0, 0, 0, SYNC];
    for byte in bad {
        assert_eq!(parser.push(byte), None);
    }
    let mut result = None;
    for &byte in &good[1..] {
        result = parser.push(byte);
    }
    assert_eq!(result, Some((254, 253)));
}

#[test]
fn receiver_centres_servos_after_thirteen_silent_periods() {
    let mut parser = PacketParser::new();
    let mut receiver = ReceiverState::new();
    assert!(!receiver.status_led);
    assert!(receiver.timer_overflow());

    let mut counts = None;
    for byte in packet(0, 0, 255) {
        counts = receive_byte(&mut parser, &mut receiver, byte);
    }
    assert_eq!(counts, Some((4_000, 2_000)));
    assert!(receiver.status_led);
    assert_eq!(receiver.frames_since_valid, 0);

    for _ in 0..(TIMEOUT_FRAMES - 1) {
        assert!(!receiver.timer_overflow());
        assert!(receiver.status_led);
    }
    assert!(receiver.timer_overflow());
    assert!(!receiver.status_led);
    assert_eq!(CENTRE_COUNTS, 3_000);
}

#[test]
fn receiver_period_count_saturates() {
    let mut receiver = ReceiverState { status_led: true, frames_since_valid: 254 };
    assert!(receiver.timer_overflow());
    assert!(receiver.timer_overflow());
    assert_eq!(receiver.frames_since_valid, 255);
}
