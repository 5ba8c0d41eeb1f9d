//! Frames that the server sends to the Uno over USB serial.

use vstd::prelude::*;
use crate::protocol::{crc8, crc8_spec, PACKET_LEN, SYNC};

verus! {

/// Largest control value a player can have.
pub const SERVO_MAX: i32 = 255;

/// `value` limited to `lo..=hi`.
pub open spec fn clamp_spec(value: int, lo: int, hi: int) -> int {
    if value < lo {
        lo
    } else if value > hi {
        hi
    } else {
        value
    }
}

/// `value` limited to `min..=max`, as `Ord::clamp` gives it.
pub(crate) fn clamp(value: i32, min: i32, max: i32) -> (r: i32)
    requires
        min <= max,
    ensures
        r as int == clamp_spec(value as int, min as int, max as int),
{
    if value < min {
        min
    } else if value > max {
        max
    } else {
        value
    }
}

/// The byte sent for a control value: the value limited to `0..=255`,
/// mirrored around the centre (0 becomes 255, 255 becomes 0).
pub open spec fn inverted_servo_spec(value: i32) -> u8 {
    (255 - clamp_spec(value as int, 0, 255)) as u8
}

/// The four bytes that the checksum covers.
pub open spec fn frame_head(sequence: u8, player1: i32, player2: i32) -> Seq<u8> {
    seq![SYNC, sequence, inverted_servo_spec(player1), inverted_servo_spec(player2)]
}

/// The whole frame for a sequence number and two control values.
pub open spec fn frame_spec(sequence: u8, player1: i32, player2: i32) -> Seq<u8> {
    frame_head(sequence, player1, player2).push(
        crc8_spec(frame_head(sequence, player1, player2)),
    )
}

/// Limits a control value to `0..=255` and inverts it.
pub fn inverted_servo_value(value: i32) -> (byte: u8)
    ensures
        byte == inverted_servo_spec(value),
        byte as int == 255 - clamp_spec(value as int, 0, 255),
{
    let clamped = clamp(value, 0, SERVO_MAX);
    (SERVO_MAX - clamped) as u8
}

/// Builds the frame `SYNC | sequence | player1 | player2 | CRC-8`.
pub fn packet(sequence: u8, player1: i32, player2: i32) -> (frame: [u8; PACKET_LEN])
    ensures
        frame@ == frame_spec(sequence, player1, player2),
        frame@.len() == PACKET_LEN,
        frame@[0] == SYNC,
        frame@[1] == sequence,
        frame@[2] == inverted_servo_spec(player1),
        frame@[3] == inverted_servo_spec(player2),
        frame@[4] == crc8_spec(frame@.take(4)),
{
    let a = inverted_servo_value(player1);
    let b = inverted_servo_value(player2);
    let head: [u8; 4] = [SYNC, sequence, a, b];
    let crc = crc8(head.as_slice());
    let frame: [u8; PACKET_LEN] = [SYNC, sequence, a, b, crc];
    assert(head@ =~= frame_head(sequence, player1, player2));
    assert(frame@ =~= frame_spec(sequence, player1, player2));
    assert(frame@.take(4) =~= head@);
    frame
}


/// Time between frames on an open link, in milliseconds.
pub const HEARTBEAT_MS: u64 = 50;

/// Time before retrying to open the serial port after a failure, in
/// milliseconds.
pub const RECONNECT_DELAY_MS: u64 = 1_000;

/// Time the Uno's bootloader needs after the port is opened (opening resets
/// the board), in milliseconds.
pub const UNO_BOOT_DELAY_MS: u64 = 2_000;

/// The transmitter: whether the serial port is open, and the sequence
/// number of the next frame.
#[derive(Clone, Copy, PartialEq, Eq, Structural)]
pub enum LinkState {
    Closed { sequence: u8 },
    Open { sequence: u8 },
}

/// What happened when the transmitter carried out its last action.
#[derive(Clone, Copy, PartialEq, Eq, Structural)]
pub enum LinkEvent {
    OpenFailed,
    Opened,
    Written,
    WriteFailed,
}

/// What the transmitter does next: after waiting `delay_ms`, open the port,
/// or read the two control values and write the frame numbered `sequence`.
#[derive(Clone, Copy, PartialEq, Eq, Structural)]
pub enum LinkAction {
    Open { delay_ms: u64 },
    Send { delay_ms: u64, sequence: u8 },
}

/// The transmitter before anything happened: port closed, next frame 0.
pub open spec fn link_start_spec() -> (LinkState, LinkAction) {
    (LinkState::Closed { sequence: 0 }, LinkAction::Open { delay_ms: 0 })
}

/// The sequence number of the next frame.
pub open spec fn link_sequence(state: LinkState) -> u8 {
    match state {
        LinkState::Closed { sequence } => sequence,
        LinkState::Open { sequence } => sequence,
    }
}

/// One step of the transmitter. A failed open is retried after a second; a
/// successful one waits two seconds for the bootloader and then sends; a
/// written frame advances the sequence number (wrapping) and the next frame
/// follows 50 ms later; a failed write closes the port, keeps the sequence
/// number and reopens at once. An event that cannot follow the state's
/// action leaves the state as it is and repeats that action at once.
pub open spec fn link_step_spec(state: LinkState, event: LinkEvent) -> (LinkState, LinkAction) {
    match state {
        LinkState::Closed { sequence } => match event {
            LinkEvent::OpenFailed => (state, LinkAction::Open { delay_ms: RECONNECT_DELAY_MS }),
            LinkEvent::Opened => (
                LinkState::Open { sequence },
                LinkAction::Send { delay_ms: UNO_BOOT_DELAY_MS, sequence },
            ),
            _ => (state, LinkAction::Open { delay_ms: 0 }),
        },
        LinkState::Open { sequence } => match event {
            LinkEvent::Written => {
                let next = if sequence == 255 {
                    0u8
                } else {
                    (sequence + 1) as u8
                };
                (LinkState::Open { sequence: next }, LinkAction::Send { delay_ms: HEARTBEAT_MS, sequence: next })
            },
            LinkEvent::WriteFailed => (LinkState::Closed { sequence }, LinkAction::Open { delay_ms: 0 }),
            _ => (state, LinkAction::Send { delay_ms: 0, sequence }),
        },
    }
}

/// The transmitter's state and first action when it starts.
pub fn link_start() -> (start: (LinkState, LinkAction))
    ensures
        start == link_start_spec(),
{
    (LinkState::Closed { sequence: 0 }, LinkAction::Open { delay_ms: 0 })
}

/// Decides the transmitter's next state and action from what its last
/// action brought.
pub fn link_step(state: LinkState, event: LinkEvent) -> (next: (LinkState, LinkAction))
    ensures
        next == link_step_spec(state, event),
{
    match state {
        LinkState::Closed { sequence } => match event {
            LinkEvent::OpenFailed => (state, LinkAction::Open { delay_ms: RECONNECT_DELAY_MS }),
            LinkEvent::Opened => (
                LinkState::Open { sequence },
                LinkAction::Send { delay_ms: UNO_BOOT_DELAY_MS, sequence },
            ),
            _ => (state, LinkAction::Open { delay_ms: 0 }),
        },
        LinkState::Open { sequence } => match event {
            LinkEvent::Written => {
                let next = sequence.wrapping_add(1);
                (LinkState::Open { sequence: next }, LinkAction::Send { delay_ms: HEARTBEAT_MS, sequence: next })
            },
            LinkEvent::WriteFailed => (LinkState::Closed { sequence }, LinkAction::Open { delay_ms: 0 }),
            _ => (state, LinkAction::Send { delay_ms: 0, sequence }),
        },
    }
}

} // verus!
