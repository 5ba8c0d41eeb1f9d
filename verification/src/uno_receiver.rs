//! The Uno side of the serial link: a byte-at-a-time frame parser, the
//! mapping from a player value to a Timer1 compare count, and the watchdog
//! that centres both servos when valid frames stop arriving.

use vstd::prelude::*;
use crate::protocol::{crc8, crc8_spec, PACKET_LEN, SYNC};

verus! {

/// Timer1 top value: 16 MHz / 8 / 40 000 gives exactly 50 Hz.
pub const TIMER_TOP: u16 = 39_999;

/// Compare count of a 1 ms pulse.
pub const MIN_COUNTS: u16 = 2_000;

/// Compare count of a 1.5 ms pulse, the servo centre.
pub const CENTRE_COUNTS: u16 = 3_000;

/// Counts between the shortest and the longest pulse.
pub const COUNT_RANGE: u16 = 2_000;

/// Length of one Timer1 period (one servo pulse), in milliseconds.
pub const TIMER_PERIOD_MS: u64 = 20;

/// Timer periods (20 ms each) without a valid frame after which both servos
/// are centred: about 250 ms.
pub const TIMEOUT_FRAMES: u8 = 13;

/// Compare count for a player value: `2000 + value * 2000 / 255`.
pub open spec fn servo_counts_spec(value: u8) -> u16 {
    (MIN_COUNTS + (value as int) * (COUNT_RANGE as int) / 255) as u16
}

/// Maps a player value `0..=255` onto a pulse of `2000..=4000` counts.
pub fn servo_counts(value: u8) -> (counts: u16)
    ensures
        counts == servo_counts_spec(value),
        counts as int == 2000 + (value as int) * 2000 / 255,
        MIN_COUNTS <= counts <= MIN_COUNTS + COUNT_RANGE,
{
    assert((value as int) * 2000 / 255 <= 2000) by (nonlinear_arith)
        requires
            value <= 255,
    ;
    MIN_COUNTS + (value as u32 * COUNT_RANGE as u32 / 255) as u16
}

/// The bytes a parser holds are a frame prefix: shorter than a frame, and
/// starting with `SYNC` when not empty.
pub open spec fn pending_ok(pending: Seq<u8>) -> bool {
    &&& pending.len() < PACKET_LEN
    &&& pending.len() > 0 ==> pending[0] == SYNC
}

/// Whether five bytes form a frame whose checksum matches.
pub open spec fn frame_valid(frame: Seq<u8>) -> bool {
    &&& frame.len() == PACKET_LEN
    &&& frame[0] == SYNC
    &&& crc8_spec(frame.take(4)) == frame[4]
}

/// What the parser does with one byte, given the bytes it holds: the bytes
/// it holds afterwards, and the two player values when a frame completes.
/// Outside a frame, bytes other than `SYNC` are skipped. A completed frame
/// with a wrong checksum is dropped, and when its last byte is `SYNC` that
/// byte starts the next frame.
pub open spec fn push_spec(pending: Seq<u8>, byte: u8) -> (Seq<u8>, Option<(u8, u8)>) {
    if pending.len() == 0 {
        if byte == SYNC {
            (seq![SYNC], None)
        } else {
            (seq![], None)
        }
    } else {
        let frame = pending.push(byte);
        if frame.len() < PACKET_LEN {
            (frame, None)
        } else if crc8_spec(frame.take(4)) == frame[4] {
            (seq![], Some((frame[2], frame[3])))
        } else if byte == SYNC {
            (seq![SYNC], None)
        } else {
            (seq![], None)
        }
    }
}

/// Feeds `bytes` to a parser holding `pending`: the bytes it holds at the
/// end, and what each byte returned.
pub open spec fn feed_spec(pending: Seq<u8>, bytes: Seq<u8>) -> (Seq<u8>, Seq<Option<(u8, u8)>>)
    decreases bytes.len(),
{
    if bytes.len() == 0 {
        (pending, seq![])
    } else {
        let (before, outs) = feed_spec(pending, bytes.drop_last());
        let (after, out) = push_spec(before, bytes.last());
        (after, outs.push(out))
    }
}

/// Reassembles frames from a serial byte stream.
pub struct PacketParser {
    bytes: [u8; PACKET_LEN],
    len: usize,
}

impl View for PacketParser {
    type V = Seq<u8>;

    /// The bytes of the frame received so far.
    closed spec fn view(&self) -> Seq<u8> {
        self.bytes@.take(self.len as int)
    }
}

impl PacketParser {
    #[verifier::type_invariant]
    spec fn inv(self) -> bool {
        &&& self.len < PACKET_LEN
        &&& self.len > 0 ==> self.bytes@[0] == SYNC
    }

    /// A parser that holds no bytes.
    pub fn new() -> (parser: Self)
        ensures
            parser@ == Seq::<u8>::empty(),
    {
        let parser = PacketParser { bytes: [0; PACKET_LEN], len: 0 };
        assert(parser@ =~= Seq::<u8>::empty());
        parser
    }

    /// Takes the next byte from the serial line; returns the two player
    /// values when it completes a frame whose checksum matches.
    pub fn push(&mut self, byte: u8) -> (values: Option<(u8, u8)>)
        ensures
            (final(self)@, values) == push_spec(old(self)@, byte),
            pending_ok(final(self)@),
    {
        proof {
            use_type_invariant(&*self);
        }
        let ghost pending = self@;
        if self.len == 0 {
            if byte == SYNC {
                let mut bytes = self.bytes;
                bytes[0] = byte;
                *self = PacketParser { bytes, len: 1 };
                assert(self@ =~= seq![SYNC]);
            }
            assert(self@ =~= push_spec(pending, byte).0);
            return None;
        }
        let len = self.len;
        let mut bytes = self.bytes;
        bytes[len] = byte;
        let new_len = len + 1;
        assert(bytes@.take(new_len as int) =~= pending.push(byte));
        if new_len < PACKET_LEN {
            *self = PacketParser { bytes, len: new_len };
            return None;
        }
        let head: [u8; 4] = [bytes[0], bytes[1], bytes[2], bytes[3]];
        assert(head@ =~= pending.push(byte).take(4));
        if crc8(head.as_slice()) == bytes[4] {
            *self = PacketParser { bytes, len: 0 };
            assert(self@ =~= Seq::<u8>::empty());
            Some((bytes[2], bytes[3]))
        } else {
            if byte == SYNC {
                bytes[0] = SYNC;
                *self = PacketParser { bytes, len: 1 };
                assert(self@ =~= seq![SYNC]);
            } else {
                *self = PacketParser { bytes, len: 0 };
                assert(self@ =~= Seq::<u8>::empty());
            }
            None
        }
    }
}


/// What the receiver keeps between interrupts: whether the status LED is
/// lit, and how many timer periods have passed since the last valid frame.
pub struct ReceiverState {
    pub status_led: bool,
    pub frames_since_valid: u8,
}

/// One timer period (Timer1 overflow): the state afterwards, and whether
/// both servos are to be set to the centre.
pub open spec fn overflow_spec(state: ReceiverState) -> (ReceiverState, bool) {
    let frames = if state.frames_since_valid as int + 1 > u8::MAX as int {
        u8::MAX
    } else {
        (state.frames_since_valid + 1) as u8
    };
    if frames >= TIMEOUT_FRAMES {
        (ReceiverState { status_led: false, frames_since_valid: frames }, true)
    } else {
        (ReceiverState { status_led: state.status_led, frames_since_valid: frames }, false)
    }
}

/// The state after `n` timer periods without a valid frame.
pub open spec fn overflows_spec(state: ReceiverState, n: nat) -> ReceiverState
    decreases n,
{
    if n == 0 {
        state
    } else {
        overflow_spec(overflows_spec(state, (n - 1) as nat)).0
    }
}

impl ReceiverState {
    /// The state at power-on: LED off, and the servos already counted as
    /// timed out, so that they stay centred until the first valid frame.
    pub fn new() -> (state: Self)
        ensures
            !state.status_led,
            state.frames_since_valid == TIMEOUT_FRAMES,
    {
        ReceiverState { status_led: false, frames_since_valid: TIMEOUT_FRAMES }
    }

    /// Handles the end of a 20 ms timer period. Returns `true` when no valid
    /// frame has arrived for `TIMEOUT_FRAMES` periods; the servos are then to
    /// be set to `CENTRE_COUNTS` and the LED is switched off.
    pub fn timer_overflow(&mut self) -> (centre: bool)
        ensures
            (*final(self), centre) == overflow_spec(*old(self)),
    {
        self.frames_since_valid = self.frames_since_valid.saturating_add(1);
        if self.frames_since_valid >= TIMEOUT_FRAMES {
            self.status_led = false;
            true
        } else {
            false
        }
    }

    /// Handles a valid frame: restarts the timeout, lights the LED, and
    /// returns the compare counts for the two servos.
    pub fn frame_received(&mut self, player1: u8, player2: u8) -> (counts: (u16, u16))
        ensures
            final(self).frames_since_valid == 0,
            final(self).status_led,
            counts == (servo_counts_spec(player1), servo_counts_spec(player2)),
    {
        let counts = (servo_counts(player1), servo_counts(player2));
        self.frames_since_valid = 0;
        self.status_led = true;
        counts
    }
}

/// Handles one byte from the serial line: when it completes a valid frame,
/// the receiver is reset and the new compare counts for both servos are
/// returned.
pub fn receive_byte(parser: &mut PacketParser, receiver: &mut ReceiverState, byte: u8) -> (counts:
    Option<(u16, u16)>)
    ensures
        final(parser)@ == push_spec(old(parser)@, byte).0,
        match push_spec(old(parser)@, byte).1 {
            Some((p1, p2)) => {
                &&& counts == Some((servo_counts_spec(p1), servo_counts_spec(p2)))
                &&& final(receiver).frames_since_valid == 0
                &&& final(receiver).status_led
            },
            None => {
                &&& counts.is_none()
                &&& *final(receiver) == *old(receiver)
            },
        },
{
    match parser.push(byte) {
        Some((player1, player2)) => Some(receiver.frame_received(player1, player2)),
        None => None,
    }
}

} // verus!
