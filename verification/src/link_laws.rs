//! Laws of the serial link between the server and the Uno receiver.

use vstd::prelude::*;
use crate::protocol::{crc8_spec, crc_shift, crc_shifts, SYNC};
use crate::uno_receiver::{
    feed_spec, frame_valid, overflow_spec, overflows_spec, pending_ok, push_spec, ReceiverState,
    TIMEOUT_FRAMES, TIMER_PERIOD_MS,
};
use crate::uno_serial::{
    frame_head, frame_spec, inverted_servo_spec, link_sequence, link_start_spec, link_step_spec,
    LinkAction, LinkEvent, LinkState, HEARTBEAT_MS,
};

verus! {

/// Every frame the server builds is valid: it starts with `SYNC` and its
/// last byte is the CRC-8 of the first four.
pub proof fn lemma_sent_frames_are_valid(sequence: u8, player1: i32, player2: i32)
    ensures
        frame_valid(frame_spec(sequence, player1, player2)),
{
    let f = frame_spec(sequence, player1, player2);
    assert(f.take(4) =~= frame_head(sequence, player1, player2));
}

/// A receiver that holds no bytes and is given the five bytes of a frame
/// returns nothing for the first four and the two (inverted, clamped)
/// player values for the fifth, and then holds no bytes again.
pub proof fn lemma_frame_round_trip(sequence: u8, player1: i32, player2: i32)
    ensures
        feed_spec(Seq::empty(), frame_spec(sequence, player1, player2)) == (
            Seq::<u8>::empty(),
            seq![
                None,
                None,
                None,
                None,
                Some((inverted_servo_spec(player1), inverted_servo_spec(player2))),
            ],
        ),
{
    let f = frame_spec(sequence, player1, player2);
    let e = Seq::<u8>::empty();
    lemma_sent_frames_are_valid(sequence, player1, player2);
    assert(f.take(1).drop_last() =~= f.take(0));
    assert(f.take(2).drop_last() =~= f.take(1));
    assert(f.take(3).drop_last() =~= f.take(2));
    assert(f.take(4).drop_last() =~= f.take(3));
    assert(f.take(5).drop_last() =~= f.take(4));
    assert(f.take(5) =~= f);
    assert(feed_spec(e, f.take(0)) == (e, Seq::<Option<(u8, u8)>>::empty()));
    assert(feed_spec(e, f.take(1)).0 =~= seq![SYNC]);
    assert(feed_spec(e, f.take(2)).0 =~= f.take(2));
    assert(feed_spec(e, f.take(3)).0 =~= f.take(3));
    assert(feed_spec(e, f.take(4)).0 =~= f.take(4));
    assert(f.take(4).push(f[4]) =~= f);
    assert(feed_spec(e, f.take(5)).1 =~= seq![
        None,
        None,
        None,
        None,
        Some((inverted_servo_spec(player1), inverted_servo_spec(player2))),
    ]);
}

/// The receiver hands out player values only for a complete frame whose
/// checksum matches; the values are the frame's third and fourth bytes.
pub proof fn lemma_only_valid_frames_are_accepted(pending: Seq<u8>, byte: u8)
    requires
        pending_ok(pending),
    ensures
        push_spec(pending, byte).1 matches Some((p1, p2)) ==> {
            &&& frame_valid(pending.push(byte))
            &&& p1 == pending.push(byte)[2]
            &&& p2 == pending.push(byte)[3]
        },
        pending_ok(push_spec(pending, byte).0),
{
}

/// After `n` timer periods without a valid frame, the count of periods is
/// the old count plus `n` (saturating at 255), and the period that follows
/// centres the servos exactly when that makes at least `TIMEOUT_FRAMES`.
pub proof fn lemma_silence_centres_servos(state: ReceiverState, n: nat)
    ensures
        overflows_spec(state, n).frames_since_valid as int == if state.frames_since_valid + n
            > 255 {
            255
        } else {
            state.frames_since_valid + n
        },
        overflow_spec(overflows_spec(state, n)).1 <==> state.frames_since_valid + n + 1
            >= TIMEOUT_FRAMES,
    decreases n,
{
    if n > 0 {
        lemma_silence_centres_servos(state, (n - 1) as nat);
    }
}

/// After a valid frame, the servos keep their position for the next
/// `TIMEOUT_FRAMES - 1` timer periods and are centred at the next one.
pub proof fn lemma_timeout_after_last_frame(state: ReceiverState, n: nat)
    requires
        state.frames_since_valid == 0,
    ensures
        overflow_spec(overflows_spec(state, n)).1 <==> n + 1 >= TIMEOUT_FRAMES,
{
    lemma_silence_centres_servos(state, n);
}


/// Runs the transmitter from its start through `events`: its state and next
/// action afterwards, and how many frames were written.
pub open spec fn link_run_spec(events: Seq<LinkEvent>) -> (LinkState, LinkAction, nat)
    decreases events.len(),
{
    if events.len() == 0 {
        (link_start_spec().0, link_start_spec().1, 0)
    } else {
        let (state, _, written) = link_run_spec(events.drop_last());
        let (next, action) = link_step_spec(state, events.last());
        let wrote = state is Open && events.last() == LinkEvent::Written;
        (next, action, if wrote { written + 1 } else { written })
    }
}

/// Frames are numbered by how many were written before them: after any
/// events, the next frame carries the number of frames written so far,
/// modulo 256, also across reconnections.
pub proof fn lemma_frames_are_numbered(events: Seq<LinkEvent>)
    ensures
        ({
            let (state, action, written) = link_run_spec(events);
            &&& link_sequence(state) as int == written % 256
            &&& action matches LinkAction::Send { sequence, .. } ==> sequence == link_sequence(state)
        }),
    decreases events.len(),
{
    if events.len() > 0 {
        lemma_frames_are_numbered(events.drop_last());
    }
}

/// While writes succeed, frames follow each other every `HEARTBEAT_MS`,
/// which is shorter than the Uno's timeout; so from a frame to the next at
/// most `(HEARTBEAT_MS + TIMER_PERIOD_MS) / TIMER_PERIOD_MS` timer periods
/// end, and none of them centres the servos.
pub proof fn lemma_live_link_keeps_servos(sequence: u8, receiver: ReceiverState, n: nat)
    requires
        receiver.frames_since_valid == 0,
        n * TIMER_PERIOD_MS <= HEARTBEAT_MS + TIMER_PERIOD_MS,
    ensures
        link_step_spec(LinkState::Open { sequence }, LinkEvent::Written).1 matches LinkAction::Send {
            delay_ms,
            ..
        } && delay_ms == HEARTBEAT_MS,
        HEARTBEAT_MS < TIMEOUT_FRAMES * TIMER_PERIOD_MS,
        forall|k: nat| k < n ==> !(#[trigger] overflow_spec(overflows_spec(receiver, k))).1,
{
    assert forall|k: nat| k < n implies !(#[trigger] overflow_spec(overflows_spec(receiver, k))).1 by {
        lemma_timeout_after_last_frame(receiver, k);
    }
}


proof fn lemma_crc_shift_injective(a: u8, b: u8)
    requires
        a != b,
    ensures
        crc_shift(a) != crc_shift(b),
{
    assert(a != b ==> (if a & 0x80 != 0 { (a << 1u8) ^ 0x07u8 } else { a << 1u8 }) != (if b & 0x80
        != 0 {
        (b << 1u8) ^ 0x07u8
    } else {
        b << 1u8
    })) by (bit_vector);
}

proof fn lemma_crc_shifts_injective(a: u8, b: u8, n: nat)
    requires
        a != b,
    ensures
        crc_shifts(a, n) != crc_shifts(b, n),
    decreases n,
{
    if n > 0 {
        lemma_crc_shifts_injective(a, b, (n - 1) as nat);
        lemma_crc_shift_injective(crc_shifts(a, (n - 1) as nat), crc_shifts(b, (n - 1) as nat));
    }
}

proof fn lemma_crc_prefixes_differ(bytes: Seq<u8>, i: int, value: u8, k: int)
    requires
        0 <= i < k <= bytes.len(),
        value != bytes[i],
    ensures
        crc8_spec(bytes.update(i, value).take(k)) != crc8_spec(bytes.take(k)),
    decreases k,
{
    let changed = bytes.update(i, value);
    assert(changed.take(k).drop_last() =~= changed.take(k - 1));
    assert(bytes.take(k).drop_last() =~= bytes.take(k - 1));
    let c1 = crc8_spec(changed.take(k - 1));
    let c2 = crc8_spec(bytes.take(k - 1));
    let y1 = changed.take(k).last();
    let y2 = bytes.take(k).last();
    if k == i + 1 {
        assert(changed.take(k - 1) =~= bytes.take(k - 1));
        assert(c1 == c2);
        assert(y1 != y2);
        assert(c1 == c2 && y1 != y2 ==> c1 ^ y1 != c2 ^ y2) by (bit_vector);
    } else {
        lemma_crc_prefixes_differ(bytes, i, value, k - 1);
        assert(y1 == y2);
        assert(c1 != c2 && y1 == y2 ==> c1 ^ y1 != c2 ^ y2) by (bit_vector);
    }
    lemma_crc_shifts_injective(c1 ^ y1, c2 ^ y2, 8);
}

/// The CRC-8 detects every change of a single byte: changing any one byte of
/// a sequence changes its CRC. So a frame in which one byte was corrupted on
/// the line never passes the receiver's check.
pub proof fn lemma_crc_detects_single_byte_errors(bytes: Seq<u8>, i: int, value: u8)
    requires
        0 <= i < bytes.len(),
        value != bytes[i],
    ensures
        crc8_spec(bytes.update(i, value)) != crc8_spec(bytes),
{
    lemma_crc_prefixes_differ(bytes, i, value, bytes.len() as int);
    assert(bytes.update(i, value).take(bytes.len() as int) =~= bytes.update(i, value));
    assert(bytes.take(bytes.len() as int) =~= bytes);
}

proof fn lemma_crc_shifts_of_zero(n: nat)
    ensures
        crc_shifts(0, n) == 0,
    decreases n,
{
    if n > 0 {
        lemma_crc_shifts_of_zero((n - 1) as nat);
        assert(crc_shift(0) == 0) by (bit_vector);
    }
}

/// The CRC-8 of a whole sent frame, checksum byte included, is zero.
pub proof fn lemma_sent_frame_crc_is_zero(sequence: u8, player1: i32, player2: i32)
    ensures
        crc8_spec(frame_spec(sequence, player1, player2)) == 0,
{
    let f = frame_spec(sequence, player1, player2);
    let c = crc8_spec(frame_head(sequence, player1, player2));
    assert(f.drop_last() =~= frame_head(sequence, player1, player2));
    assert(c ^ c == 0) by (bit_vector);
    lemma_crc_shifts_of_zero(8);
}


/// What each event does to the transmitter, for every sequence number: a
/// failed open keeps the port closed and the number, and retries after a
/// second; a successful open waits two seconds and sends the frame with the
/// same number; a written frame is followed 50 ms later by the next number
/// (255 wraps to 0); a failed write closes the port, keeps the number and
/// reopens at once.
pub proof fn lemma_link_transitions(sequence: u8)
    ensures
        link_step_spec(LinkState::Closed { sequence }, LinkEvent::OpenFailed) == (
            LinkState::Closed { sequence },
            LinkAction::Open { delay_ms: 1000 },
        ),
        link_step_spec(LinkState::Closed { sequence }, LinkEvent::Opened) == (
            LinkState::Open { sequence },
            LinkAction::Send { delay_ms: 2000, sequence },
        ),
        link_step_spec(LinkState::Open { sequence }, LinkEvent::Written) == (
            LinkState::Open { sequence: ((sequence + 1) % 256) as u8 },
            LinkAction::Send { delay_ms: 50, sequence: ((sequence + 1) % 256) as u8 },
        ),
        link_step_spec(LinkState::Open { sequence }, LinkEvent::WriteFailed) == (
            LinkState::Closed { sequence },
            LinkAction::Open { delay_ms: 0 },
        ),
{
}

} // verus!
