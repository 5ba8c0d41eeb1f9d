//! Decisions of the server's request handlers and input readers that do not
//! involve the floating-point control values: which player or motor action
//! a request names, which way the mouse buttons push, and the drift
//! generator's random numbers.

use vstd::prelude::*;
use crate::countdown::MotorAction;
use crate::external::str_equal;

verus! {

/// The two players.
#[derive(Clone, Copy, PartialEq, Eq, Structural)]
pub enum Player {
    P1,
    P2,
}

/// The player that an input path names: `p1` or `p2`.
pub open spec fn player_spec(name: Seq<char>) -> Option<Player> {
    if name == "p1"@ {
        Some(Player::P1)
    } else if name == "p2"@ {
        Some(Player::P2)
    } else {
        None
    }
}

/// Reads the player of an input request; `None` asks for a bad-request
/// reply.
pub fn parse_player(name: &str) -> (player: Option<Player>)
    ensures
        player == player_spec(name@),
{
    if str_equal(name, "p1") {
        Some(Player::P1)
    } else if str_equal(name, "p2") {
        Some(Player::P2)
    } else {
        None
    }
}

/// The motor action that a motor path names: `start` or `stop`.
pub open spec fn motor_action_spec(name: Seq<char>) -> Option<MotorAction> {
    if name == "start"@ {
        Some(MotorAction::Start)
    } else if name == "stop"@ {
        Some(MotorAction::Stop)
    } else {
        None
    }
}

/// Reads the action of a motor request; `None` asks for a bad-request
/// reply.
pub fn parse_motor_action(name: &str) -> (action: Option<MotorAction>)
    ensures
        action == motor_action_spec(name@),
{
    if str_equal(name, "start") {
        Some(MotorAction::Start)
    } else if str_equal(name, "stop") {
        Some(MotorAction::Stop)
    } else {
        None
    }
}

/// Which way the held mouse buttons push player 1: -1 for the left button
/// alone, 1 for the right button alone, 0 for both or neither.
pub fn mouse_button_direction(left: bool, right: bool) -> (direction: i8)
    ensures
        direction == (if left && !right {
            -1i8
        } else if right && !left {
            1i8
        } else {
            0i8
        }),
{
    match (left, right) {
        (true, false) => -1,
        (false, true) => 1,
        _ => 0,
    }
}

/// Seed used when the clock reads before the Unix epoch.
pub const FALLBACK_SEED: u64 = 0x9E37_79B9_7F4A_7C15;

/// One xorshift64 step (shifts 13, 7, 17).
pub open spec fn xorshift_spec(x: u64) -> u64 {
    let a = x ^ (x << 13u64);
    let b = a ^ (a >> 7u64);
    b ^ (b << 17u64)
}

/// The xorshift64 generator that makes the gentle drift of both controls.
pub struct Rng(pub u64);

impl Rng {
    /// Seeds the generator from a reading of the system clock, in
    /// nanoseconds since the Unix epoch (`None` when the clock reads before
    /// it). The low bit is set so that the state is never zero.
    pub fn from_time(nanos_since_epoch: Option<u128>) -> (rng: Rng)
        ensures
            rng.0 == (match nanos_since_epoch {
                Some(nanos) => nanos as u64,
                None => FALLBACK_SEED,
            }) | 1u64,
            rng.0 != 0,
    {
        let seed = match nanos_since_epoch {
            Some(nanos) => nanos as u64,
            None => FALLBACK_SEED,
        };
        let state = seed | 1;
        assert(seed | 1u64 != 0u64) by (bit_vector);
        Rng(state)
    }

    /// Advances the generator and returns its new state.
    pub fn next_u64(&mut self) -> (value: u64)
        ensures
            final(self).0 == xorshift_spec(old(self).0),
            value == final(self).0,
    {
        let mut x = self.0;
        x = x ^ (x << 13u64);
        x = x ^ (x >> 7u64);
        x = x ^ (x << 17u64);
        self.0 = x;
        x
    }
}

/// The xorshift step is one-to-one: different states give different next
/// states, so the generator loses no states on its way.
pub proof fn lemma_xorshift_injective(x: u64, y: u64)
    requires
        x != y,
    ensures
        xorshift_spec(x) != xorshift_spec(y),
{
    let ax = x ^ (x << 13u64);
    let ay = y ^ (y << 13u64);
    let bx = ax ^ (ax >> 7u64);
    let by_ = ay ^ (ay >> 7u64);
    assert(x != y ==> x ^ (x << 13u64) != y ^ (y << 13u64)) by (bit_vector);
    assert(ax != ay ==> ax ^ (ax >> 7u64) != ay ^ (ay >> 7u64)) by (bit_vector);
    assert(bx != by_ ==> bx ^ (bx << 17u64) != by_ ^ (by_ << 17u64)) by (bit_vector);
}

/// The xorshift step never turns a nonzero state into zero, so a generator
/// seeded by `from_time` never gets stuck at zero.
pub proof fn lemma_xorshift_keeps_nonzero(x: u64)
    requires
        x != 0,
    ensures
        xorshift_spec(x) != 0,
{
    let a = x ^ (x << 13u64);
    let b = a ^ (a >> 7u64);
    assert(x != 0 ==> x ^ (x << 13u64) != 0) by (bit_vector);
    assert(a != 0 ==> a ^ (a >> 7u64) != 0) by (bit_vector);
    assert(b != 0 ==> b ^ (b << 17u64) != 0) by (bit_vector);
}


/// Input event type of key and button events.
pub const EV_KEY: u16 = 1;

/// Input event type of relative moves.
pub const EV_REL: u16 = 2;

/// Relative-move code of the horizontal axis.
pub const REL_X: u16 = 0;

/// Key code of the left mouse button.
pub const BTN_LEFT: u16 = 0x110;

/// Key code of the right mouse button.
pub const BTN_RIGHT: u16 = 0x111;

/// What a batch of mouse events, each `(type, code, value)`, does, given
/// whether the left and right buttons were held before it: the sum of the
/// horizontal moves, and whether each button is held afterwards (the value
/// of its last event, nonzero meaning pressed). Other events are ignored.
pub open spec fn mouse_batch_spec(events: Seq<(u16, u16, i32)>, left: bool, right: bool) -> (int, bool, bool)
    decreases events.len(),
{
    if events.len() == 0 {
        (0, left, right)
    } else {
        let (dx, l, r) = mouse_batch_spec(events.drop_last(), left, right);
        let (kind, code, value) = events.last();
        if kind == EV_REL && code == REL_X {
            (dx + value, l, r)
        } else if kind == EV_KEY && code == BTN_LEFT {
            (dx, value != 0, r)
        } else if kind == EV_KEY && code == BTN_RIGHT {
            (dx, l, value != 0)
        } else {
            (dx, l, r)
        }
    }
}

/// Folds one batch of mouse events: the total horizontal move and the new
/// state of the two buttons.
pub fn mouse_batch(events: &[(u16, u16, i32)], left: bool, right: bool) -> (batch: (i128, bool, bool))
    ensures
        (batch.0 as int, batch.1, batch.2) == mouse_batch_spec(events@, left, right),
{
    let mut dx: i128 = 0;
    let mut l = left;
    let mut r = right;
    let mut i: usize = 0;
    while i < events.len()
        invariant
            i <= events.len(),
            -(i as int) * 0x8000_0000 <= dx <= (i as int) * 0x8000_0000,
            (dx as int, l, r) == mouse_batch_spec(events@.take(i as int), left, right),
        decreases events.len() - i,
    {
        let (kind, code, value) = events[i];
        assert(events@.take(i + 1).drop_last() =~= events@.take(i as int));
        if kind == EV_REL && code == REL_X {
            dx = dx + value as i128;
        } else if kind == EV_KEY && code == BTN_LEFT {
            l = value != 0;
        } else if kind == EV_KEY && code == BTN_RIGHT {
            r = value != 0;
        }
        i = i + 1;
    }
    assert(events@.take(i as int) =~= events@);
    (dx, l, r)
}

} // verus!
