//! The game countdown of the server and the hold-to-start rule of the
//! controller button. Instants are nanoseconds (`u128`) on a monotonic
//! clock.

use vstd::prelude::*;
use crate::external::{parse_u64, parse_u64_spec};

verus! {

/// Nanoseconds in a millisecond.
pub const NANOS_PER_MILLI: u128 = 1_000_000;

/// Nanoseconds in a second.
pub const NANOS_PER_SECOND: u128 = 1_000_000_000;

/// Game length when none is configured.
pub const DEFAULT_GAME_SECONDS: u64 = 60;

/// How long the start button must be held.
pub const START_HOLD_SECONDS: u64 = 5;

/// Whether the ball's motor runs.
#[derive(Clone, Copy, PartialEq, Eq, Structural)]
pub enum MotorAction {
    Stop,
    Start,
}

/// The number that the motor endpoint reports: 1 for start, 0 for stop.
pub open spec fn motor_num_spec(action: MotorAction) -> u8 {
    match action {
        MotorAction::Start => 1,
        MotorAction::Stop => 0,
    }
}

impl MotorAction {
    /// The number that the motor endpoint reports: 1 for start, 0 for stop.
    pub fn as_num(self) -> (n: u8)
        ensures
            n == motor_num_spec(self),
    {
        match self {
            MotorAction::Start => 1,
            MotorAction::Stop => 0,
        }
    }
}

/// The game timer: its length, the instant it runs out (while a game runs),
/// and the number of games started so far.
#[derive(Clone, Copy)]
pub struct Countdown {
    pub duration_seconds: u64,
    pub deadline: Option<u128>,
    pub game: u64,
}

/// What the countdown endpoint reports.
#[derive(Clone, Copy)]
pub struct CountdownStatus {
    pub state: &'static str,
    pub remaining_seconds: u64,
    pub duration_seconds: u64,
    pub game: u64,
}

/// Whole seconds left until `deadline`: the time left is truncated to
/// milliseconds, taken as a `u64` count of milliseconds (modulo 2^64, as a
/// millisecond count beyond that cannot be held), and then rounded up to
/// seconds; 0 once the deadline passed.
pub open spec fn seconds_remaining_spec(deadline: u128, now: u128) -> u64 {
    let millis = if deadline > now {
        (((deadline - now) / (NANOS_PER_MILLI as int)) as u128) as u64
    } else {
        0u64
    };
    ((millis + 999) / 1000) as u64
}

/// Seconds left until `deadline`, rounded up for display.
pub fn seconds_remaining(deadline: u128, now: u128) -> (seconds: u64)
    ensures
        seconds == seconds_remaining_spec(deadline, now),
{
    let remaining = deadline.saturating_sub(now);
    let millis = (remaining / NANOS_PER_MILLI) as u64;
    let seconds = millis / 1000;
    if millis % 1000 != 0 {
        seconds + 1
    } else {
        seconds
    }
}

/// The status of a countdown at `now`: running while the deadline lies
/// ahead, finished once a game has been played, idle before the first game.
pub open spec fn countdown_status_spec(countdown: Countdown, now: u128) -> CountdownStatus {
    match countdown.deadline {
        Some(deadline) if deadline > now => CountdownStatus {
            state: "running",
            remaining_seconds: seconds_remaining_spec(deadline, now),
            duration_seconds: countdown.duration_seconds,
            game: countdown.game,
        },
        _ => if countdown.game > 0 {
            CountdownStatus {
                state: "finished",
                remaining_seconds: 0,
                duration_seconds: countdown.duration_seconds,
                game: countdown.game,
            }
        } else {
            CountdownStatus {
                state: "idle",
                remaining_seconds: 0,
                duration_seconds: countdown.duration_seconds,
                game: 0,
            }
        },
    }
}

/// Reports the state of the countdown at `now`.
pub fn countdown_status(countdown: Countdown, now: u128) -> (status: CountdownStatus)
    ensures
        status == countdown_status_spec(countdown, now),
{
    match countdown.deadline {
        Some(deadline) if deadline > now => CountdownStatus {
            state: "running",
            remaining_seconds: seconds_remaining(deadline, now),
            duration_seconds: countdown.duration_seconds,
            game: countdown.game,
        },
        _ => if countdown.game > 0 {
            CountdownStatus {
                state: "finished",
                remaining_seconds: 0,
                duration_seconds: countdown.duration_seconds,
                game: countdown.game,
            }
        } else {
            CountdownStatus {
                state: "idle",
                remaining_seconds: 0,
                duration_seconds: countdown.duration_seconds,
                game: 0,
            }
        },
    }
}


/// The countdown after a game is started at `now`: the game number goes up
/// by one (saturating) and the deadline is the full duration away.
pub open spec fn start_game_spec(countdown: Countdown, now: u128) -> Countdown {
    Countdown {
        duration_seconds: countdown.duration_seconds,
        deadline: Some((now + countdown.duration_seconds * NANOS_PER_SECOND) as u128),
        game: if countdown.game == u64::MAX {
            u64::MAX
        } else {
            (countdown.game + 1) as u64
        },
    }
}

/// Whether a game of `duration_seconds` started at `now` ends at an instant
/// that the clock can hold. Instants are `u128` nanoseconds, so every
/// duration a `u64` can hold fits unless `now` is within about 10^28
/// nanoseconds of the clock's end.
pub open spec fn deadline_fits(duration_seconds: u64, now: u128) -> bool {
    now + duration_seconds * NANOS_PER_SECOND <= u128::MAX
}

/// Starts (or restarts) a game at `now`: numbers it, sets its deadline and
/// starts the motor. Returns the countdown's status right after.
pub fn start_game(countdown: &mut Countdown, motor: &mut MotorAction, now: u128) -> (status:
    CountdownStatus)
    requires
        deadline_fits(old(countdown).duration_seconds, now),
    ensures
        *final(countdown) == start_game_spec(*old(countdown), now),
        *final(motor) == MotorAction::Start,
        status == countdown_status_spec(*final(countdown), now),
{
    assert(countdown.duration_seconds * NANOS_PER_SECOND <= u128::MAX - now);
    countdown.game = countdown.game.saturating_add(1);
    countdown.deadline = Some(now + countdown.duration_seconds as u128 * NANOS_PER_SECOND);
    *motor = MotorAction::Start;
    countdown_status(*countdown, now)
}

/// The countdown, and the number of the game that ended, after checking at
/// `now` whether the running game's deadline has come.
pub open spec fn expire_spec(countdown: Countdown, now: u128) -> (Countdown, Option<u64>) {
    match countdown.deadline {
        Some(deadline) if deadline <= now => (
            Countdown { deadline: None, ..countdown },
            Some(countdown.game),
        ),
        _ => (countdown, None),
    }
}

/// Ends the running game once its deadline has come, and stops the motor;
/// returns the number of the game that ended. Otherwise changes nothing.
pub fn finish_expired_game(countdown: &mut Countdown, motor: &mut MotorAction, now: u128) -> (ended:
    Option<u64>)
    ensures
        (*final(countdown), ended) == expire_spec(*old(countdown), now),
        ended.is_some() ==> *final(motor) == MotorAction::Stop,
        ended.is_none() ==> *final(motor) == *old(motor),
{
    let expired = match countdown.deadline {
        Some(deadline) => deadline <= now,
        None => false,
    };
    if expired {
        countdown.deadline = None;
        *motor = MotorAction::Stop;
        Some(countdown.game)
    } else {
        None
    }
}

/// Tracks how long the start button has been held, so that a hold starts a
/// game once, after `START_HOLD_SECONDS`.
pub struct HoldToStart {
    pub pressed_since: Option<u128>,
    pub triggered: bool,
}

impl Default for HoldToStart {
    fn default() -> (hold: Self)
        ensures
            hold.pressed_since.is_none(),
            !hold.triggered,
    {
        HoldToStart { pressed_since: None, triggered: false }
    }
}

/// The state after one reading of the button at `now`, and whether that
/// reading starts a game: released clears everything; pressed remembers when
/// the hold began, and starts a game the first time the hold has lasted the
/// full five seconds.
pub open spec fn hold_update_spec(hold: HoldToStart, pressed: bool, now: u128) -> (HoldToStart, bool) {
    if !pressed {
        (HoldToStart { pressed_since: None, triggered: false }, false)
    } else {
        let since = match hold.pressed_since {
            Some(since) => since,
            None => now,
        };
        if !hold.triggered && now - since >= START_HOLD_SECONDS * NANOS_PER_SECOND {
            (HoldToStart { pressed_since: Some(since), triggered: true }, true)
        } else {
            (HoldToStart { pressed_since: Some(since), triggered: hold.triggered }, false)
        }
    }
}

impl HoldToStart {
    /// Takes a reading of the button at `now`; returns `true` when the hold
    /// has just reached five seconds.
    pub fn update(&mut self, pressed: bool, now: u128) -> (start: bool)
        ensures
            (*final(self), start) == hold_update_spec(*old(self), pressed, now),
    {
        if !pressed {
            self.pressed_since = None;
            self.triggered = false;
            return false;
        }
        let pressed_since = match self.pressed_since {
            Some(since) => since,
            None => {
                self.pressed_since = Some(now);
                now
            },
        };
        if !self.triggered && now.saturating_sub(pressed_since) >= START_HOLD_SECONDS as u128
            * NANOS_PER_SECOND {
            self.triggered = true;
            return true;
        }
        false
    }
}


/// The game length configured by `setting` (the text of the game-seconds
/// setting, if any): a positive whole number of seconds, otherwise the
/// default of 60.
pub open spec fn game_seconds_spec(setting: Option<Seq<char>>) -> u64 {
    match setting {
        Some(text) => match parse_u64_spec(text) {
            Some(seconds) if seconds > 0 => seconds,
            _ => DEFAULT_GAME_SECONDS,
        },
        None => DEFAULT_GAME_SECONDS,
    }
}

/// Reads the game length from the text of the game-seconds setting.
pub fn game_seconds(setting: Option<&str>) -> (seconds: u64)
    ensures
        seconds == game_seconds_spec(
            match setting {
                Some(text) => Some(text@),
                None => None,
            },
        ),
        seconds > 0,
{
    match setting {
        Some(text) => match parse_u64(text) {
            Some(seconds) => if seconds > 0 {
                seconds
            } else {
                DEFAULT_GAME_SECONDS
            },
            None => DEFAULT_GAME_SECONDS,
        },
        None => DEFAULT_GAME_SECONDS,
    }
}

} // verus!
