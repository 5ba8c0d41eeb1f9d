//! Laws of the game countdown and of the hold-to-start button.

use vstd::prelude::*;
use crate::countdown::{
    countdown_status_spec, deadline_fits, expire_spec, hold_update_spec, seconds_remaining_spec,
    start_game_spec, Countdown, HoldToStart, NANOS_PER_MILLI, NANOS_PER_SECOND, START_HOLD_SECONDS,
};

verus! {

/// A countdown with no game so far and no deadline reports `idle`.
pub proof fn lemma_idle_before_first_game(countdown: Countdown, now: u128)
    requires
        countdown.game == 0,
        countdown.deadline.is_none(),
    ensures
        countdown_status_spec(countdown, now).state == "idle",
        countdown_status_spec(countdown, now).remaining_seconds == 0,
{
}

/// A game started at `now` gets the next game number and runs for its whole
/// duration: at every instant before the deadline the countdown reports
/// `running` with at most `duration_seconds` seconds left (all of them at
/// the start, and at least one while a millisecond or more remains) and the expiry check leaves it alone; from the deadline on,
/// the expiry check ends that game and the countdown then reports
/// `finished`. (Games of more than `u64::MAX / 1000` seconds, some 584
/// million years, are left out: their count of milliseconds left does not
/// fit the `u64` it is reported through.)
pub proof fn lemma_game_runs_for_its_duration(countdown: Countdown, now: u128, t: u128)
    requires
        deadline_fits(countdown.duration_seconds, now),
        countdown.duration_seconds <= u64::MAX / 1000,
        countdown.game < u64::MAX,
        countdown.duration_seconds > 0,
        now <= t,
    ensures
        ({
            let started = start_game_spec(countdown, now);
            let deadline = now + countdown.duration_seconds * NANOS_PER_SECOND;
            &&& started.game == countdown.game + 1
            &&& countdown_status_spec(started, now).remaining_seconds
                == countdown.duration_seconds
            &&& t < deadline ==> {
                &&& countdown_status_spec(started, t).state == "running"
                &&& countdown_status_spec(started, t).remaining_seconds
                    <= countdown.duration_seconds
                &&& t + NANOS_PER_MILLI <= deadline ==> countdown_status_spec(started, t).remaining_seconds >= 1
                &&& expire_spec(started, t) == (started, None::<u64>)
            }
            &&& t >= deadline ==> {
                &&& expire_spec(started, t).1 == Some(started.game)
                &&& countdown_status_spec(expire_spec(started, t).0, t).state == "finished"
                &&& countdown_status_spec(expire_spec(started, t).0, t).game == started.game
            }
        }),
{
    let d = countdown.duration_seconds as int;
    let deadline = now + d * NANOS_PER_SECOND;
    assert((d * 1_000_000_000) / 1_000_000 == d * 1000) by (nonlinear_arith);
    assert((d * 1000 + 999) / 1000 == d) by (nonlinear_arith);
    assert(((d * 1000) as u128) as u64 == d * 1000);
    if t < deadline {
        let gap = deadline - t;
        assert(0 < gap <= d * 1_000_000_000);
        let m = gap / 1_000_000;
        assert(m <= d * 1000) by (nonlinear_arith)
            requires
                0 < gap <= d * 1_000_000_000,
                m == gap / 1_000_000,
        ;
        assert((m + 999) / 1000 <= d) by (nonlinear_arith)
            requires
                0 <= m <= d * 1000,
        ;
        assert(gap >= 1_000_000 ==> m >= 1);
        assert((m as u128) as u64 == m);

    }
}

/// Releasing the button clears the hold: the next press starts timing anew.
pub proof fn lemma_release_rearms(hold: HoldToStart, now: u128)
    ensures
        hold_update_spec(hold, false, now).0 == (HoldToStart { pressed_since: None, triggered: false }),
        !hold_update_spec(hold, false, now).1,
{
}

/// One hold starts at most one game: once it has triggered, further
/// readings of the held button start nothing and keep it triggered.
pub proof fn lemma_one_start_per_hold(hold: HoldToStart, now: u128)
    requires
        hold.triggered,
    ensures
        !hold_update_spec(hold, true, now).1,
        hold_update_spec(hold, true, now).0.triggered,
{
}

/// From a released button, pressing at `t0` and still holding at `t1` starts
/// a game at `t1` exactly when the hold has lasted five seconds.
pub proof fn lemma_five_second_hold(hold: HoldToStart, t0: u128, t1: u128)
    requires
        hold.pressed_since.is_none(),
        !hold.triggered,
        t0 <= t1,
    ensures
        !hold_update_spec(hold, true, t0).1,
        hold_update_spec(hold_update_spec(hold, true, t0).0, true, t1).1 <==> t1 - t0
            >= START_HOLD_SECONDS * NANOS_PER_SECOND,
{
}


/// Feeds readings of the button, each `(pressed, now)`, to `hold`: the state
/// afterwards, and whether each reading started a game.
pub open spec fn hold_run_spec(hold: HoldToStart, readings: Seq<(bool, u128)>) -> (HoldToStart, Seq<bool>)
    decreases readings.len(),
{
    if readings.len() == 0 {
        (hold, seq![])
    } else {
        let (before, starts) = hold_run_spec(hold, readings.drop_last());
        let (after, start) = hold_update_spec(before, readings.last().0, readings.last().1);
        (after, starts.push(start))
    }
}

/// The first reading of the continuous press that reading `i` belongs to.
pub open spec fn press_begin(readings: Seq<(bool, u128)>, i: nat) -> nat
    decreases i,
{
    if i > 0 && readings[i - 1].0 {
        press_begin(readings, (i - 1) as nat)
    } else {
        i
    }
}

/// Whether the press had lasted five seconds at reading `k`, counted from
/// reading `begin`.
pub open spec fn held_five_seconds(readings: Seq<(bool, u128)>, begin: nat, k: int) -> bool {
    readings[k].1 - readings[begin as int].1 >= START_HOLD_SECONDS * NANOS_PER_SECOND
}

/// Whether reading `i` starts a game: the button is pressed, the press has
/// lasted five seconds since it began, and no earlier reading of the same
/// press had reached five seconds.
pub open spec fn starts_game_at(readings: Seq<(bool, u128)>, i: nat) -> bool {
    let begin = press_begin(readings, i);
    &&& readings[i as int].0
    &&& held_five_seconds(readings, begin, i as int)
    &&& forall|k: int| begin <= k < i ==> !#[trigger] held_five_seconds(readings, begin, k)
}

proof fn lemma_press_begin_prefix(readings: Seq<(bool, u128)>, n: nat, i: nat)
    requires
        i < n <= readings.len(),
    ensures
        press_begin(readings.take(n as int), i) == press_begin(readings, i),
        press_begin(readings, i) <= i,
    decreases i,
{
    if i > 0 {
        lemma_press_begin_prefix(readings, n, (i - 1) as nat);
    }
}

proof fn lemma_hold_run_state(readings: Seq<(bool, u128)>)
    ensures
        ({
            let (hold, starts) = hold_run_spec(
                HoldToStart { pressed_since: None, triggered: false },
                readings,
            );
            let n = readings.len();
            &&& starts.len() == n
            &&& forall|i: int| 0 <= i < n ==> #[trigger] starts[i] == starts_game_at(readings, i as nat)
            &&& if n > 0 && readings[n - 1].0 {
                let begin = press_begin(readings, (n - 1) as nat);
                &&& hold.pressed_since == Some(readings[begin as int].1)
                &&& hold.triggered == exists|k: int| begin <= k < n && #[trigger] held_five_seconds(readings, begin, k)
            } else {
                hold.pressed_since.is_none() && !hold.triggered
            }
        }),
    decreases readings.len(),
{
    let start = HoldToStart { pressed_since: None, triggered: false };
    let n = readings.len();
    if n > 0 {
        let prev = readings.drop_last();
        lemma_hold_run_state(prev);
        let (before, starts) = hold_run_spec(start, prev);
        let (after, last) = hold_update_spec(before, readings.last().0, readings.last().1);
        assert(prev =~= readings.take(n - 1));
        assert forall|i: int| 0 <= i < n - 1 implies #[trigger] starts_game_at(prev, i as nat) == starts_game_at(readings, i as nat) by {
            lemma_press_begin_prefix(readings, (n - 1) as nat, i as nat);
            let begin = press_begin(readings, i as nat);
            assert(press_begin(prev, i as nat) == begin);
            assert(prev[i].0 == readings[i].0);
            assert forall|k: int| begin <= k <= i implies #[trigger] held_five_seconds(prev, begin, k) == held_five_seconds(readings, begin, k) by {}
            if starts_game_at(readings, i as nat) {
                assert forall|k: int| begin <= k < i implies !#[trigger] held_five_seconds(prev, begin, k) by {
                    assert(!held_five_seconds(readings, begin, k));
                }
            }
            if starts_game_at(prev, i as nat) {
                assert forall|k: int| begin <= k < i implies !#[trigger] held_five_seconds(readings, begin, k) by {
                    assert(!held_five_seconds(prev, begin, k));
                }
            }
        }
        if n > 1 && readings[n - 2].0 {
            lemma_press_begin_prefix(readings, (n - 1) as nat, (n - 2) as nat);
            let begin = press_begin(readings, (n - 2) as nat);
            assert forall|k: int| begin <= k < n - 1 implies #[trigger] held_five_seconds(prev, begin, k) == held_five_seconds(readings, begin, k) by {}
        }
        if readings[n - 1].0 {
            let begin = press_begin(readings, (n - 1) as nat);
            if n > 1 && readings[n - 2].0 {
                assert(begin == press_begin(readings, (n - 2) as nat));
                lemma_press_begin_prefix(readings, (n - 1) as nat, (n - 2) as nat);
                assert(before.pressed_since == Some(readings[begin as int].1));
                if before.triggered {
                    let k0 = choose|k: int| begin <= k < n - 1 && #[trigger] held_five_seconds(prev, begin, k);
                    assert(held_five_seconds(readings, begin, k0));
                    assert(!last);
                    assert(!starts_game_at(readings, (n - 1) as nat));
                    assert(after.triggered);
                } else {
                    assert forall|k: int| begin <= k < n - 1 implies !#[trigger] held_five_seconds(readings, begin, k) by {
                        assert(!held_five_seconds(prev, begin, k));
                    }
                    assert(last == held_five_seconds(readings, begin, n - 1));
                    assert(last == starts_game_at(readings, (n - 1) as nat));
                    if after.triggered {
                        assert(held_five_seconds(readings, begin, n - 1));
                    } else {
                        assert forall|k: int| begin <= k < n implies !#[trigger] held_five_seconds(readings, begin, k) by {}
                    }
                }
            } else {
                assert(begin == n - 1);
                assert(!held_five_seconds(readings, begin, n - 1));
                assert(!last);
                assert forall|k: int| begin <= k < n implies !#[trigger] held_five_seconds(readings, begin, k) by {}
            }
        }
        let all = hold_run_spec(start, readings).1;
        assert(all =~= starts.push(last));
        assert(all[n - 1] == starts_game_at(readings, (n - 1) as nat));
        assert forall|i: int| 0 <= i < n implies #[trigger] all[i] == starts_game_at(readings, i as nat) by {
            if i < n - 1 {
                assert(all[i] == starts[i]);
                assert(starts[i] == starts_game_at(prev, i as nat));
            }
        }
    }
}

/// Over any sequence of readings from a released button, a reading starts a
/// game exactly when the button is pressed, the press has lasted five
/// seconds since it began, and no earlier reading of the same press had;
/// so a press starts at most one game, and a new game needs a release.
pub proof fn lemma_hold_starts_once_per_press(readings: Seq<(bool, u128)>)
    ensures
        ({
            let starts = hold_run_spec(HoldToStart { pressed_since: None, triggered: false }, readings).1;
            &&& starts.len() == readings.len()
            &&& forall|i: int| 0 <= i < readings.len() ==> #[trigger] starts[i] == starts_game_at(readings, i as nat)
        }),
{
    lemma_hold_run_state(readings);
}


/// Whatever its state, the status reports the countdown's configured length,
/// and a running or finished countdown reports its own game number. It is
/// running exactly while the deadline lies ahead; otherwise no seconds are
/// left, and without a deadline after a game it is finished.
pub proof fn lemma_status_reports_configuration(countdown: Countdown, now: u128)
    ensures
        countdown_status_spec(countdown, now).duration_seconds == countdown.duration_seconds,
        countdown.game > 0 || countdown.deadline.is_some() ==> countdown_status_spec(
            countdown,
            now,
        ).game == countdown.game,
        countdown_status_spec(countdown, now).state == "running" <==> (countdown.deadline matches Some(
            d,
        ) && d > now),
        countdown_status_spec(countdown, now).state != "running" ==> countdown_status_spec(
            countdown,
            now,
        ).remaining_seconds == 0,
        countdown.deadline.is_none() && countdown.game > 0 ==> countdown_status_spec(countdown, now).state
            == "finished",
{
    reveal_strlit("running");
    reveal_strlit("finished");
    reveal_strlit("idle");
    assert("finished"@[0] != "running"@[0]);
    assert("idle"@[0] != "running"@[0]);
}

/// The seconds shown are the milliseconds left rounded up to whole seconds:
/// the smallest number of seconds that covers the time left (for any time
/// left that fits a `u64` count of milliseconds).
pub proof fn lemma_seconds_rounded_up(deadline: u128, now: u128)
    requires
        deadline > now,
        (deadline - now) / 1_000_000 <= u64::MAX,
    ensures
        ({
            let millis = (deadline - now) / 1_000_000;
            let seconds = seconds_remaining_spec(deadline, now) as int;
            &&& seconds * 1000 >= millis
            &&& seconds == 0 || (seconds - 1) * 1000 < millis
        }),
{
    let millis = (deadline - now) / 1_000_000;
    assert(((millis as u128) as u64) == millis);
    let s = (millis + 999) / 1000;
    assert(s * 1000 >= millis && (s == 0 || (s - 1) * 1000 < millis)) by (nonlinear_arith)
        requires
            s == (millis + 999) / 1000,
            millis >= 0,
    ;
}

} // verus!
