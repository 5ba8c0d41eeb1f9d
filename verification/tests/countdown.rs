use motorball::countdown::{
    countdown_status, finish_expired_game, game_seconds, seconds_remaining, start_game, Countdown,
    HoldToStart, MotorAction,
};

/// An arbitrary monotonic instant, in nanoseconds.
const NOW: u128 = 7_000_000_000_000;

fn millis(n: u128) -> u128 {
    n * 1_000_000
}

fn secs(n: u128) -> u128 {
    n * 1_000_000_000
}

#[test]
fn countdown_rounds_partial_seconds_up_for_display() {
    let now = NOW;
    assert_eq!(seconds_remaining(now + millis(1001), now), 2);
    assert_eq!(seconds_remaining(now + secs(1), now), 1);
    assert_eq!(seconds_remaining(now, now), 0);
}

#[test]
fn countdown_reports_idle_running_and_finished() {
    let now = NOW;
    let mut countdown = Countdown {
        duration_seconds: 60,
        deadline: None,
        game: 0,
    };
    assert_eq!(countdown_status(countdown, now).state, "idle");

    countdown.game = 1;
    countdown.deadline = Some(now + secs(30));
    assert_eq!(countdown_status(countdown, now).state, "running");
    assert_eq!(countdown_status(countdown, now).remaining_seconds, 30);

    countdown.deadline = None;
    assert_eq!(countdown_status(countdown, now).state, "finished");
}

#[test]
fn west_button_requires_a_five_second_hold_and_release() {
    let now = NOW;
    let mut hold = HoldToStart::default();

    assert!(!hold.update(true, now));
    assert!(!hold.update(true, now + millis(4999)));
    assert!(hold.update(true, now + secs(5)));
    assert!(!hold.update(true, now + secs(10)));

    assert!(!hold.update(false, now + secs(11)));
    assert!(!hold.update(true, now + secs(12)));
    assert!(hold.update(true, now + secs(17)));
}

#[test]
fn remaining_time_below_a_millisecond_shows_zero() {
    assert_eq!(seconds_remaining(NOW + 999_999, NOW), 0);
    assert_eq!(seconds_remaining(NOW, NOW + secs(3)), 0);
    assert_eq!(seconds_remaining(NOW + millis(59_001), NOW), 60);
}

#[test]
fn starting_a_game_runs_the_motor_and_counts_down() {
    let mut countdown = Countdown { duration_seconds: 60, deadline: None, game: 0 };
    let mut motor = MotorAction::Stop;
    let status = start_game(&mut countdown, &mut motor, NOW);
    assert!(motor == MotorAction::Start);
    assert_eq!(status.state, "running");
    assert_eq!(status.remaining_seconds, 60);
    assert_eq!(status.duration_seconds, 60);
    assert_eq!(status.game, 1);
    assert_eq!(countdown.deadline, Some(NOW + secs(60)));

    assert_eq!(finish_expired_game(&mut countdown, &mut motor, NOW + secs(59)), None);
    assert!(motor == MotorAction::Start);
    assert_eq!(countdown_status(countdown, NOW + secs(59) + millis(500)).remaining_seconds, 1);

    assert_eq!(finish_expired_game(&mut countdown, &mut motor, NOW + secs(60)), Some(1));
    assert!(motor == MotorAction::Stop);
    assert_eq!(countdown.deadline, None);
    assert_eq!(countdown_status(countdown, NOW + secs(61)).state, "finished");
    assert_eq!(finish_expired_game(&mut countdown, &mut motor, NOW + secs(62)), None);
}

#[test]
fn restarting_numbers_the_next_game() {
    let mut countdown = Countdown { duration_seconds: 90, deadline: None, game: 0 };
    let mut motor = MotorAction::Stop;
    start_game(&mut countdown, &mut motor, NOW);
    let status = start_game(&mut countdown, &mut motor, NOW + secs(10));
    assert_eq!(status.game, 2);
    assert_eq!(status.remaining_seconds, 90);
    assert_eq!(countdown.deadline, Some(NOW + secs(100)));
}

#[test]
fn idle_status_reports_game_zero() {
    let countdown = Countdown { duration_seconds: 45, deadline: None, game: 0 };
    let status = countdown_status(countdown, NOW);
    assert_eq!(status.remaining_seconds, 0);
    assert_eq!(status.duration_seconds, 45);
    assert_eq!(status.game, 0);
}

#[test]
fn game_seconds_setting_is_a_positive_integer_or_sixty() {
    assert_eq!(game_seconds(None), 60);
    assert_eq!(game_seconds(Some("90")), 90);
    assert_eq!(game_seconds(Some("+15")), 15);
    assert_eq!(game_seconds(Some("0")), 60);
    assert_eq!(game_seconds(Some("-5")), 60);
    assert_eq!(game_seconds(Some(" 90")), 60);
    assert_eq!(game_seconds(Some("ninety")), 60);
    assert_eq!(game_seconds(Some("")), 60);
    assert_eq!(game_seconds(Some("99999999999999999999")), 60);
}

#[test]
fn motor_numbers() {
    assert_eq!(MotorAction::Start.as_num(), 1);
    assert_eq!(MotorAction::Stop.as_num(), 0);
}

#[test]
fn very_long_games_can_start() {
    let mut countdown = Countdown { duration_seconds: u64::MAX, deadline: None, game: 0 };
    let mut motor = MotorAction::Stop;
    let status = start_game(&mut countdown, &mut motor, NOW);
    assert_eq!(status.state, "running");
    assert_eq!(countdown.deadline, Some(NOW + u64::MAX as u128 * 1_000_000_000));
}
