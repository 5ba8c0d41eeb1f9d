use motorball::countdown::{countdown_status, Countdown, CountdownStatus};
use motorball::oled::screen_layout;

fn texts(status: &CountdownStatus) -> Vec<(String, i32, bool)> {
    screen_layout(status)
        .into_iter()
        .map(|line| {
            assert_eq!(line.x, 64);
            (line.text, line.y, line.large)
        })
        .collect()
}

fn owned(lines: &[(&str, i32, bool)]) -> Vec<(String, i32, bool)> {
    lines.iter().map(|(t, y, l)| (t.to_string(), *y, *l)).collect()
}

#[test]
fn running_game_shows_number_and_seconds() {
    let countdown = Countdown { duration_seconds: 60, deadline: Some(30_000_000_000), game: 12 };
    let status = countdown_status(countdown, 0);
    assert_eq!(
        texts(&status),
        owned(&[("KIWIJAM", 0, false), ("GAME 12", 13, false), ("30", 25, true), ("SECONDS", 51, false)])
    );
}

#[test]
fn idle_and_finished_screens() {
    let idle = countdown_status(Countdown { duration_seconds: 60, deadline: None, game: 0 }, 0);
    assert_eq!(
        texts(&idle),
        owned(&[("KIWIJAM", 0, false), ("READY", 19, true), ("HOLD Y 5 SEC", 49, false)])
    );
    let finished = countdown_status(Countdown { duration_seconds: 60, deadline: None, game: 3 }, 0);
    assert_eq!(
        texts(&finished),
        owned(&[("KIWIJAM", 0, false), ("GAME OVER", 19, true), ("HOLD Y 5 SEC", 49, false)])
    );
}

#[test]
fn chaos_screen_shows_seconds_with_unit() {
    let status = CountdownStatus { state: "chaos", remaining_seconds: 7, duration_seconds: 60, game: 1 };
    assert_eq!(
        texts(&status),
        owned(&[
            ("KIWIJAM", 0, false),
            ("CHAOS!", 13, false),
            ("7s", 25, true),
            ("BALL GOES WILD", 51, false),
        ])
    );
}
