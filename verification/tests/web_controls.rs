use motorball::web_controls::{mouse_batch, BTN_LEFT, BTN_RIGHT, EV_KEY, EV_REL, REL_X};
use motorball::countdown::MotorAction;
use motorball::web_controls::{
    mouse_button_direction, parse_motor_action, parse_player, Player, Rng, FALLBACK_SEED,
};

#[test]
fn mouse_buttons_drive_opposite_directions() {
    assert_eq!(mouse_button_direction(true, false) as f32, -1.0);
    assert_eq!(mouse_button_direction(false, true) as f32, 1.0);
    assert_eq!(mouse_button_direction(true, true) as f32, 0.0);
    assert_eq!(mouse_button_direction(false, false) as f32, 0.0);
}

#[test]
fn input_paths_name_players() {
    assert!(parse_player("p1") == Some(Player::P1));
    assert!(parse_player("p2") == Some(Player::P2));
    assert!(parse_player("p3").is_none());
    assert!(parse_player("P1").is_none());
    assert!(parse_player("").is_none());
}

#[test]
fn motor_paths_name_actions() {
    assert!(parse_motor_action("start") == Some(MotorAction::Start));
    assert!(parse_motor_action("stop") == Some(MotorAction::Stop));
    assert!(parse_motor_action("go").is_none());
    assert!(parse_motor_action("start ").is_none());
}

#[test]
fn rng_seeds_are_odd() {
    assert_eq!(Rng::from_time(Some(10)).0, 11);
    assert_eq!(Rng::from_time(Some(7)).0, 7);
    assert_eq!(Rng::from_time(Some((1u128 << 64) + 4)).0, 5);
    assert_eq!(Rng::from_time(None).0, FALLBACK_SEED | 1);
}

#[test]
fn rng_follows_xorshift64() {
    let mut rng = Rng(1);
    assert_eq!(rng.next_u64(), 1_082_269_761);
    assert_eq!(rng.next_u64(), 1_152_992_998_833_853_505);
    assert_eq!(rng.0, 1_152_992_998_833_853_505);
}

#[test]
fn mouse_batch_sums_moves_and_tracks_buttons() {
    let events = [
        (EV_REL, REL_X, 5),
        (EV_REL, 1, 100),
        (EV_KEY, BTN_LEFT, 1),
        (EV_REL, REL_X, -12),
        (EV_KEY, BTN_RIGHT, 1),
        (EV_KEY, BTN_LEFT, 0),
        (0, 0, 0),
    ];
    assert_eq!(mouse_batch(&events, false, false), (-7, false, true));
    assert_eq!(mouse_batch(&[], true, false), (0, true, false));
    let big = [(EV_REL, REL_X, i32::MAX), (EV_REL, REL_X, i32::MAX)];
    assert_eq!(mouse_batch(&big, false, false).0, 2 * i32::MAX as i128);
}
