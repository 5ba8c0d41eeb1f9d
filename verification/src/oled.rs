//! What the 128x64 OLED on the Pi shows for each countdown state: a list of
//! text lines, each centred horizontally on the screen.

use vstd::prelude::*;
use vstd::string::StringExecFns;
use crate::countdown::CountdownStatus;
use crate::external::{decimal_spec, str_equal, u64_to_string};

verus! {

/// Horizontal centre of the 128-pixel-wide screen.
pub const CENTRE_X: i32 = 64;

/// One line of text, drawn with its horizontal centre at `x` and its top
/// edge at `y`, in the large or the small font.
pub struct TextLine {
    pub text: String,
    pub x: i32,
    pub y: i32,
    pub large: bool,
}

/// The lines for a countdown state (`state`), game number and seconds left,
/// as (text, horizontal centre, top edge, large font): every line is
/// centred on the screen.
pub open spec fn screen_spec(state: Seq<char>, game: u64, remaining: u64) -> Seq<(Seq<char>, i32, i32, bool)> {
    let title = ("KIWIJAM"@, CENTRE_X, 0i32, false);
    if state == "running"@ {
        seq![
            title,
            ("GAME "@ + decimal_spec(game as nat), CENTRE_X, 13i32, false),
            (decimal_spec(remaining as nat), CENTRE_X, 25i32, true),
            ("SECONDS"@, CENTRE_X, 51i32, false),
        ]
    } else if state == "chaos"@ {
        seq![
            title,
            ("CHAOS!"@, CENTRE_X, 13i32, false),
            (decimal_spec(remaining as nat) + "s"@, CENTRE_X, 25i32, true),
            ("BALL GOES WILD"@, CENTRE_X, 51i32, false),
        ]
    } else if state == "finished"@ {
        seq![title, ("GAME OVER"@, CENTRE_X, 19i32, true), ("HOLD Y 5 SEC"@, CENTRE_X, 49i32, false)]
    } else {
        seq![title, ("READY"@, CENTRE_X, 19i32, true), ("HOLD Y 5 SEC"@, CENTRE_X, 49i32, false)]
    }
}

/// The view of a line.
pub open spec fn line_view(line: TextLine) -> (Seq<char>, i32, i32, bool) {
    (line.text@, line.x, line.y, line.large)
}

fn line(text: String, y: i32, large: bool) -> (l: TextLine)
    ensures
        line_view(l) == (text@, CENTRE_X, y, large),
{
    TextLine { text, x: CENTRE_X, y, large }
}

/// Lays out the screen for a countdown status.
pub fn screen_layout(status: &CountdownStatus) -> (lines: Vec<TextLine>)
    ensures
        lines@.map_values(|l: TextLine| line_view(l)) == screen_spec(
            status.state@,
            status.game,
            status.remaining_seconds,
        ),
{
    let mut lines: Vec<TextLine> = Vec::new();
    lines.push(line(String::from_str("KIWIJAM"), 0, false));
    if str_equal(status.state, "running") {
        let mut game = String::from_str("GAME ");
        let number = u64_to_string(status.game);
        game.append(number.as_str());
        lines.push(line(game, 13, false));
        lines.push(line(u64_to_string(status.remaining_seconds), 25, true));
        lines.push(line(String::from_str("SECONDS"), 51, false));
    } else if str_equal(status.state, "chaos") {
        let mut seconds = u64_to_string(status.remaining_seconds);
        seconds.append("s");
        lines.push(line(String::from_str("CHAOS!"), 13, false));
        lines.push(line(seconds, 25, true));
        lines.push(line(String::from_str("BALL GOES WILD"), 51, false));
    } else if str_equal(status.state, "finished") {
        lines.push(line(String::from_str("GAME OVER"), 19, true));
        lines.push(line(String::from_str("HOLD Y 5 SEC"), 49, false));
    } else {
        lines.push(line(String::from_str("READY"), 19, true));
        lines.push(line(String::from_str("HOLD Y 5 SEC"), 49, false));
    }
    assert(lines@.map_values(|l: TextLine| line_view(l)) =~= screen_spec(
        status.state@,
        status.game,
        status.remaining_seconds,
    ));
    lines
}

} // verus!
