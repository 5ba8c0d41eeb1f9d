//! The law that ties the server's motor endpoint to the ball firmware: the
//! ball reads whatever the endpoint reports, however the reply is padded
//! with whitespace.

use vstd::prelude::*;
use vstd::utf8::{encode_utf8, encode_utf8_decode_utf8, encode_utf8_valid_utf8};
use crate::countdown::{motor_num_spec, MotorAction};
use crate::esp32_ball::{self, reply_spec, LedAction, ServerResult};
use crate::external::{
    decimal_spec, is_whitespace_spec, trim_end_spec, trim_spec, trim_start_spec,
};

verus! {

/// Whether every character of `text` is whitespace.
pub open spec fn all_whitespace(text: Seq<char>) -> bool {
    forall|i: int| 0 <= i < text.len() ==> is_whitespace_spec(#[trigger] text[i])
}

proof fn lemma_trim_start_of_padding(pad: Seq<char>, text: Seq<char>)
    requires
        all_whitespace(pad),
        text.len() > 0,
        !is_whitespace_spec(text[0]),
    ensures
        trim_start_spec(pad + text) == text,
    decreases pad.len(),
{
    if pad.len() == 0 {
        assert(pad + text =~= text);
    } else {
        assert(is_whitespace_spec(pad[0]));
        assert((pad + text).drop_first() =~= pad.drop_first() + text);
        lemma_trim_start_of_padding(pad.drop_first(), text);
    }
}

proof fn lemma_trim_end_of_padding(text: Seq<char>, pad: Seq<char>)
    requires
        all_whitespace(pad),
        text.len() > 0,
        !is_whitespace_spec(text.last()),
    ensures
        trim_end_spec(text + pad) == text,
    decreases pad.len(),
{
    if pad.len() == 0 {
        assert(text + pad =~= text);
    } else {
        assert(is_whitespace_spec(pad.last()));
        assert((text + pad).drop_last() =~= text + pad.drop_last());
        lemma_trim_end_of_padding(text, pad.drop_last());
    }
}

/// The ball's reading of the motor endpoint's reply: the endpoint reports
/// `as_num()` in decimal, and whatever whitespace surrounds it, the ball
/// runs its motors exactly when the server's motor is started, with the LED
/// blinking.
pub proof fn lemma_ball_reads_motor_endpoint(motor: MotorAction, before: Seq<char>, after: Seq<char>)
    requires
        all_whitespace(before),
        all_whitespace(after),
    ensures
        reply_spec(encode_utf8(before + decimal_spec(motor_num_spec(motor) as nat) + after))
            == (ServerResult {
            motor_action: match motor {
                MotorAction::Start => esp32_ball::MotorAction::Start,
                MotorAction::Stop => esp32_ball::MotorAction::Stop,
            },
            led_action: LedAction::Blink,
        }),
{
    let digits = decimal_spec(motor_num_spec(motor) as nat);
    let text = before + digits + after;
    encode_utf8_valid_utf8(text);
    encode_utf8_decode_utf8(text);
    let d: char = match motor {
        MotorAction::Start => '1',
        MotorAction::Stop => '0',
    };
    assert(digits =~= seq![d]);
    lemma_trim_start_of_padding(before, digits + after);
    lemma_trim_end_of_padding(digits, after);
    assert(before + digits + after =~= before + (digits + after));
    assert(trim_spec(text) == digits);
    if d == '0' {
        assert(digits[0] != seq!['1'][0]);
        assert(digits != seq!['1']);
    }
}

} // verus!
