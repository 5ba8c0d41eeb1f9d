//! Laws of the server's mouse input.

use vstd::prelude::*;
use crate::web_controls::{mouse_batch_spec, BTN_LEFT, BTN_RIGHT, EV_KEY, EV_REL, REL_X};

verus! {

/// Whether an event is a key event of the button `code`.
pub open spec fn is_button_event(event: (u16, u16, i32), code: u16) -> bool {
    event.0 == EV_KEY && event.1 == code
}

/// Whether `k` is the last event of the button `code` in `events`.
pub open spec fn last_button_event(events: Seq<(u16, u16, i32)>, code: u16, k: int) -> bool {
    &&& 0 <= k < events.len()
    &&& is_button_event(events[k], code)
    &&& forall|j: int| k < j < events.len() ==> !is_button_event(#[trigger] events[j], code)
}

/// Whether `events` has no event of the button `code`.
pub open spec fn no_button_event(events: Seq<(u16, u16, i32)>, code: u16) -> bool {
    forall|j: int| 0 <= j < events.len() ==> !is_button_event(#[trigger] events[j], code)
}

proof fn lemma_last_left(events: Seq<(u16, u16, i32)>, left: bool, right: bool, k: int)
    requires
        last_button_event(events, BTN_LEFT, k),
    ensures
        mouse_batch_spec(events, left, right).1 == (events[k].2 != 0),
    decreases events.len(),
{
    let n = events.len() - 1;
    let prev = events.drop_last();
    if k < n {
        assert(!is_button_event(events[n], BTN_LEFT));
        assert forall|j: int| k < j < prev.len() implies !is_button_event(#[trigger] prev[j], BTN_LEFT) by {
            assert(prev[j] == events[j]);
        }
        assert(prev[k] == events[k]);
        lemma_last_left(prev, left, right, k);
    }
}

proof fn lemma_last_right(events: Seq<(u16, u16, i32)>, left: bool, right: bool, k: int)
    requires
        last_button_event(events, BTN_RIGHT, k),
    ensures
        mouse_batch_spec(events, left, right).2 == (events[k].2 != 0),
    decreases events.len(),
{
    let n = events.len() - 1;
    let prev = events.drop_last();
    if k < n {
        assert(!is_button_event(events[n], BTN_RIGHT));
        assert forall|j: int| k < j < prev.len() implies !is_button_event(#[trigger] prev[j], BTN_RIGHT) by {
            assert(prev[j] == events[j]);
        }
        assert(prev[k] == events[k]);
        lemma_last_right(prev, left, right, k);
    }
}

proof fn lemma_untouched_buttons(events: Seq<(u16, u16, i32)>, left: bool, right: bool)
    ensures
        no_button_event(events, BTN_LEFT) ==> mouse_batch_spec(events, left, right).1 == left,
        no_button_event(events, BTN_RIGHT) ==> mouse_batch_spec(events, left, right).2 == right,
    decreases events.len(),
{
    if events.len() > 0 {
        let n = events.len() - 1;
        let prev = events.drop_last();
        lemma_untouched_buttons(prev, left, right);
        if no_button_event(events, BTN_LEFT) {
            assert(!is_button_event(events[n], BTN_LEFT));
            assert forall|j: int| 0 <= j < prev.len() implies !is_button_event(#[trigger] prev[j], BTN_LEFT) by {
                assert(prev[j] == events[j]);
            }
        }
        if no_button_event(events, BTN_RIGHT) {
            assert(!is_button_event(events[n], BTN_RIGHT));
            assert forall|j: int| 0 <= j < prev.len() implies !is_button_event(#[trigger] prev[j], BTN_RIGHT) by {
                assert(prev[j] == events[j]);
            }
        }
    }
}

/// Whether `event` moves the pointer horizontally.
pub open spec fn is_horizontal_move(event: (u16, u16, i32)) -> bool {
    event.0 == EV_REL && event.1 == REL_X
}

/// A batch with no horizontal move moves nothing.
pub proof fn lemma_no_move_no_dx(events: Seq<(u16, u16, i32)>, left: bool, right: bool)
    requires
        forall|j: int| 0 <= j < events.len() ==> !is_horizontal_move(#[trigger] events[j]),
    ensures
        mouse_batch_spec(events, left, right).0 == 0,
    decreases events.len(),
{
    if events.len() > 0 {
        let prev = events.drop_last();
        assert(!is_horizontal_move(events[events.len() - 1]));
        assert forall|j: int| 0 <= j < prev.len() implies !is_horizontal_move(#[trigger] prev[j]) by {
            assert(prev[j] == events[j]);
        }
        lemma_no_move_no_dx(prev, left, right);
    }
}

/// After a batch, each button is held exactly as the value of its last key
/// event in the batch says (nonzero meaning pressed), whatever it was before;
/// a button without an event in the batch keeps its state.
pub proof fn lemma_buttons_follow_last_event(events: Seq<(u16, u16, i32)>, left: bool, right: bool)
    ensures
        forall|k: int| #[trigger] last_button_event(events, BTN_LEFT, k) ==> mouse_batch_spec(
            events,
            left,
            right,
        ).1 == (events[k].2 != 0),
        forall|k: int| #[trigger] last_button_event(events, BTN_RIGHT, k) ==> mouse_batch_spec(
            events,
            left,
            right,
        ).2 == (events[k].2 != 0),
        no_button_event(events, BTN_LEFT) ==> mouse_batch_spec(events, left, right).1 == left,
        no_button_event(events, BTN_RIGHT) ==> mouse_batch_spec(events, left, right).2 == right,
{
    assert forall|k: int| #[trigger] last_button_event(events, BTN_LEFT, k) implies mouse_batch_spec(
        events,
        left,
        right,
    ).1 == (events[k].2 != 0) by {
        lemma_last_left(events, left, right, k);
    }
    assert forall|k: int| #[trigger] last_button_event(events, BTN_RIGHT, k) implies mouse_batch_spec(
        events,
        left,
        right,
    ).2 == (events[k].2 != 0) by {
        lemma_last_right(events, left, right, k);
    }
    lemma_untouched_buttons(events, left, right);
}


/// Adding an event to a batch: a horizontal move of `value` adds `value` to
/// the batch's move and leaves both buttons as they were; any other event
/// leaves the move as it was.
pub proof fn lemma_moves_add_up(events: Seq<(u16, u16, i32)>, event: (u16, u16, i32), left: bool, right: bool)
    ensures
        is_horizontal_move(event) ==> {
            &&& mouse_batch_spec(events.push(event), left, right).0 == mouse_batch_spec(events, left, right).0 + event.2
            &&& mouse_batch_spec(events.push(event), left, right).1 == mouse_batch_spec(events, left, right).1
            &&& mouse_batch_spec(events.push(event), left, right).2 == mouse_batch_spec(events, left, right).2
        },
        !is_horizontal_move(event) ==> mouse_batch_spec(events.push(event), left, right).0
            == mouse_batch_spec(events, left, right).0,
{
    assert(events.push(event).drop_last() =~= events);
}

} // verus!
