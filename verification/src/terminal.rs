//! Key presses as the terminal library reports them.

use vstd::prelude::*;
use crossterm::event::KeyCode;
use crate::input::Key;

verus! {

/// crossterm's terminal event. Nothing inside it is visible to the proofs.
#[verifier::external_type_specification]
#[verifier::external_body]
pub struct ExTerminalEvent(crossterm::event::Event);

/// The key press that a terminal event stands for, and `None` for an event
/// that is no key press. It depends on the event alone; which key it is for
/// which event is crossterm's word and is not stated here.
pub uninterp spec fn key_pressed(event: crossterm::event::Event) -> Option<Key>;

/// The key of a key press event, and `None` for any other event.
///
/// Calls crossterm's `Event::as_key_press_event` and tells the key codes
/// apart. The contract claims only that the result is a function of the
/// event: the same event always gives the same key.
#[verifier::external_body]
pub(crate) fn pressed_key(event: &crossterm::event::Event) -> (key: Option<Key>)
    ensures
        key == key_pressed(*event),
{
    event.as_key_press_event().map(
        |press|
            match press.code {
                KeyCode::Char(c) => Key::Char(c),
                KeyCode::Esc => Key::Esc,
                KeyCode::Up => Key::Up,
                KeyCode::Down => Key::Down,
                _ => Key::Other,
            },
    )
}

} // verus!
