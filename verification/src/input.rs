//! Which command a key press stands for.

use vstd::prelude::*;

verus! {

/// A key press, as far as the dashboard tells keys apart.
#[derive(Clone, Copy, Debug, PartialEq, Eq, Structural)]
pub enum Key {
    /// A character key.
    Char(char),
    /// The escape key.
    Esc,
    /// The up arrow.
    Up,
    /// The down arrow.
    Down,
    /// Any other key.
    Other,
}

/// What the operator can ask for.
#[derive(Clone, Copy, Debug, PartialEq, Eq, Structural)]
pub enum Command {
    /// Leave the dashboard.
    Quit,
    /// Scroll one row down.
    ScrollDown,
    /// Scroll one row up.
    ScrollUp,
    /// Lower every change flag.
    AcknowledgeAll,
    /// Block every line whose flag is raised.
    BlockChanged,
    /// Nothing: the key has no meaning.
    Ignore,
}

/// The command that each key stands for.
pub open spec fn command_for(key: Key) -> Command {
    match key {
        Key::Char(c) => if c == 'q' {
            Command::Quit
        } else if c == 'j' {
            Command::ScrollDown
        } else if c == 'k' {
            Command::ScrollUp
        } else if c == 'r' {
            Command::AcknowledgeAll
        } else if c == 'b' {
            Command::BlockChanged
        } else {
            Command::Ignore
        },
        Key::Esc => Command::Quit,
        Key::Down => Command::ScrollDown,
        Key::Up => Command::ScrollUp,
        Key::Other => Command::Ignore,
    }
}

/// Maps a key press to its command; a key without meaning is ignored.
pub fn dispatch(key: Key) -> (command: Command)
    ensures
        command == command_for(key),
{
    match key {
        Key::Char('q') | Key::Esc => Command::Quit,
        Key::Char('j') | Key::Down => Command::ScrollDown,
        Key::Char('k') | Key::Up => Command::ScrollUp,
        Key::Char('r') => Command::AcknowledgeAll,
        Key::Char('b') => Command::BlockChanged,
        _ => Command::Ignore,
    }
}

} // verus!
