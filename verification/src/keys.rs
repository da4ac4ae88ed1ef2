//! From the keys of the keyboard to the commands of the browser.

use crate::gate::Command;
use vstd::prelude::*;

verus! {

/// A key as the terminal reports it.
#[derive(Debug, Clone, Copy, PartialEq, Eq)]
pub enum Key {
    /// A key that types this character.
    Char(char),
    /// The arrow up.
    Up,
    /// The arrow down.
    Down,
    /// The arrow to the left.
    Left,
    /// The arrow to the right.
    Right,
    /// The enter key.
    Enter,
    /// Any other key.
    Other,
}

/// The command that the key that types `c` gives.
pub open spec fn command_of_char(c: char) -> Option<Command> {
    if c == 'q' {
        Some(Command::Quit)
    } else if c == 'k' {
        Some(Command::MoveUp)
    } else if c == 'j' {
        Some(Command::MoveDown)
    } else if c == 'h' {
        Some(Command::ExitToParent)
    } else if c == 'l' {
        Some(Command::EnterOrActivate)
    } else if c == 'x' {
        Some(Command::RequestErase)
    } else if c == 'y' || c == 'Y' {
        Some(Command::Confirm)
    } else if c == 'n' || c == 'N' {
        Some(Command::Deny)
    } else {
        None
    }
}

/// The command that `key` gives: the arrows move and step like `k`, `j`, `h`
/// and `l`, and `Enter` steps in like the right arrow.
pub open spec fn command_of(key: Key) -> Option<Command> {
    match key {
        Key::Char(c) => command_of_char(c),
        Key::Up => Some(Command::MoveUp),
        Key::Down => Some(Command::MoveDown),
        Key::Left => Some(Command::ExitToParent),
        Key::Right => Some(Command::EnterOrActivate),
        Key::Enter => Some(Command::EnterOrActivate),
        Key::Other => None,
    }
}

/// The command that `key` gives, where it gives one.
pub fn command_for_key(key: Key) -> (command: Option<Command>)
    ensures
        command == command_of(key),
{
    match key {
        Key::Char(c) => {
            if c == 'q' {
                Some(Command::Quit)
            } else if c == 'k' {
                Some(Command::MoveUp)
            } else if c == 'j' {
                Some(Command::MoveDown)
            } else if c == 'h' {
                Some(Command::ExitToParent)
            } else if c == 'l' {
                Some(Command::EnterOrActivate)
            } else if c == 'x' {
                Some(Command::RequestErase)
            } else if c == 'y' || c == 'Y' {
                Some(Command::Confirm)
            } else if c == 'n' || c == 'N' {
                Some(Command::Deny)
            } else {
                None
            }
        },
        Key::Up => Some(Command::MoveUp),
        Key::Down => Some(Command::MoveDown),
        Key::Left => Some(Command::ExitToParent),
        Key::Right | Key::Enter => Some(Command::EnterOrActivate),
        Key::Other => None,
    }
}

} // verus!
