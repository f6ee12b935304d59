//! Which key does what.

use vstd::prelude::*;

verus! {

/// A key of the keyboard, as far as a session tells keys apart.
#[derive(Clone, Copy, Debug, PartialEq, Eq)]
pub enum Key {
    Char(char),
    Down,
    Up,
    Enter,
    Other,
}

/// What a key event asks of the session.
#[derive(Clone, Copy, Debug, PartialEq, Eq)]
pub enum Command {
    /// Leave the session.
    Quit,
    /// Select the next action.
    Next,
    /// Select the action before.
    Previous,
    /// Run the selected action.
    Run,
    /// Write the last report.
    Save,
    /// Nothing.
    Ignore,
}

/// The command of a key event. Only a press counts, not a release or a
/// repeat: `q` quits, the arrows move the selection, Enter runs and `s`
/// saves. Every other key is ignored.
pub open spec fn command_of(pressed: bool, key: Key) -> Command {
    if !pressed {
        Command::Ignore
    } else if key == Key::Char('q') {
        Command::Quit
    } else if key == Key::Down {
        Command::Next
    } else if key == Key::Up {
        Command::Previous
    } else if key == Key::Enter {
        Command::Run
    } else if key == Key::Char('s') {
        Command::Save
    } else {
        Command::Ignore
    }
}

/// The command of a key event.
pub fn command_for_key(pressed: bool, key: Key) -> (out: Command)
    ensures
        out == command_of(pressed, key),
{
    if !pressed {
        return Command::Ignore;
    }
    match key {
        Key::Char(c) => {
            if c == 'q' {
                Command::Quit
            } else if c == 's' {
                Command::Save
            } else {
                Command::Ignore
            }
        },
        Key::Down => Command::Next,
        Key::Up => Command::Previous,
        Key::Enter => Command::Run,
        Key::Other => Command::Ignore,
    }
}

} // verus!
