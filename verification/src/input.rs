//! What reaches the game from outside: keys, the commands bound to them, and
//! the time that has passed since the piece last fell.

use vstd::prelude::*;

verus! {

/// The time between two falls of the piece, in milliseconds.
pub const FALL_RATE_MS: u128 = 600;

/// The number of ticks in a second.
pub const FRAME_RATE: u8 = 60;

/// A key, as far as the game tells keys apart.
#[derive(Clone, Copy, Debug, PartialEq, Eq)]
pub enum Key {
    Char(char),
    Left,
    Right,
    Up,
    Down,
    Other,
}

/// What the player can ask for.
#[derive(Clone, Copy, Debug, PartialEq, Eq, Structural)]
pub enum Command {
    Quit,
    Left,
    Right,
    SoftDrop,
    RotateCcw,
}

impl Command {
    /// The command bound to a key: `q` quits, `a` or the left arrow moves
    /// left, `d` or the right arrow moves right, `s` or the down arrow drops,
    /// `w` or the up arrow turns. No other key is bound.
    pub open spec fn bound_to(key: Key) -> Option<Command> {
        match key {
            Key::Char(c) => if c == 'q' {
                Some(Command::Quit)
            } else if c == 'a' {
                Some(Command::Left)
            } else if c == 's' {
                Some(Command::SoftDrop)
            } else if c == 'd' {
                Some(Command::Right)
            } else if c == 'w' {
                Some(Command::RotateCcw)
            } else {
                None
            },
            Key::Left => Some(Command::Left),
            Key::Down => Some(Command::SoftDrop),
            Key::Right => Some(Command::Right),
            Key::Up => Some(Command::RotateCcw),
            Key::Other => None,
        }
    }

    /// The command bound to a key, if there is one.
    pub fn from_key(key: Key) -> (command: Option<Command>)
        ensures
            command == Command::bound_to(key),
    {
        match key {
            Key::Char(c) => {
                if c == 'q' {
                    Some(Command::Quit)
                } else if c == 'a' {
                    Some(Command::Left)
                } else if c == 's' {
                    Some(Command::SoftDrop)
                } else if c == 'd' {
                    Some(Command::Right)
                } else if c == 'w' {
                    Some(Command::RotateCcw)
                } else {
                    None
                }
            },
            Key::Left => Some(Command::Left),
            Key::Down => Some(Command::SoftDrop),
            Key::Right => Some(Command::Right),
            Key::Up => Some(Command::RotateCcw),
            Key::Other => None,
        }
    }
}

/// Whether the piece is due to fall, `elapsed_ms` milliseconds after it last
/// did.
pub fn gravity_due(elapsed_ms: u128) -> (due: bool)
    ensures
        due == (elapsed_ms >= FALL_RATE_MS),
{
    elapsed_ms >= FALL_RATE_MS
}

/// The pause between two ticks, in milliseconds.
pub fn frame_pause_ms() -> (ms: u64)
    ensures
        ms == 1000int / (FRAME_RATE as int),
{
    1000 / (FRAME_RATE as u64)
}

} // verus!
