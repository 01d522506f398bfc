//! Key presses and the commands they stand for.

use crate::env::MAX_SPEED;
use vstd::prelude::*;

verus! {

/// The modifier keys held down together with a key.
#[derive(Debug, Clone, Copy, PartialEq, Eq, Structural)]
pub struct Modifiers {
    pub shift: bool,
    pub control: bool,
    pub alt: bool,
}

/// The key that was pressed: one that yields a character, or any other.
#[derive(Debug, Clone, Copy, PartialEq, Eq, Structural)]
pub enum Key {
    Char(char),
    Other,
}

/// One key press.
#[derive(Debug, Clone, Copy, PartialEq, Eq, Structural)]
pub struct KeyPress {
    pub key: Key,
    pub modifiers: Modifiers,
}

/// What a key press asks of the simulation.
#[derive(Debug, Clone, Copy, PartialEq, Eq, Structural)]
pub enum Command {
    /// Run at the given speed from now on.
    Speed(u16),
    /// Hand the terminal back and stop.
    Quit,
    /// Nothing.
    Ignore,
}

/// Whether `c` is one of the ten decimal digits.
pub open spec fn is_digit(c: char) -> bool {
    '0' as u32 <= c as u32 <= '9' as u32
}

/// The speed that a digit selects: its value, but the fastest for `'0'`.
pub open spec fn speed_of_digit(c: char) -> u16
    recommends
        is_digit(c),
{
    if c == '0' {
        MAX_SPEED
    } else {
        (c as u32 - '0' as u32) as u16
    }
}

impl Modifiers {
    /// Whether no modifier key is held down.
    pub open spec fn is_empty(self) -> bool {
        !self.shift && !self.control && !self.alt
    }
}

impl KeyPress {
    /// What the key press means. A digit sets the speed, whatever is held down
    /// with it; `x` alone and `c` with the control key quit; every other key is
    /// ignored.
    pub open spec fn spec_command(self) -> Command {
        match self.key {
            Key::Char(c) => {
                if is_digit(c) {
                    Command::Speed(speed_of_digit(c))
                } else if c == 'x' && self.modifiers.is_empty() {
                    Command::Quit
                } else if c == 'c' && self.modifiers.control {
                    Command::Quit
                } else {
                    Command::Ignore
                }
            },
            Key::Other => Command::Ignore,
        }
    }

    /// What the key press means.
    pub fn command(&self) -> (command: Command)
        ensures
            command == self.spec_command(),
    {
        match self.key {
            Key::Char(c) => {
                let code: u32 = c as u32;
                let zero: u32 = '0' as u32;
                let plain: bool = !self.modifiers.shift && !self.modifiers.control
                    && !self.modifiers.alt;
                if zero <= code && code <= '9' as u32 {
                    if code == zero {
                        Command::Speed(MAX_SPEED)
                    } else {
                        Command::Speed((code - zero) as u16)
                    }
                } else if c == 'x' && plain {
                    Command::Quit
                } else if c == 'c' && self.modifiers.control {
                    Command::Quit
                } else {
                    Command::Ignore
                }
            },
            Key::Other => Command::Ignore,
        }
    }
}

/// What the input of one frame means: the command of the key that was pressed,
/// and nothing where none was.
pub open spec fn command_of(input: Option<KeyPress>) -> Command {
    match input {
        Some(press) => press.spec_command(),
        None => Command::Ignore,
    }
}

} // verus!
