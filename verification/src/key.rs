//! The input alphabet: key presses as the terminal reports them, and the
//! inputs that the state machines understand.

use vstd::prelude::*;

verus! {

/// The key of a key press.
#[derive(Clone, Copy, Debug, PartialEq, Eq, Structural)]
pub enum KeyCode {
    Up,
    Down,
    Enter,
    Backspace,
    Char(char),
    /// Any key that the engine has no use for.
    Other,
}

/// The modifier keys held down during a key press.
#[derive(Clone, Copy, Debug, PartialEq, Eq, Structural)]
pub struct Modifiers {
    pub shift: bool,
    pub control: bool,
    pub alt: bool,
    pub super_key: bool,
    pub hyper: bool,
    pub meta: bool,
}

/// One key press.
#[derive(Clone, Copy, Debug, PartialEq, Eq, Structural)]
pub struct KeyPress {
    pub code: KeyCode,
    pub modifiers: Modifiers,
}

/// What a key press means to the state machines.
#[derive(Clone, Copy, Debug, PartialEq, Eq, Structural)]
pub enum Input {
    Up,
    Down,
    Confirm,
    Backspace,
    Character(char),
    Interrupt,
    Ignored,
}

impl Modifiers {
    /// No modifier.
    pub open spec fn no_modifiers() -> Modifiers {
        Modifiers {
            shift: false,
            control: false,
            alt: false,
            super_key: false,
            hyper: false,
            meta: false,
        }
    }

    /// Control and nothing else.
    pub open spec fn control_only() -> Modifiers {
        Modifiers { control: true, ..Modifiers::no_modifiers() }
    }

    /// No modifier is held.
    pub fn none() -> (modifiers: Modifiers)
        ensures
            modifiers == Modifiers::no_modifiers(),
    {
        Modifiers {
            shift: false,
            control: false,
            alt: false,
            super_key: false,
            hyper: false,
            meta: false,
        }
    }

    /// Control is held and nothing else.
    pub fn control() -> (modifiers: Modifiers)
        ensures
            modifiers == Modifiers::control_only(),
    {
        Modifiers {
            shift: false,
            control: true,
            alt: false,
            super_key: false,
            hyper: false,
            meta: false,
        }
    }
}

/// The meaning of a key press. The interrupt chord is the letter `c` with
/// Control and no other modifier; every other character key stands for its
/// character, whatever modifiers are held.
pub open spec fn input_of(press: KeyPress) -> Input {
    match press.code {
        KeyCode::Char(c) => if c == 'c' && press.modifiers == Modifiers::control_only() {
            Input::Interrupt
        } else {
            Input::Character(c)
        },
        KeyCode::Up => Input::Up,
        KeyCode::Down => Input::Down,
        KeyCode::Enter => Input::Confirm,
        KeyCode::Backspace => Input::Backspace,
        KeyCode::Other => Input::Ignored,
    }
}

/// Classifies a key press.
pub fn classify(press: KeyPress) -> (input: Input)
    ensures
        input == input_of(press),
{
    match press.code {
        KeyCode::Char(c) => {
            let m = press.modifiers;
            if c == 'c' && m.control && !m.shift && !m.alt && !m.super_key && !m.hyper && !m.meta {
                Input::Interrupt
            } else {
                Input::Character(c)
            }
        },
        KeyCode::Up => Input::Up,
        KeyCode::Down => Input::Down,
        KeyCode::Enter => Input::Confirm,
        KeyCode::Backspace => Input::Backspace,
        KeyCode::Other => Input::Ignored,
    }
}

} // verus!
