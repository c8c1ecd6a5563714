//! Cycling decoration states: present colors and ornament on/off states.

use crate::text::str_eq;
use vstd::prelude::*;

verus! {

/// A present's color, cycling red, blue, purple.
#[derive(Copy, Clone, Debug, PartialEq, Eq, Structural)]
pub enum Color {
    Red,
    Blue,
    Purple,
}

/// The color that follows `c` in the fixed cycle.
pub open spec fn next_color(c: Color) -> Color {
    match c {
        Color::Red => Color::Blue,
        Color::Blue => Color::Purple,
        Color::Purple => Color::Red,
    }
}

/// The color a lower-case name denotes, if any.
pub open spec fn color_of_name(s: Seq<char>) -> Option<Color> {
    if s == "red"@ {
        Some(Color::Red)
    } else if s == "blue"@ {
        Some(Color::Blue)
    } else if s == "purple"@ {
        Some(Color::Purple)
    } else {
        None
    }
}

/// The lower-case name of a color.
pub open spec fn color_name(c: Color) -> Seq<char> {
    match c {
        Color::Red => "red"@,
        Color::Blue => "blue"@,
        Color::Purple => "purple"@,
    }
}

impl Color {
    /// The next color in the fixed cycle.
    pub fn next(self) -> (c: Color)
        ensures
            c == next_color(self),
    {
        match self {
            Color::Red => Color::Blue,
            Color::Blue => Color::Purple,
            Color::Purple => Color::Red,
        }
    }

    /// Parses a lower-case color name; any other string is rejected.
    pub fn from_name(s: &str) -> (r: Option<Color>)
        ensures
            r == color_of_name(s@),
    {
        if str_eq(s, "red") {
            Some(Color::Red)
        } else if str_eq(s, "blue") {
            Some(Color::Blue)
        } else if str_eq(s, "purple") {
            Some(Color::Purple)
        } else {
            None
        }
    }

    /// The lower-case name of this color.
    pub fn name(self) -> (r: &'static str)
        ensures
            r@ == color_name(self),
    {
        match self {
            Color::Red => "red",
            Color::Blue => "blue",
            Color::Purple => "purple",
        }
    }
}

/// An ornament's state, toggling on and off.
#[derive(Copy, Clone, Debug, PartialEq, Eq, Structural)]
pub enum State {
    On,
    Off,
}

/// The state that follows `s`: the toggle of `s`.
pub open spec fn next_state(s: State) -> State {
    match s {
        State::On => State::Off,
        State::Off => State::On,
    }
}

/// The state a lower-case name denotes, if any.
pub open spec fn state_of_name(s: Seq<char>) -> Option<State> {
    if s == "on"@ {
        Some(State::On)
    } else if s == "off"@ {
        Some(State::Off)
    } else {
        None
    }
}

/// The lower-case name of a state.
pub open spec fn state_name(s: State) -> Seq<char> {
    match s {
        State::On => "on"@,
        State::Off => "off"@,
    }
}

impl State {
    /// The toggled state.
    pub fn next(self) -> (s: State)
        ensures
            s == next_state(self),
    {
        match self {
            State::On => State::Off,
            State::Off => State::On,
        }
    }

    /// Parses a lower-case state name; any other string is rejected.
    pub fn from_name(s: &str) -> (r: Option<State>)
        ensures
            r == state_of_name(s@),
    {
        if str_eq(s, "on") {
            Some(State::On)
        } else if str_eq(s, "off") {
            Some(State::Off)
        } else {
            None
        }
    }

    /// The lower-case name of this state.
    pub fn name(self) -> (r: &'static str)
        ensures
            r@ == state_name(self),
    {
        match self {
            State::On => "on",
            State::Off => "off",
        }
    }
}

/// An ornament request: the current state's name and the ornament id.
#[derive(Debug, PartialEq, Eq)]
pub struct OrnamentParams {
    pub state: String,
    pub n: String,
}

} // verus!
