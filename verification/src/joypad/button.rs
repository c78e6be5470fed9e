//! The eight controller buttons and the reporter that hands them out one
//! read at a time, in the hardware order A, B, SELECT, START, UP, DOWN,
//! LEFT, RIGHT.
use vstd::prelude::*;

verus! {

/// One controller button.
#[allow(non_camel_case_types)]
#[derive(Clone, Copy, PartialEq, Eq, Structural, Debug)]
pub enum Button {
    A,
    B,
    SELECT,
    START,
    UP,
    DOWN,
    LEFT,
    RIGHT,
}

/// The bit each button occupies in the pressed mask.
pub open spec fn spec_button_mask(b: Button) -> u8 {
    match b {
        Button::A => 0b0000_0001,
        Button::B => 0b0000_0010,
        Button::SELECT => 0b0000_0100,
        Button::START => 0b0000_1000,
        Button::UP => 0b0001_0000,
        Button::DOWN => 0b0010_0000,
        Button::LEFT => 0b0100_0000,
        Button::RIGHT => 0b1000_0000,
    }
}

/// The button reported after `b`, in hardware order; `None` after RIGHT.
pub open spec fn spec_next_button(b: Button) -> Option<Button> {
    match b {
        Button::A => Some(Button::B),
        Button::B => Some(Button::SELECT),
        Button::SELECT => Some(Button::START),
        Button::START => Some(Button::UP),
        Button::UP => Some(Button::DOWN),
        Button::DOWN => Some(Button::LEFT),
        Button::LEFT => Some(Button::RIGHT),
        Button::RIGHT => None,
    }
}

impl Button {
    /// The bit this button occupies in the pressed mask.
    pub fn mask(self) -> (m: u8)
        ensures
            m == spec_button_mask(self),
    {
        match self {
            Button::A => 0b0000_0001,
            Button::B => 0b0000_0010,
            Button::SELECT => 0b0000_0100,
            Button::START => 0b0000_1000,
            Button::UP => 0b0001_0000,
            Button::DOWN => 0b0010_0000,
            Button::LEFT => 0b0100_0000,
            Button::RIGHT => 0b1000_0000,
        }
    }
}

/// The button reporter: which button the next read reports, and which
/// buttons are currently held. After the last button has been reported the
/// pointer is exhausted and every further read reports 1.
#[derive(Clone, Copy, PartialEq, Eq, Structural, Debug)]
pub struct State {
    pub button_to_read: Option<Button>,
    pub buttons_pressed: u8,
}

/// A fresh reporter: pointing at A, nothing pressed.
pub open spec fn spec_state_new() -> State {
    State { button_to_read: Some(Button::A), buttons_pressed: 0 }
}

/// The byte a read reports: 1 or 0 for the pointed button while one is
/// pointed at, and always 1 once the pointer is exhausted.
pub open spec fn spec_state_report(s: State) -> u8 {
    match s.button_to_read {
        Some(current) => {
            if s.buttons_pressed & spec_button_mask(current) == spec_button_mask(current) {
                1
            } else {
                0
            }
        },
        None => 1,
    }
}

/// The reporter after advancing one button.
pub open spec fn spec_state_roll(s: State) -> State {
    match s.button_to_read {
        Some(b) => State { button_to_read: spec_next_button(b), buttons_pressed: s.buttons_pressed },
        None => s,
    }
}

/// The reporter with the pointer back on button A.
pub open spec fn spec_state_reset(s: State) -> State {
    State { button_to_read: Some(Button::A), buttons_pressed: s.buttons_pressed }
}

/// The reporter with `key` held down.
pub open spec fn spec_state_press(s: State, key: Button) -> State {
    State {
        button_to_read: s.button_to_read,
        buttons_pressed: s.buttons_pressed | spec_button_mask(key),
    }
}

/// The reporter with `key` released.
pub open spec fn spec_state_release(s: State, key: Button) -> State {
    State {
        button_to_read: s.button_to_read,
        buttons_pressed: s.buttons_pressed & !spec_button_mask(key),
    }
}

impl State {
    /// A fresh reporter: pointing at A, nothing pressed.
    pub fn new() -> (s: State)
        ensures
            s == spec_state_new(),
    {
        State { button_to_read: Some(Button::A), buttons_pressed: 0 }
    }

    /// Advances the pointer one button; past RIGHT it becomes exhausted.
    pub fn roll(&mut self)
        ensures
            *final(self) == spec_state_roll(*old(self)),
    {
        match self.button_to_read {
            Some(b) => {
                self.button_to_read = match b {
                    Button::A => Some(Button::B),
                    Button::B => Some(Button::SELECT),
                    Button::SELECT => Some(Button::START),
                    Button::START => Some(Button::UP),
                    Button::UP => Some(Button::DOWN),
                    Button::DOWN => Some(Button::LEFT),
                    Button::LEFT => Some(Button::RIGHT),
                    Button::RIGHT => None,
                };
            },
            None => {},
        }
    }

    /// Puts the pointer back on button A.
    pub fn reset_pointer(&mut self)
        ensures
            *final(self) == spec_state_reset(*old(self)),
    {
        self.button_to_read = Some(Button::A)
    }

    /// Writes the report for the pointed button into `byte`.
    pub fn read(&self, byte: &mut u8)
        ensures
            *final(byte) == spec_state_report(*self),
    {
        match self.button_to_read {
            Some(current) => {
                let m = current.mask();
                *byte = if self.buttons_pressed & m == m {
                    1
                } else {
                    0
                };
            },
            None => {
                *byte = 1;
            },
        }
    }

    /// Marks `key` as held down.
    pub fn press(&mut self, key: Button)
        ensures
            *final(self) == spec_state_press(*old(self), key),
    {
        self.buttons_pressed = self.buttons_pressed | key.mask();
    }

    /// Marks `key` as released.
    pub fn release(&mut self, key: Button)
        ensures
            *final(self) == spec_state_release(*old(self), key),
    {
        self.buttons_pressed = self.buttons_pressed & !key.mask();
    }
}

} // verus!
