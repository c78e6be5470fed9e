//! The controller: strobe handling around the button reporter.
//!
//! The read cycle a program drives through the mapped register:
//! write `0x01` (strobe on, the pointer returns to A), write `0x00`
//! (strobe off), then read eight times, one button per read.
use vstd::prelude::*;

pub mod button;

use button::{Button, State};

verus! {

/// One controller port: a strobe bit and the button reporter behind it.
#[derive(Clone, Copy, PartialEq, Eq, Structural, Debug)]
pub struct Joypad {
    pub strobe_mode_on: bool,
    pub button_reporter: State,
}

/// The byte a read of the port reports in state `p`.
pub open spec fn spec_joypad_report(p: Joypad) -> u8 {
    button::spec_state_report(p.button_reporter)
}

/// The port state after one read: with the strobe off the reporter advances
/// to the next button, with it on the reporter stays on button A.
pub open spec fn spec_joypad_after_read(p: Joypad) -> Joypad {
    if !p.strobe_mode_on {
        Joypad { strobe_mode_on: p.strobe_mode_on, button_reporter: button::spec_state_roll(p.button_reporter) }
    } else {
        p
    }
}

/// The port state after the byte `byte` is written to it: bit 0 is the
/// strobe; turning the strobe on resets the reporter to button A.
pub open spec fn spec_joypad_after_write(p: Joypad, byte: u8) -> Joypad {
    if byte & 1 == 1 {
        Joypad {
            strobe_mode_on: true,
            button_reporter: button::spec_state_reset(p.button_reporter),
        }
    } else {
        Joypad { strobe_mode_on: false, button_reporter: p.button_reporter }
    }
}

impl Joypad {
    /// A port with the strobe off and the reporter on button A.
    pub fn new() -> (j: Joypad)
        ensures
            j.strobe_mode_on == false,
            j.button_reporter == button::spec_state_new(),
    {
        Joypad { strobe_mode_on: false, button_reporter: State::new() }
    }

    /// Reacts to the byte the program stored in the port register.
    pub fn write(&mut self, byte: &u8)
        ensures
            *final(self) == spec_joypad_after_write(*old(self), *byte),
    {
        let first_bit_mask: u8 = 0b0000_0001;
        self.strobe_mode_on = (*byte & first_bit_mask) == 1;
        if self.strobe_mode_on {
            self.button_reporter.reset_pointer();
        }
    }

    /// Places the report for the current button into `byte` and, when the
    /// strobe is off, advances to the next button.
    pub fn read(&mut self, byte: &mut u8)
        ensures
            *final(byte) == spec_joypad_report(*old(self)),
            *final(self) == spec_joypad_after_read(*old(self)),
    {
        self.button_reporter.read(byte);
        if !self.strobe_mode_on {
            self.button_reporter.roll();
        }
    }

    /// Marks `key` as held down.
    pub fn press(&mut self, key: Button)
        ensures
            *final(self) == (Joypad {
                strobe_mode_on: old(self).strobe_mode_on,
                button_reporter: button::spec_state_press(old(self).button_reporter, key),
            }),
    {
        self.button_reporter.press(key)
    }

    /// Marks `key` as released.
    pub fn release(&mut self, key: Button)
        ensures
            *final(self) == (Joypad {
                strobe_mode_on: old(self).strobe_mode_on,
                button_reporter: button::spec_state_release(old(self).button_reporter, key),
            }),
    {
        self.button_reporter.release(key)
    }
}

} // verus!
