//! The processor status register as a set of single-bit flags.
use vstd::prelude::*;

use crate::cpu::registers::INITIAL_STATE;

verus! {

/// The processor status byte. A flag argument is a mask over the constants in
/// [`crate::cpu::registers`]; a mask with several bits set speaks of all of
/// them at once.
#[derive(Clone, Copy, PartialEq, Eq, Structural, Debug)]
#[verifier::ext_equal]
pub struct Status {
    pub bits: u8,
}

impl Status {
    /// The power-on status byte.
    pub fn new() -> (s: Status)
        ensures
            s.bits == INITIAL_STATE,
    {
        Status { bits: INITIAL_STATE }
    }

    /// A status byte with exactly the given bits.
    pub fn from_bits(bits: u8) -> (s: Status)
        ensures
            s.bits == bits,
    {
        Status { bits }
    }

    /// True when every bit of `flag` is set.
    pub fn is_set(&self, flag: u8) -> (r: bool)
        ensures
            r == (self.bits & flag == flag),
    {
        self.bits & flag == flag
    }

    /// True when some bit of `flag` is clear.
    pub fn is_unset(&self, flag: u8) -> (r: bool)
        ensures
            r == (self.bits & flag != flag),
    {
        !self.is_set(flag)
    }

    /// Sets every bit of `flag`.
    pub fn insert(&mut self, flag: u8)
        ensures
            final(self).bits == old(self).bits | flag,
    {
        self.bits = self.bits | flag;
    }

    /// Clears every bit of `flag`.
    pub fn remove(&mut self, flag: u8)
        ensures
            final(self).bits == old(self).bits & !flag,
    {
        self.bits = self.bits & !flag;
    }

    /// Sets or clears every bit of `flag` according to `value`.
    pub fn set(&mut self, flag: u8, value: bool)
        ensures
            final(self).bits == if value {
                old(self).bits | flag
            } else {
                old(self).bits & !flag
            },
    {
        if value {
            self.insert(flag);
        } else {
            self.remove(flag);
        }
    }
}

} // verus!
