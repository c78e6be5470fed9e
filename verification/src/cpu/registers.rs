//! The register file and the bit layout of the processor status byte.
use vstd::prelude::*;

use crate::cpu::register::Status;

verus! {

pub const NEGATIVE: u8 = 0b1000_0000;
pub const OVERFLOW: u8 = 0b0100_0000;
pub const UNUSED: u8 = 0b0010_0000;
pub const BREAK: u8 = 0b0001_0000;
pub const DECIMAL: u8 = 0b0000_1000;
pub const INTERRUPT_DISABLE: u8 = 0b0000_0100;
pub const ZERO: u8 = 0b0000_0010;
pub const CARRY: u8 = 0b0000_0001;

/// The status byte at power-on: interrupts disabled, and the always-set
/// unused bit.
pub const INITIAL_STATE: u8 = INTERRUPT_DISABLE | UNUSED;

/// The programmer-visible state of the 6502.
#[derive(Clone, Copy, PartialEq, Eq, Structural, Debug)]
#[verifier::ext_equal]
pub struct Registers {
    pub a: u8,
    pub x: u8,
    pub y: u8,
    pub program_counter: u16,
    pub stack_pointer: u8,
    pub status_flags: Status,
}

} // verus!
