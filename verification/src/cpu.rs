//! The 6502 interpreter: registers, instruction execution, and the
//! fetch/decode/execute loop over the memory bus.
//!
//! Every executing method is specified against a pure model: a spec
//! function maps the register file (and, for memory instructions, the bus
//! model) before the instruction to the state after it.
//!
//! This machine diverges from the real 6502 in two deliberate ways: the
//! register transfers `TAX, TAY, TXA, TYA` and the index steps
//! `INX, INY, DEX, DEY` do not update the negative and zero flags, and
//! `BIT` compares the masked operand with 1, so it never sets N or V.
use vstd::prelude::*;

pub mod instruction;
pub mod register;
pub mod registers;

use crate::bus::{Bus, BusModel};
use crate::bus;
use instruction::{AddressingMode, Instruction, InstructionKind};
use register::Status;
use registers::{Registers, CARRY, DECIMAL, INTERRUPT_DISABLE, NEGATIVE, OVERFLOW, ZERO, BREAK};

verus! {

pub const PROGRAM_POINTER: u16 = 0xFFFC;
pub const STACK_ADDR_HI: u16 = 0x0100;
pub const STACK_TOP: u8 = 0xFF;

/// The reserved effective address that marks "no operand": the Implicit and
/// Accumulator modes resolve to it and the interpreter fetches nothing
/// there.
pub const IMPLICIT_MODE_ADDR: u16 = 0xFFFF;

/// How many instructions one `run` call executes at most before handing
/// control back to the host. A further `run` call begins anew from the
/// reset vector; it does not resume where the budget ran out.
pub const RUN_STEP_LIMIT: u64 = 0x0010_0000;

/// The status byte after an 8-bit result `v`: the zero flag holds exactly
/// when `v` is zero, the negative flag exactly when bit 7 of `v` is set.
pub open spec fn spec_nz_bits(p: u8, v: u8) -> u8 {
    let p1 = if v & 0x80 != 0 {
        p | NEGATIVE
    } else {
        p & !NEGATIVE
    };
    if v == 0 {
        p1 | ZERO
    } else {
        p1 & !ZERO
    }
}

/// The carry flag as the 0-or-1 summand it contributes to ADC.
pub open spec fn spec_carry_in(p: u8) -> u16 {
    if p & CARRY == CARRY {
        1
    } else {
        0
    }
}

/// ADC: sum of accumulator, operand and carry; carry out above 0xFF, signed
/// overflow from the sign bits, N and Z from the 8-bit result.
pub open spec fn spec_adc(r: Registers, operand: u8) -> Registers {
    let sum = (r.a as u16 + operand as u16 + spec_carry_in(r.status_flags.bits)) as u16;
    let p1 = if sum > 0xFF {
        r.status_flags.bits | CARRY
    } else {
        r.status_flags.bits & !CARRY
    };
    let res = (sum % 0x100) as u8;
    let p2 = if (r.a ^ res) & (operand ^ res) & 0x80 != 0 {
        p1 | OVERFLOW
    } else {
        p1 & !OVERFLOW
    };
    Registers { a: res, status_flags: Status { bits: spec_nz_bits(p2, res) }, ..r }
}

/// SBC as the one's-complement trick: ADC of `255 - operand`.
pub open spec fn spec_sbc(r: Registers, operand: u8) -> Registers {
    spec_adc(r, (255 - operand) as u8)
}

/// AND into the accumulator; N and Z from the result.
pub open spec fn spec_and(r: Registers, operand: u8) -> Registers {
    let res = (r.a & operand) as u8;
    Registers { a: res, status_flags: Status { bits: spec_nz_bits(r.status_flags.bits, res) }, ..r }
}

/// ORA into the accumulator; N and Z from the result.
pub open spec fn spec_ora(r: Registers, operand: u8) -> Registers {
    let res = (r.a | operand) as u8;
    Registers { a: res, status_flags: Status { bits: spec_nz_bits(r.status_flags.bits, res) }, ..r }
}

/// EOR into the accumulator; N and Z from the result.
pub open spec fn spec_eor(r: Registers, operand: u8) -> Registers {
    let res = (r.a ^ operand) as u8;
    Registers { a: res, status_flags: Status { bits: spec_nz_bits(r.status_flags.bits, res) }, ..r }
}

/// The shifted byte and the flag update shared by ASL on the accumulator
/// and on memory: the ejected bit 7 becomes carry, N and Z from the result.
pub open spec fn spec_asl_result(p: u8, v: u8) -> (u8, u8) {
    let p1 = if v >> 7 == 1 {
        p | CARRY
    } else {
        p & !CARRY
    };
    let res = (v << 1) as u8;
    (spec_nz_bits(p1, res), res)
}

/// LSR: the ejected bit 0 becomes carry, N and Z from the result.
pub open spec fn spec_lsr_result(p: u8, v: u8) -> (u8, u8) {
    let p1 = if v & 1 == 1 {
        p | CARRY
    } else {
        p & !CARRY
    };
    let res = (v >> 1) as u8;
    (spec_nz_bits(p1, res), res)
}

/// ROL: the old carry enters at bit 0, the ejected bit 7 becomes carry.
pub open spec fn spec_rol_result(p: u8, v: u8) -> (u8, u8) {
    let carry = spec_carry_in(p) as u8;
    let p1 = if v >> 7 == 1 {
        p | CARRY
    } else {
        p & !CARRY
    };
    let res = ((v << 1) | carry) as u8;
    (spec_nz_bits(p1, res), res)
}

/// ROR: the old carry enters at bit 7, the ejected bit 0 becomes carry.
pub open spec fn spec_ror_result(p: u8, v: u8) -> (u8, u8) {
    let carry = spec_carry_in(p) as u8;
    let p1 = if v & 1 == 1 {
        p | CARRY
    } else {
        p & !CARRY
    };
    let res = ((v >> 1) | (carry << 7)) as u8;
    (spec_nz_bits(p1, res), res)
}

/// ASL on the accumulator.
pub open spec fn spec_asl_a(r: Registers) -> Registers {
    let (p, res) = spec_asl_result(r.status_flags.bits, r.a);
    Registers { a: res, status_flags: Status { bits: p }, ..r }
}

/// LSR on the accumulator.
pub open spec fn spec_lsr_a(r: Registers) -> Registers {
    let (p, res) = spec_lsr_result(r.status_flags.bits, r.a);
    Registers { a: res, status_flags: Status { bits: p }, ..r }
}

/// ROL on the accumulator.
pub open spec fn spec_rol_a(r: Registers) -> Registers {
    let (p, res) = spec_rol_result(r.status_flags.bits, r.a);
    Registers { a: res, status_flags: Status { bits: p }, ..r }
}

/// ROR on the accumulator.
pub open spec fn spec_ror_a(r: Registers) -> Registers {
    let (p, res) = spec_ror_result(r.status_flags.bits, r.a);
    Registers { a: res, status_flags: Status { bits: p }, ..r }
}

/// BIT: Z from `A & operand`; the N and V updates compare the masked
/// operand with 1, which never holds, so both flags are always cleared.
pub open spec fn spec_bit(r: Registers, operand: u8) -> Registers {
    let p1 = if r.a & operand == 0 {
        r.status_flags.bits | ZERO
    } else {
        r.status_flags.bits & !ZERO
    };
    let p2 = if operand & 0b1000_0000 == 1 {
        p1 | NEGATIVE
    } else {
        p1 & !NEGATIVE
    };
    let p3 = if operand & 0b0100_0000 == 1 {
        p2 | OVERFLOW
    } else {
        p2 & !OVERFLOW
    };
    Registers { status_flags: Status { bits: p3 }, ..r }
}

/// CMP/CPX/CPY: flags of the wrapping difference `reg - operand`; carry
/// holds when the difference, read as a signed byte, is not negative.
pub open spec fn spec_compare(r: Registers, lhs: u8, rhs: u8) -> Registers {
    let val = lhs.wrapping_sub(rhs);
    let p1 = if val < 0x80 {
        r.status_flags.bits | CARRY
    } else {
        r.status_flags.bits & !CARRY
    };
    Registers { status_flags: Status { bits: spec_nz_bits(p1, val) }, ..r }
}

/// LDA; N and Z from the loaded value.
pub open spec fn spec_lda(r: Registers, operand: u8) -> Registers {
    Registers {
        a: operand,
        status_flags: Status { bits: spec_nz_bits(r.status_flags.bits, operand) },
        ..r
    }
}

/// LDX; N and Z from the loaded value.
pub open spec fn spec_ldx(r: Registers, operand: u8) -> Registers {
    Registers {
        x: operand,
        status_flags: Status { bits: spec_nz_bits(r.status_flags.bits, operand) },
        ..r
    }
}

/// LDY; N and Z from the loaded value.
pub open spec fn spec_ldy(r: Registers, operand: u8) -> Registers {
    Registers {
        y: operand,
        status_flags: Status { bits: spec_nz_bits(r.status_flags.bits, operand) },
        ..r
    }
}

/// A status byte with every bit of `flag` set.
pub open spec fn spec_insert_flag(r: Registers, flag: u8) -> Registers {
    Registers { status_flags: Status { bits: r.status_flags.bits | flag }, ..r }
}

/// A status byte with every bit of `flag` cleared.
pub open spec fn spec_remove_flag(r: Registers, flag: u8) -> Registers {
    Registers { status_flags: Status { bits: r.status_flags.bits & !flag }, ..r }
}

/// A branch: the program counter moves to `addr` exactly when the
/// condition holds.
pub open spec fn spec_branch_if(r: Registers, addr: u16, condition: bool) -> Registers {
    if condition {
        Registers { program_counter: addr, ..r }
    } else {
        r
    }
}

/// The condition each branch mnemonic tests on the status byte.
pub open spec fn spec_branch_condition(kind: InstructionKind, p: u8) -> bool {
    match kind {
        InstructionKind::Bcc => p & CARRY != CARRY,
        InstructionKind::Bcs => p & CARRY == CARRY,
        InstructionKind::Bne => p & ZERO != ZERO,
        InstructionKind::Beq => p & ZERO == ZERO,
        InstructionKind::Bpl => p & NEGATIVE != NEGATIVE,
        InstructionKind::Bmi => p & NEGATIVE == NEGATIVE,
        InstructionKind::Bvc => p & OVERFLOW != OVERFLOW,
        InstructionKind::Bvs => p & OVERFLOW == OVERFLOW,
        _ => false,
    }
}

/// ASL on the byte at `addr`: flags from the shift, the result written
/// back through the bus.
pub open spec fn spec_asl_mem(r: Registers, b: BusModel, operand: u8, addr: u16, rnd: u8) -> (
    Registers,
    BusModel,
) {
    let (p, res) = spec_asl_result(r.status_flags.bits, operand);
    (Registers { status_flags: Status { bits: p }, ..r }, bus::spec_write8(b, addr, res, rnd))
}

/// LSR on the byte at `addr`.
pub open spec fn spec_lsr_mem(r: Registers, b: BusModel, operand: u8, addr: u16, rnd: u8) -> (
    Registers,
    BusModel,
) {
    let (p, res) = spec_lsr_result(r.status_flags.bits, operand);
    (Registers { status_flags: Status { bits: p }, ..r }, bus::spec_write8(b, addr, res, rnd))
}

/// ROL on the byte at `addr`.
pub open spec fn spec_rol_mem(r: Registers, b: BusModel, operand: u8, addr: u16, rnd: u8) -> (
    Registers,
    BusModel,
) {
    let (p, res) = spec_rol_result(r.status_flags.bits, operand);
    (Registers { status_flags: Status { bits: p }, ..r }, bus::spec_write8(b, addr, res, rnd))
}

/// ROR on the byte at `addr`.
pub open spec fn spec_ror_mem(r: Registers, b: BusModel, operand: u8, addr: u16, rnd: u8) -> (
    Registers,
    BusModel,
) {
    let (p, res) = spec_ror_result(r.status_flags.bits, operand);
    (Registers { status_flags: Status { bits: p }, ..r }, bus::spec_write8(b, addr, res, rnd))
}

/// INC at `addr`: the wrapped successor written back, N and Z from it.
pub open spec fn spec_inc(r: Registers, b: BusModel, operand: u8, addr: u16, rnd: u8) -> (
    Registers,
    BusModel,
) {
    let val = operand.wrapping_add(1);
    (
        Registers { status_flags: Status { bits: spec_nz_bits(r.status_flags.bits, val) }, ..r },
        bus::spec_write8(b, addr, val, rnd),
    )
}

/// DEC at `addr`: the wrapped predecessor written back, N and Z from it.
pub open spec fn spec_dec(r: Registers, b: BusModel, operand: u8, addr: u16, rnd: u8) -> (
    Registers,
    BusModel,
) {
    let val = operand.wrapping_sub(1);
    (
        Registers { status_flags: Status { bits: spec_nz_bits(r.status_flags.bits, val) }, ..r },
        bus::spec_write8(b, addr, val, rnd),
    )
}

/// STA: the accumulator stored at `addr`; no flags.
pub open spec fn spec_sta(r: Registers, b: BusModel, addr: u16, rnd: u8) -> (Registers, BusModel) {
    (r, bus::spec_write8(b, addr, r.a, rnd))
}

/// STX: the X register stored at `addr`; no flags.
pub open spec fn spec_stx(r: Registers, b: BusModel, addr: u16, rnd: u8) -> (Registers, BusModel) {
    (r, bus::spec_write8(b, addr, r.x, rnd))
}

/// STY: the Y register stored at `addr`; no flags.
pub open spec fn spec_sty(r: Registers, b: BusModel, addr: u16, rnd: u8) -> (Registers, BusModel) {
    (r, bus::spec_write8(b, addr, r.y, rnd))
}

/// A byte pushed: stored at the top-of-stack address, then the stack
/// pointer steps down with 8-bit wrap.
pub open spec fn spec_push8(r: Registers, b: BusModel, byte: u8, rnd: u8) -> (Registers, BusModel) {
    let b1 = bus::spec_write8(b, (STACK_ADDR_HI + r.stack_pointer) as u16, byte, rnd);
    (Registers { stack_pointer: r.stack_pointer.wrapping_sub(1), ..r }, b1)
}

/// A word pushed: the pointer steps down, the word is stored little-endian
/// at the new top, and the pointer steps down once more.
pub open spec fn spec_push16(r: Registers, b: BusModel, word: u16, rnd1: u8, rnd2: u8) -> (
    Registers,
    BusModel,
) {
    let sp1 = r.stack_pointer.wrapping_sub(1);
    let b1 = bus::spec_write16(b, (STACK_ADDR_HI + sp1) as u16, word, rnd1, rnd2);
    (Registers { stack_pointer: sp1.wrapping_sub(1), ..r }, b1)
}

/// A byte popped: the stack pointer steps up and the byte at the new top is
/// read.
pub open spec fn spec_pull8(r: Registers, b: BusModel) -> (Registers, BusModel, u8) {
    let sp1 = r.stack_pointer.wrapping_add(1);
    let (b1, v) = bus::spec_read8(b, (STACK_ADDR_HI + sp1) as u16);
    (Registers { stack_pointer: sp1, ..r }, b1, v)
}

/// A word popped: the inverse of the word push.
pub open spec fn spec_pull16(r: Registers, b: BusModel) -> (Registers, BusModel, u16) {
    let sp1 = r.stack_pointer.wrapping_add(1);
    let (b1, v) = bus::spec_read16(b, (STACK_ADDR_HI + sp1) as u16);
    (Registers { stack_pointer: sp1.wrapping_add(1), ..r }, b1, v)
}

/// PHA pushes the accumulator.
pub open spec fn spec_pha(r: Registers, b: BusModel, rnd: u8) -> (Registers, BusModel) {
    spec_push8(r, b, r.a, rnd)
}

/// PHP pushes the status byte with the break bit set.
pub open spec fn spec_php(r: Registers, b: BusModel, rnd: u8) -> (Registers, BusModel) {
    spec_push8(r, b, (r.status_flags.bits | BREAK) as u8, rnd)
}

/// PLA pops into the accumulator without a flag update.
pub open spec fn spec_pla(r: Registers, b: BusModel) -> (Registers, BusModel) {
    let (r1, b1, v) = spec_pull8(r, b);
    (Registers { a: v, ..r1 }, b1)
}

/// PLP pops into the status byte with the break bit forced off.
pub open spec fn spec_plp(r: Registers, b: BusModel) -> (Registers, BusModel) {
    let (r1, b1, v) = spec_pull8(r, b);
    (Registers { status_flags: Status { bits: (v & !BREAK) as u8 }, ..r1 }, b1)
}

/// BRK: the program counter and then the status byte with the break bit
/// are pushed; the interpreter's loop terminates afterwards.
pub open spec fn spec_brk(r: Registers, b: BusModel, rnd1: u8, rnd2: u8, rnd3: u8) -> (
    Registers,
    BusModel,
) {
    let (r1, b1) = spec_push16(r, b, r.program_counter, rnd1, rnd2);
    spec_push8(r1, b1, (r1.status_flags.bits | BREAK) as u8, rnd3)
}

/// JSR: the current program counter is pushed and control moves to `addr`.
pub open spec fn spec_jsr(r: Registers, b: BusModel, addr: u16, rnd1: u8, rnd2: u8) -> (
    Registers,
    BusModel,
) {
    let (r1, b1) = spec_push16(r, b, r.program_counter, rnd1, rnd2);
    (Registers { program_counter: addr, ..r1 }, b1)
}

/// RTS: a word is popped, incremented, and becomes the program counter.
pub open spec fn spec_rts(r: Registers, b: BusModel) -> (Registers, BusModel) {
    let (r1, b1, v) = spec_pull16(r, b);
    (Registers { program_counter: v.wrapping_add(1), ..r1 }, b1)
}

/// RTI: the status byte (break bit forced off) and then the program
/// counter are popped.
pub open spec fn spec_rti(r: Registers, b: BusModel) -> (Registers, BusModel) {
    let (r1, b1, v) = spec_pull8(r, b);
    let r2 = Registers { status_flags: Status { bits: (v & !BREAK) as u8 }, ..r1 };
    let (r3, b2, addr) = spec_pull16(r2, b1);
    (Registers { program_counter: addr, ..r3 }, b2)
}

/// The operand byte of a Relative mode read as a signed displacement,
/// sign-extended to 16 bits.
pub open spec fn spec_sign_extend(offset: u8) -> u16 {
    if offset >= 0x80 {
        (offset as u16 + 0xFF00) as u16
    } else {
        offset as u16
    }
}

/// The effective address an addressing mode resolves to, together with the
/// bus state after the operand-byte reads it performs. The Implicit and
/// Accumulator modes resolve to the reserved no-operand address.
pub open spec fn spec_operand_address(r: Registers, b: BusModel, mode: AddressingMode) -> (
    BusModel,
    u16,
) {
    match mode {
        AddressingMode::Absolute => bus::spec_read16(b, r.program_counter),
        AddressingMode::AbsoluteX => {
            let (b1, base) = bus::spec_read16(b, r.program_counter);
            (b1, base.wrapping_add(r.x as u16))
        },
        AddressingMode::AbsoluteY => {
            let (b1, base) = bus::spec_read16(b, r.program_counter);
            (b1, base.wrapping_add(r.y as u16))
        },
        AddressingMode::Indirect => {
            let (b1, ptr) = bus::spec_read16(b, r.program_counter);
            bus::spec_read16(b1, ptr)
        },
        AddressingMode::IndirectX => {
            let (b1, zp) = bus::spec_read8(b, r.program_counter);
            bus::spec_read16(b1, zp.wrapping_add(r.x) as u16)
        },
        AddressingMode::IndirectY => {
            let (b1, zp) = bus::spec_read8(b, r.program_counter);
            let (b2, base) = bus::spec_read16(b1, zp as u16);
            (b2, base.wrapping_add(r.y as u16))
        },
        AddressingMode::ZeroPage => {
            let (b1, zp) = bus::spec_read8(b, r.program_counter);
            (b1, zp as u16)
        },
        AddressingMode::ZeroPageX => {
            let (b1, zp) = bus::spec_read8(b, r.program_counter);
            (b1, zp.wrapping_add(r.x) as u16)
        },
        AddressingMode::ZeroPageY => {
            let (b1, zp) = bus::spec_read8(b, r.program_counter);
            (b1, zp.wrapping_add(r.y) as u16)
        },
        AddressingMode::Immediate => (b, r.program_counter),
        AddressingMode::Relative => {
            let (b1, offset) = bus::spec_read8(b, r.program_counter);
            (b1, r.program_counter.wrapping_add(1).wrapping_add(spec_sign_extend(offset)))
        },
        AddressingMode::Implicit => (b, IMPLICIT_MODE_ADDR),
        AddressingMode::Accumulator => (b, IMPLICIT_MODE_ADDR),
    }
}

/// The effect of one decoded non-BRK instruction on registers and bus,
/// given the fetched operand and effective address. The samples `rnd1`,
/// `rnd2`, `rnd3` stand for the bytes the random register may leave behind;
/// an instruction that stores nothing there ignores them.
pub open spec fn spec_execute(
    instruction: Instruction,
    r: Registers,
    b: BusModel,
    operand: u8,
    addr: u16,
    rnd1: u8,
    rnd2: u8,
    rnd3: u8,
) -> (Registers, BusModel) {
    match instruction.kind {
        InstructionKind::Adc => (spec_adc(r, operand), b),
        InstructionKind::And => (spec_and(r, operand), b),
        InstructionKind::Asl => {
            if instruction.addressing_mode == AddressingMode::Accumulator {
                (spec_asl_a(r), b)
            } else {
                spec_asl_mem(r, b, operand, addr, rnd1)
            }
        },
        InstructionKind::Bit => (spec_bit(r, operand), b),
        InstructionKind::Bcc => (
            spec_branch_if(
                r,
                addr,
                spec_branch_condition(InstructionKind::Bcc, r.status_flags.bits),
            ),
            b,
        ),
        InstructionKind::Bcs => (
            spec_branch_if(
                r,
                addr,
                spec_branch_condition(InstructionKind::Bcs, r.status_flags.bits),
            ),
            b,
        ),
        InstructionKind::Beq => (
            spec_branch_if(
                r,
                addr,
                spec_branch_condition(InstructionKind::Beq, r.status_flags.bits),
            ),
            b,
        ),
        InstructionKind::Bmi => (
            spec_branch_if(
                r,
                addr,
                spec_branch_condition(InstructionKind::Bmi, r.status_flags.bits),
            ),
            b,
        ),
        InstructionKind::Bne => (
            spec_branch_if(
                r,
                addr,
                spec_branch_condition(InstructionKind::Bne, r.status_flags.bits),
            ),
            b,
        ),
        InstructionKind::Bpl => (
            spec_branch_if(
                r,
                addr,
                spec_branch_condition(InstructionKind::Bpl, r.status_flags.bits),
            ),
            b,
        ),
        InstructionKind::Bvc => (
            spec_branch_if(
                r,
                addr,
                spec_branch_condition(InstructionKind::Bvc, r.status_flags.bits),
            ),
            b,
        ),
        InstructionKind::Bvs => (
            spec_branch_if(
                r,
                addr,
                spec_branch_condition(InstructionKind::Bvs, r.status_flags.bits),
            ),
            b,
        ),
        InstructionKind::Clc => (spec_remove_flag(r, CARRY), b),
        InstructionKind::Cld => (spec_remove_flag(r, DECIMAL), b),
        InstructionKind::Cli => (spec_remove_flag(r, INTERRUPT_DISABLE), b),
        InstructionKind::Clv => (spec_remove_flag(r, OVERFLOW), b),
        InstructionKind::Cmp => (spec_compare(r, r.a, operand), b),
        InstructionKind::Cpx => (spec_compare(r, r.x, operand), b),
        InstructionKind::Cpy => (spec_compare(r, r.y, operand), b),
        InstructionKind::Dec => spec_dec(r, b, operand, addr, rnd1),
        InstructionKind::Dex => (Registers { x: r.x.wrapping_sub(1), ..r }, b),
        InstructionKind::Dey => (Registers { y: r.y.wrapping_sub(1), ..r }, b),
        InstructionKind::Eor => (spec_eor(r, operand), b),
        InstructionKind::Inc => spec_inc(r, b, operand, addr, rnd1),
        InstructionKind::Inx => (Registers { x: r.x.wrapping_add(1), ..r }, b),
        InstructionKind::Iny => (Registers { y: r.y.wrapping_add(1), ..r }, b),
        InstructionKind::Jmp => (Registers { program_counter: addr, ..r }, b),
        InstructionKind::Jsr => spec_jsr(r, b, addr, rnd1, rnd2),
        InstructionKind::Lda => (spec_lda(r, operand), b),
        InstructionKind::Ldx => (spec_ldx(r, operand), b),
        InstructionKind::Ldy => (spec_ldy(r, operand), b),
        InstructionKind::Lsr => {
            if instruction.addressing_mode == AddressingMode::Accumulator {
                (spec_lsr_a(r), b)
            } else {
                spec_lsr_mem(r, b, operand, addr, rnd1)
            }
        },
        InstructionKind::Nop => (r, b),
        InstructionKind::Ora => (spec_ora(r, operand), b),
        InstructionKind::Pha => spec_pha(r, b, rnd1),
        InstructionKind::Php => spec_php(r, b, rnd1),
        InstructionKind::Pla => spec_pla(r, b),
        InstructionKind::Plp => spec_plp(r, b),
        InstructionKind::Rol => {
            if instruction.addressing_mode == AddressingMode::Accumulator {
                (spec_rol_a(r), b)
            } else {
                spec_rol_mem(r, b, operand, addr, rnd1)
            }
        },
        InstructionKind::Ror => {
            if instruction.addressing_mode == AddressingMode::Accumulator {
                (spec_ror_a(r), b)
            } else {
                spec_ror_mem(r, b, operand, addr, rnd1)
            }
        },
        InstructionKind::Rti => spec_rti(r, b),
        InstructionKind::Rts => spec_rts(r, b),
        InstructionKind::Sbc => (spec_sbc(r, operand), b),
        InstructionKind::Sec => (spec_insert_flag(r, CARRY), b),
        InstructionKind::Sed => (spec_insert_flag(r, DECIMAL), b),
        InstructionKind::Sei => (spec_insert_flag(r, INTERRUPT_DISABLE), b),
        InstructionKind::Sta => spec_sta(r, b, addr, rnd1),
        InstructionKind::Stx => spec_stx(r, b, addr, rnd1),
        InstructionKind::Sty => spec_sty(r, b, addr, rnd1),
        InstructionKind::Tax => (Registers { x: r.a, ..r }, b),
        InstructionKind::Tay => (Registers { y: r.a, ..r }, b),
        InstructionKind::Tsx => (
            Registers {
                x: r.stack_pointer,
                status_flags: Status {
                    bits: spec_nz_bits(r.status_flags.bits, r.stack_pointer),
                },
                ..r
            },
            b,
        ),
        InstructionKind::Txa => (Registers { a: r.x, ..r }, b),
        InstructionKind::Txs => (Registers { stack_pointer: r.x, ..r }, b),
        InstructionKind::Tya => (Registers { a: r.y, ..r }, b),
        // BRK is handled before dispatch; the dispatch map is total anyway.
        InstructionKind::Brk => (r, b),
    }
}

/// The whole machine as the step relation sees it.
#[verifier::ext_equal]
pub struct MachineModel {
    pub regs: Registers,
    pub bus: BusModel,
}

/// What one interpreter step did.
#[derive(Clone, Copy, PartialEq, Eq, Structural, Debug)]
pub enum StepOutcome {
    /// An instruction ran; the loop goes on.
    Ran,
    /// A BRK pushed the return state and ended the run.
    Halted,
    /// The fetched byte is outside the supported opcode set.
    UnknownOpcode(u8),
}

/// One step of the interpreter loop: fetch at the program counter, decode,
/// resolve the operand, dispatch, and advance the program counter by the
/// mode length unless the instruction moved it.
pub open spec fn spec_step(s: MachineModel, rnd1: u8, rnd2: u8, rnd3: u8) -> (
    MachineModel,
    StepOutcome,
) {
    let (b1, opcode) = bus::spec_read8(s.bus, s.regs.program_counter);
    match instruction::spec_from_opcode(opcode) {
        None => (MachineModel { regs: s.regs, bus: b1 }, StepOutcome::UnknownOpcode(opcode)),
        Some(inst) => {
            if inst.kind == InstructionKind::Brk {
                let (r2, b2) = spec_brk(s.regs, b1, rnd1, rnd2, rnd3);
                (MachineModel { regs: r2, bus: b2 }, StepOutcome::Halted)
            } else {
                let r1 = Registers {
                    program_counter: s.regs.program_counter.wrapping_add(1),
                    ..s.regs
                };
                let prev = r1.program_counter;
                let (b2, addr) = spec_operand_address(r1, b1, inst.addressing_mode);
                let (b3, operand) = if addr != IMPLICIT_MODE_ADDR {
                    bus::spec_read8(b2, addr)
                } else {
                    (b2, 0u8)
                };
                let (r2, b4) = spec_execute(inst, r1, b3, operand, addr, rnd1, rnd2, rnd3);
                let r3 = if r2.program_counter == prev {
                    Registers {
                        program_counter: r2.program_counter.wrapping_add(
                            instruction::spec_length_in_bytes(inst.addressing_mode),
                        ),
                        ..r2
                    }
                } else {
                    r2
                };
                (MachineModel { regs: r3, bus: b4 }, StepOutcome::Ran)
            }
        },
    }
}

/// `n` consecutive steps, each of which ran an ordinary instruction.
pub open spec fn spec_steps(s1: MachineModel, s2: MachineModel, n: nat) -> bool
    decreases n,
{
    if n == 0 {
        s1 == s2
    } else {
        exists|mid: MachineModel, rnd1: u8, rnd2: u8, rnd3: u8|
            spec_steps(s1, mid, (n - 1) as nat) && bus::spec_rnd_any(mid.bus, rnd1)
                && bus::spec_rnd_any(mid.bus, rnd2) && bus::spec_rnd_any(mid.bus, rnd3)
                && spec_step(mid, rnd1, rnd2, rnd3) == (s2, StepOutcome::Ran)
    }
}

/// The machine after a reset: the program counter is loaded from the reset
/// vector; the two vector reads go through the bus like any others.
pub open spec fn spec_reset(r: Registers, b: BusModel) -> MachineModel {
    let (b1, pc) = bus::spec_read16(b, PROGRAM_POINTER);
    MachineModel { regs: Registers { program_counter: pc, ..r }, bus: b1 }
}

/// How a run ended.
#[derive(Clone, Copy, PartialEq, Eq, Structural, Debug)]
pub enum RunExit {
    /// The program reached its terminal BRK.
    Brk,
    /// A byte outside the supported opcode set was fetched; the byte is
    /// carried for the host's diagnostic.
    UnknownOpcode(u8),
    /// The step budget of one call ran out before a BRK; a further `run`
    /// call restarts from the reset vector.
    OutOfSteps,
}

/// The step outcome that ends a run with the given exit; `OutOfSteps` ends
/// no step and is never mapped through this.
pub open spec fn spec_exit_outcome(exit: RunExit) -> StepOutcome {
    match exit {
        RunExit::Brk => StepOutcome::Halted,
        RunExit::UnknownOpcode(opcode) => StepOutcome::UnknownOpcode(opcode),
        RunExit::OutOfSteps => StepOutcome::Ran,
    }
}

/// The processor: the registers of the 6502. The bus it drives is passed to
/// each executing method, so the CPU itself is plain data.
pub struct Cpu {
    pub registers: Registers,
}

impl Cpu {
    /// A freshly powered-on CPU: cleared registers, stack pointer at the top
    /// of page one, interrupts disabled.
    pub fn new() -> (cpu: Cpu)
        ensures
            cpu.registers.a == 0,
            cpu.registers.x == 0,
            cpu.registers.y == 0,
            cpu.registers.program_counter == 0,
            cpu.registers.stack_pointer == STACK_TOP,
            cpu.registers.status_flags.bits == registers::INITIAL_STATE,
    {
        Cpu {
            registers: Registers {
                a: 0,
                x: 0,
                y: 0,
                program_counter: 0,
                stack_pointer: STACK_TOP,
                status_flags: Status::new(),
            },
        }
    }

    /// The address of the current top-of-stack byte: page one, indexed by
    /// the stack pointer.
    pub fn get_stack_addr(&self) -> (addr: u16)
        ensures
            addr == STACK_ADDR_HI + self.registers.stack_pointer,
    {
        STACK_ADDR_HI + self.registers.stack_pointer as u16
    }

    /// Sets N and Z from an 8-bit result.
    pub fn set_negative_and_zero_flags(&mut self, operation_res: u8)
        ensures
            final(self).registers == (Registers {
                status_flags: Status {
                    bits: spec_nz_bits(old(self).registers.status_flags.bits, operation_res),
                },
                ..old(self).registers
            }),
    {
        self.registers.status_flags.set(NEGATIVE, operation_res & 0x80 != 0);
        self.registers.status_flags.set(ZERO, operation_res == 0);
    }

    pub fn adc(&mut self, operand: u8)
        ensures
            final(self).registers == spec_adc(old(self).registers, operand),
    {
        // no decimal mode
        let carry: u16 = if self.registers.status_flags.is_set(CARRY) {
            1
        } else {
            0
        };
        let sum: u16 = self.registers.a as u16 + operand as u16 + carry;
        self.registers.status_flags.set(CARRY, sum > 0xFF);
        let res: u8 = (sum % 0x100) as u8;
        self.registers.status_flags.set(
            OVERFLOW,
            (self.registers.a ^ res) & (operand ^ res) & 0x80 != 0,
        );
        self.registers.a = res;
        self.set_negative_and_zero_flags(res)
    }

    pub fn sbc(&mut self, operand: u8)
        ensures
            final(self).registers == spec_sbc(old(self).registers, operand),
    {
        self.adc(255 - operand)
    }

    pub fn and(&mut self, value: u8)
        ensures
            final(self).registers == spec_and(old(self).registers, value),
    {
        self.registers.a = self.registers.a & value;
        let res = self.registers.a;
        self.set_negative_and_zero_flags(res);
    }

    pub fn ora(&mut self, operand: u8)
        ensures
            final(self).registers == spec_ora(old(self).registers, operand),
    {
        self.registers.a = self.registers.a | operand;
        let res = self.registers.a;
        self.set_negative_and_zero_flags(res);
    }

    pub fn eor(&mut self, operand: u8)
        ensures
            final(self).registers == spec_eor(old(self).registers, operand),
    {
        self.registers.a = self.registers.a ^ operand;
        let res = self.registers.a;
        self.set_negative_and_zero_flags(res);
    }

    pub fn asl_a(&mut self)
        ensures
            final(self).registers == spec_asl_a(old(self).registers),
    {
        self.registers.status_flags.set(CARRY, self.registers.a >> 7 == 1);
        self.registers.a = self.registers.a << 1;
        let res = self.registers.a;
        self.set_negative_and_zero_flags(res);
    }

    pub fn lsr_a(&mut self)
        ensures
            final(self).registers == spec_lsr_a(old(self).registers),
    {
        self.registers.status_flags.set(CARRY, self.registers.a & 1 == 1);
        self.registers.a = self.registers.a >> 1;
        let res = self.registers.a;
        self.set_negative_and_zero_flags(res);
    }

    pub fn rol_a(&mut self)
        ensures
            final(self).registers == spec_rol_a(old(self).registers),
    {
        let carry: u8 = if self.registers.status_flags.is_set(CARRY) {
            1
        } else {
            0
        };
        self.registers.status_flags.set(CARRY, self.registers.a >> 7 == 1);
        self.registers.a = (self.registers.a << 1) | carry;
        let res = self.registers.a;
        self.set_negative_and_zero_flags(res)
    }

    pub fn ror_a(&mut self)
        ensures
            final(self).registers == spec_ror_a(old(self).registers),
    {
        let carry: u8 = if self.registers.status_flags.is_set(CARRY) {
            1
        } else {
            0
        };
        self.registers.status_flags.set(CARRY, self.registers.a & 1 == 1);
        self.registers.a = (self.registers.a >> 1) | (carry << 7);
        let res = self.registers.a;
        self.set_negative_and_zero_flags(res)
    }

    pub fn bit(&mut self, operand: u8)
        ensures
            final(self).registers == spec_bit(old(self).registers, operand),
    {
        self.registers.status_flags.set(ZERO, self.registers.a & operand == 0);
        self.registers.status_flags.set(NEGATIVE, operand & 0b1000_0000 == 1);
        self.registers.status_flags.set(OVERFLOW, operand & 0b0100_0000 == 1);
    }

    /// Shared flag computation of CMP, CPX and CPY; no register is written.
    pub fn compare(&mut self, lhs: u8, rhs: u8)
        ensures
            final(self).registers == spec_compare(old(self).registers, lhs, rhs),
    {
        let val = lhs.wrapping_sub(rhs);
        self.registers.status_flags.set(CARRY, val < 0x80);
        self.set_negative_and_zero_flags(val);
    }

    pub fn cmp(&mut self, operand: u8)
        ensures
            final(self).registers == spec_compare(old(self).registers, old(self).registers.a, operand),
    {
        let lhs = self.registers.a;
        self.compare(lhs, operand);
    }

    pub fn cpx(&mut self, operand: u8)
        ensures
            final(self).registers == spec_compare(old(self).registers, old(self).registers.x, operand),
    {
        let lhs = self.registers.x;
        self.compare(lhs, operand);
    }

    pub fn cpy(&mut self, operand: u8)
        ensures
            final(self).registers == spec_compare(old(self).registers, old(self).registers.y, operand),
    {
        let lhs = self.registers.y;
        self.compare(lhs, operand);
    }

    pub fn lda(&mut self, operand: u8)
        ensures
            final(self).registers == spec_lda(old(self).registers, operand),
    {
        self.registers.a = operand;
        let res = self.registers.a;
        self.set_negative_and_zero_flags(res);
    }

    pub fn ldx(&mut self, operand: u8)
        ensures
            final(self).registers == spec_ldx(old(self).registers, operand),
    {
        self.registers.x = operand;
        let res = self.registers.x;
        self.set_negative_and_zero_flags(res);
    }

    pub fn ldy(&mut self, operand: u8)
        ensures
            final(self).registers == spec_ldy(old(self).registers, operand),
    {
        self.registers.y = operand;
        let res = self.registers.y;
        self.set_negative_and_zero_flags(res);
    }

    /// The register transfers deliberately leave N and Z alone.
    pub fn tax(&mut self)
        ensures
            final(self).registers == (Registers { x: old(self).registers.a, ..old(self).registers }),
    {
        self.registers.x = self.registers.a;
    }

    pub fn tay(&mut self)
        ensures
            final(self).registers == (Registers { y: old(self).registers.a, ..old(self).registers }),
    {
        self.registers.y = self.registers.a;
    }

    pub fn txa(&mut self)
        ensures
            final(self).registers == (Registers { a: old(self).registers.x, ..old(self).registers }),
    {
        self.registers.a = self.registers.x;
    }

    pub fn tya(&mut self)
        ensures
            final(self).registers == (Registers { a: old(self).registers.y, ..old(self).registers }),
    {
        self.registers.a = self.registers.y;
    }

    /// TSX is the one transfer that does set N and Z.
    pub fn tsx(&mut self)
        ensures
            final(self).registers == (Registers {
                x: old(self).registers.stack_pointer,
                status_flags: Status {
                    bits: spec_nz_bits(
                        old(self).registers.status_flags.bits,
                        old(self).registers.stack_pointer,
                    ),
                },
                ..old(self).registers
            }),
    {
        self.registers.x = self.registers.stack_pointer;
        let res = self.registers.x;
        self.set_negative_and_zero_flags(res)
    }

    pub fn txs(&mut self)
        ensures
            final(self).registers == (Registers {
                stack_pointer: old(self).registers.x,
                ..old(self).registers
            }),
    {
        self.registers.stack_pointer = self.registers.x;
    }

    /// The index steps wrap on 8 bits and deliberately leave N and Z alone.
    pub fn inx(&mut self)
        ensures
            final(self).registers == (Registers {
                x: old(self).registers.x.wrapping_add(1),
                ..old(self).registers
            }),
    {
        self.registers.x = self.registers.x.wrapping_add(1);
    }

    pub fn iny(&mut self)
        ensures
            final(self).registers == (Registers {
                y: old(self).registers.y.wrapping_add(1),
                ..old(self).registers
            }),
    {
        self.registers.y = self.registers.y.wrapping_add(1);
    }

    pub fn dex(&mut self)
        ensures
            final(self).registers == (Registers {
                x: old(self).registers.x.wrapping_sub(1),
                ..old(self).registers
            }),
    {
        self.registers.x = self.registers.x.wrapping_sub(1)
    }

    pub fn dey(&mut self)
        ensures
            final(self).registers == (Registers {
                y: old(self).registers.y.wrapping_sub(1),
                ..old(self).registers
            }),
    {
        self.registers.y = self.registers.y.wrapping_sub(1)
    }

    pub fn clc(&mut self)
        ensures
            final(self).registers == spec_remove_flag(old(self).registers, CARRY),
    {
        self.registers.status_flags.remove(CARRY)
    }

    pub fn sec(&mut self)
        ensures
            final(self).registers == spec_insert_flag(old(self).registers, CARRY),
    {
        self.registers.status_flags.insert(CARRY)
    }

    pub fn cld(&mut self)
        ensures
            final(self).registers == spec_remove_flag(old(self).registers, DECIMAL),
    {
        self.registers.status_flags.remove(DECIMAL)
    }

    pub fn sed(&mut self)
        ensures
            final(self).registers == spec_insert_flag(old(self).registers, DECIMAL),
    {
        self.registers.status_flags.insert(DECIMAL)
    }

    pub fn cli(&mut self)
        ensures
            final(self).registers == spec_remove_flag(old(self).registers, INTERRUPT_DISABLE),
    {
        self.registers.status_flags.remove(INTERRUPT_DISABLE)
    }

    pub fn sei(&mut self)
        ensures
            final(self).registers == spec_insert_flag(old(self).registers, INTERRUPT_DISABLE),
    {
        self.registers.status_flags.insert(INTERRUPT_DISABLE)
    }

    pub fn clv(&mut self)
        ensures
            final(self).registers == spec_remove_flag(old(self).registers, OVERFLOW),
    {
        self.registers.status_flags.remove(OVERFLOW)
    }

    pub fn nop(&mut self)
        ensures
            final(self).registers == old(self).registers,
    {
    }

    /// An unconditional transfer of the program counter.
    pub fn branch(&mut self, addr: u16)
        ensures
            final(self).registers == (Registers { program_counter: addr, ..old(self).registers }),
    {
        self.registers.program_counter = addr;
    }

    /// True when the program counter has moved since `previous_addr`.
    pub fn has_branched(&self, previous_addr: u16) -> (r: bool)
        ensures
            r == (previous_addr != self.registers.program_counter),
    {
        previous_addr != self.registers.program_counter
    }

    pub fn bcc(&mut self, addr: u16)
        ensures
            final(self).registers == spec_branch_if(
                old(self).registers,
                addr,
                spec_branch_condition(InstructionKind::Bcc, old(self).registers.status_flags.bits),
            ),
    {
        if self.registers.status_flags.is_unset(CARRY) {
            self.branch(addr)
        }
    }

    pub fn bcs(&mut self, addr: u16)
        ensures
            final(self).registers == spec_branch_if(
                old(self).registers,
                addr,
                spec_branch_condition(InstructionKind::Bcs, old(self).registers.status_flags.bits),
            ),
    {
        if self.registers.status_flags.is_set(CARRY) {
            self.branch(addr)
        }
    }

    pub fn bne(&mut self, addr: u16)
        ensures
            final(self).registers == spec_branch_if(
                old(self).registers,
                addr,
                spec_branch_condition(InstructionKind::Bne, old(self).registers.status_flags.bits),
            ),
    {
        if self.registers.status_flags.is_unset(ZERO) {
            self.branch(addr)
        }
    }

    pub fn beq(&mut self, addr: u16)
        ensures
            final(self).registers == spec_branch_if(
                old(self).registers,
                addr,
                spec_branch_condition(InstructionKind::Beq, old(self).registers.status_flags.bits),
            ),
    {
        if self.registers.status_flags.is_set(ZERO) {
            self.branch(addr)
        }
    }

    pub fn bpl(&mut self, addr: u16)
        ensures
            final(self).registers == spec_branch_if(
                old(self).registers,
                addr,
                spec_branch_condition(InstructionKind::Bpl, old(self).registers.status_flags.bits),
            ),
    {
        if self.registers.status_flags.is_unset(NEGATIVE) {
            self.branch(addr)
        }
    }

    pub fn bmi(&mut self, addr: u16)
        ensures
            final(self).registers == spec_branch_if(
                old(self).registers,
                addr,
                spec_branch_condition(InstructionKind::Bmi, old(self).registers.status_flags.bits),
            ),
    {
        if self.registers.status_flags.is_set(NEGATIVE) {
            self.branch(addr)
        }
    }

    pub fn bvc(&mut self, addr: u16)
        ensures
            final(self).registers == spec_branch_if(
                old(self).registers,
                addr,
                spec_branch_condition(InstructionKind::Bvc, old(self).registers.status_flags.bits),
            ),
    {
        if self.registers.status_flags.is_unset(OVERFLOW) {
            self.branch(addr)
        }
    }

    pub fn bvs(&mut self, addr: u16)
        ensures
            final(self).registers == spec_branch_if(
                old(self).registers,
                addr,
                spec_branch_condition(InstructionKind::Bvs, old(self).registers.status_flags.bits),
            ),
    {
        if self.registers.status_flags.is_set(OVERFLOW) {
            self.branch(addr)
        }
    }

    pub fn jmp(&mut self, addr: u16)
        ensures
            final(self).registers == (Registers { program_counter: addr, ..old(self).registers }),
    {
        self.branch(addr);
    }

    pub fn asl(&mut self, operand: u8, addr: u16, bus: &mut Bus)
        requires
            old(bus)@.wf(),
        ensures
            final(bus)@.wf(),
            final(bus)@.rng_addr == old(bus)@.rng_addr,
            final(bus)@.rng_low == old(bus)@.rng_low,
            final(bus)@.rng_high == old(bus)@.rng_high,
            exists|rnd: u8|
                bus::spec_rnd_any(old(bus)@, rnd) && (final(self).registers, final(bus)@)
                    == spec_asl_mem(old(self).registers, old(bus)@, operand, addr, rnd),
            exists|rnd: u8|
                bus::spec_rnd_for(old(bus)@, addr, rnd) && (final(self).registers, final(bus)@)
                    == spec_asl_mem(old(self).registers, old(bus)@, operand, addr, rnd),
    {
        self.registers.status_flags.set(CARRY, operand >> 7 == 1);
        let res = operand << 1;
        self.set_negative_and_zero_flags(res);
        bus.mem_write_u8(addr, res);
        proof {
            let rnd = choose|rnd: u8|
                bus::spec_rnd_for(old(bus)@, addr, rnd) && bus@ == bus::spec_write8(
                    old(bus)@,
                    addr,
                    res,
                    rnd,
                );
            assert((self.registers, bus@) == spec_asl_mem(
                old(self).registers,
                old(bus)@,
                operand,
                addr,
                rnd,
            ));
        }
    }

    pub fn lsr(&mut self, operand: u8, addr: u16, bus: &mut Bus)
        requires
            old(bus)@.wf(),
        ensures
            final(bus)@.wf(),
            final(bus)@.rng_addr == old(bus)@.rng_addr,
            final(bus)@.rng_low == old(bus)@.rng_low,
            final(bus)@.rng_high == old(bus)@.rng_high,
            exists|rnd: u8|
                bus::spec_rnd_any(old(bus)@, rnd) && (final(self).registers, final(bus)@)
                    == spec_lsr_mem(old(self).registers, old(bus)@, operand, addr, rnd),
            exists|rnd: u8|
                bus::spec_rnd_for(old(bus)@, addr, rnd) && (final(self).registers, final(bus)@)
                    == spec_lsr_mem(old(self).registers, old(bus)@, operand, addr, rnd),
    {
        self.registers.status_flags.set(CARRY, operand & 1 == 1);
        let res = operand >> 1;
        self.set_negative_and_zero_flags(res);
        bus.mem_write_u8(addr, res);
        proof {
            let rnd = choose|rnd: u8|
                bus::spec_rnd_for(old(bus)@, addr, rnd) && bus@ == bus::spec_write8(
                    old(bus)@,
                    addr,
                    res,
                    rnd,
                );
            assert((self.registers, bus@) == spec_lsr_mem(
                old(self).registers,
                old(bus)@,
                operand,
                addr,
                rnd,
            ));
        }
    }

    pub fn rol(&mut self, operand: u8, addr: u16, bus: &mut Bus)
        requires
            old(bus)@.wf(),
        ensures
            final(bus)@.wf(),
            final(bus)@.rng_addr == old(bus)@.rng_addr,
            final(bus)@.rng_low == old(bus)@.rng_low,
            final(bus)@.rng_high == old(bus)@.rng_high,
            exists|rnd: u8|
                bus::spec_rnd_any(old(bus)@, rnd) && (final(self).registers, final(bus)@)
                    == spec_rol_mem(old(self).registers, old(bus)@, operand, addr, rnd),
            exists|rnd: u8|
                bus::spec_rnd_for(old(bus)@, addr, rnd) && (final(self).registers, final(bus)@)
                    == spec_rol_mem(old(self).registers, old(bus)@, operand, addr, rnd),
    {
        let carry: u8 = if self.registers.status_flags.is_set(CARRY) {
            1
        } else {
            0
        };
        self.registers.status_flags.set(CARRY, operand >> 7 == 1);
        let res = (operand << 1) | carry;
        self.set_negative_and_zero_flags(res);
        bus.mem_write_u8(addr, res);
        proof {
            let rnd = choose|rnd: u8|
                bus::spec_rnd_for(old(bus)@, addr, rnd) && bus@ == bus::spec_write8(
                    old(bus)@,
                    addr,
                    res,
                    rnd,
                );
            assert((self.registers, bus@) == spec_rol_mem(
                old(self).registers,
                old(bus)@,
                operand,
                addr,
                rnd,
            ));
        }
    }

    pub fn ror(&mut self, operand: u8, addr: u16, bus: &mut Bus)
        requires
            old(bus)@.wf(),
        ensures
            final(bus)@.wf(),
            final(bus)@.rng_addr == old(bus)@.rng_addr,
            final(bus)@.rng_low == old(bus)@.rng_low,
            final(bus)@.rng_high == old(bus)@.rng_high,
            exists|rnd: u8|
                bus::spec_rnd_any(old(bus)@, rnd) && (final(self).registers, final(bus)@)
                    == spec_ror_mem(old(self).registers, old(bus)@, operand, addr, rnd),
            exists|rnd: u8|
                bus::spec_rnd_for(old(bus)@, addr, rnd) && (final(self).registers, final(bus)@)
                    == spec_ror_mem(old(self).registers, old(bus)@, operand, addr, rnd),
    {
        let carry: u8 = if self.registers.status_flags.is_set(CARRY) {
            1
        } else {
            0
        };
        self.registers.status_flags.set(CARRY, operand & 1 == 1);
        let res = (operand >> 1) | (carry << 7);
        self.set_negative_and_zero_flags(res);
        bus.mem_write_u8(addr, res);
        proof {
            let rnd = choose|rnd: u8|
                bus::spec_rnd_for(old(bus)@, addr, rnd) && bus@ == bus::spec_write8(
                    old(bus)@,
                    addr,
                    res,
                    rnd,
                );
            assert((self.registers, bus@) == spec_ror_mem(
                old(self).registers,
                old(bus)@,
                operand,
                addr,
                rnd,
            ));
        }
    }

    pub fn inc(&mut self, operand: u8, addr: u16, bus: &mut Bus)
        requires
            old(bus)@.wf(),
        ensures
            final(bus)@.wf(),
            final(bus)@.rng_addr == old(bus)@.rng_addr,
            final(bus)@.rng_low == old(bus)@.rng_low,
            final(bus)@.rng_high == old(bus)@.rng_high,
            exists|rnd: u8|
                bus::spec_rnd_any(old(bus)@, rnd) && (final(self).registers, final(bus)@)
                    == spec_inc(old(self).registers, old(bus)@, operand, addr, rnd),
            exists|rnd: u8|
                bus::spec_rnd_for(old(bus)@, addr, rnd) && (final(self).registers, final(bus)@)
                    == spec_inc(old(self).registers, old(bus)@, operand, addr, rnd),
    {
        let val = operand.wrapping_add(1);
        bus.mem_write_u8(addr, val);
        self.set_negative_and_zero_flags(val);
        proof {
            let rnd = choose|rnd: u8|
                bus::spec_rnd_for(old(bus)@, addr, rnd) && bus@ == bus::spec_write8(
                    old(bus)@,
                    addr,
                    val,
                    rnd,
                );
            assert((self.registers, bus@) == spec_inc(
                old(self).registers,
                old(bus)@,
                operand,
                addr,
                rnd,
            ));
        }
    }

    pub fn dec(&mut self, operand: u8, addr: u16, bus: &mut Bus)
        requires
            old(bus)@.wf(),
        ensures
            final(bus)@.wf(),
            final(bus)@.rng_addr == old(bus)@.rng_addr,
            final(bus)@.rng_low == old(bus)@.rng_low,
            final(bus)@.rng_high == old(bus)@.rng_high,
            exists|rnd: u8|
                bus::spec_rnd_any(old(bus)@, rnd) && (final(self).registers, final(bus)@)
                    == spec_dec(old(self).registers, old(bus)@, operand, addr, rnd),
            exists|rnd: u8|
                bus::spec_rnd_for(old(bus)@, addr, rnd) && (final(self).registers, final(bus)@)
                    == spec_dec(old(self).registers, old(bus)@, operand, addr, rnd),
    {
        let val = operand.wrapping_sub(1);
        bus.mem_write_u8(addr, val);
        self.set_negative_and_zero_flags(val);
        proof {
            let rnd = choose|rnd: u8|
                bus::spec_rnd_for(old(bus)@, addr, rnd) && bus@ == bus::spec_write8(
                    old(bus)@,
                    addr,
                    val,
                    rnd,
                );
            assert((self.registers, bus@) == spec_dec(
                old(self).registers,
                old(bus)@,
                operand,
                addr,
                rnd,
            ));
        }
    }

    pub fn sta(&mut self, addr: u16, bus: &mut Bus)
        requires
            old(bus)@.wf(),
        ensures
            final(bus)@.wf(),
            final(bus)@.rng_addr == old(bus)@.rng_addr,
            final(bus)@.rng_low == old(bus)@.rng_low,
            final(bus)@.rng_high == old(bus)@.rng_high,
            exists|rnd: u8|
                bus::spec_rnd_any(old(bus)@, rnd) && (final(self).registers, final(bus)@)
                    == spec_sta(old(self).registers, old(bus)@, addr, rnd),
            exists|rnd: u8|
                bus::spec_rnd_for(old(bus)@, addr, rnd) && (final(self).registers, final(bus)@)
                    == spec_sta(old(self).registers, old(bus)@, addr, rnd),
    {
        bus.mem_write_u8(addr, self.registers.a);
        proof {
            let rnd = choose|rnd: u8|
                bus::spec_rnd_for(old(bus)@, addr, rnd) && bus@ == bus::spec_write8(
                    old(bus)@,
                    addr,
                    old(self).registers.a,
                    rnd,
                );
            assert((self.registers, bus@) == spec_sta(old(self).registers, old(bus)@, addr, rnd));
        }
    }

    pub fn stx(&mut self, addr: u16, bus: &mut Bus)
        requires
            old(bus)@.wf(),
        ensures
            final(bus)@.wf(),
            final(bus)@.rng_addr == old(bus)@.rng_addr,
            final(bus)@.rng_low == old(bus)@.rng_low,
            final(bus)@.rng_high == old(bus)@.rng_high,
            exists|rnd: u8|
                bus::spec_rnd_any(old(bus)@, rnd) && (final(self).registers, final(bus)@)
                    == spec_stx(old(self).registers, old(bus)@, addr, rnd),
            exists|rnd: u8|
                bus::spec_rnd_for(old(bus)@, addr, rnd) && (final(self).registers, final(bus)@)
                    == spec_stx(old(self).registers, old(bus)@, addr, rnd),
    {
        bus.mem_write_u8(addr, self.registers.x);
        proof {
            let rnd = choose|rnd: u8|
                bus::spec_rnd_for(old(bus)@, addr, rnd) && bus@ == bus::spec_write8(
                    old(bus)@,
                    addr,
                    old(self).registers.x,
                    rnd,
                );
            assert((self.registers, bus@) == spec_stx(old(self).registers, old(bus)@, addr, rnd));
        }
    }

    pub fn sty(&mut self, addr: u16, bus: &mut Bus)
        requires
            old(bus)@.wf(),
        ensures
            final(bus)@.wf(),
            final(bus)@.rng_addr == old(bus)@.rng_addr,
            final(bus)@.rng_low == old(bus)@.rng_low,
            final(bus)@.rng_high == old(bus)@.rng_high,
            exists|rnd: u8|
                bus::spec_rnd_any(old(bus)@, rnd) && (final(self).registers, final(bus)@)
                    == spec_sty(old(self).registers, old(bus)@, addr, rnd),
            exists|rnd: u8|
                bus::spec_rnd_for(old(bus)@, addr, rnd) && (final(self).registers, final(bus)@)
                    == spec_sty(old(self).registers, old(bus)@, addr, rnd),
    {
        bus.mem_write_u8(addr, self.registers.y);
        proof {
            let rnd = choose|rnd: u8|
                bus::spec_rnd_for(old(bus)@, addr, rnd) && bus@ == bus::spec_write8(
                    old(bus)@,
                    addr,
                    old(self).registers.y,
                    rnd,
                );
            assert((self.registers, bus@) == spec_sty(old(self).registers, old(bus)@, addr, rnd));
        }
    }

    /// Stores a byte at the top of the stack and steps the pointer down.
    pub fn push_u8_on_stack(&mut self, byte: u8, bus: &mut Bus)
        requires
            old(bus)@.wf(),
        ensures
            final(bus)@.wf(),
            final(bus)@.rng_addr == old(bus)@.rng_addr,
            final(bus)@.rng_low == old(bus)@.rng_low,
            final(bus)@.rng_high == old(bus)@.rng_high,
            exists|rnd: u8|
                bus::spec_rnd_any(old(bus)@, rnd) && (final(self).registers, final(bus)@)
                    == spec_push8(old(self).registers, old(bus)@, byte, rnd),
    {
        let addr = self.get_stack_addr();
        bus.mem_write_u8(addr, byte);
        self.registers.stack_pointer = self.registers.stack_pointer.wrapping_sub(1);
        proof {
            let rnd = choose|rnd: u8|
                bus::spec_rnd_for(old(bus)@, addr, rnd) && bus@ == bus::spec_write8(
                    old(bus)@,
                    addr,
                    byte,
                    rnd,
                );
            assert((self.registers, bus@) == spec_push8(
                old(self).registers,
                old(bus)@,
                byte,
                rnd,
            ));
        }
    }

    /// Stores a word below the current top of the stack and steps the
    /// pointer down past it.
    pub fn push_u16_on_stack(&mut self, addr: u16, bus: &mut Bus)
        requires
            old(bus)@.wf(),
        ensures
            final(bus)@.wf(),
            final(bus)@.rng_addr == old(bus)@.rng_addr,
            final(bus)@.rng_low == old(bus)@.rng_low,
            final(bus)@.rng_high == old(bus)@.rng_high,
            exists|rnd1: u8, rnd2: u8|
                bus::spec_rnd_any(old(bus)@, rnd1) && bus::spec_rnd_any(old(bus)@, rnd2) && (
                final(self).registers,
                final(bus)@,
                ) == spec_push16(old(self).registers, old(bus)@, addr, rnd1, rnd2),
    {
        self.registers.stack_pointer = self.registers.stack_pointer.wrapping_sub(1);
        let stack_addr = self.get_stack_addr();
        bus.mem_write_u16(stack_addr, addr);
        self.registers.stack_pointer = self.registers.stack_pointer.wrapping_sub(1);
        proof {
            let (rnd1, rnd2) = choose|rnd1: u8, rnd2: u8|
                bus::spec_rnd_any(old(bus)@, rnd1) && bus::spec_rnd_any(old(bus)@, rnd2) && bus@
                    == bus::spec_write16(old(bus)@, stack_addr, addr, rnd1, rnd2);
            assert((self.registers, bus@) == spec_push16(
                old(self).registers,
                old(bus)@,
                addr,
                rnd1,
                rnd2,
            ));
        }
    }

    /// Steps the stack pointer up and reads the byte at the new top.
    pub fn pull_u8_from_stack(&mut self, bus: &mut Bus) -> (res: u8)
        requires
            old(bus)@.wf(),
        ensures
            final(bus)@.wf(),
            final(bus)@.rng_addr == old(bus)@.rng_addr,
            final(bus)@.rng_low == old(bus)@.rng_low,
            final(bus)@.rng_high == old(bus)@.rng_high,
            (final(self).registers, final(bus)@, res) == spec_pull8(
                old(self).registers,
                old(bus)@,
            ),
    {
        self.registers.stack_pointer = self.registers.stack_pointer.wrapping_add(1);
        let addr = self.get_stack_addr();
        bus.mem_read_u8(addr)
    }

    /// Steps the stack pointer up, reads a word, and steps it up again.
    pub fn pull_u16_from_stack(&mut self, bus: &mut Bus) -> (res: u16)
        requires
            old(bus)@.wf(),
        ensures
            final(bus)@.wf(),
            final(bus)@.rng_addr == old(bus)@.rng_addr,
            final(bus)@.rng_low == old(bus)@.rng_low,
            final(bus)@.rng_high == old(bus)@.rng_high,
            (final(self).registers, final(bus)@, res) == spec_pull16(
                old(self).registers,
                old(bus)@,
            ),
    {
        self.registers.stack_pointer = self.registers.stack_pointer.wrapping_add(1);
        let addr = self.get_stack_addr();
        let res = bus.mem_read_u16(addr);
        self.registers.stack_pointer = self.registers.stack_pointer.wrapping_add(1);
        res
    }

    pub fn pha(&mut self, bus: &mut Bus)
        requires
            old(bus)@.wf(),
        ensures
            final(bus)@.wf(),
            final(bus)@.rng_addr == old(bus)@.rng_addr,
            final(bus)@.rng_low == old(bus)@.rng_low,
            final(bus)@.rng_high == old(bus)@.rng_high,
            exists|rnd: u8|
                bus::spec_rnd_any(old(bus)@, rnd) && (final(self).registers, final(bus)@)
                    == spec_pha(old(self).registers, old(bus)@, rnd),
    {
        let byte = self.registers.a;
        self.push_u8_on_stack(byte, bus);
    }

    pub fn php(&mut self, bus: &mut Bus)
        requires
            old(bus)@.wf(),
        ensures
            final(bus)@.wf(),
            final(bus)@.rng_addr == old(bus)@.rng_addr,
            final(bus)@.rng_low == old(bus)@.rng_low,
            final(bus)@.rng_high == old(bus)@.rng_high,
            exists|rnd: u8|
                bus::spec_rnd_any(old(bus)@, rnd) && (final(self).registers, final(bus)@)
                    == spec_php(old(self).registers, old(bus)@, rnd),
    {
        let byte = self.registers.status_flags.bits | BREAK;
        self.push_u8_on_stack(byte, bus);
    }

    pub fn pla(&mut self, bus: &mut Bus)
        requires
            old(bus)@.wf(),
        ensures
            final(bus)@.wf(),
            final(bus)@.rng_addr == old(bus)@.rng_addr,
            final(bus)@.rng_low == old(bus)@.rng_low,
            final(bus)@.rng_high == old(bus)@.rng_high,
            (final(self).registers, final(bus)@) == spec_pla(old(self).registers, old(bus)@),
    {
        self.registers.a = self.pull_u8_from_stack(bus);
    }

    pub fn plp(&mut self, bus: &mut Bus)
        requires
            old(bus)@.wf(),
        ensures
            final(bus)@.wf(),
            final(bus)@.rng_addr == old(bus)@.rng_addr,
            final(bus)@.rng_low == old(bus)@.rng_low,
            final(bus)@.rng_high == old(bus)@.rng_high,
            (final(self).registers, final(bus)@) == spec_plp(old(self).registers, old(bus)@),
    {
        let bits = self.pull_u8_from_stack(bus);
        self.registers.status_flags = Status::from_bits(bits & !BREAK);
    }

    /// BRK pushes the return state; the caller terminates the run.
    pub fn brk(&mut self, bus: &mut Bus)
        requires
            old(bus)@.wf(),
        ensures
            final(bus)@.wf(),
            final(bus)@.rng_addr == old(bus)@.rng_addr,
            final(bus)@.rng_low == old(bus)@.rng_low,
            final(bus)@.rng_high == old(bus)@.rng_high,
            exists|rnd1: u8, rnd2: u8, rnd3: u8|
                bus::spec_rnd_any(old(bus)@, rnd1) && bus::spec_rnd_any(old(bus)@, rnd2)
                    && bus::spec_rnd_any(old(bus)@, rnd3) && (final(self).registers, final(bus)@)
                    == spec_brk(old(self).registers, old(bus)@, rnd1, rnd2, rnd3),
    {
        let pc = self.registers.program_counter;
        self.push_u16_on_stack(pc, bus);
        let ghost mid_regs = self.registers;
        let ghost mid_bus = bus@;
        let byte = self.registers.status_flags.bits | BREAK;
        self.push_u8_on_stack(byte, bus);
        proof {
            let (rnd1, rnd2) = choose|rnd1: u8, rnd2: u8|
                bus::spec_rnd_any(old(bus)@, rnd1) && bus::spec_rnd_any(old(bus)@, rnd2) && (
                mid_regs,
                mid_bus,
                ) == spec_push16(old(self).registers, old(bus)@, pc, rnd1, rnd2);
            let rnd3 = choose|rnd: u8|
                bus::spec_rnd_any(mid_bus, rnd) && (self.registers, bus@) == spec_push8(
                    mid_regs,
                    mid_bus,
                    byte,
                    rnd,
                );
            assert(mid_bus.rng_low == old(bus)@.rng_low && mid_bus.rng_high == old(bus)@.rng_high);
            assert((self.registers, bus@) == spec_brk(
                old(self).registers,
                old(bus)@,
                rnd1,
                rnd2,
                rnd3,
            ));
        }
    }

    pub fn jsr(&mut self, addr: u16, bus: &mut Bus)
        requires
            old(bus)@.wf(),
        ensures
            final(bus)@.wf(),
            final(bus)@.rng_addr == old(bus)@.rng_addr,
            final(bus)@.rng_low == old(bus)@.rng_low,
            final(bus)@.rng_high == old(bus)@.rng_high,
            exists|rnd1: u8, rnd2: u8|
                bus::spec_rnd_any(old(bus)@, rnd1) && bus::spec_rnd_any(old(bus)@, rnd2) && (
                final(self).registers,
                final(bus)@,
                ) == spec_jsr(old(self).registers, old(bus)@, addr, rnd1, rnd2),
    {
        let pc = self.registers.program_counter;
        self.push_u16_on_stack(pc, bus);
        self.branch(addr);
        proof {
            let (rnd1, rnd2) = choose|rnd1: u8, rnd2: u8|
                bus::spec_rnd_any(old(bus)@, rnd1) && bus::spec_rnd_any(old(bus)@, rnd2) && (
                Registers { program_counter: old(self).registers.program_counter, ..self.registers },
                bus@,
                ) == spec_push16(old(self).registers, old(bus)@, pc, rnd1, rnd2);
            assert((self.registers, bus@) == spec_jsr(
                old(self).registers,
                old(bus)@,
                addr,
                rnd1,
                rnd2,
            ));
        }
    }

    pub fn rts(&mut self, bus: &mut Bus)
        requires
            old(bus)@.wf(),
        ensures
            final(bus)@.wf(),
            final(bus)@.rng_addr == old(bus)@.rng_addr,
            final(bus)@.rng_low == old(bus)@.rng_low,
            final(bus)@.rng_high == old(bus)@.rng_high,
            (final(self).registers, final(bus)@) == spec_rts(old(self).registers, old(bus)@),
    {
        let addr = self.pull_u16_from_stack(bus).wrapping_add(1);
        self.branch(addr)
    }

    pub fn rti(&mut self, bus: &mut Bus)
        requires
            old(bus)@.wf(),
        ensures
            final(bus)@.wf(),
            final(bus)@.rng_addr == old(bus)@.rng_addr,
            final(bus)@.rng_low == old(bus)@.rng_low,
            final(bus)@.rng_high == old(bus)@.rng_high,
            (final(self).registers, final(bus)@) == spec_rti(old(self).registers, old(bus)@),
    {
        let bits = self.pull_u8_from_stack(bus);
        self.registers.status_flags = Status::from_bits(bits & !BREAK);
        let addr = self.pull_u16_from_stack(bus);
        self.branch(addr)
    }

    /// Resolves the effective address of the current instruction's operand,
    /// reading operand bytes at the program counter as the mode asks.
    pub fn get_operand_address(&self, mode: &AddressingMode, bus: &mut Bus) -> (addr: u16)
        requires
            old(bus)@.wf(),
        ensures
            final(bus)@.wf(),
            final(bus)@.rng_addr == old(bus)@.rng_addr,
            final(bus)@.rng_low == old(bus)@.rng_low,
            final(bus)@.rng_high == old(bus)@.rng_high,
            (final(bus)@, addr) == spec_operand_address(self.registers, old(bus)@, *mode),
            final(bus)@.rng_addr == old(bus)@.rng_addr,
            final(bus)@.rng_low == old(bus)@.rng_low,
            final(bus)@.rng_high == old(bus)@.rng_high,
    {
        match mode {
            AddressingMode::Absolute => bus.mem_read_u16(self.registers.program_counter),
            AddressingMode::AbsoluteX => {
                let base = bus.mem_read_u16(self.registers.program_counter);
                base.wrapping_add(self.registers.x as u16)
            },
            AddressingMode::AbsoluteY => {
                let base = bus.mem_read_u16(self.registers.program_counter);
                base.wrapping_add(self.registers.y as u16)
            },
            AddressingMode::Indirect => {
                let ptr = bus.mem_read_u16(self.registers.program_counter);
                bus.mem_read_u16(ptr)
            },
            AddressingMode::IndirectX => {
                let zp = bus.mem_read_u8(self.registers.program_counter);
                let ptr = zp.wrapping_add(self.registers.x);
                bus.mem_read_u16(ptr as u16)
            },
            AddressingMode::IndirectY => {
                let zp = bus.mem_read_u8(self.registers.program_counter);
                let base = bus.mem_read_u16(zp as u16);
                base.wrapping_add(self.registers.y as u16)
            },
            AddressingMode::ZeroPage => {
                bus.mem_read_u8(self.registers.program_counter) as u16
            },
            AddressingMode::ZeroPageX => {
                let zp = bus.mem_read_u8(self.registers.program_counter);
                zp.wrapping_add(self.registers.x) as u16
            },
            AddressingMode::ZeroPageY => {
                let zp = bus.mem_read_u8(self.registers.program_counter);
                zp.wrapping_add(self.registers.y) as u16
            },
            AddressingMode::Immediate => self.registers.program_counter,
            AddressingMode::Relative => {
                let offset = bus.mem_read_u8(self.registers.program_counter);
                // the operand byte read as a signed displacement
                let displacement: u16 = if offset >= 0x80 {
                    offset as u16 + 0xFF00
                } else {
                    offset as u16
                };
                self.registers.program_counter.wrapping_add(1).wrapping_add(displacement)
            },
            AddressingMode::Implicit => IMPLICIT_MODE_ADDR,
            AddressingMode::Accumulator => IMPLICIT_MODE_ADDR,
        }
    }

    /// Runs one decoded non-BRK instruction on operand and address.
    fn execute_instruction(&mut self, instruction: Instruction, operand: u8, addr: u16, bus: &mut Bus)
        requires
            old(bus)@.wf(),
            instruction.kind != InstructionKind::Brk,
        ensures
            final(bus)@.wf(),
            final(bus)@.rng_addr == old(bus)@.rng_addr,
            final(bus)@.rng_low == old(bus)@.rng_low,
            final(bus)@.rng_high == old(bus)@.rng_high,
            exists|rnd1: u8, rnd2: u8, rnd3: u8|
                bus::spec_rnd_any(old(bus)@, rnd1) && bus::spec_rnd_any(old(bus)@, rnd2)
                    && bus::spec_rnd_any(old(bus)@, rnd3) && (final(self).registers, final(bus)@)
                    == spec_execute(
                    instruction,
                    old(self).registers,
                    old(bus)@,
                    operand,
                    addr,
                    rnd1,
                    rnd2,
                    rnd3,
                ),
    {
        match instruction.kind() {
            InstructionKind::Adc => {
                self.adc(operand);
                proof { lemma_execute_regs_only(instruction, old(self).registers, old(bus)@, operand, addr, self.registers); }
            },
            InstructionKind::And => {
                self.and(operand);
                proof { lemma_execute_regs_only(instruction, old(self).registers, old(bus)@, operand, addr, self.registers); }
            },
            InstructionKind::Asl => {
                if instruction.addressing_mode() == AddressingMode::Accumulator {
                    self.asl_a();
                    proof { lemma_execute_regs_only(instruction, old(self).registers, old(bus)@, operand, addr, self.registers); }
                } else {
                    self.asl(operand, addr, bus);
                    proof {
                        let rnd = choose|rnd: u8|
                            bus::spec_rnd_any(old(bus)@, rnd) && (self.registers, bus@)
                                == spec_asl_mem(old(self).registers, old(bus)@, operand, addr, rnd);
                        lemma_execute_one_rnd(instruction, old(self).registers, old(bus)@, operand, addr, self.registers, bus@, rnd);
                    }
                }
            },
            InstructionKind::Bit => {
                self.bit(operand);
                proof { lemma_execute_regs_only(instruction, old(self).registers, old(bus)@, operand, addr, self.registers); }
            },
            InstructionKind::Bcc => {
                self.bcc(addr);
                proof { lemma_execute_regs_only(instruction, old(self).registers, old(bus)@, operand, addr, self.registers); }
            },
            InstructionKind::Bcs => {
                self.bcs(addr);
                proof { lemma_execute_regs_only(instruction, old(self).registers, old(bus)@, operand, addr, self.registers); }
            },
            InstructionKind::Beq => {
                self.beq(addr);
                proof { lemma_execute_regs_only(instruction, old(self).registers, old(bus)@, operand, addr, self.registers); }
            },
            InstructionKind::Bmi => {
                self.bmi(addr);
                proof { lemma_execute_regs_only(instruction, old(self).registers, old(bus)@, operand, addr, self.registers); }
            },
            InstructionKind::Bne => {
                self.bne(addr);
                proof { lemma_execute_regs_only(instruction, old(self).registers, old(bus)@, operand, addr, self.registers); }
            },
            InstructionKind::Bpl => {
                self.bpl(addr);
                proof { lemma_execute_regs_only(instruction, old(self).registers, old(bus)@, operand, addr, self.registers); }
            },
            InstructionKind::Bvc => {
                self.bvc(addr);
                proof { lemma_execute_regs_only(instruction, old(self).registers, old(bus)@, operand, addr, self.registers); }
            },
            InstructionKind::Bvs => {
                self.bvs(addr);
                proof { lemma_execute_regs_only(instruction, old(self).registers, old(bus)@, operand, addr, self.registers); }
            },
            InstructionKind::Clc => {
                self.clc();
                proof { lemma_execute_regs_only(instruction, old(self).registers, old(bus)@, operand, addr, self.registers); }
            },
            InstructionKind::Cld => {
                self.cld();
                proof { lemma_execute_regs_only(instruction, old(self).registers, old(bus)@, operand, addr, self.registers); }
            },
            InstructionKind::Cli => {
                self.cli();
                proof { lemma_execute_regs_only(instruction, old(self).registers, old(bus)@, operand, addr, self.registers); }
            },
            InstructionKind::Clv => {
                self.clv();
                proof { lemma_execute_regs_only(instruction, old(self).registers, old(bus)@, operand, addr, self.registers); }
            },
            InstructionKind::Cmp => {
                self.cmp(operand);
                proof { lemma_execute_regs_only(instruction, old(self).registers, old(bus)@, operand, addr, self.registers); }
            },
            InstructionKind::Cpx => {
                self.cpx(operand);
                proof { lemma_execute_regs_only(instruction, old(self).registers, old(bus)@, operand, addr, self.registers); }
            },
            InstructionKind::Cpy => {
                self.cpy(operand);
                proof { lemma_execute_regs_only(instruction, old(self).registers, old(bus)@, operand, addr, self.registers); }
            },
            InstructionKind::Dec => {
                self.dec(operand, addr, bus);
                proof {
                        let rnd = choose|rnd: u8|
                            bus::spec_rnd_any(old(bus)@, rnd) && (self.registers, bus@)
                                == spec_dec(old(self).registers, old(bus)@, operand, addr, rnd);
                        lemma_execute_one_rnd(instruction, old(self).registers, old(bus)@, operand, addr, self.registers, bus@, rnd);
                    }
            },
            InstructionKind::Dex => {
                self.dex();
                proof { lemma_execute_regs_only(instruction, old(self).registers, old(bus)@, operand, addr, self.registers); }
            },
            InstructionKind::Dey => {
                self.dey();
                proof { lemma_execute_regs_only(instruction, old(self).registers, old(bus)@, operand, addr, self.registers); }
            },
            InstructionKind::Eor => {
                self.eor(operand);
                proof { lemma_execute_regs_only(instruction, old(self).registers, old(bus)@, operand, addr, self.registers); }
            },
            InstructionKind::Inc => {
                self.inc(operand, addr, bus);
                proof {
                        let rnd = choose|rnd: u8|
                            bus::spec_rnd_any(old(bus)@, rnd) && (self.registers, bus@)
                                == spec_inc(old(self).registers, old(bus)@, operand, addr, rnd);
                        lemma_execute_one_rnd(instruction, old(self).registers, old(bus)@, operand, addr, self.registers, bus@, rnd);
                    }
            },
            InstructionKind::Inx => {
                self.inx();
                proof { lemma_execute_regs_only(instruction, old(self).registers, old(bus)@, operand, addr, self.registers); }
            },
            InstructionKind::Iny => {
                self.iny();
                proof { lemma_execute_regs_only(instruction, old(self).registers, old(bus)@, operand, addr, self.registers); }
            },
            InstructionKind::Jmp => {
                self.jmp(addr);
                proof { lemma_execute_regs_only(instruction, old(self).registers, old(bus)@, operand, addr, self.registers); }
            },
            InstructionKind::Jsr => {
                self.jsr(addr, bus);
                proof {
                    let (rnd1, rnd2) = choose|rnd1: u8, rnd2: u8|
                        bus::spec_rnd_any(old(bus)@, rnd1) && bus::spec_rnd_any(old(bus)@, rnd2)
                            && (self.registers, bus@) == spec_jsr(
                            old(self).registers,
                            old(bus)@,
                            addr,
                            rnd1,
                            rnd2,
                        );
                    assert(bus::spec_rnd_any(old(bus)@, 0u8) && (self.registers, bus@)
                        == spec_execute(
                        instruction,
                        old(self).registers,
                        old(bus)@,
                        operand,
                        addr,
                        rnd1,
                        rnd2,
                        0u8,
                    ));
                }
            },
            InstructionKind::Lda => {
                self.lda(operand);
                proof { lemma_execute_regs_only(instruction, old(self).registers, old(bus)@, operand, addr, self.registers); }
            },
            InstructionKind::Ldx => {
                self.ldx(operand);
                proof { lemma_execute_regs_only(instruction, old(self).registers, old(bus)@, operand, addr, self.registers); }
            },
            InstructionKind::Ldy => {
                self.ldy(operand);
                proof { lemma_execute_regs_only(instruction, old(self).registers, old(bus)@, operand, addr, self.registers); }
            },
            InstructionKind::Lsr => {
                if instruction.addressing_mode() == AddressingMode::Accumulator {
                    self.lsr_a();
                    proof { lemma_execute_regs_only(instruction, old(self).registers, old(bus)@, operand, addr, self.registers); }
                } else {
                    self.lsr(operand, addr, bus);
                    proof {
                        let rnd = choose|rnd: u8|
                            bus::spec_rnd_any(old(bus)@, rnd) && (self.registers, bus@)
                                == spec_lsr_mem(old(self).registers, old(bus)@, operand, addr, rnd);
                        lemma_execute_one_rnd(instruction, old(self).registers, old(bus)@, operand, addr, self.registers, bus@, rnd);
                    }
                }
            },
            InstructionKind::Nop => {
                self.nop();
                proof { lemma_execute_regs_only(instruction, old(self).registers, old(bus)@, operand, addr, self.registers); }
            },
            InstructionKind::Ora => {
                self.ora(operand);
                proof { lemma_execute_regs_only(instruction, old(self).registers, old(bus)@, operand, addr, self.registers); }
            },
            InstructionKind::Pha => {
                self.pha(bus);
                proof {
                        let rnd = choose|rnd: u8|
                            bus::spec_rnd_any(old(bus)@, rnd) && (self.registers, bus@)
                                == spec_pha(old(self).registers, old(bus)@, rnd);
                        lemma_execute_one_rnd(instruction, old(self).registers, old(bus)@, operand, addr, self.registers, bus@, rnd);
                    }
            },
            InstructionKind::Php => {
                self.php(bus);
                proof {
                        let rnd = choose|rnd: u8|
                            bus::spec_rnd_any(old(bus)@, rnd) && (self.registers, bus@)
                                == spec_php(old(self).registers, old(bus)@, rnd);
                        lemma_execute_one_rnd(instruction, old(self).registers, old(bus)@, operand, addr, self.registers, bus@, rnd);
                    }
            },
            InstructionKind::Pla => {
                self.pla(bus);
                proof { lemma_execute_regs_bus(instruction, old(self).registers, old(bus)@, operand, addr, self.registers, bus@); }
            },
            InstructionKind::Plp => {
                self.plp(bus);
                proof { lemma_execute_regs_bus(instruction, old(self).registers, old(bus)@, operand, addr, self.registers, bus@); }
            },
            InstructionKind::Rol => {
                if instruction.addressing_mode() == AddressingMode::Accumulator {
                    self.rol_a();
                    proof { lemma_execute_regs_only(instruction, old(self).registers, old(bus)@, operand, addr, self.registers); }
                } else {
                    self.rol(operand, addr, bus);
                    proof {
                        let rnd = choose|rnd: u8|
                            bus::spec_rnd_any(old(bus)@, rnd) && (self.registers, bus@)
                                == spec_rol_mem(old(self).registers, old(bus)@, operand, addr, rnd);
                        lemma_execute_one_rnd(instruction, old(self).registers, old(bus)@, operand, addr, self.registers, bus@, rnd);
                    }
                }
            },
            InstructionKind::Ror => {
                if instruction.addressing_mode() == AddressingMode::Accumulator {
                    self.ror_a();
                    proof { lemma_execute_regs_only(instruction, old(self).registers, old(bus)@, operand, addr, self.registers); }
                } else {
                    self.ror(operand, addr, bus);
                    proof {
                        let rnd = choose|rnd: u8|
                            bus::spec_rnd_any(old(bus)@, rnd) && (self.registers, bus@)
                                == spec_ror_mem(old(self).registers, old(bus)@, operand, addr, rnd);
                        lemma_execute_one_rnd(instruction, old(self).registers, old(bus)@, operand, addr, self.registers, bus@, rnd);
                    }
                }
            },
            InstructionKind::Rti => {
                self.rti(bus);
                proof { lemma_execute_regs_bus(instruction, old(self).registers, old(bus)@, operand, addr, self.registers, bus@); }
            },
            InstructionKind::Rts => {
                self.rts(bus);
                proof { lemma_execute_regs_bus(instruction, old(self).registers, old(bus)@, operand, addr, self.registers, bus@); }
            },
            InstructionKind::Sbc => {
                self.sbc(operand);
                proof { lemma_execute_regs_only(instruction, old(self).registers, old(bus)@, operand, addr, self.registers); }
            },
            InstructionKind::Sec => {
                self.sec();
                proof { lemma_execute_regs_only(instruction, old(self).registers, old(bus)@, operand, addr, self.registers); }
            },
            InstructionKind::Sed => {
                self.sed();
                proof { lemma_execute_regs_only(instruction, old(self).registers, old(bus)@, operand, addr, self.registers); }
            },
            InstructionKind::Sei => {
                self.sei();
                proof { lemma_execute_regs_only(instruction, old(self).registers, old(bus)@, operand, addr, self.registers); }
            },
            InstructionKind::Sta => {
                self.sta(addr, bus);
                proof {
                        let rnd = choose|rnd: u8|
                            bus::spec_rnd_any(old(bus)@, rnd) && (self.registers, bus@)
                                == spec_sta(old(self).registers, old(bus)@, addr, rnd);
                        lemma_execute_one_rnd(instruction, old(self).registers, old(bus)@, operand, addr, self.registers, bus@, rnd);
                    }
            },
            InstructionKind::Stx => {
                self.stx(addr, bus);
                proof {
                        let rnd = choose|rnd: u8|
                            bus::spec_rnd_any(old(bus)@, rnd) && (self.registers, bus@)
                                == spec_stx(old(self).registers, old(bus)@, addr, rnd);
                        lemma_execute_one_rnd(instruction, old(self).registers, old(bus)@, operand, addr, self.registers, bus@, rnd);
                    }
            },
            InstructionKind::Sty => {
                self.sty(addr, bus);
                proof {
                        let rnd = choose|rnd: u8|
                            bus::spec_rnd_any(old(bus)@, rnd) && (self.registers, bus@)
                                == spec_sty(old(self).registers, old(bus)@, addr, rnd);
                        lemma_execute_one_rnd(instruction, old(self).registers, old(bus)@, operand, addr, self.registers, bus@, rnd);
                    }
            },
            InstructionKind::Tax => {
                self.tax();
                proof { lemma_execute_regs_only(instruction, old(self).registers, old(bus)@, operand, addr, self.registers); }
            },
            InstructionKind::Tay => {
                self.tay();
                proof { lemma_execute_regs_only(instruction, old(self).registers, old(bus)@, operand, addr, self.registers); }
            },
            InstructionKind::Tsx => {
                self.tsx();
                proof { lemma_execute_regs_only(instruction, old(self).registers, old(bus)@, operand, addr, self.registers); }
            },
            InstructionKind::Txa => {
                self.txa();
                proof { lemma_execute_regs_only(instruction, old(self).registers, old(bus)@, operand, addr, self.registers); }
            },
            InstructionKind::Txs => {
                self.txs();
                proof { lemma_execute_regs_only(instruction, old(self).registers, old(bus)@, operand, addr, self.registers); }
            },
            InstructionKind::Tya => {
                self.tya();
                proof { lemma_execute_regs_only(instruction, old(self).registers, old(bus)@, operand, addr, self.registers); }
            },
            InstructionKind::Brk => {
                proof {
                    assert(false);
                }
            },
        }
    }

    /// One pass of the interpreter loop: fetch, decode, resolve, dispatch,
    /// and advance. The existential samples stand for whatever bytes the
    /// random register left behind during the step.
    pub fn step(&mut self, bus: &mut Bus) -> (outcome: StepOutcome)
        requires
            old(bus)@.wf(),
        ensures
            final(bus)@.wf(),
            final(bus)@.rng_addr == old(bus)@.rng_addr,
            final(bus)@.rng_low == old(bus)@.rng_low,
            final(bus)@.rng_high == old(bus)@.rng_high,
            exists|rnd1: u8, rnd2: u8, rnd3: u8|
                bus::spec_rnd_any(old(bus)@, rnd1) && bus::spec_rnd_any(old(bus)@, rnd2)
                    && bus::spec_rnd_any(old(bus)@, rnd3) && spec_step(
                    MachineModel { regs: old(self).registers, bus: old(bus)@ },
                    rnd1,
                    rnd2,
                    rnd3,
                ) == (MachineModel { regs: final(self).registers, bus: final(bus)@ }, outcome),
    {
        let ghost pre = MachineModel { regs: self.registers, bus: bus@ };
        let opcode = bus.mem_read_u8(self.registers.program_counter);
        let ghost b1 = bus@;
        match Instruction::try_from_opcode(opcode) {
            None => {
                proof {
                    assert(bus::spec_rnd_any(old(bus)@, 0u8) && spec_step(pre, 0u8, 0u8, 0u8) == (
                        MachineModel { regs: self.registers, bus: bus@ },
                        StepOutcome::UnknownOpcode(opcode),
                    ));
                }
                StepOutcome::UnknownOpcode(opcode)
            },
            Some(instruction) => {
                if instruction.kind() == InstructionKind::Brk {
                    self.brk(bus);
                    proof {
                        let (rnd1, rnd2, rnd3) = choose|rnd1: u8, rnd2: u8, rnd3: u8|
                            bus::spec_rnd_any(b1, rnd1) && bus::spec_rnd_any(b1, rnd2)
                                && bus::spec_rnd_any(b1, rnd3) && (self.registers, bus@)
                                == spec_brk(old(self).registers, b1, rnd1, rnd2, rnd3);
                        assert(b1.rng_low == old(bus)@.rng_low && b1.rng_high == old(
                            bus,
                        )@.rng_high);
                        assert(bus::spec_rnd_any(old(bus)@, rnd1) && bus::spec_rnd_any(
                            old(bus)@,
                            rnd2,
                        ) && bus::spec_rnd_any(old(bus)@, rnd3) && spec_step(
                            pre,
                            rnd1,
                            rnd2,
                            rnd3,
                        ) == (
                            MachineModel { regs: self.registers, bus: bus@ },
                            StepOutcome::Halted,
                        ));
                    }
                    StepOutcome::Halted
                } else {
                    self.registers.program_counter = self.registers.program_counter.wrapping_add(
                        1,
                    );
                    let previous_position = self.registers.program_counter;
                    let mode = instruction.addressing_mode();
                    let addr = self.get_operand_address(&mode, bus);
                    let ghost regs1 = self.registers;
                    let ghost b3 = bus@;
                    let operand = if addr != IMPLICIT_MODE_ADDR {
                        bus.mem_read_u8(addr)
                    } else {
                        0
                    };
                    let ghost b4 = bus@;
                    self.execute_instruction(instruction, operand, addr, bus);
                    let ghost (rnds1, rnds2, rnds3) = choose|rnd1: u8, rnd2: u8, rnd3: u8|
                        bus::spec_rnd_any(b4, rnd1) && bus::spec_rnd_any(b4, rnd2)
                            && bus::spec_rnd_any(b4, rnd3) && (self.registers, bus@)
                            == spec_execute(
                            instruction,
                            regs1,
                            b4,
                            operand,
                            addr,
                            rnd1,
                            rnd2,
                            rnd3,
                        );
                    if !self.has_branched(previous_position) {
                        self.registers.program_counter = self.registers.program_counter
                            .wrapping_add(instruction.addressing_mode().length_in_bytes());
                    }
                    proof {
                        assert(b4.rng_low == old(bus)@.rng_low && b4.rng_high == old(
                            bus,
                        )@.rng_high);
                        assert(bus::spec_rnd_any(old(bus)@, rnds1) && bus::spec_rnd_any(
                            old(bus)@,
                            rnds2,
                        ) && bus::spec_rnd_any(old(bus)@, rnds3) && spec_step(
                            pre,
                            rnds1,
                            rnds2,
                            rnds3,
                        ) == (MachineModel { regs: self.registers, bus: bus@ }, StepOutcome::Ran));
                    }
                    StepOutcome::Ran
                }
            },
        }
    }

    /// Loads the program counter from the reset vector and steps until the
    /// terminal BRK, a byte outside the supported opcode set, or the step
    /// budget of this call. The contract says the final state is reached
    /// from the reset state by ordinary steps, closed by one final step
    /// with the named outcome when the run ended in-band.
    pub fn run(&mut self, bus: &mut Bus) -> (exit: RunExit)
        requires
            old(bus)@.wf(),
        ensures
            final(bus)@.wf(),
            final(bus)@.rng_addr == old(bus)@.rng_addr,
            final(bus)@.rng_low == old(bus)@.rng_low,
            final(bus)@.rng_high == old(bus)@.rng_high,
            exit != RunExit::OutOfSteps ==> exists|
                n: nat,
                last: MachineModel,
                rnd1: u8,
                rnd2: u8,
                rnd3: u8,
            |
                spec_steps(spec_reset(old(self).registers, old(bus)@), last, n)
                    && bus::spec_rnd_any(last.bus, rnd1) && bus::spec_rnd_any(last.bus, rnd2)
                    && bus::spec_rnd_any(last.bus, rnd3) && spec_step(last, rnd1, rnd2, rnd3) == (
                    MachineModel { regs: final(self).registers, bus: final(bus)@ },
                    spec_exit_outcome(exit),
                ),
            exit == RunExit::OutOfSteps ==> spec_steps(
                spec_reset(old(self).registers, old(bus)@),
                MachineModel { regs: final(self).registers, bus: final(bus)@ },
                RUN_STEP_LIMIT as nat,
            ),
    {
        self.registers.program_counter = bus.mem_read_u16(PROGRAM_POINTER);
        let ghost start = MachineModel { regs: self.registers, bus: bus@ };
        proof {
            assert(start == spec_reset(old(self).registers, old(bus)@));
            assert(spec_steps(start, start, 0));
        }
        let mut fuel: u64 = RUN_STEP_LIMIT;
        while fuel > 0
            invariant
                bus@.wf(),
                bus@.rng_addr == old(bus)@.rng_addr,
                bus@.rng_low == old(bus)@.rng_low,
                bus@.rng_high == old(bus)@.rng_high,
                fuel <= RUN_STEP_LIMIT,
                start == spec_reset(old(self).registers, old(bus)@),
                spec_steps(
                    start,
                    MachineModel { regs: self.registers, bus: bus@ },
                    (RUN_STEP_LIMIT - fuel) as nat,
                ),
            decreases fuel,
        {
            let ghost pre = MachineModel { regs: self.registers, bus: bus@ };
            let ghost n0 = (RUN_STEP_LIMIT - fuel) as nat;
            let outcome = self.step(bus);
            let ghost (rnd1, rnd2, rnd3) = choose|rnd1: u8, rnd2: u8, rnd3: u8|
                bus::spec_rnd_any(pre.bus, rnd1) && bus::spec_rnd_any(pre.bus, rnd2)
                    && bus::spec_rnd_any(pre.bus, rnd3) && spec_step(pre, rnd1, rnd2, rnd3) == (
                    MachineModel { regs: self.registers, bus: bus@ },
                    outcome,
                );
            match outcome {
                StepOutcome::Ran => {
                    fuel = fuel - 1;
                    proof {
                        assert(spec_steps(
                            start,
                            MachineModel { regs: self.registers, bus: bus@ },
                            n0 + 1,
                        ));
                    }
                },
                StepOutcome::Halted => {
                    proof {
                        assert(spec_steps(start, pre, n0) && bus::spec_rnd_any(pre.bus, rnd1)
                            && bus::spec_rnd_any(pre.bus, rnd2) && bus::spec_rnd_any(
                            pre.bus,
                            rnd3,
                        ) && spec_step(pre, rnd1, rnd2, rnd3) == (
                            MachineModel { regs: self.registers, bus: bus@ },
                            spec_exit_outcome(RunExit::Brk),
                        ));
                    }
                    return RunExit::Brk;
                },
                StepOutcome::UnknownOpcode(opcode) => {
                    proof {
                        assert(spec_steps(start, pre, n0) && bus::spec_rnd_any(pre.bus, rnd1)
                            && bus::spec_rnd_any(pre.bus, rnd2) && bus::spec_rnd_any(
                            pre.bus,
                            rnd3,
                        ) && spec_step(pre, rnd1, rnd2, rnd3) == (
                            MachineModel { regs: self.registers, bus: bus@ },
                            spec_exit_outcome(RunExit::UnknownOpcode(opcode)),
                        ));
                    }
                    return RunExit::UnknownOpcode(opcode);
                },
            }
        }
        RunExit::OutOfSteps
    }
}

/// The flag law of every ALU result: after the N-and-Z update from an
/// 8-bit result `v`, the zero flag holds exactly when `v == 0` and the
/// negative flag exactly when bit 7 of `v` is set, whatever the status
/// byte held before.
pub proof fn lemma_nz_flags(p: u8, v: u8)
    by (bit_vector)
    ensures
        (spec_nz_bits(p, v) & ZERO == ZERO) <==> v == 0,
        (spec_nz_bits(p, v) & NEGATIVE == NEGATIVE) <==> (v & 0x80 != 0),
{
}

/// CLC on a status whose carry is already clear changes nothing.
pub proof fn lemma_clc_idempotent(r: Registers)
    requires
        r.status_flags.bits & CARRY != CARRY,
    ensures
        spec_remove_flag(r, CARRY) == r,
{
    let p = r.status_flags.bits;
    assert(p & !CARRY == p) by (bit_vector)
        requires
            p & CARRY != CARRY,
    ;
    assert(spec_remove_flag(r, CARRY) =~= r);
}

/// SEC on a status whose carry is already set changes nothing.
pub proof fn lemma_sec_idempotent(r: Registers)
    requires
        r.status_flags.bits & CARRY == CARRY,
    ensures
        spec_insert_flag(r, CARRY) == r,
{
    let p = r.status_flags.bits;
    assert(p | CARRY == p) by (bit_vector)
        requires
            p & CARRY == CARRY,
    ;
    assert(spec_insert_flag(r, CARRY) =~= r);
}

/// True of the eight conditional-branch mnemonics.
pub open spec fn spec_is_branch(kind: InstructionKind) -> bool {
    ||| kind == InstructionKind::Bcc
    ||| kind == InstructionKind::Bcs
    ||| kind == InstructionKind::Bne
    ||| kind == InstructionKind::Beq
    ||| kind == InstructionKind::Bpl
    ||| kind == InstructionKind::Bmi
    ||| kind == InstructionKind::Bvc
    ||| kind == InstructionKind::Bvs
}

/// The branch law: a step whose instruction is a conditional branch with a
/// false condition changes the program counter by the usual advance alone —
/// one opcode byte and one operand byte — and no register or flag.
pub proof fn lemma_branch_not_taken(
    s: MachineModel,
    inst: Instruction,
    rnd1: u8,
    rnd2: u8,
    rnd3: u8,
)
    requires
        instruction::spec_from_opcode(bus::spec_read8(s.bus, s.regs.program_counter).1) == Some(
            inst,
        ),
        spec_is_branch(inst.kind),
        inst.addressing_mode == AddressingMode::Relative,
        !spec_branch_condition(inst.kind, s.regs.status_flags.bits),
    ensures
        ({
            let (s2, outcome) = spec_step(s, rnd1, rnd2, rnd3);
            &&& outcome == StepOutcome::Ran
            &&& s2.regs.program_counter == s.regs.program_counter.wrapping_add(1).wrapping_add(1)
            &&& s2.regs.a == s.regs.a
            &&& s2.regs.x == s.regs.x
            &&& s2.regs.y == s.regs.y
            &&& s2.regs.stack_pointer == s.regs.stack_pointer
            &&& s2.regs.status_flags == s.regs.status_flags
        }),
{
}

/// Low addresses sit inside the 2 KiB RAM window and mirror to themselves.
proof fn lemma_low_addr_identity()
    by (bit_vector)
    ensures
        forall|x: u16| x <= 0x7FF ==> #[trigger] (x & 0x7FF) == x,
{
}

/// The stack round-trip law: for any byte `b` and any machine whose next
/// four instructions are `LDA #b; PHA; LDA #0; PLA` — placed above the
/// device window and below the address-space top, on the console's wiring —
/// the four steps run, leave `b` in the accumulator, and return the stack
/// pointer to its value before the push, whatever bytes the random
/// register would have sampled. A terminal BRK after the four steps pushes
/// three more bytes, so the pointer at the end of a whole run sits below
/// this restored value.
#[verifier::rlimit(100)]
pub proof fn lemma_stack_round_trip(
    s: MachineModel,
    b: u8,
    ra1: u8,
    ra2: u8,
    ra3: u8,
    rb1: u8,
    rb2: u8,
    rb3: u8,
    rc1: u8,
    rc2: u8,
    rc3: u8,
    rd1: u8,
    rd2: u8,
    rd3: u8,
)
    requires
        s.bus.wf(),
        s.bus.rng_addr == bus::RANDOM_ADDRESS,
        0x4019 <= s.regs.program_counter,
        s.regs.program_counter + 6 <= 0xFFFE,
        s.bus.mem[s.regs.program_counter as int] == 0xA9,
        s.bus.mem[s.regs.program_counter + 1] == b,
        s.bus.mem[s.regs.program_counter + 2] == 0x48,
        s.bus.mem[s.regs.program_counter + 3] == 0xA9,
        s.bus.mem[s.regs.program_counter + 4] == 0x00,
        s.bus.mem[s.regs.program_counter + 5] == 0x68,
    ensures
        ({
            let (s1, o1) = spec_step(s, ra1, ra2, ra3);
            let (s2, o2) = spec_step(s1, rb1, rb2, rb3);
            let (s3, o3) = spec_step(s2, rc1, rc2, rc3);
            let (s4, o4) = spec_step(s3, rd1, rd2, rd3);
            &&& o1 == StepOutcome::Ran
            &&& o2 == StepOutcome::Ran
            &&& o3 == StepOutcome::Ran
            &&& o4 == StepOutcome::Ran
            &&& s4.regs.a == b
            &&& s4.regs.stack_pointer == s.regs.stack_pointer
        }),
{
    lemma_low_addr_identity();
    let pc = s.regs.program_counter;
    let sa: u16 = (0x100 + s.regs.stack_pointer) as u16;
    assert(bus::spec_mirror_address(sa) == sa);
    let (s1, o1) = spec_step(s, ra1, ra2, ra3);
    assert(o1 == StepOutcome::Ran && s1.regs.a == b && s1.regs.program_counter == pc + 2
        && s1.regs.stack_pointer == s.regs.stack_pointer && s1.bus.mem == s.bus.mem);
    let (s2, o2) = spec_step(s1, rb1, rb2, rb3);
    assert(o2 == StepOutcome::Ran && s2.regs.a == b && s2.regs.program_counter == pc + 3
        && s2.regs.stack_pointer == s.regs.stack_pointer.wrapping_sub(1) && s2.bus.mem
        == s.bus.mem.update(sa as int, b));
    let (s3, o3) = spec_step(s2, rc1, rc2, rc3);
    assert(o3 == StepOutcome::Ran && s3.regs.a == 0 && s3.regs.program_counter == pc + 5
        && s3.regs.stack_pointer == s2.regs.stack_pointer && s3.bus.mem == s2.bus.mem);
    let (s4, o4) = spec_step(s3, rd1, rd2, rd3);
    assert(s3.regs.stack_pointer.wrapping_add(1) == s.regs.stack_pointer);
    assert(o4 == StepOutcome::Ran && s4.regs.a == b);
}

/// Packages the witness for an instruction that left the bus alone: if the
/// registers changed as `spec_execute` with all-zero samples says, the
/// existential form of the dispatch contract holds.
proof fn lemma_execute_regs_only(
    instruction: Instruction,
    r: Registers,
    b: BusModel,
    operand: u8,
    addr: u16,
    r2: Registers,
)
    requires
        (r2, b) == spec_execute(instruction, r, b, operand, addr, 0u8, 0u8, 0u8),
    ensures
        exists|rnd1: u8, rnd2: u8, rnd3: u8|
            bus::spec_rnd_any(b, rnd1) && bus::spec_rnd_any(b, rnd2) && bus::spec_rnd_any(b, rnd3)
                && (r2, b) == spec_execute(instruction, r, b, operand, addr, rnd1, rnd2, rnd3),
{
    assert(bus::spec_rnd_any(b, 0u8) && (r2, b) == spec_execute(
        instruction,
        r,
        b,
        operand,
        addr,
        0u8,
        0u8,
        0u8,
    ));
}

/// Packages the witness for an instruction with one possible sampled write.
proof fn lemma_execute_one_rnd(
    instruction: Instruction,
    r: Registers,
    b: BusModel,
    operand: u8,
    addr: u16,
    r2: Registers,
    b2: BusModel,
    rnd: u8,
)
    requires
        bus::spec_rnd_any(b, rnd),
        (r2, b2) == spec_execute(instruction, r, b, operand, addr, rnd, 0u8, 0u8),
    ensures
        exists|rnd1: u8, rnd2: u8, rnd3: u8|
            bus::spec_rnd_any(b, rnd1) && bus::spec_rnd_any(b, rnd2) && bus::spec_rnd_any(b, rnd3)
                && (r2, b2) == spec_execute(instruction, r, b, operand, addr, rnd1, rnd2, rnd3),
{
    assert(bus::spec_rnd_any(b, 0u8) && (r2, b2) == spec_execute(
        instruction,
        r,
        b,
        operand,
        addr,
        rnd,
        0u8,
        0u8,
    ));
}

/// Packages the witness for an instruction that read from the bus but
/// wrote nothing sampled.
proof fn lemma_execute_regs_bus(
    instruction: Instruction,
    r: Registers,
    b: BusModel,
    operand: u8,
    addr: u16,
    r2: Registers,
    b2: BusModel,
)
    requires
        (r2, b2) == spec_execute(instruction, r, b, operand, addr, 0u8, 0u8, 0u8),
    ensures
        exists|rnd1: u8, rnd2: u8, rnd3: u8|
            bus::spec_rnd_any(b, rnd1) && bus::spec_rnd_any(b, rnd2) && bus::spec_rnd_any(b, rnd3)
                && (r2, b2) == spec_execute(instruction, r, b, operand, addr, rnd1, rnd2, rnd3),
{
    assert(bus::spec_rnd_any(b, 0u8) && (r2, b2) == spec_execute(
        instruction,
        r,
        b,
        operand,
        addr,
        0u8,
        0u8,
        0u8,
    ));
}

} // verus!
