//! Instruction decoding: the supported opcodes, their mnemonics and
//! addressing modes, and the operand length of each mode.
use vstd::prelude::*;

verus! {

/// The 56 official mnemonics the interpreter supports.
#[derive(Clone, Copy, PartialEq, Eq, Structural, Debug)]
pub enum InstructionKind {
    Adc, And, Asl, Bit, Bpl, Bmi, Bvc, Bvs, Bcc, Bcs, Bne, Beq, Cmp, Cpx,
    Cpy, Dec, Eor, Clc, Sec, Cli, Sei, Clv, Cld, Sed, Inc, Jmp, Lda, Ldx,
    Ldy, Lsr, Ora, Tax, Txa, Dex, Inx, Tay, Tya, Dey, Iny, Rol, Ror, Sbc,
    Sta, Txs, Tsx, Pha, Pla, Php, Plp, Stx, Sty, Brk, Jsr, Nop, Rti, Rts,
}

/// The 13 addressing modes of the 6502.
#[derive(Clone, Copy, PartialEq, Eq, Structural, Debug)]
pub enum AddressingMode {
    Immediate,
    ZeroPage,
    ZeroPageX,
    ZeroPageY,
    Absolute,
    AbsoluteX,
    AbsoluteY,
    Indirect,
    IndirectX,
    IndirectY,
    Implicit,
    Accumulator,
    Relative,
}

/// The number of operand bytes that follow the opcode byte in each mode.
pub open spec fn spec_length_in_bytes(mode: AddressingMode) -> u16 {
    match mode {
        AddressingMode::Implicit | AddressingMode::Accumulator => 0,
        AddressingMode::Immediate
        | AddressingMode::ZeroPage
        | AddressingMode::ZeroPageX
        | AddressingMode::ZeroPageY
        | AddressingMode::IndirectX
        | AddressingMode::IndirectY
        | AddressingMode::Relative => 1,
        AddressingMode::Absolute
        | AddressingMode::AbsoluteX
        | AddressingMode::AbsoluteY
        | AddressingMode::Indirect => 2,
    }
}

impl AddressingMode {
    /// How many operand bytes this mode reads beyond the opcode.
    pub fn length_in_bytes(self) -> (len: u16)
        ensures
            len == spec_length_in_bytes(self),
    {
        match self {
            AddressingMode::Implicit | AddressingMode::Accumulator => 0,
            AddressingMode::Immediate
            | AddressingMode::ZeroPage
            | AddressingMode::ZeroPageX
            | AddressingMode::ZeroPageY
            | AddressingMode::IndirectX
            | AddressingMode::IndirectY
            | AddressingMode::Relative => 1,
            AddressingMode::Absolute
            | AddressingMode::AbsoluteX
            | AddressingMode::AbsoluteY
            | AddressingMode::Indirect => 2,
        }
    }
}

/// One decoded instruction: what to do and how to find the operand.
#[derive(Clone, Copy, PartialEq, Eq, Structural, Debug)]
pub struct Instruction {
    pub kind: InstructionKind,
    pub addressing_mode: AddressingMode,
}

/// The decode table: the instruction each supported opcode byte names, and
/// `None` for the bytes outside the supported set.
pub open spec fn spec_from_opcode(opcode: u8) -> Option<Instruction> {
    if opcode == 0x69 {
        Some(Instruction { kind: InstructionKind::Adc, addressing_mode: AddressingMode::Immediate })
    } else if opcode == 0x65 {
        Some(Instruction { kind: InstructionKind::Adc, addressing_mode: AddressingMode::ZeroPage })
    } else if opcode == 0x75 {
        Some(Instruction { kind: InstructionKind::Adc, addressing_mode: AddressingMode::ZeroPageX })
    } else if opcode == 0x6D {
        Some(Instruction { kind: InstructionKind::Adc, addressing_mode: AddressingMode::Absolute })
    } else if opcode == 0x7D {
        Some(Instruction { kind: InstructionKind::Adc, addressing_mode: AddressingMode::AbsoluteX })
    } else if opcode == 0x79 {
        Some(Instruction { kind: InstructionKind::Adc, addressing_mode: AddressingMode::AbsoluteY })
    } else if opcode == 0x61 {
        Some(Instruction { kind: InstructionKind::Adc, addressing_mode: AddressingMode::IndirectX })
    } else if opcode == 0x71 {
        Some(Instruction { kind: InstructionKind::Adc, addressing_mode: AddressingMode::IndirectY })
    } else if opcode == 0x29 {
        Some(Instruction { kind: InstructionKind::And, addressing_mode: AddressingMode::Immediate })
    } else if opcode == 0x25 {
        Some(Instruction { kind: InstructionKind::And, addressing_mode: AddressingMode::ZeroPage })
    } else if opcode == 0x35 {
        Some(Instruction { kind: InstructionKind::And, addressing_mode: AddressingMode::ZeroPageX })
    } else if opcode == 0x2D {
        Some(Instruction { kind: InstructionKind::And, addressing_mode: AddressingMode::Absolute })
    } else if opcode == 0x3D {
        Some(Instruction { kind: InstructionKind::And, addressing_mode: AddressingMode::AbsoluteX })
    } else if opcode == 0x39 {
        Some(Instruction { kind: InstructionKind::And, addressing_mode: AddressingMode::AbsoluteY })
    } else if opcode == 0x21 {
        Some(Instruction { kind: InstructionKind::And, addressing_mode: AddressingMode::IndirectX })
    } else if opcode == 0x31 {
        Some(Instruction { kind: InstructionKind::And, addressing_mode: AddressingMode::IndirectY })
    } else if opcode == 0x0A {
        Some(Instruction { kind: InstructionKind::Asl, addressing_mode: AddressingMode::Accumulator })
    } else if opcode == 0x06 {
        Some(Instruction { kind: InstructionKind::Asl, addressing_mode: AddressingMode::ZeroPage })
    } else if opcode == 0x16 {
        Some(Instruction { kind: InstructionKind::Asl, addressing_mode: AddressingMode::ZeroPageX })
    } else if opcode == 0x0E {
        Some(Instruction { kind: InstructionKind::Asl, addressing_mode: AddressingMode::Absolute })
    } else if opcode == 0x1E {
        Some(Instruction { kind: InstructionKind::Asl, addressing_mode: AddressingMode::AbsoluteX })
    } else if opcode == 0x24 {
        Some(Instruction { kind: InstructionKind::Bit, addressing_mode: AddressingMode::ZeroPage })
    } else if opcode == 0x2C {
        Some(Instruction { kind: InstructionKind::Bit, addressing_mode: AddressingMode::Absolute })
    } else if opcode == 0x10 {
        Some(Instruction { kind: InstructionKind::Bpl, addressing_mode: AddressingMode::Relative })
    } else if opcode == 0x30 {
        Some(Instruction { kind: InstructionKind::Bmi, addressing_mode: AddressingMode::Relative })
    } else if opcode == 0x50 {
        Some(Instruction { kind: InstructionKind::Bvc, addressing_mode: AddressingMode::Relative })
    } else if opcode == 0x70 {
        Some(Instruction { kind: InstructionKind::Bvs, addressing_mode: AddressingMode::Relative })
    } else if opcode == 0x90 {
        Some(Instruction { kind: InstructionKind::Bcc, addressing_mode: AddressingMode::Relative })
    } else if opcode == 0xB0 {
        Some(Instruction { kind: InstructionKind::Bcs, addressing_mode: AddressingMode::Relative })
    } else if opcode == 0xD0 {
        Some(Instruction { kind: InstructionKind::Bne, addressing_mode: AddressingMode::Relative })
    } else if opcode == 0xF0 {
        Some(Instruction { kind: InstructionKind::Beq, addressing_mode: AddressingMode::Relative })
    } else if opcode == 0xC9 {
        Some(Instruction { kind: InstructionKind::Cmp, addressing_mode: AddressingMode::Immediate })
    } else if opcode == 0xC5 {
        Some(Instruction { kind: InstructionKind::Cmp, addressing_mode: AddressingMode::ZeroPage })
    } else if opcode == 0xD5 {
        Some(Instruction { kind: InstructionKind::Cmp, addressing_mode: AddressingMode::ZeroPageX })
    } else if opcode == 0xCD {
        Some(Instruction { kind: InstructionKind::Cmp, addressing_mode: AddressingMode::Absolute })
    } else if opcode == 0xDD {
        Some(Instruction { kind: InstructionKind::Cmp, addressing_mode: AddressingMode::AbsoluteX })
    } else if opcode == 0xD9 {
        Some(Instruction { kind: InstructionKind::Cmp, addressing_mode: AddressingMode::AbsoluteY })
    } else if opcode == 0xC1 {
        Some(Instruction { kind: InstructionKind::Cmp, addressing_mode: AddressingMode::IndirectX })
    } else if opcode == 0xD1 {
        Some(Instruction { kind: InstructionKind::Cmp, addressing_mode: AddressingMode::IndirectY })
    } else if opcode == 0xE0 {
        Some(Instruction { kind: InstructionKind::Cpx, addressing_mode: AddressingMode::Immediate })
    } else if opcode == 0xE4 {
        Some(Instruction { kind: InstructionKind::Cpx, addressing_mode: AddressingMode::ZeroPage })
    } else if opcode == 0xEC {
        Some(Instruction { kind: InstructionKind::Cpx, addressing_mode: AddressingMode::Absolute })
    } else if opcode == 0xC0 {
        Some(Instruction { kind: InstructionKind::Cpy, addressing_mode: AddressingMode::Immediate })
    } else if opcode == 0xC4 {
        Some(Instruction { kind: InstructionKind::Cpy, addressing_mode: AddressingMode::ZeroPage })
    } else if opcode == 0xCC {
        Some(Instruction { kind: InstructionKind::Cpy, addressing_mode: AddressingMode::Absolute })
    } else if opcode == 0xC6 {
        Some(Instruction { kind: InstructionKind::Dec, addressing_mode: AddressingMode::ZeroPage })
    } else if opcode == 0xD6 {
        Some(Instruction { kind: InstructionKind::Dec, addressing_mode: AddressingMode::ZeroPageX })
    } else if opcode == 0xCE {
        Some(Instruction { kind: InstructionKind::Dec, addressing_mode: AddressingMode::Absolute })
    } else if opcode == 0xDE {
        Some(Instruction { kind: InstructionKind::Dec, addressing_mode: AddressingMode::AbsoluteX })
    } else if opcode == 0x49 {
        Some(Instruction { kind: InstructionKind::Eor, addressing_mode: AddressingMode::Immediate })
    } else if opcode == 0x45 {
        Some(Instruction { kind: InstructionKind::Eor, addressing_mode: AddressingMode::ZeroPage })
    } else if opcode == 0x55 {
        Some(Instruction { kind: InstructionKind::Eor, addressing_mode: AddressingMode::ZeroPageX })
    } else if opcode == 0x4D {
        Some(Instruction { kind: InstructionKind::Eor, addressing_mode: AddressingMode::Absolute })
    } else if opcode == 0x5D {
        Some(Instruction { kind: InstructionKind::Eor, addressing_mode: AddressingMode::AbsoluteX })
    } else if opcode == 0x59 {
        Some(Instruction { kind: InstructionKind::Eor, addressing_mode: AddressingMode::AbsoluteY })
    } else if opcode == 0x41 {
        Some(Instruction { kind: InstructionKind::Eor, addressing_mode: AddressingMode::IndirectX })
    } else if opcode == 0x51 {
        Some(Instruction { kind: InstructionKind::Eor, addressing_mode: AddressingMode::IndirectY })
    } else if opcode == 0x18 {
        Some(Instruction { kind: InstructionKind::Clc, addressing_mode: AddressingMode::Implicit })
    } else if opcode == 0x38 {
        Some(Instruction { kind: InstructionKind::Sec, addressing_mode: AddressingMode::Implicit })
    } else if opcode == 0x58 {
        Some(Instruction { kind: InstructionKind::Cli, addressing_mode: AddressingMode::Implicit })
    } else if opcode == 0x78 {
        Some(Instruction { kind: InstructionKind::Sei, addressing_mode: AddressingMode::Implicit })
    } else if opcode == 0xB8 {
        Some(Instruction { kind: InstructionKind::Clv, addressing_mode: AddressingMode::Implicit })
    } else if opcode == 0xD8 {
        Some(Instruction { kind: InstructionKind::Cld, addressing_mode: AddressingMode::Implicit })
    } else if opcode == 0xF8 {
        Some(Instruction { kind: InstructionKind::Sed, addressing_mode: AddressingMode::Implicit })
    } else if opcode == 0xE6 {
        Some(Instruction { kind: InstructionKind::Inc, addressing_mode: AddressingMode::ZeroPage })
    } else if opcode == 0xF6 {
        Some(Instruction { kind: InstructionKind::Inc, addressing_mode: AddressingMode::ZeroPageX })
    } else if opcode == 0xEE {
        Some(Instruction { kind: InstructionKind::Inc, addressing_mode: AddressingMode::Absolute })
    } else if opcode == 0xFE {
        Some(Instruction { kind: InstructionKind::Inc, addressing_mode: AddressingMode::AbsoluteX })
    } else if opcode == 0x4C {
        Some(Instruction { kind: InstructionKind::Jmp, addressing_mode: AddressingMode::Absolute })
    } else if opcode == 0x6C {
        Some(Instruction { kind: InstructionKind::Jmp, addressing_mode: AddressingMode::Indirect })
    } else if opcode == 0xA9 {
        Some(Instruction { kind: InstructionKind::Lda, addressing_mode: AddressingMode::Immediate })
    } else if opcode == 0xA5 {
        Some(Instruction { kind: InstructionKind::Lda, addressing_mode: AddressingMode::ZeroPage })
    } else if opcode == 0xB5 {
        Some(Instruction { kind: InstructionKind::Lda, addressing_mode: AddressingMode::ZeroPageX })
    } else if opcode == 0xAD {
        Some(Instruction { kind: InstructionKind::Lda, addressing_mode: AddressingMode::Absolute })
    } else if opcode == 0xBD {
        Some(Instruction { kind: InstructionKind::Lda, addressing_mode: AddressingMode::AbsoluteX })
    } else if opcode == 0xB9 {
        Some(Instruction { kind: InstructionKind::Lda, addressing_mode: AddressingMode::AbsoluteY })
    } else if opcode == 0xA1 {
        Some(Instruction { kind: InstructionKind::Lda, addressing_mode: AddressingMode::IndirectX })
    } else if opcode == 0xB1 {
        Some(Instruction { kind: InstructionKind::Lda, addressing_mode: AddressingMode::IndirectY })
    } else if opcode == 0xA2 {
        Some(Instruction { kind: InstructionKind::Ldx, addressing_mode: AddressingMode::Immediate })
    } else if opcode == 0xA6 {
        Some(Instruction { kind: InstructionKind::Ldx, addressing_mode: AddressingMode::ZeroPage })
    } else if opcode == 0xB6 {
        Some(Instruction { kind: InstructionKind::Ldx, addressing_mode: AddressingMode::ZeroPageY })
    } else if opcode == 0xAE {
        Some(Instruction { kind: InstructionKind::Ldx, addressing_mode: AddressingMode::Absolute })
    } else if opcode == 0xBE {
        Some(Instruction { kind: InstructionKind::Ldx, addressing_mode: AddressingMode::AbsoluteY })
    } else if opcode == 0xA0 {
        Some(Instruction { kind: InstructionKind::Ldy, addressing_mode: AddressingMode::Immediate })
    } else if opcode == 0xA4 {
        Some(Instruction { kind: InstructionKind::Ldy, addressing_mode: AddressingMode::ZeroPage })
    } else if opcode == 0xB4 {
        Some(Instruction { kind: InstructionKind::Ldy, addressing_mode: AddressingMode::ZeroPageX })
    } else if opcode == 0xAC {
        Some(Instruction { kind: InstructionKind::Ldy, addressing_mode: AddressingMode::Absolute })
    } else if opcode == 0xBC {
        Some(Instruction { kind: InstructionKind::Ldy, addressing_mode: AddressingMode::AbsoluteX })
    } else if opcode == 0x4A {
        Some(Instruction { kind: InstructionKind::Lsr, addressing_mode: AddressingMode::Accumulator })
    } else if opcode == 0x46 {
        Some(Instruction { kind: InstructionKind::Lsr, addressing_mode: AddressingMode::ZeroPage })
    } else if opcode == 0x56 {
        Some(Instruction { kind: InstructionKind::Lsr, addressing_mode: AddressingMode::ZeroPageX })
    } else if opcode == 0x4E {
        Some(Instruction { kind: InstructionKind::Lsr, addressing_mode: AddressingMode::Absolute })
    } else if opcode == 0x5E {
        Some(Instruction { kind: InstructionKind::Lsr, addressing_mode: AddressingMode::AbsoluteX })
    } else if opcode == 0x09 {
        Some(Instruction { kind: InstructionKind::Ora, addressing_mode: AddressingMode::Immediate })
    } else if opcode == 0x05 {
        Some(Instruction { kind: InstructionKind::Ora, addressing_mode: AddressingMode::ZeroPage })
    } else if opcode == 0x15 {
        Some(Instruction { kind: InstructionKind::Ora, addressing_mode: AddressingMode::ZeroPageX })
    } else if opcode == 0x0D {
        Some(Instruction { kind: InstructionKind::Ora, addressing_mode: AddressingMode::Absolute })
    } else if opcode == 0x1D {
        Some(Instruction { kind: InstructionKind::Ora, addressing_mode: AddressingMode::AbsoluteX })
    } else if opcode == 0x19 {
        Some(Instruction { kind: InstructionKind::Ora, addressing_mode: AddressingMode::AbsoluteY })
    } else if opcode == 0x01 {
        Some(Instruction { kind: InstructionKind::Ora, addressing_mode: AddressingMode::IndirectX })
    } else if opcode == 0x11 {
        Some(Instruction { kind: InstructionKind::Ora, addressing_mode: AddressingMode::IndirectY })
    } else if opcode == 0xAA {
        Some(Instruction { kind: InstructionKind::Tax, addressing_mode: AddressingMode::Implicit })
    } else if opcode == 0x8A {
        Some(Instruction { kind: InstructionKind::Txa, addressing_mode: AddressingMode::Implicit })
    } else if opcode == 0xCA {
        Some(Instruction { kind: InstructionKind::Dex, addressing_mode: AddressingMode::Implicit })
    } else if opcode == 0xE8 {
        Some(Instruction { kind: InstructionKind::Inx, addressing_mode: AddressingMode::Implicit })
    } else if opcode == 0xA8 {
        Some(Instruction { kind: InstructionKind::Tay, addressing_mode: AddressingMode::Implicit })
    } else if opcode == 0x98 {
        Some(Instruction { kind: InstructionKind::Tya, addressing_mode: AddressingMode::Implicit })
    } else if opcode == 0x88 {
        Some(Instruction { kind: InstructionKind::Dey, addressing_mode: AddressingMode::Implicit })
    } else if opcode == 0xC8 {
        Some(Instruction { kind: InstructionKind::Iny, addressing_mode: AddressingMode::Implicit })
    } else if opcode == 0x2A {
        Some(Instruction { kind: InstructionKind::Rol, addressing_mode: AddressingMode::Accumulator })
    } else if opcode == 0x26 {
        Some(Instruction { kind: InstructionKind::Rol, addressing_mode: AddressingMode::ZeroPage })
    } else if opcode == 0x36 {
        Some(Instruction { kind: InstructionKind::Rol, addressing_mode: AddressingMode::ZeroPageX })
    } else if opcode == 0x2E {
        Some(Instruction { kind: InstructionKind::Rol, addressing_mode: AddressingMode::Absolute })
    } else if opcode == 0x3E {
        Some(Instruction { kind: InstructionKind::Rol, addressing_mode: AddressingMode::AbsoluteX })
    } else if opcode == 0x6A {
        Some(Instruction { kind: InstructionKind::Ror, addressing_mode: AddressingMode::Accumulator })
    } else if opcode == 0x66 {
        Some(Instruction { kind: InstructionKind::Ror, addressing_mode: AddressingMode::ZeroPage })
    } else if opcode == 0x76 {
        Some(Instruction { kind: InstructionKind::Ror, addressing_mode: AddressingMode::ZeroPageX })
    } else if opcode == 0x6E {
        Some(Instruction { kind: InstructionKind::Ror, addressing_mode: AddressingMode::Absolute })
    } else if opcode == 0x7E {
        Some(Instruction { kind: InstructionKind::Ror, addressing_mode: AddressingMode::AbsoluteX })
    } else if opcode == 0xE9 {
        Some(Instruction { kind: InstructionKind::Sbc, addressing_mode: AddressingMode::Immediate })
    } else if opcode == 0xE5 {
        Some(Instruction { kind: InstructionKind::Sbc, addressing_mode: AddressingMode::ZeroPage })
    } else if opcode == 0xF5 {
        Some(Instruction { kind: InstructionKind::Sbc, addressing_mode: AddressingMode::ZeroPageX })
    } else if opcode == 0xED {
        Some(Instruction { kind: InstructionKind::Sbc, addressing_mode: AddressingMode::Absolute })
    } else if opcode == 0xFD {
        Some(Instruction { kind: InstructionKind::Sbc, addressing_mode: AddressingMode::AbsoluteX })
    } else if opcode == 0xF9 {
        Some(Instruction { kind: InstructionKind::Sbc, addressing_mode: AddressingMode::AbsoluteY })
    } else if opcode == 0xE1 {
        Some(Instruction { kind: InstructionKind::Sbc, addressing_mode: AddressingMode::IndirectX })
    } else if opcode == 0xF1 {
        Some(Instruction { kind: InstructionKind::Sbc, addressing_mode: AddressingMode::IndirectY })
    } else if opcode == 0x85 {
        Some(Instruction { kind: InstructionKind::Sta, addressing_mode: AddressingMode::ZeroPage })
    } else if opcode == 0x95 {
        Some(Instruction { kind: InstructionKind::Sta, addressing_mode: AddressingMode::ZeroPageX })
    } else if opcode == 0x8D {
        Some(Instruction { kind: InstructionKind::Sta, addressing_mode: AddressingMode::Absolute })
    } else if opcode == 0x9D {
        Some(Instruction { kind: InstructionKind::Sta, addressing_mode: AddressingMode::AbsoluteX })
    } else if opcode == 0x99 {
        Some(Instruction { kind: InstructionKind::Sta, addressing_mode: AddressingMode::AbsoluteY })
    } else if opcode == 0x81 {
        Some(Instruction { kind: InstructionKind::Sta, addressing_mode: AddressingMode::IndirectX })
    } else if opcode == 0x91 {
        Some(Instruction { kind: InstructionKind::Sta, addressing_mode: AddressingMode::IndirectY })
    } else if opcode == 0x9A {
        Some(Instruction { kind: InstructionKind::Txs, addressing_mode: AddressingMode::Implicit })
    } else if opcode == 0xBA {
        Some(Instruction { kind: InstructionKind::Tsx, addressing_mode: AddressingMode::Implicit })
    } else if opcode == 0x48 {
        Some(Instruction { kind: InstructionKind::Pha, addressing_mode: AddressingMode::Implicit })
    } else if opcode == 0x68 {
        Some(Instruction { kind: InstructionKind::Pla, addressing_mode: AddressingMode::Implicit })
    } else if opcode == 0x08 {
        Some(Instruction { kind: InstructionKind::Php, addressing_mode: AddressingMode::Implicit })
    } else if opcode == 0x28 {
        Some(Instruction { kind: InstructionKind::Plp, addressing_mode: AddressingMode::Implicit })
    } else if opcode == 0x86 {
        Some(Instruction { kind: InstructionKind::Stx, addressing_mode: AddressingMode::ZeroPage })
    } else if opcode == 0x96 {
        Some(Instruction { kind: InstructionKind::Stx, addressing_mode: AddressingMode::ZeroPageY })
    } else if opcode == 0x8E {
        Some(Instruction { kind: InstructionKind::Stx, addressing_mode: AddressingMode::Absolute })
    } else if opcode == 0x84 {
        Some(Instruction { kind: InstructionKind::Sty, addressing_mode: AddressingMode::ZeroPage })
    } else if opcode == 0x94 {
        Some(Instruction { kind: InstructionKind::Sty, addressing_mode: AddressingMode::ZeroPageX })
    } else if opcode == 0x8C {
        Some(Instruction { kind: InstructionKind::Sty, addressing_mode: AddressingMode::Absolute })
    } else if opcode == 0x00 {
        Some(Instruction { kind: InstructionKind::Brk, addressing_mode: AddressingMode::Implicit })
    } else if opcode == 0x20 {
        Some(Instruction { kind: InstructionKind::Jsr, addressing_mode: AddressingMode::Absolute })
    } else if opcode == 0xEA {
        Some(Instruction { kind: InstructionKind::Nop, addressing_mode: AddressingMode::Implicit })
    } else if opcode == 0x40 {
        Some(Instruction { kind: InstructionKind::Rti, addressing_mode: AddressingMode::Implicit })
    } else if opcode == 0x60 {
        Some(Instruction { kind: InstructionKind::Rts, addressing_mode: AddressingMode::Implicit })
    } else {
        None
    }
}

impl Instruction {
    /// Total decoding: `None` exactly on the opcode bytes outside the
    /// supported set.
    #[verifier::rlimit(50)]
    pub fn try_from_opcode(opcode: u8) -> (r: Option<Instruction>)
        ensures
            r == spec_from_opcode(opcode),
    {
        match opcode {
            0x69 => Some(Instruction { kind: InstructionKind::Adc, addressing_mode: AddressingMode::Immediate }),
            0x65 => Some(Instruction { kind: InstructionKind::Adc, addressing_mode: AddressingMode::ZeroPage }),
            0x75 => Some(Instruction { kind: InstructionKind::Adc, addressing_mode: AddressingMode::ZeroPageX }),
            0x6D => Some(Instruction { kind: InstructionKind::Adc, addressing_mode: AddressingMode::Absolute }),
            0x7D => Some(Instruction { kind: InstructionKind::Adc, addressing_mode: AddressingMode::AbsoluteX }),
            0x79 => Some(Instruction { kind: InstructionKind::Adc, addressing_mode: AddressingMode::AbsoluteY }),
            0x61 => Some(Instruction { kind: InstructionKind::Adc, addressing_mode: AddressingMode::IndirectX }),
            0x71 => Some(Instruction { kind: InstructionKind::Adc, addressing_mode: AddressingMode::IndirectY }),
            0x29 => Some(Instruction { kind: InstructionKind::And, addressing_mode: AddressingMode::Immediate }),
            0x25 => Some(Instruction { kind: InstructionKind::And, addressing_mode: AddressingMode::ZeroPage }),
            0x35 => Some(Instruction { kind: InstructionKind::And, addressing_mode: AddressingMode::ZeroPageX }),
            0x2D => Some(Instruction { kind: InstructionKind::And, addressing_mode: AddressingMode::Absolute }),
            0x3D => Some(Instruction { kind: InstructionKind::And, addressing_mode: AddressingMode::AbsoluteX }),
            0x39 => Some(Instruction { kind: InstructionKind::And, addressing_mode: AddressingMode::AbsoluteY }),
            0x21 => Some(Instruction { kind: InstructionKind::And, addressing_mode: AddressingMode::IndirectX }),
            0x31 => Some(Instruction { kind: InstructionKind::And, addressing_mode: AddressingMode::IndirectY }),
            0x0A => Some(Instruction { kind: InstructionKind::Asl, addressing_mode: AddressingMode::Accumulator }),
            0x06 => Some(Instruction { kind: InstructionKind::Asl, addressing_mode: AddressingMode::ZeroPage }),
            0x16 => Some(Instruction { kind: InstructionKind::Asl, addressing_mode: AddressingMode::ZeroPageX }),
            0x0E => Some(Instruction { kind: InstructionKind::Asl, addressing_mode: AddressingMode::Absolute }),
            0x1E => Some(Instruction { kind: InstructionKind::Asl, addressing_mode: AddressingMode::AbsoluteX }),
            0x24 => Some(Instruction { kind: InstructionKind::Bit, addressing_mode: AddressingMode::ZeroPage }),
            0x2C => Some(Instruction { kind: InstructionKind::Bit, addressing_mode: AddressingMode::Absolute }),
            0x10 => Some(Instruction { kind: InstructionKind::Bpl, addressing_mode: AddressingMode::Relative }),
            0x30 => Some(Instruction { kind: InstructionKind::Bmi, addressing_mode: AddressingMode::Relative }),
            0x50 => Some(Instruction { kind: InstructionKind::Bvc, addressing_mode: AddressingMode::Relative }),
            0x70 => Some(Instruction { kind: InstructionKind::Bvs, addressing_mode: AddressingMode::Relative }),
            0x90 => Some(Instruction { kind: InstructionKind::Bcc, addressing_mode: AddressingMode::Relative }),
            0xB0 => Some(Instruction { kind: InstructionKind::Bcs, addressing_mode: AddressingMode::Relative }),
            0xD0 => Some(Instruction { kind: InstructionKind::Bne, addressing_mode: AddressingMode::Relative }),
            0xF0 => Some(Instruction { kind: InstructionKind::Beq, addressing_mode: AddressingMode::Relative }),
            0xC9 => Some(Instruction { kind: InstructionKind::Cmp, addressing_mode: AddressingMode::Immediate }),
            0xC5 => Some(Instruction { kind: InstructionKind::Cmp, addressing_mode: AddressingMode::ZeroPage }),
            0xD5 => Some(Instruction { kind: InstructionKind::Cmp, addressing_mode: AddressingMode::ZeroPageX }),
            0xCD => Some(Instruction { kind: InstructionKind::Cmp, addressing_mode: AddressingMode::Absolute }),
            0xDD => Some(Instruction { kind: InstructionKind::Cmp, addressing_mode: AddressingMode::AbsoluteX }),
            0xD9 => Some(Instruction { kind: InstructionKind::Cmp, addressing_mode: AddressingMode::AbsoluteY }),
            0xC1 => Some(Instruction { kind: InstructionKind::Cmp, addressing_mode: AddressingMode::IndirectX }),
            0xD1 => Some(Instruction { kind: InstructionKind::Cmp, addressing_mode: AddressingMode::IndirectY }),
            0xE0 => Some(Instruction { kind: InstructionKind::Cpx, addressing_mode: AddressingMode::Immediate }),
            0xE4 => Some(Instruction { kind: InstructionKind::Cpx, addressing_mode: AddressingMode::ZeroPage }),
            0xEC => Some(Instruction { kind: InstructionKind::Cpx, addressing_mode: AddressingMode::Absolute }),
            0xC0 => Some(Instruction { kind: InstructionKind::Cpy, addressing_mode: AddressingMode::Immediate }),
            0xC4 => Some(Instruction { kind: InstructionKind::Cpy, addressing_mode: AddressingMode::ZeroPage }),
            0xCC => Some(Instruction { kind: InstructionKind::Cpy, addressing_mode: AddressingMode::Absolute }),
            0xC6 => Some(Instruction { kind: InstructionKind::Dec, addressing_mode: AddressingMode::ZeroPage }),
            0xD6 => Some(Instruction { kind: InstructionKind::Dec, addressing_mode: AddressingMode::ZeroPageX }),
            0xCE => Some(Instruction { kind: InstructionKind::Dec, addressing_mode: AddressingMode::Absolute }),
            0xDE => Some(Instruction { kind: InstructionKind::Dec, addressing_mode: AddressingMode::AbsoluteX }),
            0x49 => Some(Instruction { kind: InstructionKind::Eor, addressing_mode: AddressingMode::Immediate }),
            0x45 => Some(Instruction { kind: InstructionKind::Eor, addressing_mode: AddressingMode::ZeroPage }),
            0x55 => Some(Instruction { kind: InstructionKind::Eor, addressing_mode: AddressingMode::ZeroPageX }),
            0x4D => Some(Instruction { kind: InstructionKind::Eor, addressing_mode: AddressingMode::Absolute }),
            0x5D => Some(Instruction { kind: InstructionKind::Eor, addressing_mode: AddressingMode::AbsoluteX }),
            0x59 => Some(Instruction { kind: InstructionKind::Eor, addressing_mode: AddressingMode::AbsoluteY }),
            0x41 => Some(Instruction { kind: InstructionKind::Eor, addressing_mode: AddressingMode::IndirectX }),
            0x51 => Some(Instruction { kind: InstructionKind::Eor, addressing_mode: AddressingMode::IndirectY }),
            0x18 => Some(Instruction { kind: InstructionKind::Clc, addressing_mode: AddressingMode::Implicit }),
            0x38 => Some(Instruction { kind: InstructionKind::Sec, addressing_mode: AddressingMode::Implicit }),
            0x58 => Some(Instruction { kind: InstructionKind::Cli, addressing_mode: AddressingMode::Implicit }),
            0x78 => Some(Instruction { kind: InstructionKind::Sei, addressing_mode: AddressingMode::Implicit }),
            0xB8 => Some(Instruction { kind: InstructionKind::Clv, addressing_mode: AddressingMode::Implicit }),
            0xD8 => Some(Instruction { kind: InstructionKind::Cld, addressing_mode: AddressingMode::Implicit }),
            0xF8 => Some(Instruction { kind: InstructionKind::Sed, addressing_mode: AddressingMode::Implicit }),
            0xE6 => Some(Instruction { kind: InstructionKind::Inc, addressing_mode: AddressingMode::ZeroPage }),
            0xF6 => Some(Instruction { kind: InstructionKind::Inc, addressing_mode: AddressingMode::ZeroPageX }),
            0xEE => Some(Instruction { kind: InstructionKind::Inc, addressing_mode: AddressingMode::Absolute }),
            0xFE => Some(Instruction { kind: InstructionKind::Inc, addressing_mode: AddressingMode::AbsoluteX }),
            0x4C => Some(Instruction { kind: InstructionKind::Jmp, addressing_mode: AddressingMode::Absolute }),
            0x6C => Some(Instruction { kind: InstructionKind::Jmp, addressing_mode: AddressingMode::Indirect }),
            0xA9 => Some(Instruction { kind: InstructionKind::Lda, addressing_mode: AddressingMode::Immediate }),
            0xA5 => Some(Instruction { kind: InstructionKind::Lda, addressing_mode: AddressingMode::ZeroPage }),
            0xB5 => Some(Instruction { kind: InstructionKind::Lda, addressing_mode: AddressingMode::ZeroPageX }),
            0xAD => Some(Instruction { kind: InstructionKind::Lda, addressing_mode: AddressingMode::Absolute }),
            0xBD => Some(Instruction { kind: InstructionKind::Lda, addressing_mode: AddressingMode::AbsoluteX }),
            0xB9 => Some(Instruction { kind: InstructionKind::Lda, addressing_mode: AddressingMode::AbsoluteY }),
            0xA1 => Some(Instruction { kind: InstructionKind::Lda, addressing_mode: AddressingMode::IndirectX }),
            0xB1 => Some(Instruction { kind: InstructionKind::Lda, addressing_mode: AddressingMode::IndirectY }),
            0xA2 => Some(Instruction { kind: InstructionKind::Ldx, addressing_mode: AddressingMode::Immediate }),
            0xA6 => Some(Instruction { kind: InstructionKind::Ldx, addressing_mode: AddressingMode::ZeroPage }),
            0xB6 => Some(Instruction { kind: InstructionKind::Ldx, addressing_mode: AddressingMode::ZeroPageY }),
            0xAE => Some(Instruction { kind: InstructionKind::Ldx, addressing_mode: AddressingMode::Absolute }),
            0xBE => Some(Instruction { kind: InstructionKind::Ldx, addressing_mode: AddressingMode::AbsoluteY }),
            0xA0 => Some(Instruction { kind: InstructionKind::Ldy, addressing_mode: AddressingMode::Immediate }),
            0xA4 => Some(Instruction { kind: InstructionKind::Ldy, addressing_mode: AddressingMode::ZeroPage }),
            0xB4 => Some(Instruction { kind: InstructionKind::Ldy, addressing_mode: AddressingMode::ZeroPageX }),
            0xAC => Some(Instruction { kind: InstructionKind::Ldy, addressing_mode: AddressingMode::Absolute }),
            0xBC => Some(Instruction { kind: InstructionKind::Ldy, addressing_mode: AddressingMode::AbsoluteX }),
            0x4A => Some(Instruction { kind: InstructionKind::Lsr, addressing_mode: AddressingMode::Accumulator }),
            0x46 => Some(Instruction { kind: InstructionKind::Lsr, addressing_mode: AddressingMode::ZeroPage }),
            0x56 => Some(Instruction { kind: InstructionKind::Lsr, addressing_mode: AddressingMode::ZeroPageX }),
            0x4E => Some(Instruction { kind: InstructionKind::Lsr, addressing_mode: AddressingMode::Absolute }),
            0x5E => Some(Instruction { kind: InstructionKind::Lsr, addressing_mode: AddressingMode::AbsoluteX }),
            0x09 => Some(Instruction { kind: InstructionKind::Ora, addressing_mode: AddressingMode::Immediate }),
            0x05 => Some(Instruction { kind: InstructionKind::Ora, addressing_mode: AddressingMode::ZeroPage }),
            0x15 => Some(Instruction { kind: InstructionKind::Ora, addressing_mode: AddressingMode::ZeroPageX }),
            0x0D => Some(Instruction { kind: InstructionKind::Ora, addressing_mode: AddressingMode::Absolute }),
            0x1D => Some(Instruction { kind: InstructionKind::Ora, addressing_mode: AddressingMode::AbsoluteX }),
            0x19 => Some(Instruction { kind: InstructionKind::Ora, addressing_mode: AddressingMode::AbsoluteY }),
            0x01 => Some(Instruction { kind: InstructionKind::Ora, addressing_mode: AddressingMode::IndirectX }),
            0x11 => Some(Instruction { kind: InstructionKind::Ora, addressing_mode: AddressingMode::IndirectY }),
            0xAA => Some(Instruction { kind: InstructionKind::Tax, addressing_mode: AddressingMode::Implicit }),
            0x8A => Some(Instruction { kind: InstructionKind::Txa, addressing_mode: AddressingMode::Implicit }),
            0xCA => Some(Instruction { kind: InstructionKind::Dex, addressing_mode: AddressingMode::Implicit }),
            0xE8 => Some(Instruction { kind: InstructionKind::Inx, addressing_mode: AddressingMode::Implicit }),
            0xA8 => Some(Instruction { kind: InstructionKind::Tay, addressing_mode: AddressingMode::Implicit }),
            0x98 => Some(Instruction { kind: InstructionKind::Tya, addressing_mode: AddressingMode::Implicit }),
            0x88 => Some(Instruction { kind: InstructionKind::Dey, addressing_mode: AddressingMode::Implicit }),
            0xC8 => Some(Instruction { kind: InstructionKind::Iny, addressing_mode: AddressingMode::Implicit }),
            0x2A => Some(Instruction { kind: InstructionKind::Rol, addressing_mode: AddressingMode::Accumulator }),
            0x26 => Some(Instruction { kind: InstructionKind::Rol, addressing_mode: AddressingMode::ZeroPage }),
            0x36 => Some(Instruction { kind: InstructionKind::Rol, addressing_mode: AddressingMode::ZeroPageX }),
            0x2E => Some(Instruction { kind: InstructionKind::Rol, addressing_mode: AddressingMode::Absolute }),
            0x3E => Some(Instruction { kind: InstructionKind::Rol, addressing_mode: AddressingMode::AbsoluteX }),
            0x6A => Some(Instruction { kind: InstructionKind::Ror, addressing_mode: AddressingMode::Accumulator }),
            0x66 => Some(Instruction { kind: InstructionKind::Ror, addressing_mode: AddressingMode::ZeroPage }),
            0x76 => Some(Instruction { kind: InstructionKind::Ror, addressing_mode: AddressingMode::ZeroPageX }),
            0x6E => Some(Instruction { kind: InstructionKind::Ror, addressing_mode: AddressingMode::Absolute }),
            0x7E => Some(Instruction { kind: InstructionKind::Ror, addressing_mode: AddressingMode::AbsoluteX }),
            0xE9 => Some(Instruction { kind: InstructionKind::Sbc, addressing_mode: AddressingMode::Immediate }),
            0xE5 => Some(Instruction { kind: InstructionKind::Sbc, addressing_mode: AddressingMode::ZeroPage }),
            0xF5 => Some(Instruction { kind: InstructionKind::Sbc, addressing_mode: AddressingMode::ZeroPageX }),
            0xED => Some(Instruction { kind: InstructionKind::Sbc, addressing_mode: AddressingMode::Absolute }),
            0xFD => Some(Instruction { kind: InstructionKind::Sbc, addressing_mode: AddressingMode::AbsoluteX }),
            0xF9 => Some(Instruction { kind: InstructionKind::Sbc, addressing_mode: AddressingMode::AbsoluteY }),
            0xE1 => Some(Instruction { kind: InstructionKind::Sbc, addressing_mode: AddressingMode::IndirectX }),
            0xF1 => Some(Instruction { kind: InstructionKind::Sbc, addressing_mode: AddressingMode::IndirectY }),
            0x85 => Some(Instruction { kind: InstructionKind::Sta, addressing_mode: AddressingMode::ZeroPage }),
            0x95 => Some(Instruction { kind: InstructionKind::Sta, addressing_mode: AddressingMode::ZeroPageX }),
            0x8D => Some(Instruction { kind: InstructionKind::Sta, addressing_mode: AddressingMode::Absolute }),
            0x9D => Some(Instruction { kind: InstructionKind::Sta, addressing_mode: AddressingMode::AbsoluteX }),
            0x99 => Some(Instruction { kind: InstructionKind::Sta, addressing_mode: AddressingMode::AbsoluteY }),
            0x81 => Some(Instruction { kind: InstructionKind::Sta, addressing_mode: AddressingMode::IndirectX }),
            0x91 => Some(Instruction { kind: InstructionKind::Sta, addressing_mode: AddressingMode::IndirectY }),
            0x9A => Some(Instruction { kind: InstructionKind::Txs, addressing_mode: AddressingMode::Implicit }),
            0xBA => Some(Instruction { kind: InstructionKind::Tsx, addressing_mode: AddressingMode::Implicit }),
            0x48 => Some(Instruction { kind: InstructionKind::Pha, addressing_mode: AddressingMode::Implicit }),
            0x68 => Some(Instruction { kind: InstructionKind::Pla, addressing_mode: AddressingMode::Implicit }),
            0x08 => Some(Instruction { kind: InstructionKind::Php, addressing_mode: AddressingMode::Implicit }),
            0x28 => Some(Instruction { kind: InstructionKind::Plp, addressing_mode: AddressingMode::Implicit }),
            0x86 => Some(Instruction { kind: InstructionKind::Stx, addressing_mode: AddressingMode::ZeroPage }),
            0x96 => Some(Instruction { kind: InstructionKind::Stx, addressing_mode: AddressingMode::ZeroPageY }),
            0x8E => Some(Instruction { kind: InstructionKind::Stx, addressing_mode: AddressingMode::Absolute }),
            0x84 => Some(Instruction { kind: InstructionKind::Sty, addressing_mode: AddressingMode::ZeroPage }),
            0x94 => Some(Instruction { kind: InstructionKind::Sty, addressing_mode: AddressingMode::ZeroPageX }),
            0x8C => Some(Instruction { kind: InstructionKind::Sty, addressing_mode: AddressingMode::Absolute }),
            0x00 => Some(Instruction { kind: InstructionKind::Brk, addressing_mode: AddressingMode::Implicit }),
            0x20 => Some(Instruction { kind: InstructionKind::Jsr, addressing_mode: AddressingMode::Absolute }),
            0xEA => Some(Instruction { kind: InstructionKind::Nop, addressing_mode: AddressingMode::Implicit }),
            0x40 => Some(Instruction { kind: InstructionKind::Rti, addressing_mode: AddressingMode::Implicit }),
            0x60 => Some(Instruction { kind: InstructionKind::Rts, addressing_mode: AddressingMode::Implicit }),
            _ => None,
        }
    }

    /// Decoding of a supported opcode. A byte outside the supported set is a
    /// caller error; the interpreter reports it through its run result
    /// instead of calling this.
    pub fn from_opcode(opcode: u8) -> (r: Instruction)
        requires
            spec_from_opcode(opcode).is_some(),
        ensures
            Some(r) == spec_from_opcode(opcode),
    {
        match Self::try_from_opcode(opcode) {
            Some(instruction) => instruction,
            None => vstd::pervasive::unreached(),
        }
    }

    pub fn kind(&self) -> (k: InstructionKind)
        ensures
            k == self.kind,
    {
        self.kind
    }

    pub fn addressing_mode(&self) -> (m: AddressingMode)
        ensures
            m == self.addressing_mode,
    {
        self.addressing_mode
    }
}

} // verus!
