//! The static instruction descriptor table: one row for each supported
//! opcode, carrying its mnemonic, its addressing mode, and its full
//! encoded length in bytes. The rows are derived from the decoder, so the
//! table provably lists exactly the supported opcodes, each one once, in
//! opcode order, with the length the mode rule prescribes.
use vstd::prelude::*;

use std::collections::HashMap;

use crate::cpu::instruction::{AddressingMode, InstructionKind};

verus! {

broadcast use vstd::std_specs::hash::group_hash_axioms;

/// The full encoded length in bytes the mode rule gives an instruction:
/// the opcode byte plus the mode's operand bytes.
pub open spec fn spec_mode_length(mode: AddressingMode) -> u8 {
    (1 + crate::cpu::instruction::spec_length_in_bytes(mode)) as u8
}

/// The mode rule applied by executable code.
pub fn mode_length(mode: AddressingMode) -> (len: u8)
    ensures
        len == spec_mode_length(mode),
{
    1 + mode.length_in_bytes() as u8
}

/// The characters of each mnemonic.
pub open spec fn spec_kind_name(kind: InstructionKind) -> Seq<char> {
    match kind {
        InstructionKind::Adc => "ADC"@,
        InstructionKind::And => "AND"@,
        InstructionKind::Asl => "ASL"@,
        InstructionKind::Bit => "BIT"@,
        InstructionKind::Bpl => "BPL"@,
        InstructionKind::Bmi => "BMI"@,
        InstructionKind::Bvc => "BVC"@,
        InstructionKind::Bvs => "BVS"@,
        InstructionKind::Bcc => "BCC"@,
        InstructionKind::Bcs => "BCS"@,
        InstructionKind::Bne => "BNE"@,
        InstructionKind::Beq => "BEQ"@,
        InstructionKind::Cmp => "CMP"@,
        InstructionKind::Cpx => "CPX"@,
        InstructionKind::Cpy => "CPY"@,
        InstructionKind::Dec => "DEC"@,
        InstructionKind::Eor => "EOR"@,
        InstructionKind::Clc => "CLC"@,
        InstructionKind::Sec => "SEC"@,
        InstructionKind::Cli => "CLI"@,
        InstructionKind::Sei => "SEI"@,
        InstructionKind::Clv => "CLV"@,
        InstructionKind::Cld => "CLD"@,
        InstructionKind::Sed => "SED"@,
        InstructionKind::Inc => "INC"@,
        InstructionKind::Jmp => "JMP"@,
        InstructionKind::Lda => "LDA"@,
        InstructionKind::Ldx => "LDX"@,
        InstructionKind::Ldy => "LDY"@,
        InstructionKind::Lsr => "LSR"@,
        InstructionKind::Ora => "ORA"@,
        InstructionKind::Tax => "TAX"@,
        InstructionKind::Txa => "TXA"@,
        InstructionKind::Dex => "DEX"@,
        InstructionKind::Inx => "INX"@,
        InstructionKind::Tay => "TAY"@,
        InstructionKind::Tya => "TYA"@,
        InstructionKind::Dey => "DEY"@,
        InstructionKind::Iny => "INY"@,
        InstructionKind::Rol => "ROL"@,
        InstructionKind::Ror => "ROR"@,
        InstructionKind::Sbc => "SBC"@,
        InstructionKind::Sta => "STA"@,
        InstructionKind::Txs => "TXS"@,
        InstructionKind::Tsx => "TSX"@,
        InstructionKind::Pha => "PHA"@,
        InstructionKind::Pla => "PLA"@,
        InstructionKind::Php => "PHP"@,
        InstructionKind::Plp => "PLP"@,
        InstructionKind::Stx => "STX"@,
        InstructionKind::Sty => "STY"@,
        InstructionKind::Brk => "BRK"@,
        InstructionKind::Jsr => "JSR"@,
        InstructionKind::Nop => "NOP"@,
        InstructionKind::Rti => "RTI"@,
        InstructionKind::Rts => "RTS"@,
    }
}

/// The mnemonic of an instruction kind.
pub fn kind_name(kind: InstructionKind) -> (name: &'static str)
    ensures
        name@ == spec_kind_name(kind),
{
    match kind {
            InstructionKind::Adc => "ADC",
            InstructionKind::And => "AND",
            InstructionKind::Asl => "ASL",
            InstructionKind::Bit => "BIT",
            InstructionKind::Bpl => "BPL",
            InstructionKind::Bmi => "BMI",
            InstructionKind::Bvc => "BVC",
            InstructionKind::Bvs => "BVS",
            InstructionKind::Bcc => "BCC",
            InstructionKind::Bcs => "BCS",
            InstructionKind::Bne => "BNE",
            InstructionKind::Beq => "BEQ",
            InstructionKind::Cmp => "CMP",
            InstructionKind::Cpx => "CPX",
            InstructionKind::Cpy => "CPY",
            InstructionKind::Dec => "DEC",
            InstructionKind::Eor => "EOR",
            InstructionKind::Clc => "CLC",
            InstructionKind::Sec => "SEC",
            InstructionKind::Cli => "CLI",
            InstructionKind::Sei => "SEI",
            InstructionKind::Clv => "CLV",
            InstructionKind::Cld => "CLD",
            InstructionKind::Sed => "SED",
            InstructionKind::Inc => "INC",
            InstructionKind::Jmp => "JMP",
            InstructionKind::Lda => "LDA",
            InstructionKind::Ldx => "LDX",
            InstructionKind::Ldy => "LDY",
            InstructionKind::Lsr => "LSR",
            InstructionKind::Ora => "ORA",
            InstructionKind::Tax => "TAX",
            InstructionKind::Txa => "TXA",
            InstructionKind::Dex => "DEX",
            InstructionKind::Inx => "INX",
            InstructionKind::Tay => "TAY",
            InstructionKind::Tya => "TYA",
            InstructionKind::Dey => "DEY",
            InstructionKind::Iny => "INY",
            InstructionKind::Rol => "ROL",
            InstructionKind::Ror => "ROR",
            InstructionKind::Sbc => "SBC",
            InstructionKind::Sta => "STA",
            InstructionKind::Txs => "TXS",
            InstructionKind::Tsx => "TSX",
            InstructionKind::Pha => "PHA",
            InstructionKind::Pla => "PLA",
            InstructionKind::Php => "PHP",
            InstructionKind::Plp => "PLP",
            InstructionKind::Stx => "STX",
            InstructionKind::Sty => "STY",
            InstructionKind::Brk => "BRK",
            InstructionKind::Jsr => "JSR",
            InstructionKind::Nop => "NOP",
            InstructionKind::Rti => "RTI",
            InstructionKind::Rts => "RTS",
    }
}

/// One row of the table.
#[derive(Clone, Copy, Debug)]
pub struct Instruction {
    pub name: &'static str,
    pub opcode: u8,
    pub mode: AddressingMode,
    pub len: u8,
}

/// The length rule holds of a table row: its stated length is what its
/// mode prescribes.
pub open spec fn spec_entry_coherent(i: Instruction) -> bool {
    i.len == spec_mode_length(i.mode)
}

/// A row tells the truth: its opcode is supported, its mode is the decoded
/// mode, its name is the decoded mnemonic, and its length follows the
/// mode rule.
pub open spec fn spec_row_ok(row: Instruction) -> bool {
    match crate::cpu::instruction::spec_from_opcode(row.opcode) {
        Some(decoded) => {
            &&& row.mode == decoded.addressing_mode
            &&& row.name@ == spec_kind_name(decoded.kind)
            &&& spec_entry_coherent(row)
        },
        None => false,
    }
}

/// How many of the opcode bytes below `n` the decoder supports.
pub open spec fn spec_count_supported(n: int) -> int
    decreases n,
{
    if n <= 0 {
        0
    } else {
        spec_count_supported(n - 1) + if crate::cpu::instruction::spec_from_opcode(
            (n - 1) as u8,
        ).is_some() {
            1int
        } else {
            0int
        }
    }
}

/// Every row of the table, in opcode order: one truthful row for each
/// supported opcode, no duplicates, none missing. Distinctness and
/// completeness together pin the number of rows to the number of
/// supported opcodes, 151.
pub fn instructions() -> (v: Vec<Instruction>)
    ensures
        v@.len() == spec_count_supported(256),
        forall|k: int| 0 <= k < v@.len() ==> spec_row_ok(#[trigger] v@[k]),
        forall|j: int, k: int| 0 <= j < k < v@.len() ==> v@[j].opcode < v@[k].opcode,
        forall|op: u8|
            crate::cpu::instruction::spec_from_opcode(op).is_some() ==> exists|k: int|
                0 <= k < v@.len() && (#[trigger] v@[k]).opcode == op,
{
    let mut v: Vec<Instruction> = Vec::new();
    let mut opcode: usize = 0;
    while opcode < 256
        invariant
            opcode <= 256,
            v@.len() == spec_count_supported(opcode as int),
            forall|k: int| 0 <= k < v@.len() ==> spec_row_ok(#[trigger] v@[k]),
            forall|k: int| 0 <= k < v@.len() ==> (#[trigger] v@[k]).opcode < opcode,
            forall|j: int, k: int| 0 <= j < k < v@.len() ==> v@[j].opcode < v@[k].opcode,
            forall|op: u8|
                op < opcode && crate::cpu::instruction::spec_from_opcode(op).is_some()
                    ==> exists|k: int| 0 <= k < v@.len() && (#[trigger] v@[k]).opcode == op,
        decreases 256 - opcode,
    {
        match crate::cpu::instruction::Instruction::try_from_opcode(opcode as u8) {
            Some(decoded) => {
                let mode = decoded.addressing_mode();
                let row = Instruction {
                    name: kind_name(decoded.kind()),
                    opcode: opcode as u8,
                    mode,
                    len: mode_length(mode),
                };
                let ghost prefix = v@;
                v.push(row);
                proof {
                    assert forall|j: int, k: int|
                        0 <= j < k < v@.len() implies v@[j].opcode < v@[k].opcode by {
                        if k == v@.len() - 1 {
                            assert(v@[j] == prefix[j]);
                            assert(v@[j].opcode < opcode);
                        } else {
                            assert(v@[j] == prefix[j] && v@[k] == prefix[k]);
                        }
                    }
                    assert forall|op: u8|
                        op < opcode && crate::cpu::instruction::spec_from_opcode(op).is_some()
                            implies exists|k: int|
                            0 <= k < v@.len() && (#[trigger] v@[k]).opcode == op by {
                        let k = choose|k: int|
                            0 <= k < prefix.len() && (#[trigger] prefix[k]).opcode == op;
                        assert(v@[k] == prefix[k]);
                        assert(0 <= k < v@.len() && v@[k].opcode == op);
                    }
                    assert(v@[v@.len() - 1].opcode == opcode as u8);
                }
            },
            None => {},
        }
        opcode = opcode + 1;
    }
    v
}

/// A key is among the opcodes of the first `n` rows.
spec fn spec_listed(list: Seq<Instruction>, n: int, op: u8) -> bool {
    exists|j: int| 0 <= j < n && (#[trigger] list[j]).opcode == op
}

/// The table as a map from opcode byte to row. The construction rejects a
/// duplicate opcode, and the contract says that never happens: the map is
/// always built, its keys are exactly the supported opcode bytes, and
/// every entry is the truthful row of its key.
pub fn instruction_map() -> (m: Option<HashMap<u8, Instruction>>)
    ensures
        m.is_some(),
        forall|op: u8| #[trigger]
            m.unwrap()@.contains_key(op) <==> crate::cpu::instruction::spec_from_opcode(
                op,
            ).is_some(),
        forall|op: u8|
            m.unwrap()@.contains_key(op) ==> (#[trigger] m.unwrap()@[op]).opcode == op
                && spec_row_ok(m.unwrap()@[op]),
{
    let list = instructions();
    let mut m: HashMap<u8, Instruction> = HashMap::new();
    let mut i: usize = 0;
    while i < list.len()
        invariant
            i <= list@.len(),
            forall|k: int| 0 <= k < list@.len() ==> spec_row_ok(#[trigger] list@[k]),
            forall|j: int, k: int| 0 <= j < k < list@.len() ==> list@[j].opcode < list@[k].opcode,
            forall|op: u8|
                crate::cpu::instruction::spec_from_opcode(op).is_some() ==> exists|k: int|
                    0 <= k < list@.len() && (#[trigger] list@[k]).opcode == op,
            forall|op: u8| #[trigger] m@.contains_key(op) <==> spec_listed(list@, i as int, op),
            forall|op: u8|
                m@.contains_key(op) ==> (#[trigger] m@[op]).opcode == op && spec_row_ok(m@[op]),
        decreases list@.len() - i,
    {
        let instruction = list[i];
        if m.contains_key(&instruction.opcode) {
            proof {
                let j = choose|j: int|
                    0 <= j < i && (#[trigger] list@[j]).opcode == instruction.opcode;
                assert(list@[j].opcode < list@[i as int].opcode);
                assert(false);
            }
            return None;
        }
        m.insert(instruction.opcode, instruction);
        proof {
            assert forall|op: u8| #[trigger] m@.contains_key(op) implies spec_listed(
                list@,
                i + 1,
                op,
            ) by {
                if op == instruction.opcode {
                    assert(0 <= i < i + 1 && list@[i as int].opcode == op);
                } else {
                    let j = choose|j: int| 0 <= j < i && (#[trigger] list@[j]).opcode == op;
                    assert(0 <= j < i + 1 && list@[j].opcode == op);
                }
            }
            assert forall|op: u8| spec_listed(list@, i + 1, op) implies m@.contains_key(op) by {
                let j = choose|j: int| 0 <= j < i + 1 && (#[trigger] list@[j]).opcode == op;
                if j < i {
                    assert(spec_listed(list@, i as int, op));
                }
            }
        }
        i = i + 1;
    }
    proof {
        assert forall|op: u8| #[trigger]
            m@.contains_key(op) implies crate::cpu::instruction::spec_from_opcode(
            op,
        ).is_some() by {
            let j = choose|j: int| 0 <= j < list@.len() && (#[trigger] list@[j]).opcode == op;
            assert(spec_row_ok(list@[j]));
        }
        assert forall|op: u8|
            crate::cpu::instruction::spec_from_opcode(op).is_some() implies #[trigger]
            m@.contains_key(op) by {
            let k = choose|k: int| 0 <= k < list@.len() && (#[trigger] list@[k]).opcode == op;
            assert(spec_listed(list@, list@.len() as int, op));
        }
    }
    Some(m)
}

} // verus!
