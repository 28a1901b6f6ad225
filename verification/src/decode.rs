//! The opcode decoder: from an opcode byte to the instruction it selects.

use crate::cpu::{Machine, Reg16, Reg8};
use crate::disassembler::Rendering;
use crate::instruction::{Instruction, Operation};
use crate::text::word_hex;
use vstd::prelude::*;

verus! {

/// Bits 7 and 6 of an opcode, as a number below four.
pub open spec fn top_field(opcode: u8) -> int {
    opcode as int / 64
}

/// Bits 5 to 3 of an opcode, as a number below eight.
pub open spec fn middle_field(opcode: u8) -> int {
    (opcode as int / 8) % 8
}

/// Bits 2 to 0 of an opcode, as a number below eight.
pub open spec fn low_field(opcode: u8) -> int {
    opcode as int % 8
}

/// Bits 5 and 4 of an opcode, as a number below four.
pub open spec fn pair_field(opcode: u8) -> int {
    (opcode as int / 16) % 4
}

/// The operation that an opcode selects. The bit patterns are tried in
/// this order, so that an opcode that fits two of them takes the first:
///
/// | pattern     | operation                                   |
/// |-------------|---------------------------------------------|
/// | `0000_0000` | no operation                                |
/// | `01dd_d110` | load register `d` from memory through HL    |
/// | `01dd_dsss` | load register `d` from register `s`         |
/// | `00dd_d110` | load register `d` from the immediate byte   |
/// | `00dd_0001` | load register pair `d` from the immediate word |
/// | `1000_0sss` | add register `s` to the accumulator         |
/// | `1100_0011` | jump to the immediate word                  |
///
/// Every other opcode selects the illegal operation, which keeps the
/// opcode.
pub open spec fn decode(opcode: u8) -> Operation {
    if opcode == 0 {
        Operation::Nop
    } else if top_field(opcode) == 1 && low_field(opcode) == 6 {
        Operation::LoadReg8Indirect { dst: Reg8::with_code(middle_field(opcode)) }
    } else if top_field(opcode) == 1 {
        Operation::LoadReg8 {
            dst: Reg8::with_code(middle_field(opcode)),
            src: Reg8::with_code(low_field(opcode)),
        }
    } else if top_field(opcode) == 0 && low_field(opcode) == 6 {
        Operation::LoadReg8Const { dst: Reg8::with_code(middle_field(opcode)) }
    } else if top_field(opcode) == 0 && opcode % 16 == 1 {
        Operation::LoadReg16Const { pair: Reg16::with_code(pair_field(opcode)) }
    } else if opcode / 8 == 16 {
        Operation::AddA { src: Reg8::with_code(low_field(opcode)) }
    } else if opcode == 0xc3 {
        Operation::Jump
    } else {
        Operation::Illegal { opcode }
    }
}

/// Whether an opcode fits one of the bit patterns that select an
/// instruction.
pub open spec fn is_assigned(opcode: u8) -> bool {
    ||| opcode == 0
    ||| top_field(opcode) == 1
    ||| top_field(opcode) == 0 && low_field(opcode) == 6
    ||| top_field(opcode) == 0 && opcode % 16 == 1
    ||| opcode / 8 == 16
    ||| opcode == 0xc3
}

/// Masks and shifts on an opcode give the fields and tell the patterns
/// apart as divisions and remainders do.
proof fn lemma_fields(opcode: u8)
    ensures
        (opcode >> 3) & 0b111 == middle_field(opcode),
        opcode & 0b111 == low_field(opcode),
        (opcode >> 4) & 0b11 == pair_field(opcode),
        (opcode & 0b1100_0111 == 0b0100_0110) == (top_field(opcode) == 1 && low_field(opcode)
            == 6),
        (opcode & 0b1100_0000 == 0b0100_0000) == (top_field(opcode) == 1),
        (opcode & 0b1100_0111 == 0b0000_0110) == (top_field(opcode) == 0 && low_field(opcode)
            == 6),
        (opcode & 0b1100_1111 == 0b0000_0001) == (top_field(opcode) == 0 && opcode % 16 == 1),
        (opcode & 0b1111_1000 == 0b1000_0000) == (opcode / 8 == 16),
{
    assert((opcode >> 3) & 0b111 == (opcode / 8) % 8 && opcode & 0b111 == opcode % 8 && (opcode
        >> 4) & 0b11 == (opcode / 16) % 4) by (bit_vector);
    assert((opcode & 0b1100_0111 == 0b0100_0110) == (opcode / 64 == 1 && opcode % 8 == 6) && (
    opcode & 0b1100_0000 == 0b0100_0000) == (opcode / 64 == 1) && (opcode & 0b1100_0111
        == 0b0000_0110) == (opcode / 64 == 0 && opcode % 8 == 6)) by (bit_vector);
    assert((opcode & 0b1100_1111 == 0b0000_0001) == (opcode / 64 == 0 && opcode % 16 == 1) && (
    opcode & 0b1111_1000 == 0b1000_0000) == (opcode / 8 == 16)) by (bit_vector);
}

/// Decodes an opcode. Every opcode gives an instruction; one that fits no
/// pattern gives the illegal instruction.
pub fn decode_opcode(opcode: u8) -> (instruction: Instruction)
    ensures
        instruction@ == decode(opcode),
{
    proof {
        lemma_fields(opcode);
    }
    if opcode == 0b0000_0000 {
        nop()
    } else if opcode & 0b1100_0111 == 0b0100_0110 {
        load_reg8_indirect(Reg8::from((opcode >> 3) & 0b111))
    } else if opcode & 0b1100_0000 == 0b0100_0000 {
        load_reg8(Reg8::from((opcode >> 3) & 0b111), Reg8::from(opcode & 0b111))
    } else if opcode & 0b1100_0111 == 0b0000_0110 {
        load_reg8_const(Reg8::from((opcode >> 3) & 0b111))
    } else if opcode & 0b1100_1111 == 0b0000_0001 {
        load_reg16_const(Reg16::from((opcode >> 4) & 0b11))
    } else if opcode & 0b1111_1000 == 0b1000_0000 {
        add_a(Reg8::from(opcode & 0b111))
    } else if opcode == 0b1100_0011 {
        jump()
    } else {
        illegal_opcode(opcode)
    }
}

/// The instruction that does nothing.
pub fn nop() -> (instruction: Instruction)
    ensures
        instruction@ == Operation::Nop,
{
    Instruction::new(Operation::Nop)
}

/// The instruction that copies the register `src` into `dst`.
pub fn load_reg8(dst: Reg8, src: Reg8) -> (instruction: Instruction)
    ensures
        instruction@ == (Operation::LoadReg8 { dst, src }),
{
    Instruction::new(Operation::LoadReg8 { dst, src })
}

/// The instruction that loads `dst` from memory through HL.
pub fn load_reg8_indirect(dst: Reg8) -> (instruction: Instruction)
    ensures
        instruction@ == (Operation::LoadReg8Indirect { dst }),
{
    Instruction::new(Operation::LoadReg8Indirect { dst })
}

/// The instruction that loads `dst` from the immediate byte.
pub fn load_reg8_const(dst: Reg8) -> (instruction: Instruction)
    ensures
        instruction@ == (Operation::LoadReg8Const { dst }),
{
    Instruction::new(Operation::LoadReg8Const { dst })
}

/// The instruction that loads the register pair `dst` from the immediate
/// word.
pub fn load_reg16_const(dst: Reg16) -> (instruction: Instruction)
    ensures
        instruction@ == (Operation::LoadReg16Const { pair: dst }),
{
    Instruction::new(Operation::LoadReg16Const { pair: dst })
}

/// The instruction that adds the register `src` to the accumulator.
pub fn add_a(src: Reg8) -> (instruction: Instruction)
    ensures
        instruction@ == (Operation::AddA { src }),
{
    Instruction::new(Operation::AddA { src })
}

/// The instruction that jumps to the immediate word.
pub fn jump() -> (instruction: Instruction)
    ensures
        instruction@ == Operation::Jump,
{
    Instruction::new(Operation::Jump)
}

/// The instruction that stands for an opcode without an instruction.
pub fn illegal_opcode(opcode: u8) -> (instruction: Instruction)
    ensures
        instruction@ == (Operation::Illegal { opcode }),
{
    Instruction::new(Operation::Illegal { opcode })
}

/// Builds the instruction table: 256 entries, the one at each index the
/// instruction that this index, taken as an opcode, decodes to.
pub fn build_instruction_table() -> (table: Vec<Instruction>)
    ensures
        table@.len() == 256,
        forall|opcode: u8| (#[trigger] table@[opcode as int])@ == decode(opcode),
{
    let mut table: Vec<Instruction> = Vec::with_capacity(256);
    let mut next: u16 = 0;
    while next < 256
        invariant
            next <= 256,
            table@.len() == next,
            forall|opcode: u8| opcode < next ==> (#[trigger] table@[opcode as int])@ == decode(
                opcode,
            ),
        decreases 256 - next,
    {
        table.push(decode_opcode(next as u8));
        next += 1;
    }
    table
}

/// The opcode `01dd_d110` for the register `dst`.
pub open spec fn load_through_hl_opcode(dst: Reg8) -> u8 {
    (0b0100_0110 + 8 * dst.code()) as u8
}

/// The opcode `01dd_dsss` for the registers `dst` and `src`.
pub open spec fn register_load_opcode(dst: Reg8, src: Reg8) -> u8 {
    (0b0100_0000 + 8 * dst.code() + src.code()) as u8
}

/// The fields of an opcode put together from its three groups of bits.
proof fn lemma_fields_of_parts(opcode: u8, top: int, middle: int, low: int)
    requires
        0 <= top < 4,
        0 <= middle < 8,
        0 <= low < 8,
        opcode == 64 * top + 8 * middle + low,
    ensures
        top_field(opcode) == top,
        middle_field(opcode) == middle,
        low_field(opcode) == low,
{
    vstd::arithmetic::div_mod::lemma_fundamental_div_mod_converse(
        opcode as int,
        64,
        top,
        8 * middle + low,
    );
    vstd::arithmetic::div_mod::lemma_fundamental_div_mod_converse(
        opcode as int,
        8,
        8 * top + middle,
        low,
    );
    vstd::arithmetic::div_mod::lemma_fundamental_div_mod_converse(
        8 * top + middle,
        8,
        top,
        middle,
    );
}

/// Decoding never fails, and the opcodes that fit no pattern are the only
/// ones whose instruction aborts when executed: such an instruction is
/// the illegal one and keeps its opcode, while the instruction of every
/// other opcode has an effect on every machine on which its operand lies
/// within the address space.
pub proof fn lemma_only_unassigned_opcodes_abort(opcode: u8, machine: Machine)
    ensures
        decode(opcode).aborts() <==> !is_assigned(opcode),
        decode(opcode).aborts() <==> decode(opcode) == (Operation::Illegal { opcode }),
        !decode(opcode).overruns(machine) ==> (decode(opcode).effect(machine) is None
            <==> !is_assigned(opcode)),
        decode(opcode).effect(machine) is None <==> !is_assigned(opcode) || decode(
            opcode,
        ).overruns(machine),
{
}

/// The opcode `01dd_d110` decodes to the load of the register `d` from
/// memory through HL. The instruction copies the byte at the address that
/// the register pair HL reads to into that register and changes nothing
/// else. Its disassembly is `ld <d>, (hl)` with placeholders and, from a
/// live machine, `ld <d>, @` with the four hexadecimal digits of that
/// address.
pub proof fn lemma_load_through_hl(machine: Machine, dst: Reg8)
    requires
        machine.wf(),
    ensures
        decode(load_through_hl_opcode(dst)) == (Operation::LoadReg8Indirect { dst }),
        ({
            let operation = decode(load_through_hl_opcode(dst));
            let address = machine.read_reg16(Reg16::HL);
            &&& operation.effect(machine) matches Some(after) && after.read_reg8(dst)
                == machine.read_mem8(address) && after == machine.write_reg8(
                dst,
                machine.read_mem8(address),
            )
            &&& operation.text(Rendering::Static) == "ld "@ + dst.name() + ", (hl)"@
            &&& operation.text(Rendering::Dynamic(machine)) == "ld "@ + dst.name() + ", @"@
                + word_hex(address)
        }),
{
    dst.lemma_codes(0);
    let opcode = load_through_hl_opcode(dst);
    lemma_fields_of_parts(opcode, 1, dst.code(), 6);
    let operation = Operation::LoadReg8Indirect { dst };
    assert(decode(opcode) == operation);
    reveal_strlit(", ");
    reveal_strlit("(hl)");
    reveal_strlit(", (hl)");
    reveal_strlit("@");
    reveal_strlit(", @");
    assert(operation.text(Rendering::Static) =~= "ld "@ + dst.name() + ", (hl)"@);
    assert(operation.text(Rendering::Dynamic(machine)) =~= "ld "@ + dst.name() + ", @"@
        + word_hex(machine.read_reg16(Reg16::HL)));
}

/// A byte stored at the address that HL reads to is the byte that the
/// load through HL then copies into its register.
///
/// The store may itself change the address that HL reads to, because that
/// address is a word of memory: the statement is made of the machines on
/// which the address is the same after the store.
pub proof fn lemma_load_through_hl_after_store(machine: Machine, dst: Reg8, value: u8)
    requires
        machine.wf(),
        machine.write_mem8(machine.read_reg16(Reg16::HL), value).read_reg16(Reg16::HL)
            == machine.read_reg16(Reg16::HL),
    ensures
        ({
            let seeded = machine.write_mem8(machine.read_reg16(Reg16::HL), value);
            decode(load_through_hl_opcode(dst)).effect(seeded) matches Some(after)
                && after.read_reg8(dst) == value
        }),
{
    let seeded = machine.write_mem8(machine.read_reg16(Reg16::HL), value);
    lemma_load_through_hl(seeded, dst);
}

/// The opcode `01dd_dsss` decodes to the load of the register `d` from
/// the register `s`, unless `s` is the code 110, that of F, which selects
/// memory through HL instead. The instruction copies the value of `s`
/// into `d` and changes nothing else. Its disassembly is `ld <d>, <s>`
/// whatever renders the operands, so a listing and a trace agree on it.
pub proof fn lemma_register_load(machine: Machine, dst: Reg8, src: Reg8, rendering: Rendering)
    requires
        machine.wf(),
        src != Reg8::F,
    ensures
        decode(register_load_opcode(dst, src)) == (Operation::LoadReg8 { dst, src }),
        ({
            let operation = decode(register_load_opcode(dst, src));
            &&& operation.effect(machine) matches Some(after) && after.read_reg8(dst)
                == machine.read_reg8(src) && after == machine.write_reg8(
                dst,
                machine.read_reg8(src),
            ) && forall|other: Reg8|
                other != dst ==> after.read_reg8(other) == machine.read_reg8(other)
            &&& operation.text(rendering) == "ld "@ + dst.name() + ", "@ + src.name()
            &&& operation.text(rendering) == operation.text(Rendering::Static)
        }),
{
    dst.lemma_codes(0);
    src.lemma_codes(0);
    let opcode = register_load_opcode(dst, src);
    lemma_fields_of_parts(opcode, 1, dst.code(), src.code());
    let operation = Operation::LoadReg8 { dst, src };
    assert(decode(opcode) == operation);
    let after = machine.write_reg8(dst, machine.read_reg8(src));
    assert(operation.effect(machine) == Some(after));
    assert forall|other: Reg8| other != dst implies after.read_reg8(other) == machine.read_reg8(
        other,
    ) by {
        machine.lemma_write_reg8(dst, machine.read_reg8(src), other);
    }
}

/// The opcode `1100_0011` decodes to the jump. On a machine where the
/// word at the program counter is `target`, the instruction makes `target`
/// the pending jump address and moves the program counter past the word,
/// not to `target`: the jump is taken when the machine advances, which
/// clears it.
///
/// The word must lie below the last address, or the program counter would
/// overflow while the word is consumed.
pub proof fn lemma_jump(machine: Machine, target: u16)
    requires
        machine.wf(),
        machine.program_counter < 0xfffe,
    ensures
        decode(0b1100_0011) == Operation::Jump,
        ({
            let seeded = machine.write_mem16(machine.program_counter, target);
            &&& decode(0b1100_0011).effect(seeded) matches Some(after) && after.jump_address
                == Some(target) && after.program_counter == machine.program_counter + 2
                && after.can_advance() && after.advance().program_counter == target
                && after.advance().jump_address is None
        }),
{
    machine.lemma_write_mem16(machine.program_counter, target);
}

} // verus!
