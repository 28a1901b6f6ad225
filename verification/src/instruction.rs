//! Instructions: what the decoder produces, what each does to the machine
//! and how each is written in disassembly.

use crate::alu::{alu_add, sum_byte, sum_flags};
use crate::cpu::{Cpu, Machine, Reg16, Reg8};
use crate::disassembler::{Disassembler, Rendering};
use vstd::prelude::*;
use vstd::string::StringExecFns;

verus! {

/// The kinds of instruction, each with the operands that were resolved
/// when it was decoded.
#[derive(Debug, Copy, Clone, PartialEq, Eq)]
pub enum Operation {
    /// Does nothing.
    Nop,
    /// Copies the register `src` into the register `dst`.
    LoadReg8 { dst: Reg8, src: Reg8 },
    /// Copies the byte of memory addressed through HL into `dst`.
    LoadReg8Indirect { dst: Reg8 },
    /// Consumes the byte at the program counter and stores it in `dst`.
    LoadReg8Const { dst: Reg8 },
    /// Consumes the word at the program counter and stores it in `pair`.
    LoadReg16Const { pair: Reg16 },
    /// Adds the register `src` to the accumulator and stores the flags of
    /// the addition in F.
    AddA { src: Reg8 },
    /// Consumes the word at the program counter and makes it the pending
    /// jump address.
    Jump,
    /// Stands for an opcode that no instruction is assigned to. It cannot
    /// be executed.
    Illegal { opcode: u8 },
}

impl Operation {
    /// Whether executing the operation aborts whatever the machine holds.
    /// Only the illegal one does.
    pub open spec fn aborts(self) -> bool {
        self is Illegal
    }

    /// The number of bytes that the operation consumes at the program
    /// counter as its operand.
    pub open spec fn operand_bytes(self) -> int {
        match self {
            Operation::LoadReg8Const { dst } => 1,
            Operation::LoadReg16Const { pair } => 2,
            Operation::Jump => 2,
            _ => 0,
        }
    }

    /// Whether the program counter would overflow while the operation
    /// consumes its operand: the operand reaches the last address.
    pub open spec fn overruns(self, machine: Machine) -> bool {
        !machine.can_skip(self.operand_bytes())
    }

    /// The machine after the operation. There is none where the program
    /// counter would overflow, which is detected and never wraps, nor for
    /// the operation that aborts.
    pub open spec fn effect(self, machine: Machine) -> Option<Machine> {
        if self.overruns(machine) {
            None
        } else {
            self.effect_within(machine)
        }
    }

    /// The machine after the operation where its operand lies within the
    /// address space.
    pub open spec fn effect_within(self, machine: Machine) -> Option<Machine>
        recommends
            !self.overruns(machine),
    {
        match self {
            Operation::Nop => Some(machine),
            Operation::LoadReg8 { dst, src } => Some(
                machine.write_reg8(dst, machine.read_reg8(src)),
            ),
            Operation::LoadReg8Indirect { dst } => Some(
                machine.write_reg8(dst, machine.read_mem8(machine.read_reg16(Reg16::HL))),
            ),
            Operation::LoadReg8Const { dst } => Some(
                machine.skip_byte().write_reg8(dst, machine.immediate_byte()),
            ),
            Operation::LoadReg16Const { pair } => Some(
                machine.skip_byte().skip_byte().write_reg16(pair, machine.immediate_word()),
            ),
            Operation::AddA { src } => {
                let left = machine.read_reg8(Reg8::A);
                let right = machine.read_reg8(src);
                Some(
                    machine.write_reg8(Reg8::A, sum_byte(left, right)).write_reg8(
                        Reg8::F,
                        sum_flags(left, right),
                    ),
                )
            },
            Operation::Jump => Some(
                Machine {
                    jump_address: Some(machine.immediate_word()),
                    ..machine.skip_byte().skip_byte()
                },
            ),
            Operation::Illegal { opcode } => None,
        }
    }

    /// The disassembly of the operation: the mnemonic, then the operands,
    /// registers by name and the others as `rendering` writes them.
    pub open spec fn text(self, rendering: Rendering) -> Seq<char> {
        match self {
            Operation::Nop => "nop"@,
            Operation::LoadReg8 { dst, src } => "ld "@ + dst.name() + ", "@ + src.name(),
            Operation::LoadReg8Indirect { dst } => "ld "@ + dst.name() + ", "@
                + rendering.indirect_address(),
            Operation::LoadReg8Const { dst } => "ld "@ + dst.name() + ", "@
                + rendering.immediate_byte(),
            Operation::LoadReg16Const { pair } => "ld "@ + pair.name() + ", "@
                + rendering.immediate_word(),
            Operation::AddA { src } => "add a, "@ + src.name(),
            Operation::Jump => "jp "@ + rendering.immediate_word(),
            Operation::Illegal { opcode } => "illegal"@,
        }
    }
}

/// An instruction as the decoder built it. It is never changed afterwards.
pub struct Instruction {
    operation: Operation,
}

impl View for Instruction {
    type V = Operation;

    closed spec fn view(&self) -> Operation {
        self.operation
    }
}

impl Instruction {
    /// The instruction that performs `operation`.
    pub fn new(operation: Operation) -> (instruction: Self)
        ensures
            instruction@ == operation,
    {
        Self { operation }
    }

    /// The operation that the instruction performs.
    pub fn operation(&self) -> (operation: Operation)
        ensures
            operation == self@,
    {
        self.operation
    }

    /// The opcode that the instruction stands for if it is the illegal
    /// one, which must not be executed; `None` for every other instruction.
    pub fn illegal_opcode(&self) -> (found: Option<u8>)
        ensures
            found == (match self@ {
                Operation::Illegal { opcode } => Some(opcode),
                _ => None,
            }),
            found is Some <==> self@.aborts(),
    {
        match self.operation {
            Operation::Illegal { opcode } => Some(opcode),
            _ => None,
        }
    }

    /// The number of bytes that the instruction consumes at the program
    /// counter as its operand.
    pub fn operand_bytes(&self) -> (count: u8)
        ensures
            count == self@.operand_bytes(),
    {
        match self.operation {
            Operation::LoadReg8Const { dst } => 1,
            Operation::LoadReg16Const { pair } => 2,
            Operation::Jump => 2,
            _ => 0,
        }
    }

    /// Whether the program counter of the machine would overflow while the
    /// instruction consumes its operand.
    pub fn overruns(&self, cpu: &Cpu) -> (overrun: bool)
        ensures
            overrun == self@.overruns(cpu@),
    {
        cpu.program_counter > 0xffff - self.operand_bytes() as u16
    }

    /// Performs the instruction on the machine. Two things are left out,
    /// because the instruction aborts there instead: the illegal
    /// instruction, and a machine on which the program counter would
    /// overflow while the operand is consumed.
    pub fn execute(&self, cpu: &mut Cpu)
        requires
            !self@.aborts(),
            !self@.overruns(old(cpu)@),
        ensures
            Some(final(cpu)@) == self@.effect(old(cpu)@),
    {
        match self.operation {
            Operation::Nop => {},
            Operation::LoadReg8 { dst, src } => {
                let value = cpu.read_reg8(src);
                cpu.write_reg8(dst, value);
            },
            Operation::LoadReg8Indirect { dst } => {
                let address = cpu.read_reg16(Reg16::HL);
                let value = cpu.read_mem8(address);
                cpu.write_reg8(dst, value);
            },
            Operation::LoadReg8Const { dst } => {
                let value = cpu.load_mem8_const();
                cpu.write_reg8(dst, value);
            },
            Operation::LoadReg16Const { pair } => {
                let value = cpu.load_mem16_const();
                cpu.write_reg16(pair, value);
            },
            Operation::AddA { src } => {
                let (result, flags) = alu_add(cpu.read_reg8(Reg8::A), cpu.read_reg8(src));
                cpu.write_reg8(Reg8::A, result);
                cpu.write_reg8(Reg8::F, flags.into());
            },
            Operation::Jump => {
                let address = cpu.load_mem16_const();
                cpu.jump_address = Some(address);
            },
            Operation::Illegal { opcode } => {},
        }
    }

    /// Writes the instruction as text: the mnemonic, then the operands,
    /// registers by name and the others as `disassembler` renders them.
    pub fn disassemble(&self, disassembler: &Disassembler) -> (text: String)
        ensures
            text@ == self@.text(disassembler@),
    {
        match self.operation {
            Operation::Nop => String::from_str("nop"),
            Operation::LoadReg8 { dst, src } => {
                let mut text = String::from_str("ld ");
                text.append(dst.as_str());
                text.append(", ");
                text.append(src.as_str());
                text
            },
            Operation::LoadReg8Indirect { dst } => {
                let mut text = String::from_str("ld ");
                text.append(dst.as_str());
                text.append(", ");
                text.append(disassembler.render_indirect_address().as_str());
                text
            },
            Operation::LoadReg8Const { dst } => {
                let mut text = String::from_str("ld ");
                text.append(dst.as_str());
                text.append(", ");
                text.append(disassembler.render_immediate_byte().as_str());
                text
            },
            Operation::LoadReg16Const { pair } => {
                let mut text = String::from_str("ld ");
                text.append(pair.as_str());
                text.append(", ");
                text.append(disassembler.render_immediate_word().as_str());
                text
            },
            Operation::AddA { src } => {
                let mut text = String::from_str("add a, ");
                text.append(src.as_str());
                text
            },
            Operation::Jump => {
                let mut text = String::from_str("jp ");
                text.append(disassembler.render_immediate_word().as_str());
                text
            },
            Operation::Illegal { opcode } => String::from_str("illegal"),
        }
    }
}

} // verus!
