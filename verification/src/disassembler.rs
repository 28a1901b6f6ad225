//! The source of operand text for disassembly: fixed placeholders for a
//! reference listing, or the values found in a live machine for a trace.

use crate::cpu::{Cpu, Machine, Reg16};
use crate::text::{byte_hex, push_byte_hex, push_word_hex, word_hex};
use vstd::prelude::*;
use vstd::string::StringExecFns;

verus! {

/// Renders the operands of an instruction.
pub enum Disassembler<'a> {
    /// Renders placeholders, whatever the state of any machine.
    Static,
    /// Renders the operands that the instruction at the program counter of
    /// this machine would use.
    Dynamic(&'a Cpu),
}

/// The mathematical model of a `Disassembler`: the dynamic one is taken
/// with the model of the machine it reads.
pub enum Rendering {
    Static,
    Dynamic(Machine),
}

impl Rendering {
    /// The text for a memory operand addressed through HL: `(hl)`, or `@`
    /// and the four hexadecimal digits of the value of the register pair HL.
    pub open spec fn indirect_address(self) -> Seq<char> {
        match self {
            Rendering::Static => "(hl)"@,
            Rendering::Dynamic(machine) => "@"@ + word_hex(machine.read_reg16(Reg16::HL)),
        }
    }

    /// The text for an immediate byte: `n`, or `$` and the two hexadecimal
    /// digits of the byte at the program counter.
    pub open spec fn immediate_byte(self) -> Seq<char> {
        match self {
            Rendering::Static => "n"@,
            Rendering::Dynamic(machine) => "$"@ + byte_hex(machine.immediate_byte()),
        }
    }

    /// The text for an immediate word: `nn`, or `$` and the four hexadecimal
    /// digits of the word at the program counter.
    pub open spec fn immediate_word(self) -> Seq<char> {
        match self {
            Rendering::Static => "nn"@,
            Rendering::Dynamic(machine) => "$"@ + word_hex(machine.immediate_word()),
        }
    }
}

impl<'a> View for Disassembler<'a> {
    type V = Rendering;

    open spec fn view(&self) -> Rendering {
        match self {
            Disassembler::Static => Rendering::Static,
            Disassembler::Dynamic(cpu) => Rendering::Dynamic(cpu@),
        }
    }
}

impl<'a> Disassembler<'a> {
    /// Renders a memory operand addressed through HL.
    pub fn render_indirect_address(&self) -> (text: String)
        ensures
            text@ == self@.indirect_address(),
    {
        match self {
            Disassembler::Static => String::from_str("(hl)"),
            Disassembler::Dynamic(cpu) => {
                let mut text = String::from_str("@");
                push_word_hex(&mut text, cpu.read_reg16(Reg16::HL));
                text
            },
        }
    }

    /// Renders an immediate byte operand. The byte at the program counter
    /// is read, not consumed.
    pub fn render_immediate_byte(&self) -> (text: String)
        ensures
            text@ == self@.immediate_byte(),
    {
        match self {
            Disassembler::Static => String::from_str("n"),
            Disassembler::Dynamic(cpu) => {
                let mut text = String::from_str("$");
                push_byte_hex(&mut text, cpu.read_mem8(cpu.program_counter));
                text
            },
        }
    }

    /// Renders an immediate word operand. The word at the program counter
    /// is read, not consumed.
    pub fn render_immediate_word(&self) -> (text: String)
        ensures
            text@ == self@.immediate_word(),
    {
        match self {
            Disassembler::Static => String::from_str("nn"),
            Disassembler::Dynamic(cpu) => {
                let mut text = String::from_str("$");
                push_word_hex(&mut text, cpu.read_mem16(cpu.program_counter));
                text
            },
        }
    }
}

} // verus!
