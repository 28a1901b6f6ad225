//! One turn of the fetch-decode-execute cycle, for a loop that runs the
//! machine until the program counter reaches the end of the address space.

use crate::cpu::{Cpu, Machine};
use crate::instruction::{Instruction, Operation};
use vstd::prelude::*;

verus! {

/// How one cycle ended.
#[derive(Debug, Copy, Clone, PartialEq, Eq)]
pub enum Cycle {
    /// The instruction was executed and the program counter points at the
    /// next one.
    Continue,
    /// The instruction was executed, no jump was pending and the program
    /// counter stood at the last address: it stays there and the run ends.
    End,
    /// The instruction is the illegal one for `opcode`. Nothing was
    /// executed and the machine is as it was.
    Illegal { opcode: u8 },
    /// The operand of the instruction reaches the last address, so that the
    /// program counter would overflow while the operand is consumed. Nothing
    /// was executed and the machine is as it was.
    Overflow,
}

impl Machine {
    /// The opcode at the program counter.
    pub open spec fn fetch(self) -> u8 {
        self.read_mem8(self.program_counter)
    }

    /// Whether the run goes on after an instruction: a jump is pending, or
    /// the program counter can be incremented without leaving the address
    /// space.
    pub open spec fn can_advance(self) -> bool {
        self.jump_address is Some || self.program_counter < 0xffff
    }

    /// The machine made ready for the next instruction. A pending jump is
    /// taken and cleared. Without one the program counter is incremented;
    /// at the last address it is left alone and does not wrap.
    pub open spec fn advance(self) -> Machine {
        match self.jump_address {
            Some(address) => Machine { program_counter: address, jump_address: None, ..self },
            None => if self.program_counter < 0xffff {
                Machine { program_counter: (self.program_counter + 1) as u16, ..self }
            } else {
                self
            },
        }
    }

    /// One cycle with `operation` as the instruction at the program
    /// counter: the machine afterwards and how the cycle ended.
    pub open spec fn cycle(self, operation: Operation) -> (Machine, Cycle) {
        match operation {
            Operation::Illegal { opcode } => (self, Cycle::Illegal { opcode }),
            _ => match operation.effect(self) {
                Some(after) => (
                    after.advance(),
                    if after.can_advance() {
                        Cycle::Continue
                    } else {
                        Cycle::End
                    },
                ),
                None => (self, Cycle::Overflow),
            },
        }
    }
}

/// Without a pending jump, a program counter at the last address is not
/// incremented: the machine cannot advance, and advancing leaves the
/// program counter where it is instead of wrapping to zero. Everywhere
/// else the program counter moves on by one.
pub proof fn lemma_advance_detects_overflow(machine: Machine)
    requires
        machine.jump_address is None,
    ensures
        machine.can_advance() <==> machine.program_counter != 0xffff,
        !machine.can_advance() ==> machine.advance() == machine,
        machine.can_advance() ==> machine.advance().program_counter == machine.program_counter
            + 1,
{
}

/// The program counter never wraps while an operand is consumed. An
/// operation that does not abort has an effect on exactly the machines
/// on which its operand ends at or below the last address, and leaves the
/// program counter just past the operand. On the other machines the
/// overflow is detected: the cycle reports it and changes nothing.
pub proof fn lemma_operand_overflow_is_detected(machine: Machine, operation: Operation)
    requires
        machine.wf(),
        !operation.aborts(),
    ensures
        operation.effect(machine) is None <==> machine.program_counter
            + operation.operand_bytes() > 0xffff,
        operation.effect(machine) matches Some(after) ==> after.program_counter
            == machine.program_counter + operation.operand_bytes(),
        operation.effect(machine) is None ==> machine.cycle(operation) == (
            machine,
            Cycle::Overflow,
        ),
{
}

impl Cpu {
    /// Makes the machine ready for the next instruction and tells whether
    /// there is one: takes the pending jump, or else increments the program
    /// counter. Returns `false`, and changes nothing, where the increment
    /// would leave the address space.
    pub fn advance(&mut self) -> (running: bool)
        ensures
            final(self)@ == old(self)@.advance(),
            running == old(self)@.can_advance(),
    {
        if let Some(address) = self.jump_address.take() {
            self.program_counter = address;
            true
        } else {
            match self.program_counter.checked_add(1) {
                Some(next) => {
                    self.program_counter = next;
                    true
                },
                None => false,
            }
        }
    }
}

/// Looks up the instruction for the opcode at the program counter.
pub fn fetch<'a>(cpu: &Cpu, table: &'a [Instruction]) -> (instruction: &'a Instruction)
    requires
        table@.len() == 256,
    ensures
        *instruction == table@[cpu@.fetch() as int],
{
    let opcode = cpu.read_mem8(cpu.program_counter);
    &table[opcode as usize]
}

/// Runs one cycle: fetches the instruction at the program counter from the
/// table, executes it and advances the program counter. An illegal
/// instruction is reported and not executed, and so is one whose operand
/// would make the program counter overflow.
pub fn step(cpu: &mut Cpu, table: &[Instruction]) -> (cycle: Cycle)
    requires
        table@.len() == 256,
    ensures
        (final(cpu)@, cycle) == old(cpu)@.cycle(table@[old(cpu)@.fetch() as int]@),
{
    let instruction = fetch(cpu, table);
    match instruction.illegal_opcode() {
        Some(opcode) => Cycle::Illegal { opcode },
        None => {
            if instruction.overruns(cpu) {
                Cycle::Overflow
            } else {
                instruction.execute(cpu);
                if cpu.advance() {
                    Cycle::Continue
                } else {
                    Cycle::End
                }
            }
        },
    }
}

} // verus!
