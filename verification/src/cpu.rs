//! The machine state: registers, program counter and memory, and the
//! primitives that instructions use to read and write them.

use crate::text::{byte_hex, push_byte_hex, push_word_hex, word_hex};
use vstd::prelude::*;
use vstd::string::StringExecFns;

verus! {

/// Number of slots in the register file. Only the first eight hold a
/// register; the rest is padding.
pub const REGISTER_SLOTS: usize = 16;

/// Number of bytes of memory: one for every 16-bit address.
pub const MEMORY_SIZE: usize = 0x10000;

/// The eight 8-bit registers, in the order of their 3-bit codes.
#[derive(Debug, Copy, Clone, PartialEq, Eq)]
pub enum Reg8 {
    B,
    C,
    D,
    E,
    H,
    L,
    F,
    A,
}

/// The four register pairs, in the order of their 2-bit codes.
#[derive(Debug, Copy, Clone, PartialEq, Eq)]
pub enum Reg16 {
    BC,
    DE,
    HL,
    SP,
}

impl Reg8 {
    /// The 3-bit code of the register, which is also its slot in the
    /// register file.
    pub open spec fn code(self) -> int {
        match self {
            Reg8::B => 0,
            Reg8::C => 1,
            Reg8::D => 2,
            Reg8::E => 3,
            Reg8::H => 4,
            Reg8::L => 5,
            Reg8::F => 6,
            Reg8::A => 7,
        }
    }

    /// The register with the given 3-bit code.
    pub open spec fn with_code(code: int) -> Reg8
        recommends
            0 <= code < 8,
    {
        if code == 0 {
            Reg8::B
        } else if code == 1 {
            Reg8::C
        } else if code == 2 {
            Reg8::D
        } else if code == 3 {
            Reg8::E
        } else if code == 4 {
            Reg8::H
        } else if code == 5 {
            Reg8::L
        } else if code == 6 {
            Reg8::F
        } else {
            Reg8::A
        }
    }

    /// The lowercase name of the register.
    pub open spec fn name(self) -> Seq<char> {
        match self {
            Reg8::B => "b"@,
            Reg8::C => "c"@,
            Reg8::D => "d"@,
            Reg8::E => "e"@,
            Reg8::H => "h"@,
            Reg8::L => "l"@,
            Reg8::F => "f"@,
            Reg8::A => "a"@,
        }
    }

    /// Codes and registers correspond one to one.
    pub proof fn lemma_codes(self, code: int)
        ensures
            0 <= self.code() < 8,
            Reg8::with_code(self.code()) == self,
            0 <= code < 8 ==> Reg8::with_code(code).code() == code,
    {
    }

    /// Converts a 3-bit code into the register it selects.
    pub fn from(val: u8) -> (reg: Reg8)
        requires
            val < 8,
        ensures
            reg == Reg8::with_code(val as int),
            reg.code() == val,
    {
        match val {
            0 => Reg8::B,
            1 => Reg8::C,
            2 => Reg8::D,
            3 => Reg8::E,
            4 => Reg8::H,
            5 => Reg8::L,
            6 => Reg8::F,
            _ => Reg8::A,
        }
    }

    /// The slot of the register in the register file.
    pub fn index(self) -> (slot: usize)
        ensures
            slot == self.code(),
    {
        match self {
            Reg8::B => 0,
            Reg8::C => 1,
            Reg8::D => 2,
            Reg8::E => 3,
            Reg8::H => 4,
            Reg8::L => 5,
            Reg8::F => 6,
            Reg8::A => 7,
        }
    }

    /// The lowercase name of the register, as it appears in disassembly.
    pub fn as_str(self) -> (text: &'static str)
        ensures
            text@ == self.name(),
    {
        match self {
            Reg8::B => "b",
            Reg8::C => "c",
            Reg8::D => "d",
            Reg8::E => "e",
            Reg8::H => "h",
            Reg8::L => "l",
            Reg8::F => "f",
            Reg8::A => "a",
        }
    }

    /// The lowercase name of the register as an owned string.
    pub fn to_string(&self) -> (text: String)
        ensures
            text@ == self.name(),
    {
        String::from_str(self.as_str())
    }
}

impl Reg16 {
    /// The 2-bit code of the register pair.
    pub open spec fn code(self) -> int {
        match self {
            Reg16::BC => 0,
            Reg16::DE => 1,
            Reg16::HL => 2,
            Reg16::SP => 3,
        }
    }

    /// The register pair with the given 2-bit code.
    pub open spec fn with_code(code: int) -> Reg16
        recommends
            0 <= code < 4,
    {
        if code == 0 {
            Reg16::BC
        } else if code == 1 {
            Reg16::DE
        } else if code == 2 {
            Reg16::HL
        } else {
            Reg16::SP
        }
    }

    /// The lowercase name of the register pair.
    pub open spec fn name(self) -> Seq<char> {
        match self {
            Reg16::BC => "bc"@,
            Reg16::DE => "de"@,
            Reg16::HL => "hl"@,
            Reg16::SP => "sp"@,
        }
    }

    /// Codes and register pairs correspond one to one.
    pub proof fn lemma_codes(self, code: int)
        ensures
            0 <= self.code() < 4,
            Reg16::with_code(self.code()) == self,
            0 <= code < 4 ==> Reg16::with_code(code).code() == code,
    {
    }

    /// Converts a 2-bit code into the register pair it selects.
    pub fn from(val: u8) -> (reg: Reg16)
        requires
            val < 4,
        ensures
            reg == Reg16::with_code(val as int),
            reg.code() == val,
    {
        match val {
            0 => Reg16::BC,
            1 => Reg16::DE,
            2 => Reg16::HL,
            _ => Reg16::SP,
        }
    }

    /// The lowercase name of the register pair, as it appears in
    /// disassembly.
    pub fn as_str(self) -> (text: &'static str)
        ensures
            text@ == self.name(),
    {
        match self {
            Reg16::BC => "bc",
            Reg16::DE => "de",
            Reg16::HL => "hl",
            Reg16::SP => "sp",
        }
    }

    /// The lowercase name of the register pair as an owned string.
    pub fn to_string(&self) -> (text: String)
        ensures
            text@ == self.name(),
    {
        String::from_str(self.as_str())
    }
}

/// The word whose high byte is `high` and whose low byte is `low`.
pub open spec fn word(high: u8, low: u8) -> u16 {
    (high * 256 + low) as u16
}

/// The high byte of a word.
pub open spec fn high_byte(value: u16) -> u8 {
    (value / 256) as u8
}

/// The low byte of a word.
pub open spec fn low_byte(value: u16) -> u8 {
    (value % 256) as u8
}

/// The address of the byte of memory after the one at `address`. Memory
/// is a ring: the byte at the last address is followed by the byte at the
/// first.
pub open spec fn next_address(address: u16) -> u16 {
    if address == 0xffff {
        0
    } else {
        (address + 1) as u16
    }
}

/// A word is made of its high and its low byte, and each byte of a word
/// made of two bytes is the byte it was made of.
pub proof fn lemma_word_bytes(value: u16, high: u8, low: u8)
    ensures
        word(high_byte(value), low_byte(value)) == value,
        high_byte(word(high, low)) == high,
        low_byte(word(high, low)) == low,
{
}

/// The mathematical model of the machine state: what a `Cpu` holds, with
/// the register file and the memory as sequences of bytes.
pub struct Machine {
    pub registers: Seq<u8>,
    pub program_counter: u16,
    pub stack_pointer: u16,
    pub index_x: u16,
    pub index_y: u16,
    pub memory_refresh: u8,
    pub memory: Seq<u8>,
    pub jump_address: Option<u16>,
}

impl Machine {
    /// The register file has sixteen slots and the memory one byte for
    /// each address. Every `Cpu` is modelled by such a machine.
    pub open spec fn wf(self) -> bool {
        &&& self.registers.len() == REGISTER_SLOTS
        &&& self.memory.len() == MEMORY_SIZE
    }

    /// The machine at power-on: every register and every byte of memory
    /// is zero and no jump is pending.
    pub open spec fn reset() -> Machine {
        Machine {
            registers: Seq::new(REGISTER_SLOTS as nat, |i: int| 0u8),
            program_counter: 0,
            stack_pointer: 0,
            index_x: 0,
            index_y: 0,
            memory_refresh: 0,
            memory: Seq::new(MEMORY_SIZE as nat, |i: int| 0u8),
            jump_address: None,
        }
    }

    /// The value of an 8-bit register.
    pub open spec fn read_reg8(self, reg: Reg8) -> u8 {
        self.registers[reg.code()]
    }

    /// The machine after `value` is stored into an 8-bit register.
    pub open spec fn write_reg8(self, reg: Reg8, value: u8) -> Machine {
        Machine { registers: self.registers.update(reg.code(), value), ..self }
    }

    /// The byte of memory at `address`.
    pub open spec fn read_mem8(self, address: u16) -> u8 {
        self.memory[address as int]
    }

    /// The word of memory at `address`: high byte at `address`, low byte
    /// at the address after it.
    pub open spec fn read_mem16(self, address: u16) -> u16 {
        word(self.read_mem8(address), self.read_mem8(next_address(address)))
    }

    /// The machine after `value` is stored at `address`.
    pub open spec fn write_mem8(self, address: u16, value: u8) -> Machine {
        Machine { memory: self.memory.update(address as int, value), ..self }
    }

    /// The machine after the word `value` is stored at `address`: high
    /// byte first, then the low byte at the address after it.
    pub open spec fn write_mem16(self, address: u16, value: u16) -> Machine {
        self.write_mem8(address, high_byte(value)).write_mem8(
            next_address(address),
            low_byte(value),
        )
    }

    /// The address that the registers H and L form together.
    pub open spec fn hl_pointer(self) -> u16 {
        word(self.read_reg8(Reg8::H), self.read_reg8(Reg8::L))
    }

    /// The value of a register pair. BC and DE are the words that their two
    /// registers form and SP is the stack pointer; HL is the word of memory
    /// at the address that H and L form.
    pub open spec fn read_reg16(self, reg: Reg16) -> u16 {
        match reg {
            Reg16::BC => word(self.read_reg8(Reg8::B), self.read_reg8(Reg8::C)),
            Reg16::DE => word(self.read_reg8(Reg8::D), self.read_reg8(Reg8::E)),
            Reg16::HL => self.read_mem16(self.hl_pointer()),
            Reg16::SP => self.stack_pointer,
        }
    }

    /// The machine after `value` is stored into a register pair. BC and DE
    /// take the high and the low byte and SP becomes the stack pointer; for
    /// HL the word goes to memory, at the address that reading HL gives.
    pub open spec fn write_reg16(self, reg: Reg16, value: u16) -> Machine {
        match reg {
            Reg16::BC => self.write_reg8(Reg8::B, high_byte(value)).write_reg8(
                Reg8::C,
                low_byte(value),
            ),
            Reg16::DE => self.write_reg8(Reg8::D, high_byte(value)).write_reg8(
                Reg8::E,
                low_byte(value),
            ),
            Reg16::HL => self.write_mem16(self.read_reg16(Reg16::HL), value),
            Reg16::SP => Machine { stack_pointer: value, ..self },
        }
    }

    /// Whether `count` bytes can be consumed at the program counter. Each
    /// one moves the program counter on by one, and the program counter
    /// must not leave the address space.
    pub open spec fn can_skip(self, count: int) -> bool {
        self.program_counter + count <= 0xffff
    }

    /// The machine after the byte at the program counter has been consumed:
    /// the program counter is one higher. This is for a program counter
    /// below the last address; the program counter never wraps.
    pub open spec fn skip_byte(self) -> Machine
        recommends
            self.can_skip(1),
    {
        Machine { program_counter: (self.program_counter + 1) as u16, ..self }
    }

    /// The byte at the program counter.
    pub open spec fn immediate_byte(self) -> u8 {
        self.read_mem8(self.program_counter)
    }

    /// The word at the program counter.
    pub open spec fn immediate_word(self) -> u16 {
        self.read_mem16(self.program_counter)
    }

    /// A register that was written holds the value written. Every other
    /// register, and everything else in the machine, is as before.
    pub proof fn lemma_write_reg8(self, reg: Reg8, value: u8, other: Reg8)
        requires
            self.wf(),
        ensures
            self.write_reg8(reg, value).wf(),
            self.write_reg8(reg, value).read_reg8(reg) == value,
            other != reg ==> self.write_reg8(reg, value).read_reg8(other) == self.read_reg8(
                other,
            ),
            self.write_reg8(reg, value) == (Machine {
                registers: self.write_reg8(reg, value).registers,
                ..self
            }),
    {
    }

    /// A byte of memory that was written holds the value written. Every
    /// other byte, and everything else in the machine, is as before.
    pub proof fn lemma_write_mem8(self, address: u16, value: u8, other: u16)
        requires
            self.wf(),
        ensures
            self.write_mem8(address, value).wf(),
            self.write_mem8(address, value).read_mem8(address) == value,
            other != address ==> self.write_mem8(address, value).read_mem8(other)
                == self.read_mem8(other),
            self.write_mem8(address, value) == (Machine {
                memory: self.write_mem8(address, value).memory,
                ..self
            }),
    {
    }

    /// A word of memory that was written reads back as written, also where
    /// it wraps from the last address to the first.
    pub proof fn lemma_write_mem16(self, address: u16, value: u16)
        requires
            self.wf(),
        ensures
            self.write_mem16(address, value).wf(),
            self.write_mem16(address, value).read_mem16(address) == value,
    {
        lemma_word_bytes(value, 0, 0);
    }

    /// The pairs BC, DE and SP read back what was written to them. A word
    /// written to HL is found in memory, at the address that HL read before
    /// the write; the registers H and L keep their values.
    pub proof fn lemma_write_reg16(self, reg: Reg16, value: u16)
        requires
            self.wf(),
        ensures
            self.write_reg16(reg, value).wf(),
            reg != Reg16::HL ==> self.write_reg16(reg, value).read_reg16(reg) == value,
            reg == Reg16::HL ==> self.write_reg16(reg, value).read_mem16(self.read_reg16(reg))
                == value,
            reg == Reg16::HL ==> self.write_reg16(reg, value).registers == self.registers,
    {
        lemma_word_bytes(value, 0, 0);
    }

    /// One register in a trace line: its name, `=0x`, its value as two
    /// hexadecimal digits and a space.
    pub open spec fn register_text(self, reg: Reg8) -> Seq<char> {
        reg.name() + "=0x"@ + byte_hex(self.read_reg8(reg)) + " "@
    }

    /// The first `count` registers of a trace line, in the order of their
    /// codes.
    pub open spec fn registers_text(self, count: nat) -> Seq<char>
        decreases count,
    {
        if count == 0 {
            Seq::empty()
        } else {
            self.registers_text((count - 1) as nat) + self.register_text(
                Reg8::with_code(count - 1),
            )
        }
    }

    /// The trace line of the machine: the eight registers, then the program
    /// counter, the stack pointer and the two index registers.
    pub open spec fn text(self) -> Seq<char> {
        self.registers_text(8) + word_text("pc"@, self.program_counter) + word_text(
            "sp"@,
            self.stack_pointer,
        ) + word_text("index_x"@, self.index_x) + word_text("index_y"@, self.index_y)
    }
}

/// One 16-bit register in a trace line: its label, `: 0x`, its value as
/// four hexadecimal digits and a space.
pub open spec fn word_text(label: Seq<char>, value: u16) -> Seq<char> {
    label + ": 0x"@ + word_hex(value) + " "@
}

/// Appends a labelled 16-bit register to a trace line.
fn push_word_text(text: &mut String, label: &str, value: u16)
    ensures
        final(text)@ == old(text)@ + word_text(label@, value),
{
    text.append(label);
    text.append(": 0x");
    push_word_hex(text, value);
    text.append(" ");
}

/// The machine state.
pub struct Cpu {
    pub general_purpose_regs: [u8; 16],
    pub program_counter: u16,
    pub stack_pointer: u16,
    pub index_x: u16,
    pub index_y: u16,
    pub memory_refresh: u8,
    pub memory: [u8; 0x10000],
    pub jump_address: Option<u16>,
}

impl View for Cpu {
    type V = Machine;

    open spec fn view(&self) -> Machine {
        Machine {
            registers: self.general_purpose_regs@,
            program_counter: self.program_counter,
            stack_pointer: self.stack_pointer,
            index_x: self.index_x,
            index_y: self.index_y,
            memory_refresh: self.memory_refresh,
            memory: self.memory@,
            jump_address: self.jump_address,
        }
    }
}

impl Default for Cpu {
    /// The machine at power-on.
    fn default() -> (cpu: Self)
        ensures
            cpu@ == Machine::reset(),
    {
        let cpu = Self {
            general_purpose_regs: [0;16],
            program_counter: 0,
            stack_pointer: 0,
            index_x: 0,
            index_y: 0,
            memory_refresh: 0,
            memory: [0;0x10000],
            jump_address: None,
        };
        assert(cpu@.registers =~= Machine::reset().registers);
        assert(cpu@.memory =~= Machine::reset().memory);
        cpu
    }
}

/// Joins two bytes into a word, high byte first.
fn word_from_bytes(high: u8, low: u8) -> (value: u16)
    ensures
        value == word(high, low),
{
    (high as u16) * 256 + (low as u16)
}

/// Splits a word into its high and its low byte.
fn word_to_bytes(value: u16) -> (bytes: (u8, u8))
    ensures
        bytes.0 == high_byte(value),
        bytes.1 == low_byte(value),
{
    ((value / 256) as u8, (value % 256) as u8)
}

impl Cpu {
    /// Every state is modelled by a well-formed machine.
    pub proof fn lemma_view_wf(&self)
        ensures
            self@.wf(),
    {
    }

    /// Reads an 8-bit register.
    pub fn read_reg8(&self, reg: Reg8) -> (value: u8)
        ensures
            value == self@.read_reg8(reg),
    {
        self.general_purpose_regs[reg.index()]
    }

    /// Writes an 8-bit register.
    pub fn write_reg8(&mut self, reg: Reg8, value: u8)
        ensures
            final(self)@ == old(self)@.write_reg8(reg, value),
    {
        self.general_purpose_regs[reg.index()] = value;
    }

    /// Reads the byte of memory at `address`.
    pub fn read_mem8(&self, address: u16) -> (value: u8)
        ensures
            value == self@.read_mem8(address),
    {
        self.memory[address as usize]
    }

    /// Writes the byte of memory at `address`.
    pub fn write_mem8(&mut self, address: u16, value: u8)
        ensures
            final(self)@ == old(self)@.write_mem8(address, value),
    {
        self.memory[address as usize] = value;
    }

    /// Reads the word of memory at `address`, high byte first. The second
    /// byte of a word at the last address is the byte at address zero.
    pub fn read_mem16(&self, address: u16) -> (value: u16)
        ensures
            value == self@.read_mem16(address),
    {
        word_from_bytes(self.read_mem8(address), self.read_mem8(address.wrapping_add(1)))
    }

    /// Writes the word `value` to memory at `address`, high byte first. The
    /// second byte of a word at the last address goes to address zero.
    pub fn write_mem16(&mut self, address: u16, value: u16)
        ensures
            final(self)@ == old(self)@.write_mem16(address, value),
    {
        let (high, low) = word_to_bytes(value);
        self.write_mem8(address, high);
        self.write_mem8(address.wrapping_add(1), low);
    }

    /// Reads a register pair. BC and DE give the word that their two
    /// registers form and SP gives the stack pointer; HL gives the word of
    /// memory at the address that H and L form.
    pub fn read_reg16(&self, reg: Reg16) -> (value: u16)
        ensures
            value == self@.read_reg16(reg),
    {
        match reg {
            Reg16::BC => word_from_bytes(self.read_reg8(Reg8::B), self.read_reg8(Reg8::C)),
            Reg16::DE => word_from_bytes(self.read_reg8(Reg8::D), self.read_reg8(Reg8::E)),
            Reg16::HL => self.read_mem16(
                word_from_bytes(self.read_reg8(Reg8::H), self.read_reg8(Reg8::L)),
            ),
            Reg16::SP => self.stack_pointer,
        }
    }

    /// Writes a register pair. BC and DE take the high and the low byte of
    /// `value` and SP becomes the stack pointer; for HL the word goes to
    /// memory, at the address that reading HL gives.
    pub fn write_reg16(&mut self, reg: Reg16, value: u16)
        ensures
            final(self)@ == old(self)@.write_reg16(reg, value),
    {
        let (high, low) = word_to_bytes(value);
        match reg {
            Reg16::BC => {
                self.write_reg8(Reg8::B, high);
                self.write_reg8(Reg8::C, low);
            },
            Reg16::DE => {
                self.write_reg8(Reg8::D, high);
                self.write_reg8(Reg8::E, low);
            },
            Reg16::HL => {
                let address = self.read_reg16(Reg16::HL);
                self.write_mem16(address, value);
            },
            Reg16::SP => {
                self.stack_pointer = value;
            },
        }
    }

    /// Consumes the byte at the program counter: returns it and increments
    /// the program counter. The increment is checked and fails at the last
    /// address, which is therefore left out.
    pub fn load_mem8_const(&mut self) -> (value: u8)
        requires
            old(self).program_counter < 0xffff,
        ensures
            value == old(self)@.immediate_byte(),
            final(self)@ == old(self)@.skip_byte(),
            final(self).program_counter == old(self).program_counter + 1,
    {
        let value = self.memory[self.program_counter as usize];
        self.program_counter = self.program_counter.checked_add(1).unwrap();
        value
    }

    /// Consumes the word at the program counter, high byte first: returns
    /// it and moves the program counter two addresses on. Both increments
    /// are checked, so the last two addresses are left out.
    pub fn load_mem16_const(&mut self) -> (value: u16)
        requires
            old(self).program_counter < 0xfffe,
        ensures
            value == old(self)@.immediate_word(),
            final(self)@ == old(self)@.skip_byte().skip_byte(),
            final(self).program_counter == old(self).program_counter + 2,
    {
        let high = self.load_mem8_const();
        let low = self.load_mem8_const();
        word_from_bytes(high, low)
    }

    /// Renders the registers as one trace line, such as
    /// `b=0x00 c=0x00 ... a=0x00 pc: 0x0000 sp: 0x0000 index_x: 0x0000 index_y: 0x0000 `.
    pub fn to_string(&self) -> (text: String)
        ensures
            text@ == self@.text(),
    {
        let mut text = String::new();
        let mut slot: u8 = 0;
        while slot < 8
            invariant
                slot <= 8,
                text@ == self@.registers_text(slot as nat),
            decreases 8 - slot,
        {
            let reg = Reg8::from(slot);
            text.append(reg.as_str());
            text.append("=0x");
            push_byte_hex(&mut text, self.read_reg8(reg));
            text.append(" ");
            slot += 1;
        }
        push_word_text(&mut text, "pc", self.program_counter);
        push_word_text(&mut text, "sp", self.stack_pointer);
        push_word_text(&mut text, "index_x", self.index_x);
        push_word_text(&mut text, "index_y", self.index_y);
        text
    }
}

} // verus!
