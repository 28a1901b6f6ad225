//! The core of an emulator for an 8-bit, register-oriented processor in the
//! style of the Z80: an arithmetic-logic unit, the machine state, an opcode
//! decoder and the instructions it produces.

pub mod alu;
pub mod cpu;
pub mod decode;
pub mod disassembler;
pub mod instruction;
pub mod run;
pub mod text;
