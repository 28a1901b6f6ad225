use z80emu::cpu::{Cpu, Reg8};
use z80emu::decode::build_instruction_table;
use z80emu::instruction::Operation;
use z80emu::run::{fetch, step, Cycle};

#[test]
fn advance_increments_the_program_counter() {
    let mut cpu = Cpu::default();
    cpu.program_counter = 0x1233;
    assert!(cpu.advance());
    assert_eq!(cpu.program_counter, 0x1234);
    assert_eq!(cpu.jump_address, None);
}

#[test]
fn advance_takes_and_clears_a_pending_jump() {
    let mut cpu = Cpu::default();
    cpu.program_counter = 0x1233;
    cpu.jump_address = Some(0x8000);
    assert!(cpu.advance());
    assert_eq!(cpu.program_counter, 0x8000);
    assert_eq!(cpu.jump_address, None);
}

#[test]
fn advance_from_the_last_address_is_an_overflow() {
    let mut cpu = Cpu::default();
    cpu.program_counter = 0xffff;
    assert!(!cpu.advance());
    assert_eq!(cpu.program_counter, 0xffff);
}

#[test]
fn advance_from_the_last_address_with_a_pending_jump() {
    let mut cpu = Cpu::default();
    cpu.program_counter = 0xffff;
    cpu.jump_address = Some(0x0000);
    assert!(cpu.advance());
    assert_eq!(cpu.program_counter, 0x0000);
    assert_eq!(cpu.jump_address, None);
}

#[test]
fn fetch_looks_up_the_opcode_at_the_program_counter() {
    let table = build_instruction_table();
    let mut cpu = Cpu::default();
    cpu.program_counter = 0x0200;
    cpu.write_mem8(0x0200, 0xc3);
    assert_eq!(fetch(&cpu, &table).operation(), Operation::Jump);
    cpu.write_mem8(0x0200, 0x47);
    assert_eq!(
        fetch(&cpu, &table).operation(),
        Operation::LoadReg8 { dst: Reg8::B, src: Reg8::A }
    );
}

#[test]
fn step_executes_and_advances() {
    let table = build_instruction_table();
    let mut cpu = Cpu::default();
    cpu.write_reg8(Reg8::A, 0x21);
    cpu.write_mem8(0x0000, 0x4f); // ld c, a
    cpu.write_mem8(0x0001, 0x81); // add a, c
    assert_eq!(step(&mut cpu, &table), Cycle::Continue);
    assert_eq!(cpu.read_reg8(Reg8::C), 0x21);
    assert_eq!(cpu.program_counter, 0x0001);
    assert_eq!(step(&mut cpu, &table), Cycle::Continue);
    assert_eq!(cpu.read_reg8(Reg8::A), 0x42);
    assert_eq!(cpu.program_counter, 0x0002);
}

#[test]
fn step_takes_a_jump() {
    let table = build_instruction_table();
    let mut cpu = Cpu::default();
    cpu.program_counter = 0x00c3;
    // The operand starts at the program counter: the word is c3 00.
    cpu.write_mem8(0x00c3, 0xc3);
    assert_eq!(step(&mut cpu, &table), Cycle::Continue);
    assert_eq!(cpu.program_counter, 0xc300);
    assert_eq!(cpu.jump_address, None);
}

#[test]
fn step_reports_an_illegal_opcode_and_leaves_the_machine_alone() {
    let table = build_instruction_table();
    let mut cpu = Cpu::default();
    cpu.program_counter = 0x0005;
    cpu.write_mem8(0x0005, 0xcb);
    assert_eq!(step(&mut cpu, &table), Cycle::Illegal { opcode: 0xcb });
    assert_eq!(cpu.program_counter, 0x0005);
    assert_eq!(cpu.read_mem8(0x0005), 0xcb);
    assert_eq!(cpu.jump_address, None);
}

#[test]
fn step_at_the_last_address_ends_the_run() {
    let table = build_instruction_table();
    let mut cpu = Cpu::default();
    cpu.program_counter = 0xffff;
    assert_eq!(step(&mut cpu, &table), Cycle::End);
    assert_eq!(cpu.program_counter, 0xffff);
}

#[test]
fn an_empty_memory_runs_through_every_address_once() {
    let table = build_instruction_table();
    let mut cpu = Cpu::default();
    let mut cycles = 0u32;
    loop {
        cycles += 1;
        match step(&mut cpu, &table) {
            Cycle::Continue => {}
            Cycle::End => break,
            Cycle::Illegal { opcode } => panic!("unexpected opcode {opcode:02x}"),
            Cycle::Overflow => panic!("unexpected overflow"),
        }
    }
    assert_eq!(cycles, 0x10000);
    assert_eq!(cpu.program_counter, 0xffff);
}

#[test]
fn step_detects_the_overflow_of_a_byte_operand_at_the_last_address() {
    let table = build_instruction_table();
    let mut cpu = Cpu::default();
    cpu.program_counter = 0xffff;
    cpu.write_mem8(0xffff, 0x06); // ld b, n
    assert_eq!(step(&mut cpu, &table), Cycle::Overflow);
    // Nothing wrapped and nothing was loaded.
    assert_eq!(cpu.program_counter, 0xffff);
    assert_eq!(cpu.read_reg8(Reg8::B), 0x00);
    assert_eq!(cpu.jump_address, None);
}

#[test]
fn step_detects_the_overflow_of_a_word_operand() {
    let table = build_instruction_table();
    for start in [0xfffeu16, 0xffff] {
        for opcode in [0x01u8, 0x11, 0x21, 0x31, 0xc3] {
            let mut cpu = Cpu::default();
            cpu.program_counter = start;
            cpu.write_mem8(start, opcode);
            assert_eq!(step(&mut cpu, &table), Cycle::Overflow);
            assert_eq!(cpu.program_counter, start);
            assert_eq!(cpu.jump_address, None);
            assert_eq!(cpu.stack_pointer, 0);
            assert!(cpu.general_purpose_regs.iter().all(|&value| value == 0));
        }
    }
}

#[test]
fn step_consumes_an_operand_that_ends_at_the_last_address() {
    let table = build_instruction_table();
    let mut cpu = Cpu::default();
    cpu.program_counter = 0xfffe;
    cpu.write_mem8(0xfffe, 0x06); // ld b, n
    // The operand is consumed; the increment that follows is the overflow
    // that ends the run.
    assert_eq!(step(&mut cpu, &table), Cycle::End);
    assert_eq!(cpu.read_reg8(Reg8::B), 0x06);
    assert_eq!(cpu.program_counter, 0xffff);

    let mut cpu = Cpu::default();
    cpu.program_counter = 0xfffd;
    cpu.write_mem8(0xfffd, 0xc3); // jp nn
    cpu.write_mem8(0xfffe, 0x40);
    assert_eq!(step(&mut cpu, &table), Cycle::Continue);
    assert_eq!(cpu.program_counter, 0xc340);
}

#[test]
fn step_reports_an_illegal_opcode_at_the_last_address() {
    let table = build_instruction_table();
    let mut cpu = Cpu::default();
    cpu.program_counter = 0xffff;
    cpu.write_mem8(0xffff, 0xcb);
    assert_eq!(step(&mut cpu, &table), Cycle::Illegal { opcode: 0xcb });
    assert_eq!(cpu.program_counter, 0xffff);
}
