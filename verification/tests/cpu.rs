use z80emu::cpu::{Cpu, Reg16, Reg8};

const ALL_REG8: [Reg8; 8] = [
    Reg8::B,
    Reg8::C,
    Reg8::D,
    Reg8::E,
    Reg8::H,
    Reg8::L,
    Reg8::F,
    Reg8::A,
];

#[test]
fn default_is_all_zero() {
    let cpu = Cpu::default();
    assert!(cpu.general_purpose_regs.iter().all(|&value| value == 0));
    assert_eq!(cpu.general_purpose_regs.len(), 16);
    assert_eq!(cpu.program_counter, 0);
    assert_eq!(cpu.stack_pointer, 0);
    assert_eq!(cpu.index_x, 0);
    assert_eq!(cpu.index_y, 0);
    assert_eq!(cpu.memory_refresh, 0);
    assert_eq!(cpu.memory.len(), 65536);
    assert!(cpu.memory.iter().all(|&value| value == 0));
    assert_eq!(cpu.jump_address, None);
}

#[test]
fn reg8_codes() {
    for (code, reg) in ALL_REG8.iter().enumerate() {
        assert_eq!(Reg8::from(code as u8), *reg);
        assert_eq!(reg.index(), code);
    }
}

#[test]
fn reg8_names() {
    let names = ["b", "c", "d", "e", "h", "l", "f", "a"];
    for (reg, name) in ALL_REG8.iter().zip(names) {
        assert_eq!(reg.as_str(), name);
        assert_eq!(reg.to_string(), name);
    }
}

#[test]
fn reg16_codes_and_names() {
    let pairs = [Reg16::BC, Reg16::DE, Reg16::HL, Reg16::SP];
    let names = ["bc", "de", "hl", "sp"];
    for code in 0..4usize {
        assert_eq!(Reg16::from(code as u8), pairs[code]);
        assert_eq!(pairs[code].as_str(), names[code]);
        assert_eq!(pairs[code].to_string(), names[code]);
    }
}

#[test]
fn write_reg8_changes_one_slot() {
    for (code, reg) in ALL_REG8.iter().enumerate() {
        let mut cpu = Cpu::default();
        cpu.write_reg8(*reg, 0x5a);
        for (other_code, other) in ALL_REG8.iter().enumerate() {
            let expected = if other_code == code { 0x5a } else { 0 };
            assert_eq!(cpu.read_reg8(*other), expected);
            assert_eq!(cpu.general_purpose_regs[other_code], expected);
        }
        assert!(cpu.general_purpose_regs[8..].iter().all(|&value| value == 0));
        assert!(cpu.memory.iter().all(|&value| value == 0));
    }
}

#[test]
fn memory_bytes() {
    let mut cpu = Cpu::default();
    cpu.write_mem8(0x0000, 0x11);
    cpu.write_mem8(0x1234, 0x22);
    cpu.write_mem8(0xffff, 0x33);
    assert_eq!(cpu.read_mem8(0x0000), 0x11);
    assert_eq!(cpu.read_mem8(0x1234), 0x22);
    assert_eq!(cpu.read_mem8(0xffff), 0x33);
    assert_eq!(cpu.read_mem8(0x1235), 0x00);
    assert_eq!(cpu.memory[0x1234], 0x22);
}

#[test]
fn memory_words_are_big_endian() {
    let mut cpu = Cpu::default();
    cpu.write_mem16(0x4000, 0xbeef);
    assert_eq!(cpu.read_mem8(0x4000), 0xbe);
    assert_eq!(cpu.read_mem8(0x4001), 0xef);
    assert_eq!(cpu.read_mem16(0x4000), 0xbeef);
    assert_eq!(cpu.read_mem16(0x4001), 0xef00);
    assert_eq!(cpu.read_mem16(0x3fff), 0x00be);
}

#[test]
fn memory_word_at_the_last_address_wraps_to_the_first() {
    let mut cpu = Cpu::default();
    cpu.write_mem16(0xffff, 0x1234);
    assert_eq!(cpu.read_mem8(0xffff), 0x12);
    assert_eq!(cpu.read_mem8(0x0000), 0x34);
    assert_eq!(cpu.read_mem16(0xffff), 0x1234);
}

#[test]
fn register_pairs_bc_and_de() {
    let mut cpu = Cpu::default();
    cpu.write_reg16(Reg16::BC, 0x1234);
    cpu.write_reg16(Reg16::DE, 0x5678);
    assert_eq!(cpu.read_reg8(Reg8::B), 0x12);
    assert_eq!(cpu.read_reg8(Reg8::C), 0x34);
    assert_eq!(cpu.read_reg8(Reg8::D), 0x56);
    assert_eq!(cpu.read_reg8(Reg8::E), 0x78);
    assert_eq!(cpu.read_reg16(Reg16::BC), 0x1234);
    assert_eq!(cpu.read_reg16(Reg16::DE), 0x5678);

    cpu.write_reg8(Reg8::C, 0xff);
    assert_eq!(cpu.read_reg16(Reg16::BC), 0x12ff);
}

#[test]
fn register_pair_sp_is_the_stack_pointer() {
    let mut cpu = Cpu::default();
    cpu.write_reg16(Reg16::SP, 0xfffe);
    assert_eq!(cpu.stack_pointer, 0xfffe);
    assert_eq!(cpu.read_reg16(Reg16::SP), 0xfffe);
    assert!(cpu.general_purpose_regs.iter().all(|&value| value == 0));
}

#[test]
fn register_pair_hl_reads_memory_at_the_address_in_h_and_l() {
    let mut cpu = Cpu::default();
    cpu.write_reg8(Reg8::H, 0x20);
    cpu.write_reg8(Reg8::L, 0x10);
    cpu.write_mem16(0x2010, 0xcafe);
    assert_eq!(cpu.read_reg16(Reg16::HL), 0xcafe);
}

#[test]
fn register_pair_hl_writes_memory_at_the_address_that_it_reads() {
    let mut cpu = Cpu::default();
    cpu.write_reg8(Reg8::H, 0x20);
    cpu.write_reg8(Reg8::L, 0x10);
    cpu.write_mem16(0x2010, 0x3000);
    cpu.write_reg16(Reg16::HL, 0xdead);
    // H and L are untouched; the word went to the address found through them.
    assert_eq!(cpu.read_reg8(Reg8::H), 0x20);
    assert_eq!(cpu.read_reg8(Reg8::L), 0x10);
    assert_eq!(cpu.read_mem16(0x3000), 0xdead);
    assert_eq!(cpu.read_reg16(Reg16::HL), 0x3000);
}

#[test]
fn register_pair_hl_on_a_fresh_machine() {
    let mut cpu = Cpu::default();
    cpu.write_reg16(Reg16::HL, 0xdead);
    assert_eq!(cpu.read_mem8(0x0000), 0xde);
    assert_eq!(cpu.read_mem8(0x0001), 0xad);
    assert_eq!(cpu.read_reg16(Reg16::HL), 0xdead);
}

#[test]
fn load_mem8_const_consumes_one_byte() {
    let mut cpu = Cpu::default();
    cpu.write_mem8(0x0100, 0xaa);
    cpu.write_mem8(0x0101, 0xbb);
    cpu.program_counter = 0x0100;
    assert_eq!(cpu.load_mem8_const(), 0xaa);
    assert_eq!(cpu.program_counter, 0x0101);
    assert_eq!(cpu.load_mem8_const(), 0xbb);
    assert_eq!(cpu.program_counter, 0x0102);
}

#[test]
fn load_mem8_const_up_to_the_last_address() {
    let mut cpu = Cpu::default();
    cpu.write_mem8(0xfffe, 0x77);
    cpu.program_counter = 0xfffe;
    assert_eq!(cpu.load_mem8_const(), 0x77);
    assert_eq!(cpu.program_counter, 0xffff);
}

#[test]
fn load_mem16_const_consumes_two_bytes_high_first() {
    let mut cpu = Cpu::default();
    cpu.write_mem16(0x0200, 0x1234);
    cpu.program_counter = 0x0200;
    assert_eq!(cpu.load_mem16_const(), 0x1234);
    assert_eq!(cpu.program_counter, 0x0202);
}

#[test]
fn load_mem16_const_up_to_the_last_address() {
    let mut cpu = Cpu::default();
    cpu.write_mem8(0xfffd, 0xab);
    cpu.write_mem8(0xfffe, 0xcd);
    cpu.program_counter = 0xfffd;
    assert_eq!(cpu.load_mem16_const(), 0xabcd);
    assert_eq!(cpu.program_counter, 0xffff);
}

#[test]
fn to_string_of_a_fresh_machine() {
    let cpu = Cpu::default();
    assert_eq!(
        cpu.to_string(),
        "b=0x00 c=0x00 d=0x00 e=0x00 h=0x00 l=0x00 f=0x00 a=0x00 \
         pc: 0x0000 sp: 0x0000 index_x: 0x0000 index_y: 0x0000 "
    );
}

#[test]
fn to_string_shows_every_register_in_lowercase_hexadecimal() {
    let mut cpu = Cpu::default();
    for (code, reg) in ALL_REG8.iter().enumerate() {
        cpu.write_reg8(*reg, 0xa0 + code as u8 * 0x0b);
    }
    cpu.program_counter = 0x1a2b;
    cpu.stack_pointer = 0xfffe;
    cpu.index_x = 0x00c0;
    cpu.index_y = 0xdef0;
    assert_eq!(
        cpu.to_string(),
        "b=0xa0 c=0xab d=0xb6 e=0xc1 h=0xcc l=0xd7 f=0xe2 a=0xed \
         pc: 0x1a2b sp: 0xfffe index_x: 0x00c0 index_y: 0xdef0 "
    );
}
