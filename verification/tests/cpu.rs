use invaders::bus::Bus;
use invaders::cpu::Cpu;
use invaders::ops::OpcodeMap;

#[test]
fn test_do_add() {
    let mut cpu = Cpu::new(Bus::new());
    let ops = OpcodeMap::new();

    let code = 0x80;
    let opcode = ops.get(code).unwrap();

    cpu.af.set_hi(0xD0);
    cpu.bc.set_hi(0x01);
    cpu.do_add(opcode, false).unwrap();

    assert_eq!(cpu.af.hi(), 0xD1);
    assert_eq!(cpu.is_zero_flag_set(), false);
    assert_eq!(cpu.is_sign_flag_set(), true);
    assert_eq!(cpu.is_carry_flag_set(), false);
    assert_eq!(cpu.is_auxiliary_carry_flag_set(), false);
    assert_eq!(cpu.is_parity_flag_set(), true);

    cpu.bc.set_hi(0x2F);
    cpu.do_add(opcode, false).unwrap();

    assert_eq!(cpu.af.hi(), 0);
    assert_eq!(cpu.is_zero_flag_set(), true);
    assert_eq!(cpu.is_sign_flag_set(), false);
    assert_eq!(cpu.is_carry_flag_set(), true);
    assert_eq!(cpu.is_auxiliary_carry_flag_set(), true);
    assert_eq!(cpu.is_parity_flag_set(), true);

    let code = 0x88;
    let opcode = ops.get(code).unwrap();
    cpu.bc.set_hi(0x05);
    cpu.do_add(opcode, true).unwrap();

    assert_eq!(cpu.af.hi(), 0x06);
    assert_eq!(cpu.is_zero_flag_set(), false);
    assert_eq!(cpu.is_sign_flag_set(), false);
    assert_eq!(cpu.is_carry_flag_set(), false);
    assert_eq!(cpu.is_auxiliary_carry_flag_set(), false);
    assert_eq!(cpu.is_parity_flag_set(), true);
}

#[test]
fn test_do_and() {
    let mut cpu = Cpu::new(Bus::new());
    let ops = OpcodeMap::new();
    let code = 0xA0;
    let opcode = ops.get(code).unwrap();

    cpu.af.set_hi(0b11110000);
    cpu.bc.set_hi(0b11001100);
    cpu.do_and(opcode).unwrap();

    assert_eq!(cpu.af.hi(), 0b11000000);
    assert_eq!(cpu.is_zero_flag_set(), false);
    assert_eq!(cpu.is_sign_flag_set(), true);
    assert_eq!(cpu.is_carry_flag_set(), false);
    assert_eq!(cpu.is_auxiliary_carry_flag_set(), false);
    assert_eq!(cpu.is_parity_flag_set(), true);
}

#[test]
fn test_do_compare() {
    let mut cpu = Cpu::new(Bus::new());
    let ops = OpcodeMap::new();
    let code = 0xB8;
    let opcode = ops.get(code).unwrap();

    cpu.af.set_hi(0xD0);
    cpu.bc.set_hi(0x01);
    cpu.do_compare(opcode).unwrap();

    assert_eq!(cpu.af.hi(), 0xD0);
    assert_eq!(cpu.is_zero_flag_set(), false);
    assert_eq!(cpu.is_sign_flag_set(), true);
    assert_eq!(cpu.is_carry_flag_set(), false);
    assert_eq!(cpu.is_auxiliary_carry_flag_set(), true);
    assert_eq!(cpu.is_parity_flag_set(), true);
}

#[test]
fn test_do_complement_accumulator() {
    let mut cpu = Cpu::new(Bus::new());
    let ops = OpcodeMap::new();
    let code = 0x2F;
    let opcode = ops.get(code).unwrap();

    cpu.af.set_hi(0b10101010);
    cpu.do_complement_accumulator(opcode);
    assert_eq!(cpu.af.hi(), 0b01010101);
}

#[test]
fn test_do_decimal_adjust_accumulator() {
    let mut cpu = Cpu::new(Bus::new());
    let ops = OpcodeMap::new();
    let code = 0x27;
    let opcode = ops.get(code).unwrap();

    cpu.af.set_hi(0x9B);
    cpu.do_decimal_adjust_accumulator(opcode);

    assert_eq!(cpu.af.hi(), 0x01);
    assert_eq!(cpu.is_zero_flag_set(), false);
    assert_eq!(cpu.is_sign_flag_set(), false);
    assert_eq!(cpu.is_carry_flag_set(), true);
    assert_eq!(cpu.is_auxiliary_carry_flag_set(), true);
    assert_eq!(cpu.is_parity_flag_set(), false);
}

#[test]
fn test_do_decrement() {
    let mut cpu = Cpu::new(Bus::new());
    let ops = OpcodeMap::new();
    let code = 0x05;
    let opcode = ops.get(code).unwrap();

    cpu.bc.set_hi(0);
    cpu.do_decrement(opcode).unwrap();
    assert_eq!(cpu.bc.hi(), 0xFF);
    assert_eq!(cpu.is_zero_flag_set(), false);
    assert_eq!(cpu.is_sign_flag_set(), true);
    assert_eq!(cpu.is_auxiliary_carry_flag_set(), true);
    assert_eq!(cpu.is_parity_flag_set(), true);

    cpu.bc.set_hi(1);
    cpu.do_decrement(opcode).unwrap();
    assert_eq!(cpu.bc.hi(), 0);
    assert_eq!(cpu.is_zero_flag_set(), true);
    assert_eq!(cpu.is_sign_flag_set(), false);
    assert_eq!(cpu.is_auxiliary_carry_flag_set(), false);
    assert_eq!(cpu.is_parity_flag_set(), true);

    cpu.bc.set_hi(0x80);
    cpu.do_decrement(opcode).unwrap();
    assert_eq!(cpu.bc.hi(), 0x7F);
    assert_eq!(cpu.is_zero_flag_set(), false);
    assert_eq!(cpu.is_sign_flag_set(), false);
    assert_eq!(cpu.is_auxiliary_carry_flag_set(), true);
    assert_eq!(cpu.is_parity_flag_set(), false);

    cpu.bc.set_hi(0x7F);
    cpu.do_decrement(opcode).unwrap();
    assert_eq!(cpu.bc.hi(), 0x7E);
    assert_eq!(cpu.is_zero_flag_set(), false);
    assert_eq!(cpu.is_sign_flag_set(), false);
    assert_eq!(cpu.is_auxiliary_carry_flag_set(), false);
    assert_eq!(cpu.is_parity_flag_set(), true);
}

#[test]
fn test_do_increment() {
    let mut cpu = Cpu::new(Bus::new());
    let ops = OpcodeMap::new();
    let code = 0x04;
    let opcode = ops.get(code).unwrap();

    cpu.bc.set_hi(0);
    cpu.do_increment(opcode).unwrap();
    assert_eq!(cpu.bc.hi(), 1);
    assert_eq!(cpu.is_zero_flag_set(), false);
    assert_eq!(cpu.is_sign_flag_set(), false);
    assert_eq!(cpu.is_auxiliary_carry_flag_set(), false);
    assert_eq!(cpu.is_parity_flag_set(), false);

    cpu.bc.set_hi(0xFF);
    cpu.do_increment(opcode).unwrap();
    assert_eq!(cpu.bc.hi(), 0);
    assert_eq!(cpu.is_zero_flag_set(), true);
    assert_eq!(cpu.is_sign_flag_set(), false);
    assert_eq!(cpu.is_auxiliary_carry_flag_set(), true);
    assert_eq!(cpu.is_parity_flag_set(), true);

    cpu.bc.set_hi(0x7F);
    cpu.do_increment(opcode).unwrap();
    assert_eq!(cpu.bc.hi(), 0x80);
    assert_eq!(cpu.is_zero_flag_set(), false);
    assert_eq!(cpu.is_sign_flag_set(), true);
    assert_eq!(cpu.is_auxiliary_carry_flag_set(), true);
    assert_eq!(cpu.is_parity_flag_set(), false);

    cpu.bc.set_hi(0x80);
    cpu.do_increment(opcode).unwrap();
    assert_eq!(cpu.bc.hi(), 0x81);
    assert_eq!(cpu.is_zero_flag_set(), false);
    assert_eq!(cpu.is_sign_flag_set(), true);
    assert_eq!(cpu.is_auxiliary_carry_flag_set(), false);
    assert_eq!(cpu.is_parity_flag_set(), true);
}

#[test]
fn test_do_load_accumulator() {
    let mut cpu = Cpu::new(Bus::new());
    let ops = OpcodeMap::new();
    let code = 0x1A;
    let opcode = ops.get(code).unwrap();

    cpu.de.val = 0x1234;

    cpu.write_memory(cpu.de.val, 0xD0);
    cpu.do_load_accumulator(opcode).unwrap();
    assert_eq!(cpu.af.hi(), 0xD0);
}

#[test]
fn test_do_move() {
    let mut cpu = Cpu::new(Bus::new());
    let ops = OpcodeMap::new();

    let code = 0x41;
    let opcode = ops.get(code).unwrap();

    cpu.bc.set_lo(0xD0);
    cpu.do_move(opcode).unwrap();

    assert_eq!(cpu.bc.hi(), 0xD0);

    let code = 0x53;
    let opcode = ops.get(code).unwrap();

    cpu.de.set_lo(0x45);
    cpu.do_move(opcode).unwrap();

    assert_eq!(cpu.de.hi(), 0x45);

    let code = 0x4E;
    let opcode = ops.get(code).unwrap();

    cpu.hl.val = 0x1234;
    cpu.write_memory(cpu.hl.val, 0x23);
    cpu.do_move(opcode).unwrap();

    assert_eq!(cpu.bc.lo(), 0x23);
}

#[test]
fn test_do_rotate_left() {
    let mut cpu = Cpu::new(Bus::new());
    let ops = OpcodeMap::new();
    let code = 0x07;
    let opcode = ops.get(code).unwrap();

    cpu.af.set_hi(0b10101010);
    cpu.do_rotate_left(opcode, false);

    assert_eq!(cpu.af.hi(), 0b01010101);
    assert_eq!(cpu.is_carry_flag_set(), true);

    cpu.do_rotate_left(opcode, false);

    assert_eq!(cpu.af.hi(), 0b10101010);
    assert_eq!(cpu.is_carry_flag_set(), false);

    let code = 0x17;
    let opcode = ops.get(code).unwrap();

    cpu.do_rotate_left(opcode, true);

    assert_eq!(cpu.af.hi(), 0b01010100);
    assert_eq!(cpu.is_carry_flag_set(), true);

    cpu.do_rotate_left(opcode, true);

    assert_eq!(cpu.af.hi(), 0b10101001);
    assert_eq!(cpu.is_carry_flag_set(), false);
}

#[test]
fn test_do_rotate_right() {
    let mut cpu = Cpu::new(Bus::new());
    let ops = OpcodeMap::new();
    let code = 0x0F;
    let opcode = ops.get(code).unwrap();

    cpu.af.set_hi(0b10101010);
    cpu.do_rotate_right(opcode, false);

    assert_eq!(cpu.af.hi(), 0b01010101);
    assert_eq!(cpu.is_carry_flag_set(), false);

    cpu.do_rotate_right(opcode, false);

    assert_eq!(cpu.af.hi(), 0b10101010);
    assert_eq!(cpu.is_carry_flag_set(), true);

    let code = 0x1F;
    let opcode = ops.get(code).unwrap();

    cpu.do_rotate_right(opcode, true);

    assert_eq!(cpu.af.hi(), 0b11010101);
    assert_eq!(cpu.is_carry_flag_set(), false);

    cpu.do_rotate_right(opcode, true);

    assert_eq!(cpu.af.hi(), 0b01101010);
    assert_eq!(cpu.is_carry_flag_set(), true);
}

#[test]
fn test_do_store_accumulator() {
    let mut cpu = Cpu::new(Bus::new());
    let ops = OpcodeMap::new();
    let code = 0x02;
    let opcode = ops.get(code).unwrap();

    cpu.bc.val = 0x1234;

    cpu.af.set_hi(0xD0);
    cpu.do_store_accumulator(opcode).unwrap();
    assert_eq!(cpu.read_memory(cpu.bc.val), 0xD0);
}

#[test]
fn test_do_sub() {
    let mut cpu = Cpu::new(Bus::new());
    let ops = OpcodeMap::new();

    let code = 0x90;
    let opcode = ops.get(code).unwrap();

    cpu.af.set_hi(0xD0);
    cpu.bc.set_hi(0x01);
    cpu.do_sub(opcode, false).unwrap();

    assert_eq!(cpu.af.hi(), 0xCF);
    assert_eq!(cpu.is_zero_flag_set(), false);
    assert_eq!(cpu.is_sign_flag_set(), true);
    assert_eq!(cpu.is_carry_flag_set(), false);
    assert_eq!(cpu.is_auxiliary_carry_flag_set(), true);
    assert_eq!(cpu.is_parity_flag_set(), true);

    cpu.bc.set_hi(0xD0);
    cpu.do_sub(opcode, false).unwrap();

    assert_eq!(cpu.af.hi(), 0xFF);
    assert_eq!(cpu.is_zero_flag_set(), false);
    assert_eq!(cpu.is_sign_flag_set(), true);
    assert_eq!(cpu.is_carry_flag_set(), true);
    assert_eq!(cpu.is_auxiliary_carry_flag_set(), false);
    assert_eq!(cpu.is_parity_flag_set(), true);

    let code = 0x98;
    let opcode = ops.get(code).unwrap();
    cpu.bc.set_hi(0x05);
    cpu.do_sub(opcode, true).unwrap();

    assert_eq!(cpu.af.hi(), 0xF9);
    assert_eq!(cpu.is_zero_flag_set(), false);
    assert_eq!(cpu.is_sign_flag_set(), true);
    assert_eq!(cpu.is_carry_flag_set(), false);
    assert_eq!(cpu.is_auxiliary_carry_flag_set(), false);
    assert_eq!(cpu.is_parity_flag_set(), true);
}

#[test]
fn test_do_xor() {
    let mut cpu = Cpu::new(Bus::new());
    let ops = OpcodeMap::new();
    let code = 0xA8;
    let opcode = ops.get(code).unwrap();

    cpu.af.set_hi(0b11110000);
    cpu.bc.set_hi(0b11001100);
    cpu.do_xor(opcode).unwrap();

    assert_eq!(cpu.af.hi(), 0b00111100);
    assert_eq!(cpu.is_zero_flag_set(), false);
    assert_eq!(cpu.is_sign_flag_set(), false);
    assert_eq!(cpu.is_carry_flag_set(), false);
    assert_eq!(cpu.is_auxiliary_carry_flag_set(), false);
    assert_eq!(cpu.is_parity_flag_set(), true);
}

#[test]
fn test_do_or() {
    let mut cpu = Cpu::new(Bus::new());
    let ops = OpcodeMap::new();
    let code = 0xB0;
    let opcode = ops.get(code).unwrap();

    cpu.af.set_hi(0b11110000);
    cpu.bc.set_hi(0b11001100);
    cpu.do_or(opcode).unwrap();

    assert_eq!(cpu.af.hi(), 0b11111100);
    assert_eq!(cpu.is_zero_flag_set(), false);
    assert_eq!(cpu.is_sign_flag_set(), true);
    assert_eq!(cpu.is_carry_flag_set(), false);
    assert_eq!(cpu.is_auxiliary_carry_flag_set(), false);
    assert_eq!(cpu.is_parity_flag_set(), true);
}
