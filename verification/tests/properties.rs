use invaders::bus::Bus;
use invaders::cpu::{Cpu, CpuError};
use invaders::ops::{OpCode, OpcodeMap, Operation};

fn cpu_with(program: &[u8]) -> Cpu {
    let mut bus = Bus::new();
    let mut addr: u16 = 0;
    for byte in program {
        bus.write_byte(addr, *byte);
        addr += 1;
    }
    Cpu::new(bus)
}

#[test]
fn add_sets_carry_zero_and_parity_for_every_pair_of_bytes() {
    let ops = OpcodeMap::new();
    let opcode = ops.get(0x80).unwrap();
    let mut cpu = Cpu::new(Bus::new());
    for a in 0..=255u8 {
        for b in 0..=255u8 {
            cpu.af.set_hi(a);
            cpu.bc.set_hi(b);
            assert_eq!(cpu.do_add(opcode, false), Ok(4));
            let sum = a as u16 + b as u16;
            assert_eq!(cpu.af.hi(), (sum % 256) as u8);
            assert_eq!(cpu.is_carry_flag_set(), sum > 255);
            assert_eq!(cpu.is_zero_flag_set(), sum % 256 == 0);
            assert_eq!(cpu.is_parity_flag_set(), ((sum % 256) as u8).count_ones() % 2 == 0);
            assert_eq!(cpu.is_sign_flag_set(), sum % 256 >= 128);
            assert_eq!(cpu.is_auxiliary_carry_flag_set(), (a % 16) + (b % 16) > 15);
        }
    }
}

#[test]
fn add_of_ff_and_01_wraps_to_zero_with_carry() {
    let ops = OpcodeMap::new();
    let mut cpu = Cpu::new(Bus::new());
    cpu.af.set_hi(0xFF);
    cpu.bc.set_hi(0x01);
    cpu.do_add(ops.get(0x80).unwrap(), false).unwrap();
    assert_eq!(cpu.af.hi(), 0x00);
    assert!(cpu.is_carry_flag_set());
    assert!(cpu.is_zero_flag_set());
    assert!(cpu.is_parity_flag_set());
    assert!(cpu.is_auxiliary_carry_flag_set());
    assert!(!cpu.is_sign_flag_set());
}

#[test]
fn adc_adds_the_carry_flag() {
    let ops = OpcodeMap::new();
    let mut cpu = Cpu::new(Bus::new());
    cpu.af.set_hi(0x0F);
    cpu.bc.set_lo(0x00);
    cpu.update_carry_flag(true);
    cpu.do_add(ops.get(0x89).unwrap(), true).unwrap();
    assert_eq!(cpu.af.hi(), 0x10);
    assert!(cpu.is_auxiliary_carry_flag_set());
    assert!(!cpu.is_carry_flag_set());
    assert!(!cpu.is_zero_flag_set());
    assert!(!cpu.is_parity_flag_set());
}

#[test]
fn add_without_carry_ignores_the_carry_flag() {
    let ops = OpcodeMap::new();
    let mut cpu = Cpu::new(Bus::new());
    cpu.af.set_hi(0x0F);
    cpu.bc.set_hi(0x00);
    cpu.update_carry_flag(true);
    cpu.do_add(ops.get(0x80).unwrap(), false).unwrap();
    assert_eq!(cpu.af.hi(), 0x0F);
    assert!(!cpu.is_carry_flag_set());
}

#[test]
fn add_immediate_takes_the_byte_after_the_opcode() {
    let mut cpu = cpu_with(&[0xC6, 0x05, 0x00]);
    cpu.program_counter = 1;
    cpu.af.set_hi(0x20);
    let adi = OpCode::new(0xC6, String::from("ADI"), Operation::ADD, 2, 7, None);
    assert_eq!(cpu.do_add(&adi, false), Ok(7));
    assert_eq!(cpu.af.hi(), 0x25);
    assert_eq!(cpu.program_counter, 2);
}

#[test]
fn add_takes_the_byte_that_hl_addresses() {
    let ops = OpcodeMap::new();
    let mut cpu = Cpu::new(Bus::new());
    cpu.hl.val = 0x2000;
    cpu.write_memory(0x2000, 0x11);
    cpu.af.set_hi(0x22);
    assert_eq!(cpu.do_add(ops.get(0x86).unwrap(), false), Ok(7));
    assert_eq!(cpu.af.hi(), 0x33);
}

#[test]
fn sub_then_add_restores_the_accumulator_for_every_pair_of_bytes() {
    let ops = OpcodeMap::new();
    let sub = ops.get(0x90).unwrap();
    let add = ops.get(0x80).unwrap();
    let mut cpu = Cpu::new(Bus::new());
    for a in 0..=255u8 {
        for b in 0..=255u8 {
            cpu.af.set_hi(a);
            cpu.bc.set_hi(b);
            cpu.do_sub(sub, false).unwrap();
            assert_eq!(cpu.af.hi(), a.wrapping_sub(b));
            assert_eq!(cpu.is_carry_flag_set(), a < b);
            assert_eq!(cpu.is_auxiliary_carry_flag_set(), a % 16 < b % 16);
            cpu.do_add(add, false).unwrap();
            assert_eq!(cpu.af.hi(), a);
        }
    }
}

#[test]
fn sbb_takes_the_borrow_too() {
    let ops = OpcodeMap::new();
    let mut cpu = Cpu::new(Bus::new());
    cpu.af.set_hi(0x10);
    cpu.bc.set_hi(0x0F);
    cpu.update_carry_flag(true);
    cpu.do_sub(ops.get(0x98).unwrap(), true).unwrap();
    assert_eq!(cpu.af.hi(), 0x00);
    assert!(cpu.is_zero_flag_set());
    assert!(!cpu.is_carry_flag_set());
    assert!(cpu.is_auxiliary_carry_flag_set());
    assert!(cpu.is_parity_flag_set());
    assert!(!cpu.is_sign_flag_set());
}

#[test]
fn sbb_of_equal_bytes_with_borrow_goes_below_zero() {
    let ops = OpcodeMap::new();
    let mut cpu = Cpu::new(Bus::new());
    cpu.af.set_hi(0x42);
    cpu.update_carry_flag(true);
    cpu.do_sub(ops.get(0x9F).unwrap(), true).unwrap();
    assert_eq!(cpu.af.hi(), 0xFF);
    assert!(cpu.is_carry_flag_set());
    assert!(cpu.is_sign_flag_set());
}

#[test]
fn compare_never_changes_the_accumulator() {
    let ops = OpcodeMap::new();
    let opcode = ops.get(0xB8).unwrap();
    let mut cpu = Cpu::new(Bus::new());
    for flags in [0x00u8, 0xFF, 0x01, 0xD5] {
        for a in 0..=255u8 {
            for b in 0..=255u8 {
                cpu.af.set_hi(a);
                cpu.af.set_lo(flags);
                cpu.bc.set_hi(b);
                assert_eq!(cpu.do_compare(opcode), Ok(4));
                assert_eq!(cpu.af.hi(), a);
                assert_eq!(cpu.is_zero_flag_set(), a == b);
                assert_eq!(cpu.is_carry_flag_set(), a < b);
                assert_eq!(cpu.is_sign_flag_set(), a.wrapping_sub(b) >= 128);
                assert_eq!(cpu.is_parity_flag_set(), a.wrapping_sub(b).count_ones() % 2 == 0);
                assert_eq!(cpu.is_auxiliary_carry_flag_set(), a % 16 < b % 16);
            }
        }
    }
}

#[test]
fn decrement_then_increment_restores_every_register() {
    let ops = OpcodeMap::new();
    for (dcr, inr) in [
        (0x05u8, 0x04u8),
        (0x0D, 0x0C),
        (0x15, 0x14),
        (0x1D, 0x1C),
        (0x25, 0x24),
        (0x2D, 0x2C),
        (0x35, 0x34),
        (0x3D, 0x3C),
    ] {
        for value in 0..=255u8 {
            let mut cpu = Cpu::new(Bus::new());
            cpu.af.val = 0x1100;
            cpu.bc.val = 0x2233;
            cpu.de.val = 0x4455;
            cpu.hl.val = 0x6677;
            cpu.write_memory(0x6677, 0x88);
            let index = dcr / 8;
            match index {
                0 => cpu.bc.set_hi(value),
                1 => cpu.bc.set_lo(value),
                2 => cpu.de.set_hi(value),
                3 => cpu.de.set_lo(value),
                4 => cpu.hl.set_hi(value),
                5 => cpu.hl.set_lo(value),
                6 => cpu.write_memory(cpu.hl.val, value),
                _ => cpu.af.set_hi(value),
            }
            let before = (cpu.af.hi(), cpu.bc.val, cpu.de.val, cpu.hl.val, cpu.read_memory(cpu.hl.val));
            cpu.do_decrement(ops.get(dcr).unwrap()).unwrap();
            cpu.do_increment(ops.get(inr).unwrap()).unwrap();
            let after = (cpu.af.hi(), cpu.bc.val, cpu.de.val, cpu.hl.val, cpu.read_memory(cpu.hl.val));
            assert_eq!(before, after);
        }
    }
}

#[test]
fn increment_of_ff_wraps_and_keeps_carry() {
    let ops = OpcodeMap::new();
    let opcode = ops.get(0x04).unwrap();
    for carry in [false, true] {
        let mut cpu = Cpu::new(Bus::new());
        cpu.update_carry_flag(carry);
        cpu.bc.set_hi(0xFF);
        assert_eq!(cpu.do_increment(opcode), Ok(5));
        assert_eq!(cpu.bc.hi(), 0x00);
        assert_eq!(cpu.is_carry_flag_set(), carry);
        assert!(cpu.is_zero_flag_set());
    }
}

#[test]
fn decrement_of_zero_wraps_and_keeps_carry() {
    let ops = OpcodeMap::new();
    let opcode = ops.get(0x0D).unwrap();
    for carry in [false, true] {
        let mut cpu = Cpu::new(Bus::new());
        cpu.update_carry_flag(carry);
        cpu.bc.set_lo(0x00);
        assert_eq!(cpu.do_decrement(opcode), Ok(5));
        assert_eq!(cpu.bc.lo(), 0xFF);
        assert_eq!(cpu.is_carry_flag_set(), carry);
        assert!(cpu.is_auxiliary_carry_flag_set());
    }
}

#[test]
fn increment_and_decrement_count_the_accumulator_itself() {
    let ops = OpcodeMap::new();
    let mut cpu = Cpu::new(Bus::new());
    cpu.af.set_hi(0x41);
    cpu.bc.set_hi(0x07);
    assert_eq!(cpu.do_increment(ops.get(0x3C).unwrap()), Ok(5));
    assert_eq!(cpu.af.hi(), 0x42);
    assert_eq!(cpu.bc.hi(), 0x07);
    assert_eq!(cpu.do_decrement(ops.get(0x3D).unwrap()), Ok(5));
    assert_eq!(cpu.do_decrement(ops.get(0x3D).unwrap()), Ok(5));
    assert_eq!(cpu.af.hi(), 0x40);
    assert_eq!(cpu.bc.hi(), 0x07);
}

#[test]
fn increment_of_memory_counts_the_byte_that_hl_addresses() {
    let ops = OpcodeMap::new();
    let mut cpu = Cpu::new(Bus::new());
    cpu.hl.val = 0x3000;
    cpu.write_memory(0x3000, 0x0F);
    assert_eq!(cpu.do_increment(ops.get(0x34).unwrap()), Ok(10));
    assert_eq!(cpu.read_memory(0x3000), 0x10);
    assert!(cpu.is_auxiliary_carry_flag_set());
    assert_eq!(cpu.do_decrement(ops.get(0x35).unwrap()), Ok(10));
    assert_eq!(cpu.read_memory(0x3000), 0x0F);
    assert!(cpu.is_auxiliary_carry_flag_set());
}

#[test]
fn decimal_adjust_vectors() {
    let ops = OpcodeMap::new();
    let opcode = ops.get(0x27).unwrap();

    let mut cpu = Cpu::new(Bus::new());
    cpu.af.set_hi(0x00);
    assert_eq!(cpu.do_decimal_adjust_accumulator(opcode), 4);
    assert_eq!(cpu.af.hi(), 0x00);
    assert!(cpu.is_zero_flag_set());
    assert!(cpu.is_parity_flag_set());
    assert!(!cpu.is_carry_flag_set());
    assert!(!cpu.is_auxiliary_carry_flag_set());

    let mut cpu = Cpu::new(Bus::new());
    cpu.af.set_hi(0x0A);
    cpu.do_decimal_adjust_accumulator(opcode);
    assert_eq!(cpu.af.hi(), 0x10);
    assert!(cpu.is_auxiliary_carry_flag_set());
    assert!(!cpu.is_carry_flag_set());

    let mut cpu = Cpu::new(Bus::new());
    cpu.af.set_hi(0xA0);
    cpu.do_decimal_adjust_accumulator(opcode);
    assert_eq!(cpu.af.hi(), 0x00);
    assert!(cpu.is_carry_flag_set());
    assert!(cpu.is_zero_flag_set());
    assert!(!cpu.is_auxiliary_carry_flag_set());

    let mut cpu = Cpu::new(Bus::new());
    cpu.af.set_hi(0x13);
    cpu.update_auxiliary_carry_flag(true);
    cpu.do_decimal_adjust_accumulator(opcode);
    assert_eq!(cpu.af.hi(), 0x19);
    assert!(!cpu.is_auxiliary_carry_flag_set());
    assert!(!cpu.is_carry_flag_set());

    let mut cpu = Cpu::new(Bus::new());
    cpu.af.set_hi(0x99);
    cpu.update_carry_flag(true);
    cpu.do_decimal_adjust_accumulator(opcode);
    assert_eq!(cpu.af.hi(), 0xF9);
    assert!(!cpu.is_carry_flag_set());
    assert!(cpu.is_sign_flag_set());

    let mut cpu = Cpu::new(Bus::new());
    cpu.af.set_hi(0xFA);
    cpu.do_decimal_adjust_accumulator(opcode);
    assert_eq!(cpu.af.hi(), 0x00);
    assert!(cpu.is_auxiliary_carry_flag_set());
    assert!(!cpu.is_carry_flag_set());
    assert!(cpu.is_zero_flag_set());
}

#[test]
fn rotate_left_eight_times_restores_every_byte() {
    let ops = OpcodeMap::new();
    let opcode = ops.get(0x07).unwrap();
    for value in 0..=255u8 {
        for flags in [0x00u8, 0x01] {
            let mut cpu = Cpu::new(Bus::new());
            cpu.af.set_hi(value);
            cpu.af.set_lo(flags);
            for _ in 0..8 {
                assert_eq!(cpu.do_rotate_left(opcode, false), 4);
            }
            assert_eq!(cpu.af.hi(), value);
            assert_eq!(cpu.is_carry_flag_set(), value & 0x01 != 0);
            if (value & 0x80 != 0) == (value & 0x01 != 0) {
                assert_eq!(cpu.is_carry_flag_set(), value & 0x80 != 0);
            }
        }
    }
}

#[test]
fn rotate_left_once_puts_bit_seven_into_carry() {
    let ops = OpcodeMap::new();
    let mut cpu = Cpu::new(Bus::new());
    cpu.af.set_hi(0x80);
    cpu.do_rotate_left(ops.get(0x07).unwrap(), false);
    assert_eq!(cpu.af.hi(), 0x01);
    assert!(cpu.is_carry_flag_set());
}

#[test]
fn rotates_change_no_flag_but_carry() {
    let ops = OpcodeMap::new();
    let mut cpu = Cpu::new(Bus::new());
    cpu.af.val = 0x81FE;
    cpu.do_rotate_left(ops.get(0x17).unwrap(), true);
    assert_eq!(cpu.af.val, 0x02FF);
    cpu.do_rotate_right(ops.get(0x1F).unwrap(), true);
    assert_eq!(cpu.af.val, 0x81FE);
    cpu.do_rotate_right(ops.get(0x0F).unwrap(), false);
    assert_eq!(cpu.af.val, 0xC0FF);
}

#[test]
fn push_then_pop_returns_the_word_and_the_stack_pointer() {
    let mut cpu = Cpu::new(Bus::new());
    cpu.stack_pointer = 0x2400;
    cpu.push_word_to_stack(0xBEEF);
    assert_eq!(cpu.stack_pointer, 0x23FE);
    assert_eq!(cpu.read_memory(0x23FF), 0xBE);
    assert_eq!(cpu.read_memory(0x23FE), 0xEF);
    assert_eq!(cpu.pop_word_from_stack(), 0xBEEF);
    assert_eq!(cpu.stack_pointer, 0x2400);
}

#[test]
fn the_stack_wraps_around_the_address_space() {
    let mut cpu = Cpu::new(Bus::new());
    cpu.stack_pointer = 0x0001;
    cpu.push_word_to_stack(0x1234);
    assert_eq!(cpu.stack_pointer, 0xFFFF);
    assert_eq!(cpu.read_memory(0x0000), 0x12);
    assert_eq!(cpu.read_memory(0xFFFF), 0x34);
    assert_eq!(cpu.pop_word_from_stack(), 0x1234);
    assert_eq!(cpu.stack_pointer, 0x0001);

    cpu.stack_pointer = 0x0000;
    cpu.push_byte_to_stack(0x7E);
    assert_eq!(cpu.stack_pointer, 0xFFFF);
    assert_eq!(cpu.read_memory(0xFFFF), 0x7E);
    assert_eq!(cpu.pop_byte_from_stack(), 0x7E);
    assert_eq!(cpu.stack_pointer, 0x0000);
}

#[test]
fn logic_instructions_clear_both_carries() {
    let ops = OpcodeMap::new();
    for code in [0xA0u8, 0xA8, 0xB0] {
        let mut cpu = Cpu::new(Bus::new());
        cpu.af.set_hi(0x5A);
        cpu.bc.set_hi(0x3C);
        cpu.update_carry_flag(true);
        cpu.update_auxiliary_carry_flag(true);
        let opcode = ops.get(code).unwrap();
        let result = match code {
            0xA0 => cpu.do_and(opcode),
            0xA8 => cpu.do_xor(opcode),
            _ => cpu.do_or(opcode),
        };
        assert_eq!(result, Ok(4));
        assert!(!cpu.is_carry_flag_set());
        assert!(!cpu.is_auxiliary_carry_flag_set());
        let expected = match code {
            0xA0 => 0x5A & 0x3C,
            0xA8 => 0x5A ^ 0x3C,
            _ => 0x5A | 0x3C,
        };
        assert_eq!(cpu.af.hi(), expected);
    }
}

#[test]
fn xor_of_the_accumulator_with_itself_is_zero() {
    let ops = OpcodeMap::new();
    let mut cpu = Cpu::new(Bus::new());
    cpu.af.set_hi(0x77);
    cpu.do_xor(ops.get(0xAF).unwrap()).unwrap();
    assert_eq!(cpu.af.hi(), 0);
    assert!(cpu.is_zero_flag_set());
    assert!(cpu.is_parity_flag_set());
    assert!(!cpu.is_sign_flag_set());
}

#[test]
fn the_unused_bits_of_the_flag_register_are_kept() {
    let ops = OpcodeMap::new();
    let mut cpu = Cpu::new(Bus::new());
    cpu.af.set_lo(0x2A);
    cpu.af.set_hi(0xFF);
    cpu.bc.set_hi(0x01);
    cpu.do_add(ops.get(0x80).unwrap(), false).unwrap();
    assert_eq!(cpu.af.lo(), 0x2A | 0x40 | 0x10 | 0x04 | 0x01);
    cpu.af.set_lo(0x00);
    cpu.af.set_hi(0x80);
    cpu.bc.set_hi(0x00);
    cpu.do_add(ops.get(0x80).unwrap(), false).unwrap();
    assert_eq!(cpu.af.lo(), 0x80);
}

#[test]
fn execute_add_b_end_to_end() {
    let mut cpu = cpu_with(&[0x80]);
    cpu.af.set_hi(0xD0);
    cpu.bc.set_hi(0x01);
    assert_eq!(cpu.execute(), Ok(4));
    assert_eq!(cpu.af.hi(), 0xD1);
    assert_eq!(cpu.is_zero_flag_set(), false);
    assert_eq!(cpu.is_sign_flag_set(), true);
    assert_eq!(cpu.is_carry_flag_set(), false);
    assert_eq!(cpu.is_auxiliary_carry_flag_set(), false);
    assert_eq!(cpu.is_parity_flag_set(), true);
    assert_eq!(cpu.program_counter, 1);
}

#[test]
fn execute_decimal_adjust_end_to_end() {
    let mut cpu = cpu_with(&[0x27]);
    cpu.af.set_hi(0x9B);
    assert_eq!(cpu.execute(), Ok(4));
    assert_eq!(cpu.af.hi(), 0x01);
    assert_eq!(cpu.is_carry_flag_set(), true);
    assert_eq!(cpu.is_auxiliary_carry_flag_set(), true);
    assert_eq!(cpu.is_zero_flag_set(), false);
    assert_eq!(cpu.is_sign_flag_set(), false);
    assert_eq!(cpu.is_parity_flag_set(), false);
    assert_eq!(cpu.program_counter, 1);
}

#[test]
fn execute_signals_an_unrecognized_opcode_and_keeps_the_state() {
    for code in [0x01u8, 0x76, 0xC3, 0xFF] {
        let mut cpu = Cpu::new(Bus::new());
        cpu.program_counter = 0x0100;
        cpu.write_memory(0x0100, code);
        cpu.af.val = 0x1234;
        cpu.bc.val = 0x5678;
        cpu.de.val = 0x9ABC;
        cpu.hl.val = 0xDEF0;
        cpu.stack_pointer = 0x2400;
        assert_eq!(cpu.execute(), Err(CpuError::UnrecognizedOpcode { code, pc: 0x0100 }));
        assert_eq!(cpu.program_counter, 0x0100);
        assert_eq!(cpu.stack_pointer, 0x2400);
        assert_eq!(cpu.af.val, 0x1234);
        assert_eq!(cpu.bc.val, 0x5678);
        assert_eq!(cpu.de.val, 0x9ABC);
        assert_eq!(cpu.hl.val, 0xDEF0);
        assert_eq!(cpu.read_memory(0x0100), code);
    }
}

#[test]
fn execute_signals_a_family_without_a_handler() {
    for code in [0x03u8, 0x09, 0x0B, 0xC1, 0xC5, 0xE3, 0xEB, 0xF9] {
        let mut cpu = cpu_with(&[code]);
        cpu.stack_pointer = 0x2400;
        cpu.hl.val = 0x1111;
        assert_eq!(cpu.execute(), Err(CpuError::UnhandledOperand { code, pc: 0x0001 }));
        assert_eq!(cpu.program_counter, 0x0001);
        assert_eq!(cpu.stack_pointer, 0x2400);
        assert_eq!(cpu.hl.val, 0x1111);
        assert_eq!(cpu.bc.val, 0);
        assert_eq!(cpu.de.val, 0);
    }
}

#[test]
fn execute_runs_every_family_that_has_a_handler() {
    let ops = OpcodeMap::new();
    for code in 0..=255u8 {
        let mut cpu = cpu_with(&[code]);
        let result = cpu.execute();
        match ops.get(code) {
            None => assert_eq!(result, Err(CpuError::UnrecognizedOpcode { code, pc: 0 })),
            Some(opcode) => match opcode.operation {
                Operation::DAD
                | Operation::DCX
                | Operation::INX
                | Operation::POP
                | Operation::PUSH
                | Operation::SPHL
                | Operation::XCHG
                | Operation::XTHL => {
                    assert_eq!(result, Err(CpuError::UnhandledOperand { code, pc: 1 }))
                },
                _ => {
                    assert_eq!(result, Ok(opcode.cycles));
                    assert_eq!(cpu.program_counter, 1);
                },
            },
        }
    }
}

#[test]
fn execute_compare_and_or_are_dispatched() {
    let mut cpu = cpu_with(&[0xB8, 0xB1]);
    cpu.af.set_hi(0x10);
    cpu.bc.val = 0x100F;
    assert_eq!(cpu.execute(), Ok(4));
    assert!(cpu.is_zero_flag_set());
    assert_eq!(cpu.af.hi(), 0x10);
    assert_eq!(cpu.execute(), Ok(4));
    assert_eq!(cpu.af.hi(), 0x1F);
    assert_eq!(cpu.program_counter, 2);
}

#[test]
fn execute_wraps_the_program_counter() {
    let mut cpu = Cpu::new(Bus::new());
    cpu.program_counter = 0xFFFF;
    cpu.write_memory(0xFFFF, 0x00);
    assert_eq!(cpu.execute(), Ok(4));
    assert_eq!(cpu.program_counter, 0x0000);
}

#[test]
fn a_handler_refuses_an_opcode_of_another_family() {
    let ops = OpcodeMap::new();
    let mut cpu = Cpu::new(Bus::new());
    cpu.program_counter = 0x0042;
    cpu.af.val = 0x1234;
    let foreign = ops.get(0x00).unwrap();
    let error = Err(CpuError::UnhandledOperand { code: 0x00, pc: 0x0042 });
    assert_eq!(cpu.do_add(foreign, false), error);
    assert_eq!(cpu.do_sub(foreign, false), error);
    assert_eq!(cpu.do_and(foreign), error);
    assert_eq!(cpu.do_xor(foreign), error);
    assert_eq!(cpu.do_or(foreign), error);
    assert_eq!(cpu.do_compare(foreign), error);
    assert_eq!(cpu.do_increment(foreign), error);
    assert_eq!(cpu.do_decrement(foreign), error);
    assert_eq!(cpu.do_move(foreign), error);
    assert_eq!(cpu.do_load_accumulator(foreign), error);
    assert_eq!(cpu.do_store_accumulator(foreign), error);
    assert_eq!(cpu.af.val, 0x1234);
    assert_eq!(cpu.program_counter, 0x0042);
    let halt = OpCode::new(0x76, String::from("HLT"), Operation::MOV, 1, 7, None);
    assert_eq!(cpu.do_move(&halt), Err(CpuError::UnhandledOperand { code: 0x76, pc: 0x0042 }));
}

#[test]
fn fetching_reads_low_byte_first_and_wraps() {
    let mut cpu = Cpu::new(Bus::new());
    cpu.write_memory(0x0100, 0x34);
    cpu.write_memory(0x0101, 0x12);
    cpu.program_counter = 0x0100;
    assert_eq!(cpu.get_next_word(), 0x1234);
    assert_eq!(cpu.program_counter, 0x0102);

    cpu.write_memory(0xFFFF, 0xAB);
    cpu.write_memory(0x0000, 0xCD);
    cpu.program_counter = 0xFFFF;
    assert_eq!(cpu.get_next_byte(), 0xAB);
    assert_eq!(cpu.program_counter, 0x0000);
    cpu.program_counter = 0xFFFF;
    assert_eq!(cpu.get_next_word(), 0xCDAB);
    assert_eq!(cpu.program_counter, 0x0001);
}

#[test]
fn moves_copy_between_registers_and_memory() {
    let ops = OpcodeMap::new();
    let mut cpu = Cpu::new(Bus::new());
    cpu.af.set_hi(0xA1);
    cpu.bc.val = 0xB2C3;
    cpu.de.val = 0xD4E5;
    cpu.hl.val = 0x2010;

    assert_eq!(cpu.do_move(ops.get(0x70).unwrap()), Ok(7));
    assert_eq!(cpu.read_memory(0x2010), 0xB2);
    assert_eq!(cpu.do_move(ops.get(0x7E).unwrap()), Ok(7));
    assert_eq!(cpu.af.hi(), 0xB2);
    assert_eq!(cpu.do_move(ops.get(0x6B).unwrap()), Ok(5));
    assert_eq!(cpu.hl.val, 0x20E5);
    assert_eq!(cpu.do_move(ops.get(0x57).unwrap()), Ok(5));
    assert_eq!(cpu.de.val, 0xB2E5);
    assert_eq!(cpu.af.lo(), 0);
}

#[test]
fn a_move_of_a_register_to_itself_changes_nothing() {
    let ops = OpcodeMap::new();
    for code in [0x40u8, 0x49, 0x52, 0x5B, 0x64, 0x6D, 0x7F] {
        let mut cpu = Cpu::new(Bus::new());
        cpu.af.val = 0x0102;
        cpu.bc.val = 0x0304;
        cpu.de.val = 0x0506;
        cpu.hl.val = 0x0708;
        assert_eq!(cpu.do_move(ops.get(code).unwrap()), Ok(5));
        assert_eq!(cpu.af.val, 0x0102);
        assert_eq!(cpu.bc.val, 0x0304);
        assert_eq!(cpu.de.val, 0x0506);
        assert_eq!(cpu.hl.val, 0x0708);
    }
}

#[test]
fn load_and_store_through_both_pairs() {
    let ops = OpcodeMap::new();
    let mut cpu = Cpu::new(Bus::new());
    cpu.bc.val = 0x3000;
    cpu.de.val = 0x3001;
    cpu.write_memory(0x3000, 0x11);
    assert_eq!(cpu.do_load_accumulator(ops.get(0x0A).unwrap()), Ok(7));
    assert_eq!(cpu.af.hi(), 0x11);
    assert_eq!(cpu.do_store_accumulator(ops.get(0x12).unwrap()), Ok(7));
    assert_eq!(cpu.read_memory(0x3001), 0x11);
}

#[test]
fn carry_instructions_touch_only_carry() {
    let ops = OpcodeMap::new();
    let mut cpu = Cpu::new(Bus::new());
    cpu.af.val = 0x55D4;
    assert_eq!(cpu.do_set_carry(ops.get(0x37).unwrap()), 4);
    assert_eq!(cpu.af.val, 0x55D5);
    assert_eq!(cpu.do_complement_carry(ops.get(0x3F).unwrap()), 4);
    assert_eq!(cpu.af.val, 0x55D4);
    assert_eq!(cpu.do_complement_carry(ops.get(0x3F).unwrap()), 4);
    assert_eq!(cpu.af.val, 0x55D5);
    assert_eq!(cpu.do_complement_accumulator(ops.get(0x2F).unwrap()), 4);
    assert_eq!(cpu.af.val, 0xAAD5);
}

#[test]
fn flags_sit_at_their_bit_positions() {
    let mut cpu = Cpu::new(Bus::new());
    cpu.update_sign_flag(true);
    assert_eq!(cpu.af.lo(), 0x80);
    cpu.update_zero_flag(true);
    assert_eq!(cpu.af.lo(), 0xC0);
    cpu.update_auxiliary_carry_flag(true);
    assert_eq!(cpu.af.lo(), 0xD0);
    cpu.update_parity_flag(true);
    assert_eq!(cpu.af.lo(), 0xD4);
    cpu.update_carry_flag(true);
    assert_eq!(cpu.af.lo(), 0xD5);
    assert!(cpu.is_sign_flag_set() && cpu.is_zero_flag_set() && cpu.is_auxiliary_carry_flag_set());
    assert!(cpu.is_parity_flag_set() && cpu.is_carry_flag_set());
    cpu.update_zero_flag(false);
    assert_eq!(cpu.af.lo(), 0x95);
    assert!(!cpu.is_zero_flag_set());
    assert_eq!(cpu.af.hi(), 0);
}

#[test]
fn reset_zeroes_the_registers_and_keeps_memory() {
    let mut cpu = Cpu::new(Bus::new());
    cpu.af.val = 0x1234;
    cpu.bc.val = 0x5678;
    cpu.de.val = 0x9ABC;
    cpu.hl.val = 0xDEF0;
    cpu.program_counter = 0x0100;
    cpu.stack_pointer = 0x2400;
    cpu.write_memory(0x2000, 0x99);
    cpu.reset();
    cpu.debug();
    assert_eq!(cpu.af.val, 0);
    assert_eq!(cpu.bc.val, 0);
    assert_eq!(cpu.de.val, 0);
    assert_eq!(cpu.hl.val, 0);
    assert_eq!(cpu.program_counter, 0);
    assert_eq!(cpu.stack_pointer, 0);
    assert_eq!(cpu.read_memory(0x2000), 0x99);
}
