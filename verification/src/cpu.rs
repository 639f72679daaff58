//! The processor core: registers, flags, the stack, and one handler for each
//! instruction family.

use vstd::prelude::*;
use crate::bus::Bus;
use crate::constants::{
    Byte,
    Word,
    AUXILIARY_CARRY_FLAG,
    CARRY_FLAG,
    PARITY_FLAG,
    SIGN_FLAG,
    ZERO_FLAG,
};
use crate::ops::{
    destination_index,
    is_opcode_map,
    operation_of,
    source_index,
    OpCode,
    OpcodeMap,
    Operation,
};
use crate::registers::{lemma_word_halves, next_word, word_of, RegisterPair};
use crate::state::{alu_source, lemma_wrap_byte, with_flag, wrap_byte, CpuState};
use crate::utils::{bit_of, get_bit_val, is_bit_set, is_even_parity, reset_bit, set_bit};
use crate::utils::{lemma_join_nibbles, lemma_nibbles};

verus! {

/// The two ways in which decoding an instruction can fail. Both are fatal:
/// the processor does not guess an instruction.
#[derive(Debug, PartialEq, Eq, Copy, Clone)]
pub enum CpuError {
    /// The byte fetched as an opcode has no entry in the opcode table. `pc` is
    /// the address it was fetched from.
    UnrecognizedOpcode { code: Byte, pc: Word },
    /// An instruction family was handed an opcode that encodes none of the
    /// operands it knows. `pc` is the program counter at that moment.
    UnhandledOperand { code: Byte, pc: Word },
}

/// The Intel 8080.
pub struct Cpu {
    /// The accumulator A (high byte) and the flag register F (low byte).
    pub af: RegisterPair,
    /// The registers B (high byte) and C (low byte).
    pub bc: RegisterPair,
    /// The registers D (high byte) and E (low byte).
    pub de: RegisterPair,
    /// The registers H (high byte) and L (low byte).
    pub hl: RegisterPair,
    /// The address of the next byte of the program.
    pub program_counter: Word,
    /// The address of the top of the stack, which grows downwards.
    pub stack_pointer: Word,
    /// The memory that the processor reads and writes through.
    pub bus: Bus,
    /// The opcode table that instructions are decoded with.
    pub ops: OpcodeMap,
}

impl View for Cpu {
    type V = CpuState;

    open spec fn view(&self) -> CpuState {
        CpuState {
            a: self.af.hi(),
            f: self.af.lo(),
            b: self.bc.hi(),
            c: self.bc.lo(),
            d: self.de.hi(),
            e: self.de.lo(),
            h: self.hl.hi(),
            l: self.hl.lo(),
            pc: self.program_counter,
            sp: self.stack_pointer,
            mem: self.bus@,
        }
    }
}

impl Cpu {
    /// A processor on `bus`, with every register, the flags, the program
    /// counter and the stack pointer at zero.
    pub fn new(bus: Bus) -> (cpu: Cpu)
        ensures
            cpu.af.val == 0,
            cpu.bc.val == 0,
            cpu.de.val == 0,
            cpu.hl.val == 0,
            cpu.program_counter == 0,
            cpu.stack_pointer == 0,
            cpu.bus == bus,
            is_opcode_map(cpu.ops@),
    {
        Cpu {
            af: RegisterPair { val: 0 },
            bc: RegisterPair { val: 0 },
            de: RegisterPair { val: 0 },
            hl: RegisterPair { val: 0 },
            program_counter: 0,
            stack_pointer: 0,
            bus: bus,
            ops: OpcodeMap::new(),
        }
    }

    /// Puts every register, the flags, the program counter and the stack
    /// pointer back to zero. Memory is kept.
    pub fn reset(&mut self)
        ensures
            final(self).af.val == 0,
            final(self).bc.val == 0,
            final(self).de.val == 0,
            final(self).hl.val == 0,
            final(self).program_counter == 0,
            final(self).stack_pointer == 0,
            final(self).bus == old(self).bus,
            final(self).ops == old(self).ops,
    {
        self.af = RegisterPair { val: 0 };
        self.bc = RegisterPair { val: 0 };
        self.de = RegisterPair { val: 0 };
        self.hl = RegisterPair { val: 0 };
        self.program_counter = 0;
        self.stack_pointer = 0;
    }

    /// A hook for inspecting the processor; it does nothing.
    pub fn debug(&self) {
    }

    /// Executes the instruction at the program counter and returns the clock
    /// cycles it took.
    ///
    /// A byte that has no entry in the opcode table gives
    /// `UnrecognizedOpcode`, and the processor is left as it was. An opcode of
    /// a family without a handler gives `UnhandledOperand`, with the program
    /// counter past the opcode.
    pub fn execute(&mut self) -> (r: Result<u8, CpuError>)
        ensures
            final(self).ops == old(self).ops,
            r == old(self)@.step_result(),
            final(self)@ == old(self)@.after_step(),
            operation_of(old(self)@.opcode()) is None ==> *final(self) == *old(self),
    {
        let op = self.read_memory(self.program_counter);
        let opcode = match self.ops.get(op) {
            Some(opcode) => opcode.clone(),
            None => {
                return Err(CpuError::UnrecognizedOpcode { code: op, pc: self.program_counter });
            },
        };

        self.program_counter = self.program_counter.wrapping_add(1);

        match opcode.operation {
            Operation::ADD => self.do_add(&opcode, false),
            Operation::ADC => self.do_add(&opcode, true),
            Operation::ANA => self.do_and(&opcode),
            Operation::CMA => Ok(self.do_complement_accumulator(&opcode)),
            Operation::CMC => Ok(self.do_complement_carry(&opcode)),
            Operation::CMP => self.do_compare(&opcode),
            Operation::DAA => Ok(self.do_decimal_adjust_accumulator(&opcode)),
            Operation::DCR => self.do_decrement(&opcode),
            Operation::INR => self.do_increment(&opcode),
            Operation::LDAX => self.do_load_accumulator(&opcode),
            Operation::MOV => self.do_move(&opcode),
            Operation::NOP => Ok(opcode.cycles),
            Operation::ORA => self.do_or(&opcode),
            Operation::RAL => Ok(self.do_rotate_left(&opcode, true)),
            Operation::RAR => Ok(self.do_rotate_right(&opcode, true)),
            Operation::RLC => Ok(self.do_rotate_left(&opcode, false)),
            Operation::RRC => Ok(self.do_rotate_right(&opcode, false)),
            Operation::SBB => self.do_sub(&opcode, true),
            Operation::STAX => self.do_store_accumulator(&opcode),
            Operation::STC => Ok(self.do_set_carry(&opcode)),
            Operation::SUB => self.do_sub(&opcode, false),
            Operation::XRA => self.do_xor(&opcode),
            _ => Err(CpuError::UnhandledOperand { code: op, pc: self.program_counter }),
        }
    }

    /// The byte stored at `addr`.
    pub fn read_memory(&self, addr: Word) -> (data: Byte)
        ensures
            self@.wf(),
            data == self@.read(addr),
    {
        self.bus.read_byte(addr)
    }

    /// Stores `data` at `addr`.
    pub fn write_memory(&mut self, addr: Word, data: Byte)
        ensures
            final(self).ops == old(self).ops,
            old(self)@.wf(),
            final(self)@ == old(self)@.written(addr, data),
    {
        self.bus.write_byte(addr, data);
    }

    /// Reads the byte at the program counter and moves the program counter
    /// past it, modulo 65536.
    pub fn get_next_byte(&mut self) -> (data: Byte)
        ensures
            final(self).ops == old(self).ops,
            old(self)@.wf(),
            data == old(self)@.read(old(self)@.pc),
            *final(self) == (Cpu { program_counter: next_word(old(self).program_counter), ..*old(self) }),
            final(self)@ == old(self)@.advanced(),
    {
        let data = self.read_memory(self.program_counter);
        self.program_counter = self.program_counter.wrapping_add(1);
        data
    }

    /// Reads the two bytes at the program counter, low byte first, and moves
    /// the program counter past them.
    pub fn get_next_word(&mut self) -> (data: Word)
        ensures
            final(self).ops == old(self).ops,
            data == old(self)@.next_program_word(),
            final(self)@ == old(self)@.advanced().advanced(),
    {
        let lo = self.get_next_byte();
        let hi = self.get_next_byte();
        assert(((hi as u16) << 8) | (lo as u16) == (hi as u16) * 256 + (lo as u16)) by (bit_vector);
        ((hi as Word) << 8) | lo as Word
    }

    /// Pushes a byte: the stack pointer goes down by one, modulo 65536, then
    /// the byte is stored where it points.
    pub fn push_byte_to_stack(&mut self, data: Byte)
        ensures
            final(self).ops == old(self).ops,
            final(self)@ == old(self)@.pushed_byte(data),
    {
        self.stack_pointer = self.stack_pointer.wrapping_sub(1);
        self.write_memory(self.stack_pointer, data);
    }

    /// Pops a byte: reads where the stack pointer points, then moves it up by
    /// one, modulo 65536.
    pub fn pop_byte_from_stack(&mut self) -> (data: Byte)
        ensures
            final(self).ops == old(self).ops,
            data == old(self)@.read(old(self)@.sp),
            final(self)@ == old(self)@.popped_byte(),
    {
        let data = self.read_memory(self.stack_pointer);
        self.stack_pointer = self.stack_pointer.wrapping_add(1);
        data
    }

    /// Pushes a word, high byte first, so that the low byte ends at the lower
    /// address.
    pub fn push_word_to_stack(&mut self, data: Word)
        ensures
            final(self).ops == old(self).ops,
            final(self)@ == old(self)@.pushed_word(data),
    {
        let lo = data & 0xFF;
        let hi = data >> 8;
        assert(data & 0xFF == data % 256) by (bit_vector);
        assert(data >> 8 == data / 256) by (bit_vector);
        self.push_byte_to_stack(hi as Byte);
        self.push_byte_to_stack(lo as Byte);
    }

    /// Pops a word: the low byte first, then the high byte.
    pub fn pop_word_from_stack(&mut self) -> (data: Word)
        ensures
            final(self).ops == old(self).ops,
            data == old(self)@.top_word(),
            final(self)@ == old(self)@.popped_word(),
    {
        let lo = self.pop_byte_from_stack();
        let hi = self.pop_byte_from_stack();
        assert(((hi as u16) << 8) | (lo as u16) == (hi as u16) * 256 + (lo as u16)) by (bit_vector);
        ((hi as Word) << 8) | lo as Word
    }

    pub fn is_zero_flag_set(&self) -> (set: bool)
        ensures
            set == self@.zero(),
    {
        is_bit_set(&self.af.lo(), ZERO_FLAG)
    }

    pub fn is_carry_flag_set(&self) -> (set: bool)
        ensures
            set == self@.carry(),
    {
        is_bit_set(&self.af.lo(), CARRY_FLAG)
    }

    pub fn is_sign_flag_set(&self) -> (set: bool)
        ensures
            set == self@.sign(),
    {
        is_bit_set(&self.af.lo(), SIGN_FLAG)
    }

    pub fn is_auxiliary_carry_flag_set(&self) -> (set: bool)
        ensures
            set == self@.aux_carry(),
    {
        is_bit_set(&self.af.lo(), AUXILIARY_CARRY_FLAG)
    }

    pub fn is_parity_flag_set(&self) -> (set: bool)
        ensures
            set == self@.parity(),
    {
        is_bit_set(&self.af.lo(), PARITY_FLAG)
    }

    /// Makes the flag at `position` equal to `val`; the other seven bits of
    /// the flag register, and everything else, are kept.
    fn update_flag(&mut self, position: usize, val: bool)
        requires
            position < 8,
        ensures
            final(self).ops == old(self).ops,
            *final(self) == (Cpu {
                af: RegisterPair { val: word_of(old(self).af.hi(), with_flag(old(self).af.lo(), position, val)) },
                ..*old(self)
            }),
            final(self)@ == (CpuState { f: with_flag(old(self)@.f, position, val), ..old(self)@ }),
            bit_of(final(self)@.f, position) == val,
    {
        let mut flags = self.af.lo();
        match val {
            true => set_bit(&mut flags, position),
            false => reset_bit(&mut flags, position),
        };
        self.af.set_lo(flags);
    }

    pub fn update_zero_flag(&mut self, val: bool)
        ensures
            final(self).ops == old(self).ops,
            final(self)@ == (CpuState { f: with_flag(old(self)@.f, ZERO_FLAG, val), ..old(self)@ }),
            final(self)@.zero() == val,
    {
        self.update_flag(ZERO_FLAG, val);
    }

    pub fn update_carry_flag(&mut self, val: bool)
        ensures
            final(self).ops == old(self).ops,
            final(self)@ == (CpuState { f: with_flag(old(self)@.f, CARRY_FLAG, val), ..old(self)@ }),
            final(self)@.carry() == val,
    {
        self.update_flag(CARRY_FLAG, val);
    }

    pub fn update_sign_flag(&mut self, val: bool)
        ensures
            final(self).ops == old(self).ops,
            final(self)@ == (CpuState { f: with_flag(old(self)@.f, SIGN_FLAG, val), ..old(self)@ }),
            final(self)@.sign() == val,
    {
        self.update_flag(SIGN_FLAG, val);
    }

    pub fn update_auxiliary_carry_flag(&mut self, val: bool)
        ensures
            final(self).ops == old(self).ops,
            final(self)@ == (CpuState {
                f: with_flag(old(self)@.f, AUXILIARY_CARRY_FLAG, val),
                ..old(self)@
            }),
            final(self)@.aux_carry() == val,
    {
        self.update_flag(AUXILIARY_CARRY_FLAG, val);
    }

    pub fn update_parity_flag(&mut self, val: bool)
        ensures
            final(self).ops == old(self).ops,
            final(self)@ == (CpuState { f: with_flag(old(self)@.f, PARITY_FLAG, val), ..old(self)@ }),
            final(self)@.parity() == val,
    {
        self.update_flag(PARITY_FLAG, val);
    }

    /// Adds `operand` and, where `with_carry` holds, Carry to the accumulator,
    /// and sets all five flags.
    fn add_to_accumulator(&mut self, operand: Byte, with_carry: bool)
        ensures
            final(self).ops == old(self).ops,
            final(self)@ == old(self)@.after_add(operand, with_carry),
    {
        let carry: usize = if with_carry && self.is_carry_flag_set() {
            1
        } else {
            0
        };
        let a_reg = self.af.hi();
        let res = a_reg as usize + operand as usize + carry;
        let lower_nibble = (a_reg & 0xF) as Word;
        proof {
            lemma_nibbles(a_reg);
            lemma_nibbles(operand);
            assert(res & 0xFF == res % 256) by (bit_vector);
        }
        let value = (res & 0xFF) as Byte;
        self.af.set_hi(value);

        self.update_sign_flag(is_bit_set(&value, 7));
        self.update_zero_flag(value == 0);
        self.update_auxiliary_carry_flag(lower_nibble + ((operand & 0xF) as Word) + carry as Word > 0xF);
        self.update_parity_flag(is_even_parity(&value));
        self.update_carry_flag(res > 0xFF);
    }

    /// Subtracts `operand` and, where `with_borrow` holds, Carry from the
    /// accumulator, and sets all five flags.
    fn subtract_from_accumulator(&mut self, operand: Byte, with_borrow: bool)
        ensures
            final(self).ops == old(self).ops,
            final(self)@ == old(self)@.after_sub(operand, with_borrow),
    {
        let carry: Byte = if with_borrow && self.is_carry_flag_set() {
            1
        } else {
            0
        };
        let a_reg = self.af.hi();
        let res = a_reg.wrapping_sub(operand).wrapping_sub(carry);
        assert(res == wrap_byte(a_reg - operand - carry)) by {
            lemma_wrap_byte(a_reg - operand);
            lemma_wrap_byte(a_reg - operand - carry);
        }
        let lower_nibble = a_reg & 0xF;
        let operand_nibble = operand & 0xF;
        assert(lower_nibble == a_reg % 16 && operand_nibble == operand % 16) by {
            lemma_nibbles(a_reg);
            lemma_nibbles(operand);
        }
        self.af.set_hi(res);

        self.update_sign_flag(is_bit_set(&res, 7));
        self.update_zero_flag(res == 0);
        self.update_auxiliary_carry_flag(lower_nibble < operand_nibble + carry);
        self.update_parity_flag(is_even_parity(&res));
        self.update_carry_flag((a_reg as Word) < (operand as Word) + (carry as Word));
    }

    /// Sets all five flags as subtracting `operand` from the accumulator
    /// would; the accumulator is kept.
    fn compare_with_accumulator(&mut self, operand: Byte)
        ensures
            final(self).ops == old(self).ops,
            final(self)@ == old(self)@.after_compare(operand),
    {
        let a_reg = self.af.hi();
        let comp = a_reg.wrapping_sub(operand);
        proof {
            lemma_nibbles(a_reg);
            lemma_nibbles(operand);
        }

        self.update_sign_flag(is_bit_set(&comp, 7));
        self.update_zero_flag(a_reg == operand);
        self.update_auxiliary_carry_flag((a_reg & 0xF) < (operand & 0xF));
        self.update_parity_flag(is_even_parity(&comp));
        self.update_carry_flag(a_reg < operand);
    }

    /// ADD, ADC, ADI and ACI: adds a register, the byte that HL addresses or the
    /// byte after the opcode to the accumulator, together with Carry where
    /// `with_carry` holds.
    pub fn do_add(&mut self, opcode: &OpCode, with_carry: bool) -> (r: Result<u8, CpuError>)
        ensures
            final(self).ops == old(self).ops,
            match alu_source(opcode.code, 0x80, 0x8F, 0xC6, 0xCE) {
                Some(source) => r == Ok::<u8, CpuError>(opcode.cycles) && final(self)@ == old(
                    self,
                )@.past_operand(source).after_add(old(self)@.operand(source), with_carry),
                None => r == Err::<u8, CpuError>(
                    CpuError::UnhandledOperand { code: opcode.code, pc: old(self).program_counter },
                ) && *final(self) == *old(self),
            },
    {
        proof {
            lemma_word_halves(self.hl.val, 0, 0);
        }
        let operand = match opcode.code {
            0x80 => self.bc.hi(),
            0x81 => self.bc.lo(),
            0x82 => self.de.hi(),
            0x83 => self.de.lo(),
            0x84 => self.hl.hi(),
            0x85 => self.hl.lo(),
            0x86 => self.read_memory(self.hl.val),
            0x87 => self.af.hi(),
            0x88 => self.bc.hi(),
            0x89 => self.bc.lo(),
            0x8A => self.de.hi(),
            0x8B => self.de.lo(),
            0x8C => self.hl.hi(),
            0x8D => self.hl.lo(),
            0x8E => self.read_memory(self.hl.val),
            0x8F => self.af.hi(),
            0xC6 => self.get_next_byte(),
            0xCE => self.get_next_byte(),
            _ => {
                return Err(
                    CpuError::UnhandledOperand { code: opcode.code, pc: self.program_counter },
                );
            },
        };

        self.add_to_accumulator(operand, with_carry);

        Ok(opcode.cycles)
    }

    /// ANA and ANI: bitwise and of the accumulator and the operand.
    pub fn do_and(&mut self, opcode: &OpCode) -> (r: Result<u8, CpuError>)
        ensures
            final(self).ops == old(self).ops,
            match alu_source(opcode.code, 0xA0, 0xA7, 0xE6, 0xE6) {
                Some(source) => r == Ok::<u8, CpuError>(opcode.cycles) && final(self)@ == old(
                    self,
                )@.past_operand(source).after_and(old(self)@.operand(source)),
                None => r == Err::<u8, CpuError>(
                    CpuError::UnhandledOperand { code: opcode.code, pc: old(self).program_counter },
                ) && *final(self) == *old(self),
            },
    {
        proof {
            lemma_word_halves(self.hl.val, 0, 0);
        }
        let operand = match opcode.code {
            0xA0 => self.bc.hi(),
            0xA1 => self.bc.lo(),
            0xA2 => self.de.hi(),
            0xA3 => self.de.lo(),
            0xA4 => self.hl.hi(),
            0xA5 => self.hl.lo(),
            0xA6 => self.read_memory(self.hl.val),
            0xA7 => self.af.hi(),
            0xE6 => self.get_next_byte(),
            _ => {
                return Err(
                    CpuError::UnhandledOperand { code: opcode.code, pc: self.program_counter },
                );
            },
        };

        let value = self.af.hi() & operand;
        self.af.set_hi(value);

        self.update_sign_flag(is_bit_set(&value, 7));
        self.update_zero_flag(value == 0);
        self.update_auxiliary_carry_flag(false);
        self.update_parity_flag(is_even_parity(&value));
        self.update_carry_flag(false);

        Ok(opcode.cycles)
    }

    /// CMP and CPI: sets the flags as a subtraction of the operand from the
    /// accumulator would, and keeps the accumulator.
    pub fn do_compare(&mut self, opcode: &OpCode) -> (r: Result<u8, CpuError>)
        ensures
            final(self).ops == old(self).ops,
            match alu_source(opcode.code, 0xB8, 0xBF, 0xFE, 0xFE) {
                Some(source) => r == Ok::<u8, CpuError>(opcode.cycles) && final(self)@ == old(
                    self,
                )@.past_operand(source).after_compare(old(self)@.operand(source)),
                None => r == Err::<u8, CpuError>(
                    CpuError::UnhandledOperand { code: opcode.code, pc: old(self).program_counter },
                ) && *final(self) == *old(self),
            },
    {
        proof {
            lemma_word_halves(self.hl.val, 0, 0);
        }
        let operand = match opcode.code {
            0xB8 => self.bc.hi(),
            0xB9 => self.bc.lo(),
            0xBA => self.de.hi(),
            0xBB => self.de.lo(),
            0xBC => self.hl.hi(),
            0xBD => self.hl.lo(),
            0xBE => self.read_memory(self.hl.val),
            0xBF => self.af.hi(),
            0xFE => self.get_next_byte(),
            _ => {
                return Err(
                    CpuError::UnhandledOperand { code: opcode.code, pc: self.program_counter },
                );
            },
        };

        self.compare_with_accumulator(operand);

        Ok(opcode.cycles)
    }

    /// CMA: inverts every bit of the accumulator. No flag changes.
    pub fn do_complement_accumulator(&mut self, opcode: &OpCode) -> (cycles: u8)
        ensures
            final(self).ops == old(self).ops,
            cycles == opcode.cycles,
            final(self)@ == old(self)@.after_complement_accumulator(),
    {
        self.af.set_hi(!self.af.hi());
        opcode.cycles
    }

    /// CMC: inverts Carry. Nothing else changes.
    pub fn do_complement_carry(&mut self, opcode: &OpCode) -> (cycles: u8)
        ensures
            final(self).ops == old(self).ops,
            cycles == opcode.cycles,
            final(self)@ == old(self)@.after_complement_carry(),
    {
        self.update_carry_flag(!self.is_carry_flag_set());
        opcode.cycles
    }

    /// DAA: corrects the accumulator to two binary-coded decimal digits, the
    /// low nibble first, then the high nibble.
    pub fn do_decimal_adjust_accumulator(&mut self, opcode: &OpCode) -> (cycles: u8)
        ensures
            final(self).ops == old(self).ops,
            cycles == opcode.cycles,
            final(self)@ == old(self)@.after_decimal_adjust(),
    {
        let mut val = self.af.hi();
        let mut aux_carry = self.is_auxiliary_carry_flag_set();
        let mut carry = self.is_carry_flag_set();

        proof {
            lemma_nibbles(val);
        }
        if aux_carry || (val & 0xF) > 0x09 {
            aux_carry = (val & 0xF) + 6 > 0xF;
            proof {
                lemma_wrap_byte(val + 6);
            }
            val = val.wrapping_add(6);
        }
        assert(val == old(self)@.low_adjusted());

        proof {
            lemma_nibbles(val);
        }
        if carry || (val >> 4) > 0x09 {
            carry = ((val >> 4) + 6) > 0xF;
            let raised = (val >> 4) + 6;
            let upper = raised & 0xF;
            let lower = val & 0xF;
            proof {
                lemma_nibbles(raised);
                lemma_join_nibbles(upper, lower);
            }
            val = (upper << 4) | lower;
        }
        self.af.set_hi(val);

        self.update_sign_flag(is_bit_set(&val, 7));
        self.update_zero_flag(val == 0);
        self.update_auxiliary_carry_flag(aux_carry);
        self.update_parity_flag(is_even_parity(&val));
        self.update_carry_flag(carry);

        opcode.cycles
    }

    /// DCR: takes one from a register or from the byte that HL addresses. The
    /// eight opcodes below 0x40 that end in the bits 101 name the register in
    /// bits 3 to 5. Carry is kept.
    pub fn do_decrement(&mut self, opcode: &OpCode) -> (r: Result<u8, CpuError>)
        ensures
            final(self).ops == old(self).ops,
            opcode.code < 0x40 && opcode.code % 8 == 5 ==> r == Ok::<u8, CpuError>(opcode.cycles)
                && final(self)@ == old(self)@.after_decrement(destination_index(opcode.code)),
            !(opcode.code < 0x40 && opcode.code % 8 == 5) ==> r == Err::<u8, CpuError>(
                CpuError::UnhandledOperand { code: opcode.code, pc: old(self).program_counter },
            ) && *final(self) == *old(self),
    {
        proof {
            lemma_word_halves(self.hl.val, 0, 0);
        }
        let res = match opcode.code {
            0x05 => {
                self.bc.set_hi(self.bc.hi().wrapping_sub(1));
                self.bc.hi()
            },
            0x0D => {
                self.bc.set_lo(self.bc.lo().wrapping_sub(1));
                self.bc.lo()
            },
            0x15 => {
                self.de.set_hi(self.de.hi().wrapping_sub(1));
                self.de.hi()
            },
            0x1D => {
                self.de.set_lo(self.de.lo().wrapping_sub(1));
                self.de.lo()
            },
            0x25 => {
                self.hl.set_hi(self.hl.hi().wrapping_sub(1));
                self.hl.hi()
            },
            0x2D => {
                self.hl.set_lo(self.hl.lo().wrapping_sub(1));
                self.hl.lo()
            },
            0x35 => {
                let val = self.read_memory(self.hl.val).wrapping_sub(1);
                self.write_memory(self.hl.val, val);
                val
            },
            0x3D => {
                self.af.set_hi(self.af.hi().wrapping_sub(1));
                self.af.hi()
            },
            _ => {
                return Err(
                    CpuError::UnhandledOperand { code: opcode.code, pc: self.program_counter },
                );
            },
        };
        assert(res == wrap_byte(old(self)@.reg(opcode.code / 8) - 1) && self@ == old(
            self,
        )@.with_reg(opcode.code / 8, res)) by {
            lemma_wrap_byte(old(self)@.reg(opcode.code / 8) - 1);
        }
        proof {
            lemma_nibbles(res);
        }

        self.update_sign_flag(is_bit_set(&res, 7));
        self.update_zero_flag(res == 0);
        self.update_auxiliary_carry_flag(res & 0xF == 0xF);
        self.update_parity_flag(is_even_parity(&res));

        Ok(opcode.cycles)
    }

    /// LDAX: loads the accumulator from the address in BC (opcode 0x0A) or DE
    /// (opcode 0x1A). No flag changes.
    pub fn do_load_accumulator(&mut self, opcode: &OpCode) -> (r: Result<u8, CpuError>)
        ensures
            final(self).ops == old(self).ops,
            opcode.code == 0x0A ==> r == Ok::<u8, CpuError>(opcode.cycles) && final(self)@ == old(
                self,
            )@.after_load_accumulator(old(self)@.bc()),
            opcode.code == 0x1A ==> r == Ok::<u8, CpuError>(opcode.cycles) && final(self)@ == old(
                self,
            )@.after_load_accumulator(old(self)@.de()),
            opcode.code != 0x0A && opcode.code != 0x1A ==> r == Err::<u8, CpuError>(
                CpuError::UnhandledOperand { code: opcode.code, pc: old(self).program_counter },
            ) && *final(self) == *old(self),
    {
        proof {
            lemma_word_halves(self.bc.val, 0, 0);
            lemma_word_halves(self.de.val, 0, 0);
        }
        match opcode.code {
            0x0A => self.af.set_hi(self.read_memory(self.bc.val)),
            0x1A => self.af.set_hi(self.read_memory(self.de.val)),
            _ => {
                return Err(
                    CpuError::UnhandledOperand { code: opcode.code, pc: self.program_counter },
                );
            },
        }

        Ok(opcode.cycles)
    }

    /// INR: adds one to a register or to the byte that HL addresses. The eight
    /// opcodes below 0x40 that end in the bits 100 name the register in bits
    /// 3 to 5. Carry is kept.
    pub fn do_increment(&mut self, opcode: &OpCode) -> (r: Result<u8, CpuError>)
        ensures
            final(self).ops == old(self).ops,
            opcode.code < 0x40 && opcode.code % 8 == 4 ==> r == Ok::<u8, CpuError>(opcode.cycles)
                && final(self)@ == old(self)@.after_increment(destination_index(opcode.code)),
            !(opcode.code < 0x40 && opcode.code % 8 == 4) ==> r == Err::<u8, CpuError>(
                CpuError::UnhandledOperand { code: opcode.code, pc: old(self).program_counter },
            ) && *final(self) == *old(self),
    {
        proof {
            lemma_word_halves(self.hl.val, 0, 0);
        }
        let res = match opcode.code {
            0x04 => {
                self.bc.set_hi(self.bc.hi().wrapping_add(1));
                self.bc.hi()
            },
            0x0C => {
                self.bc.set_lo(self.bc.lo().wrapping_add(1));
                self.bc.lo()
            },
            0x14 => {
                self.de.set_hi(self.de.hi().wrapping_add(1));
                self.de.hi()
            },
            0x1C => {
                self.de.set_lo(self.de.lo().wrapping_add(1));
                self.de.lo()
            },
            0x24 => {
                self.hl.set_hi(self.hl.hi().wrapping_add(1));
                self.hl.hi()
            },
            0x2C => {
                self.hl.set_lo(self.hl.lo().wrapping_add(1));
                self.hl.lo()
            },
            0x34 => {
                let val = self.read_memory(self.hl.val).wrapping_add(1);
                self.write_memory(self.hl.val, val);
                val
            },
            0x3C => {
                self.af.set_hi(self.af.hi().wrapping_add(1));
                self.af.hi()
            },
            _ => {
                return Err(
                    CpuError::UnhandledOperand { code: opcode.code, pc: self.program_counter },
                );
            },
        };
        assert(res == wrap_byte(old(self)@.reg(opcode.code / 8) + 1) && self@ == old(
            self,
        )@.with_reg(opcode.code / 8, res)) by {
            lemma_wrap_byte(old(self)@.reg(opcode.code / 8) + 1);
        }
        proof {
            lemma_nibbles(res);
        }

        self.update_sign_flag(is_bit_set(&res, 7));
        self.update_zero_flag(res == 0);
        self.update_auxiliary_carry_flag(res & 0xF == 0);
        self.update_parity_flag(is_even_parity(&res));

        Ok(opcode.cycles)
    }

    /// MOV: copies one 8-bit register, or the byte that HL addresses, to
    /// another. The sixty-three opcodes from 0x40 to 0x7F but 0x76 name the
    /// destination in bits 3 to 5 and the source in bits 0 to 2.
    #[verifier::rlimit(40)]
    pub fn do_move(&mut self, opcode: &OpCode) -> (r: Result<u8, CpuError>)
        ensures
            final(self).ops == old(self).ops,
            0x40 <= opcode.code <= 0x7F && opcode.code != 0x76 ==> r == Ok::<u8, CpuError>(
                opcode.cycles,
            ) && final(self)@ == old(self)@.after_move(
                destination_index(opcode.code),
                source_index(opcode.code),
            ),
            !(0x40 <= opcode.code <= 0x7F && opcode.code != 0x76) ==> r == Err::<u8, CpuError>(
                CpuError::UnhandledOperand { code: opcode.code, pc: old(self).program_counter },
            ) && *final(self) == *old(self),
    {
        proof {
            lemma_word_halves(self.hl.val, 0, 0);
        }
        match opcode.code {
            0x40 => (),
            0x41 => self.bc.set_hi(self.bc.lo()),
            0x42 => self.bc.set_hi(self.de.hi()),
            0x43 => self.bc.set_hi(self.de.lo()),
            0x44 => self.bc.set_hi(self.hl.hi()),
            0x45 => self.bc.set_hi(self.hl.lo()),
            0x46 => self.bc.set_hi(self.read_memory(self.hl.val)),
            0x47 => self.bc.set_hi(self.af.hi()),
            0x48 => self.bc.set_lo(self.bc.hi()),
            0x49 => (),
            0x4A => self.bc.set_lo(self.de.hi()),
            0x4B => self.bc.set_lo(self.de.lo()),
            0x4C => self.bc.set_lo(self.hl.hi()),
            0x4D => self.bc.set_lo(self.hl.lo()),
            0x4E => self.bc.set_lo(self.read_memory(self.hl.val)),
            0x4F => self.bc.set_lo(self.af.hi()),
            0x50 => self.de.set_hi(self.bc.hi()),
            0x51 => self.de.set_hi(self.bc.lo()),
            0x52 => (),
            0x53 => self.de.set_hi(self.de.lo()),
            0x54 => self.de.set_hi(self.hl.hi()),
            0x55 => self.de.set_hi(self.hl.lo()),
            0x56 => self.de.set_hi(self.read_memory(self.hl.val)),
            0x57 => self.de.set_hi(self.af.hi()),
            0x58 => self.de.set_lo(self.bc.hi()),
            0x59 => self.de.set_lo(self.bc.lo()),
            0x5A => self.de.set_lo(self.de.hi()),
            0x5B => (),
            0x5C => self.de.set_lo(self.hl.hi()),
            0x5D => self.de.set_lo(self.hl.lo()),
            0x5E => self.de.set_lo(self.read_memory(self.hl.val)),
            0x5F => self.de.set_lo(self.af.hi()),
            0x60 => self.hl.set_hi(self.bc.hi()),
            0x61 => self.hl.set_hi(self.bc.lo()),
            0x62 => self.hl.set_hi(self.de.hi()),
            0x63 => self.hl.set_hi(self.de.lo()),
            0x64 => (),
            0x65 => self.hl.set_hi(self.hl.lo()),
            0x66 => self.hl.set_hi(self.read_memory(self.hl.val)),
            0x67 => self.hl.set_hi(self.af.hi()),
            0x68 => self.hl.set_lo(self.bc.hi()),
            0x69 => self.hl.set_lo(self.bc.lo()),
            0x6A => self.hl.set_lo(self.de.hi()),
            0x6B => self.hl.set_lo(self.de.lo()),
            0x6C => self.hl.set_lo(self.hl.hi()),
            0x6D => (),
            0x6E => self.hl.set_lo(self.read_memory(self.hl.val)),
            0x6F => self.hl.set_lo(self.af.hi()),
            0x70 => self.write_memory(self.hl.val, self.bc.hi()),
            0x71 => self.write_memory(self.hl.val, self.bc.lo()),
            0x72 => self.write_memory(self.hl.val, self.de.hi()),
            0x73 => self.write_memory(self.hl.val, self.de.lo()),
            0x74 => self.write_memory(self.hl.val, self.hl.hi()),
            0x75 => self.write_memory(self.hl.val, self.hl.lo()),
            0x77 => self.write_memory(self.hl.val, self.af.hi()),
            0x78 => self.af.set_hi(self.bc.hi()),
            0x79 => self.af.set_hi(self.bc.lo()),
            0x7A => self.af.set_hi(self.de.hi()),
            0x7B => self.af.set_hi(self.de.lo()),
            0x7C => self.af.set_hi(self.hl.hi()),
            0x7D => self.af.set_hi(self.hl.lo()),
            0x7E => self.af.set_hi(self.read_memory(self.hl.val)),
            0x7F => (),
            _ => {
                return Err(
                    CpuError::UnhandledOperand { code: opcode.code, pc: self.program_counter },
                );
            },
        };

        Ok(opcode.cycles)
    }

    /// ORA and ORI: bitwise or of the accumulator and the operand.
    pub fn do_or(&mut self, opcode: &OpCode) -> (r: Result<u8, CpuError>)
        ensures
            final(self).ops == old(self).ops,
            match alu_source(opcode.code, 0xB0, 0xB7, 0xF6, 0xF6) {
                Some(source) => r == Ok::<u8, CpuError>(opcode.cycles) && final(self)@ == old(
                    self,
                )@.past_operand(source).after_or(old(self)@.operand(source)),
                None => r == Err::<u8, CpuError>(
                    CpuError::UnhandledOperand { code: opcode.code, pc: old(self).program_counter },
                ) && *final(self) == *old(self),
            },
    {
        proof {
            lemma_word_halves(self.hl.val, 0, 0);
        }
        let operand = match opcode.code {
            0xB0 => self.bc.hi(),
            0xB1 => self.bc.lo(),
            0xB2 => self.de.hi(),
            0xB3 => self.de.lo(),
            0xB4 => self.hl.hi(),
            0xB5 => self.hl.lo(),
            0xB6 => self.read_memory(self.hl.val),
            0xB7 => self.af.hi(),
            0xF6 => self.get_next_byte(),
            _ => {
                return Err(
                    CpuError::UnhandledOperand { code: opcode.code, pc: self.program_counter },
                );
            },
        };

        let value = self.af.hi() | operand;
        self.af.set_hi(value);

        self.update_sign_flag(is_bit_set(&value, 7));
        self.update_zero_flag(value == 0);
        self.update_auxiliary_carry_flag(false);
        self.update_parity_flag(is_even_parity(&value));
        self.update_carry_flag(false);

        Ok(opcode.cycles)
    }

    /// RLC and RAL: rotates the accumulator left by one bit, through Carry
    /// where `through_carry` holds. Only Carry changes among the flags.
    pub fn do_rotate_left(&mut self, opcode: &OpCode, through_carry: bool) -> (cycles: u8)
        ensures
            final(self).ops == old(self).ops,
            cycles == opcode.cycles,
            final(self)@ == old(self)@.after_rotate_left(through_carry),
    {
        let most_significant_bit = get_bit_val(&self.af.hi(), 7);
        let new_least_significant_bit = match through_carry {
            true => get_bit_val(&self.af.lo(), 0),
            false => most_significant_bit,
        };

        self.af.set_hi((self.af.hi() << 1) | new_least_significant_bit);
        self.update_carry_flag(most_significant_bit == 1);

        opcode.cycles
    }

    /// RRC and RAR: rotates the accumulator right by one bit, through Carry
    /// where `through_carry` holds. Only Carry changes among the flags.
    pub fn do_rotate_right(&mut self, opcode: &OpCode, through_carry: bool) -> (cycles: u8)
        ensures
            final(self).ops == old(self).ops,
            cycles == opcode.cycles,
            final(self)@ == old(self)@.after_rotate_right(through_carry),
    {
        let least_significant_bit = get_bit_val(&self.af.hi(), 0);
        let new_most_significant_bit = match through_carry {
            true => get_bit_val(&self.af.lo(), 0),
            false => least_significant_bit,
        };

        self.af.set_hi((new_most_significant_bit << 7) | (self.af.hi() >> 1));
        self.update_carry_flag(least_significant_bit == 1);

        opcode.cycles
    }

    /// STC: sets Carry. Nothing else changes.
    pub fn do_set_carry(&mut self, opcode: &OpCode) -> (cycles: u8)
        ensures
            final(self).ops == old(self).ops,
            cycles == opcode.cycles,
            final(self)@ == old(self)@.after_set_carry(),
    {
        self.update_carry_flag(true);
        opcode.cycles
    }

    /// STAX: stores the accumulator at the address in BC (opcode 0x02) or DE
    /// (opcode 0x12). No flag changes.
    pub fn do_store_accumulator(&mut self, opcode: &OpCode) -> (r: Result<u8, CpuError>)
        ensures
            final(self).ops == old(self).ops,
            opcode.code == 0x02 ==> r == Ok::<u8, CpuError>(opcode.cycles) && final(self)@ == old(
                self,
            )@.after_store_accumulator(old(self)@.bc()),
            opcode.code == 0x12 ==> r == Ok::<u8, CpuError>(opcode.cycles) && final(self)@ == old(
                self,
            )@.after_store_accumulator(old(self)@.de()),
            opcode.code != 0x02 && opcode.code != 0x12 ==> r == Err::<u8, CpuError>(
                CpuError::UnhandledOperand { code: opcode.code, pc: old(self).program_counter },
            ) && *final(self) == *old(self),
    {
        proof {
            lemma_word_halves(self.bc.val, 0, 0);
            lemma_word_halves(self.de.val, 0, 0);
        }
        match opcode.code {
            0x02 => self.write_memory(self.bc.val, self.af.hi()),
            0x12 => self.write_memory(self.de.val, self.af.hi()),
            _ => {
                return Err(
                    CpuError::UnhandledOperand { code: opcode.code, pc: self.program_counter },
                );
            },
        }

        Ok(opcode.cycles)
    }

    /// SUB, SBB, SUI and SBI: subtracts a register, the byte that HL addresses
    /// or the byte after the opcode from the accumulator, together with Carry
    /// where `with_borrow` holds.
    pub fn do_sub(&mut self, opcode: &OpCode, with_borrow: bool) -> (r: Result<u8, CpuError>)
        ensures
            final(self).ops == old(self).ops,
            match alu_source(opcode.code, 0x90, 0x9F, 0xD6, 0xDE) {
                Some(source) => r == Ok::<u8, CpuError>(opcode.cycles) && final(self)@ == old(
                    self,
                )@.past_operand(source).after_sub(old(self)@.operand(source), with_borrow),
                None => r == Err::<u8, CpuError>(
                    CpuError::UnhandledOperand { code: opcode.code, pc: old(self).program_counter },
                ) && *final(self) == *old(self),
            },
    {
        proof {
            lemma_word_halves(self.hl.val, 0, 0);
        }
        let operand = match opcode.code {
            0x90 => self.bc.hi(),
            0x91 => self.bc.lo(),
            0x92 => self.de.hi(),
            0x93 => self.de.lo(),
            0x94 => self.hl.hi(),
            0x95 => self.hl.lo(),
            0x96 => self.read_memory(self.hl.val),
            0x97 => self.af.hi(),
            0x98 => self.bc.hi(),
            0x99 => self.bc.lo(),
            0x9A => self.de.hi(),
            0x9B => self.de.lo(),
            0x9C => self.hl.hi(),
            0x9D => self.hl.lo(),
            0x9E => self.read_memory(self.hl.val),
            0x9F => self.af.hi(),
            0xD6 => self.get_next_byte(),
            0xDE => self.get_next_byte(),
            _ => {
                return Err(
                    CpuError::UnhandledOperand { code: opcode.code, pc: self.program_counter },
                );
            },
        };

        self.subtract_from_accumulator(operand, with_borrow);

        Ok(opcode.cycles)
    }

    /// XRA and XRI: bitwise exclusive or of the accumulator and the operand.
    pub fn do_xor(&mut self, opcode: &OpCode) -> (r: Result<u8, CpuError>)
        ensures
            final(self).ops == old(self).ops,
            match alu_source(opcode.code, 0xA8, 0xAF, 0xEE, 0xEE) {
                Some(source) => r == Ok::<u8, CpuError>(opcode.cycles) && final(self)@ == old(
                    self,
                )@.past_operand(source).after_xor(old(self)@.operand(source)),
                None => r == Err::<u8, CpuError>(
                    CpuError::UnhandledOperand { code: opcode.code, pc: old(self).program_counter },
                ) && *final(self) == *old(self),
            },
    {
        proof {
            lemma_word_halves(self.hl.val, 0, 0);
        }
        let operand = match opcode.code {
            0xA8 => self.bc.hi(),
            0xA9 => self.bc.lo(),
            0xAA => self.de.hi(),
            0xAB => self.de.lo(),
            0xAC => self.hl.hi(),
            0xAD => self.hl.lo(),
            0xAE => self.read_memory(self.hl.val),
            0xAF => self.af.hi(),
            0xEE => self.get_next_byte(),
            _ => {
                return Err(
                    CpuError::UnhandledOperand { code: opcode.code, pc: self.program_counter },
                );
            },
        };

        let value = self.af.hi() ^ operand;
        self.af.set_hi(value);

        self.update_sign_flag(is_bit_set(&value, 7));
        self.update_zero_flag(value == 0);
        self.update_auxiliary_carry_flag(false);
        self.update_parity_flag(is_even_parity(&value));
        self.update_carry_flag(false);

        Ok(opcode.cycles)
    }
}

} // verus!
