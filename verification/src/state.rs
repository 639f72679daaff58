//! The processor as a mathematical value, and what each instruction family
//! does to it. The contracts of the executable processor are stated over this
//! model.

use vstd::prelude::*;
use crate::constants::{
    Byte,
    Word,
    AUXILIARY_CARRY_FLAG,
    CARRY_FLAG,
    MEMORY_SIZE,
    PARITY_FLAG,
    SIGN_FLAG,
    ZERO_FLAG,
};
use crate::cpu::CpuError;
use crate::ops::{cycles_of, destination_index, operation_of, source_index, Operation};
use crate::registers::{hi_of, lo_of, next_word, prev_word, word_of};
use crate::utils::{bit_of, even_parity, with_bit_reset, with_bit_set};
use crate::utils::{lemma_with_bit_reset, lemma_with_bit_set};

verus! {

/// Registers, flags, program counter, stack pointer and memory.
pub struct CpuState {
    pub a: Byte,
    pub f: Byte,
    pub b: Byte,
    pub c: Byte,
    pub d: Byte,
    pub e: Byte,
    pub h: Byte,
    pub l: Byte,
    pub pc: Word,
    pub sp: Word,
    pub mem: Seq<Byte>,
}

/// Where an instruction takes its 8-bit operand from.
pub enum Source {
    /// The register with this index, in the order B, C, D, E, H, L, M, A,
    /// where M is the byte of memory that HL addresses.
    Register(Byte),
    /// The byte that follows the opcode.
    Immediate,
}

/// The flag register `f` with the flag at `position` made equal to `val`.
pub open spec fn with_flag(f: Byte, position: usize, val: bool) -> Byte {
    if val {
        with_bit_set(f, position)
    } else {
        with_bit_reset(f, position)
    }
}

/// Writing a flag makes it read as written and leaves the seven other bits of
/// the flag register as they were.
pub proof fn lemma_with_flag(f: Byte, position: usize, val: bool, other: usize)
    requires
        position < 8,
        other < 8,
    ensures
        bit_of(with_flag(f, position, val), other) == (if other == position {
            val
        } else {
            bit_of(f, other)
        }),
{
    lemma_with_bit_set(f, position, other);
    lemma_with_bit_reset(f, position, other);
}

/// The flag register `f` with Sign, Zero, Auxiliary Carry and Parity given;
/// Carry and the three unused bits are kept.
pub open spec fn with_result_flags(
    f: Byte,
    sign: bool,
    zero: bool,
    aux_carry: bool,
    parity: bool,
) -> Byte {
    with_flag(
        with_flag(with_flag(with_flag(f, SIGN_FLAG, sign), ZERO_FLAG, zero), AUXILIARY_CARRY_FLAG, aux_carry),
        PARITY_FLAG,
        parity,
    )
}

/// The flag register `f` with all five flags given; the three unused bits are
/// kept.
pub open spec fn with_flags(
    f: Byte,
    sign: bool,
    zero: bool,
    aux_carry: bool,
    parity: bool,
    carry: bool,
) -> Byte {
    with_flag(with_result_flags(f, sign, zero, aux_carry, parity), CARRY_FLAG, carry)
}

/// The five flags read as they were written, and the three unused bits of the
/// flag register are kept.
pub proof fn lemma_with_flags(
    f: Byte,
    sign: bool,
    zero: bool,
    aux_carry: bool,
    parity: bool,
    carry: bool,
)
    ensures
        bit_of(with_flags(f, sign, zero, aux_carry, parity, carry), SIGN_FLAG) == sign,
        bit_of(with_flags(f, sign, zero, aux_carry, parity, carry), ZERO_FLAG) == zero,
        bit_of(with_flags(f, sign, zero, aux_carry, parity, carry), AUXILIARY_CARRY_FLAG)
            == aux_carry,
        bit_of(with_flags(f, sign, zero, aux_carry, parity, carry), PARITY_FLAG) == parity,
        bit_of(with_flags(f, sign, zero, aux_carry, parity, carry), CARRY_FLAG) == carry,
        bit_of(with_flags(f, sign, zero, aux_carry, parity, carry), 5) == bit_of(f, 5),
        bit_of(with_flags(f, sign, zero, aux_carry, parity, carry), 3) == bit_of(f, 3),
        bit_of(with_flags(f, sign, zero, aux_carry, parity, carry), 1) == bit_of(f, 1),
{
    let first = with_flag(f, SIGN_FLAG, sign);
    let second = with_flag(first, ZERO_FLAG, zero);
    let third = with_flag(second, AUXILIARY_CARRY_FLAG, aux_carry);
    let fourth = with_flag(third, PARITY_FLAG, parity);
    assert forall|other: usize| other < 8 implies bit_of(
        with_flags(f, sign, zero, aux_carry, parity, carry),
        other,
    ) == (if other == CARRY_FLAG {
        carry
    } else if other == PARITY_FLAG {
        parity
    } else if other == AUXILIARY_CARRY_FLAG {
        aux_carry
    } else if other == ZERO_FLAG {
        zero
    } else if other == SIGN_FLAG {
        sign
    } else {
        bit_of(f, other)
    }) by {
        lemma_with_flag(f, SIGN_FLAG, sign, other);
        lemma_with_flag(first, ZERO_FLAG, zero, other);
        lemma_with_flag(second, AUXILIARY_CARRY_FLAG, aux_carry, other);
        lemma_with_flag(third, PARITY_FLAG, parity, other);
        lemma_with_flag(fourth, CARRY_FLAG, carry, other);
    }
}

/// Sign, Zero, Auxiliary Carry and Parity read as they were written; Carry
/// and the three unused bits of the flag register are kept.
pub proof fn lemma_with_result_flags(
    f: Byte,
    sign: bool,
    zero: bool,
    aux_carry: bool,
    parity: bool,
)
    ensures
        bit_of(with_result_flags(f, sign, zero, aux_carry, parity), SIGN_FLAG) == sign,
        bit_of(with_result_flags(f, sign, zero, aux_carry, parity), ZERO_FLAG) == zero,
        bit_of(with_result_flags(f, sign, zero, aux_carry, parity), AUXILIARY_CARRY_FLAG)
            == aux_carry,
        bit_of(with_result_flags(f, sign, zero, aux_carry, parity), PARITY_FLAG) == parity,
        bit_of(with_result_flags(f, sign, zero, aux_carry, parity), CARRY_FLAG) == bit_of(
            f,
            CARRY_FLAG,
        ),
        bit_of(with_result_flags(f, sign, zero, aux_carry, parity), 5) == bit_of(f, 5),
        bit_of(with_result_flags(f, sign, zero, aux_carry, parity), 3) == bit_of(f, 3),
        bit_of(with_result_flags(f, sign, zero, aux_carry, parity), 1) == bit_of(f, 1),
{
    let first = with_flag(f, SIGN_FLAG, sign);
    let second = with_flag(first, ZERO_FLAG, zero);
    let third = with_flag(second, AUXILIARY_CARRY_FLAG, aux_carry);
    assert forall|other: usize| other < 8 implies bit_of(
        with_result_flags(f, sign, zero, aux_carry, parity),
        other,
    ) == (if other == PARITY_FLAG {
        parity
    } else if other == AUXILIARY_CARRY_FLAG {
        aux_carry
    } else if other == ZERO_FLAG {
        zero
    } else if other == SIGN_FLAG {
        sign
    } else {
        bit_of(f, other)
    }) by {
        lemma_with_flag(f, SIGN_FLAG, sign, other);
        lemma_with_flag(first, ZERO_FLAG, zero, other);
        lemma_with_flag(second, AUXILIARY_CARRY_FLAG, aux_carry, other);
        lemma_with_flag(third, PARITY_FLAG, parity, other);
    }
}

/// The byte that an integer comes to modulo 256.
pub open spec fn wrap_byte(value: int) -> Byte {
    (value % 256) as Byte
}

/// Wrapping a value that is less than 256 away from the range of a byte adds
/// or takes away 256 once.
pub proof fn lemma_wrap_byte(value: int)
    ensures
        0 <= value < 256 ==> wrap_byte(value) == value,
        -256 <= value < 0 ==> wrap_byte(value) == value + 256,
        256 <= value < 512 ==> wrap_byte(value) == value - 256,
{
}

/// One if the condition holds, else zero.
pub open spec fn one_if(condition: bool) -> int {
    if condition {
        1
    } else {
        0
    }
}

/// The operand source that the arithmetic and logic instructions encode: the
/// sixteen (or eight) opcodes from `first` to `last` name a register in their
/// low three bits, and two further opcodes take the byte after the opcode.
pub open spec fn alu_source(
    code: Byte,
    first: Byte,
    last: Byte,
    immediate: Byte,
    other_immediate: Byte,
) -> Option<Source> {
    if first <= code <= last {
        Some(Source::Register(source_index(code)))
    } else if code == immediate || code == other_immediate {
        Some(Source::Immediate)
    } else {
        None
    }
}

impl CpuState {
    /// Memory covers the whole address space.
    pub open spec fn wf(self) -> bool {
        self.mem.len() == MEMORY_SIZE
    }

    pub open spec fn bc(self) -> Word {
        word_of(self.b, self.c)
    }

    pub open spec fn de(self) -> Word {
        word_of(self.d, self.e)
    }

    pub open spec fn hl(self) -> Word {
        word_of(self.h, self.l)
    }

    pub open spec fn sign(self) -> bool {
        bit_of(self.f, SIGN_FLAG)
    }

    pub open spec fn zero(self) -> bool {
        bit_of(self.f, ZERO_FLAG)
    }

    pub open spec fn aux_carry(self) -> bool {
        bit_of(self.f, AUXILIARY_CARRY_FLAG)
    }

    pub open spec fn parity(self) -> bool {
        bit_of(self.f, PARITY_FLAG)
    }

    pub open spec fn carry(self) -> bool {
        bit_of(self.f, CARRY_FLAG)
    }

    /// The byte stored at `addr`.
    pub open spec fn read(self, addr: Word) -> Byte {
        self.mem[addr as int]
    }

    /// The state once `data` is stored at `addr`.
    pub open spec fn written(self, addr: Word, data: Byte) -> CpuState {
        CpuState { mem: self.mem.update(addr as int, data), ..self }
    }

    /// The 8-bit register with this index; index 6 is the byte of memory that
    /// HL addresses.
    pub open spec fn reg(self, index: Byte) -> Byte {
        if index == 0 {
            self.b
        } else if index == 1 {
            self.c
        } else if index == 2 {
            self.d
        } else if index == 3 {
            self.e
        } else if index == 4 {
            self.h
        } else if index == 5 {
            self.l
        } else if index == 6 {
            self.read(self.hl())
        } else {
            self.a
        }
    }

    /// The state once `data` is written to the 8-bit register with this index.
    pub open spec fn with_reg(self, index: Byte, data: Byte) -> CpuState {
        if index == 0 {
            CpuState { b: data, ..self }
        } else if index == 1 {
            CpuState { c: data, ..self }
        } else if index == 2 {
            CpuState { d: data, ..self }
        } else if index == 3 {
            CpuState { e: data, ..self }
        } else if index == 4 {
            CpuState { h: data, ..self }
        } else if index == 5 {
            CpuState { l: data, ..self }
        } else if index == 6 {
            self.written(self.hl(), data)
        } else {
            CpuState { a: data, ..self }
        }
    }

    /// The state once the program counter has passed one byte.
    pub open spec fn advanced(self) -> CpuState {
        CpuState { pc: next_word(self.pc), ..self }
    }

    /// The operand that comes from `source`.
    pub open spec fn operand(self, source: Source) -> Byte {
        match source {
            Source::Register(index) => self.reg(index),
            Source::Immediate => self.read(self.pc),
        }
    }

    /// The state once the operand is taken from `source`: an immediate operand
    /// moves the program counter past it.
    pub open spec fn past_operand(self, source: Source) -> CpuState {
        match source {
            Source::Register(_) => self,
            Source::Immediate => self.advanced(),
        }
    }

    /// The state once `data` is pushed: the stack pointer goes down by one,
    /// then the byte is stored where it points.
    pub open spec fn pushed_byte(self, data: Byte) -> CpuState {
        let sp = prev_word(self.sp);
        CpuState { sp, mem: self.mem.update(sp as int, data), ..self }
    }

    /// The state once a byte is popped: the stack pointer goes up by one.
    pub open spec fn popped_byte(self) -> CpuState {
        CpuState { sp: next_word(self.sp), ..self }
    }

    /// The state once `data` is pushed, high byte first.
    pub open spec fn pushed_word(self, data: Word) -> CpuState {
        self.pushed_byte(hi_of(data)).pushed_byte(lo_of(data))
    }

    /// The word on top of the stack: its low byte is where the stack pointer
    /// points, its high byte one above.
    pub open spec fn top_word(self) -> Word {
        word_of(self.read(next_word(self.sp)), self.read(self.sp))
    }

    /// The state once a word is popped.
    pub open spec fn popped_word(self) -> CpuState {
        self.popped_byte().popped_byte()
    }

    /// The next two bytes of the program as a word, low byte first.
    pub open spec fn next_program_word(self) -> Word {
        word_of(self.read(next_word(self.pc)), self.read(self.pc))
    }

    /// The state with the accumulator `value` and Sign, Zero and Parity taken
    /// from it, and with the given Auxiliary Carry and Carry.
    pub open spec fn with_result(self, value: Byte, aux_carry: bool, carry: bool) -> CpuState {
        CpuState {
            a: value,
            f: with_flags(self.f, bit_of(value, 7), value == 0, aux_carry, even_parity(value), carry),
            ..self
        }
    }

    /// ADD and ADC: the accumulator plus the operand, plus Carry where
    /// `with_carry` asks for it.
    pub open spec fn after_add(self, operand: Byte, with_carry: bool) -> CpuState {
        let carry_in = one_if(with_carry && self.carry());
        self.with_result(
            wrap_byte(self.a + operand + carry_in),
            self.a % 16 + operand % 16 + carry_in > 15,
            self.a + operand + carry_in > 255,
        )
    }

    /// SUB and SBB: the accumulator minus the operand, minus Carry where
    /// `with_borrow` asks for it.
    pub open spec fn after_sub(self, operand: Byte, with_borrow: bool) -> CpuState {
        let borrow_in = one_if(with_borrow && self.carry());
        self.with_result(
            wrap_byte(self.a - operand - borrow_in),
            self.a % 16 < operand % 16 + borrow_in,
            self.a < operand + borrow_in,
        )
    }

    /// CMP: the flags of a subtraction without borrow; the accumulator is
    /// kept.
    pub open spec fn after_compare(self, operand: Byte) -> CpuState {
        CpuState { a: self.a, ..self.after_sub(operand, false) }
    }

    /// ANA: bitwise and; Carry and Auxiliary Carry are cleared.
    pub open spec fn after_and(self, operand: Byte) -> CpuState {
        self.with_result(self.a & operand, false, false)
    }

    /// XRA: bitwise exclusive or; Carry and Auxiliary Carry are cleared.
    pub open spec fn after_xor(self, operand: Byte) -> CpuState {
        self.with_result(self.a ^ operand, false, false)
    }

    /// ORA: bitwise or; Carry and Auxiliary Carry are cleared.
    pub open spec fn after_or(self, operand: Byte) -> CpuState {
        self.with_result(self.a | operand, false, false)
    }

    /// The state with the register at `index` set to `value`, Sign, Zero and
    /// Parity taken from it, and the given Auxiliary Carry; Carry is kept.
    pub open spec fn with_counted(self, index: Byte, value: Byte, aux_carry: bool) -> CpuState {
        CpuState {
            f: with_result_flags(self.f, bit_of(value, 7), value == 0, aux_carry, even_parity(value)),
            ..self.with_reg(index, value)
        }
    }

    /// INR: the register at `index` plus one. Auxiliary Carry is set when the
    /// low nibble rolled over to zero.
    pub open spec fn after_increment(self, index: Byte) -> CpuState {
        let value = wrap_byte(self.reg(index) + 1);
        self.with_counted(index, value, value % 16 == 0)
    }

    /// DCR: the register at `index` minus one. Auxiliary Carry is set when the
    /// low nibble was zero before.
    pub open spec fn after_decrement(self, index: Byte) -> CpuState {
        let value = wrap_byte(self.reg(index) - 1);
        self.with_counted(index, value, value % 16 == 15)
    }

    /// CMA: every bit of the accumulator inverted.
    pub open spec fn after_complement_accumulator(self) -> CpuState {
        CpuState { a: !self.a, ..self }
    }

    /// CMC: Carry inverted.
    pub open spec fn after_complement_carry(self) -> CpuState {
        CpuState { f: with_flag(self.f, CARRY_FLAG, !self.carry()), ..self }
    }

    /// STC: Carry set.
    pub open spec fn after_set_carry(self) -> CpuState {
        CpuState { f: with_flag(self.f, CARRY_FLAG, true), ..self }
    }

    /// Whether decimal adjustment corrects the low nibble.
    pub open spec fn adjusts_low(self) -> bool {
        self.aux_carry() || self.a % 16 > 9
    }

    /// The accumulator after the first step of decimal adjustment.
    pub open spec fn low_adjusted(self) -> Byte {
        if self.adjusts_low() {
            wrap_byte(self.a + 6)
        } else {
            self.a
        }
    }

    /// Whether decimal adjustment corrects the high nibble.
    pub open spec fn adjusts_high(self) -> bool {
        self.carry() || self.low_adjusted() / 16 > 9
    }

    /// DAA: where Auxiliary Carry is set or the low nibble is above 9, six is
    /// added to the accumulator and Auxiliary Carry tells whether the low
    /// nibble overflowed; then, where Carry is set or the high nibble is above
    /// 9, six is added to the high nibble and Carry tells whether it
    /// overflowed.
    pub open spec fn after_decimal_adjust(self) -> CpuState {
        let first = self.low_adjusted();
        let aux_carry = if self.adjusts_low() {
            self.a % 16 + 6 > 15
        } else {
            self.aux_carry()
        };
        let carry = if self.adjusts_high() {
            first / 16 + 6 > 15
        } else {
            self.carry()
        };
        let value = if self.adjusts_high() {
            (((first / 16 + 6) % 16) * 16 + first % 16) as Byte
        } else {
            first
        };
        self.with_result(value, aux_carry, carry)
    }

    /// RLC and RAL: the accumulator rotated left by one bit. Bit 0 comes from
    /// Carry where `through_carry` holds, else from the old bit 7; Carry takes
    /// the old bit 7.
    pub open spec fn after_rotate_left(self, through_carry: bool) -> CpuState {
        let high = bit_of(self.a, 7);
        let low: Byte = if through_carry {
            if self.carry() {
                1
            } else {
                0
            }
        } else {
            if high {
                1
            } else {
                0
            }
        };
        CpuState { a: (self.a << 1) | low, f: with_flag(self.f, CARRY_FLAG, high), ..self }
    }

    /// RRC and RAR: the accumulator rotated right by one bit. Bit 7 comes from
    /// Carry where `through_carry` holds, else from the old bit 0; Carry takes
    /// the old bit 0.
    pub open spec fn after_rotate_right(self, through_carry: bool) -> CpuState {
        let low = bit_of(self.a, 0);
        let high: Byte = if through_carry {
            if self.carry() {
                1
            } else {
                0
            }
        } else {
            if low {
                1
            } else {
                0
            }
        };
        CpuState { a: (high << 7) | (self.a >> 1), f: with_flag(self.f, CARRY_FLAG, low), ..self }
    }

    /// MOV: the register at `destination` takes the value of the one at
    /// `source`.
    pub open spec fn after_move(self, destination: Byte, source: Byte) -> CpuState {
        self.with_reg(destination, self.reg(source))
    }

    /// LDAX: the accumulator takes the byte at `addr`.
    pub open spec fn after_load_accumulator(self, addr: Word) -> CpuState {
        CpuState { a: self.read(addr), ..self }
    }

    /// STAX: the byte at `addr` takes the value of the accumulator.
    pub open spec fn after_store_accumulator(self, addr: Word) -> CpuState {
        self.written(addr, self.a)
    }

    /// The register pair that LDAX and STAX address through: BC for the
    /// opcodes below 0x10, DE for the others.
    pub open spec fn accumulator_pair(self, code: Byte) -> Word {
        if code < 0x10 {
            self.bc()
        } else {
            self.de()
        }
    }

    /// What the instruction of family `operation` with opcode `code` makes of
    /// this state, in which the program counter has passed the opcode; `None`
    /// for the families that the processor has no handler for.
    pub open spec fn executed(self, operation: Operation, code: Byte) -> Option<CpuState> {
        match operation {
            Operation::ADD => Some(self.after_add(self.reg(source_index(code)), false)),
            Operation::ADC => Some(self.after_add(self.reg(source_index(code)), true)),
            Operation::SUB => Some(self.after_sub(self.reg(source_index(code)), false)),
            Operation::SBB => Some(self.after_sub(self.reg(source_index(code)), true)),
            Operation::ANA => Some(self.after_and(self.reg(source_index(code)))),
            Operation::XRA => Some(self.after_xor(self.reg(source_index(code)))),
            Operation::ORA => Some(self.after_or(self.reg(source_index(code)))),
            Operation::CMP => Some(self.after_compare(self.reg(source_index(code)))),
            Operation::INR => Some(self.after_increment(destination_index(code))),
            Operation::DCR => Some(self.after_decrement(destination_index(code))),
            Operation::MOV => Some(
                self.after_move(destination_index(code), source_index(code)),
            ),
            Operation::LDAX => Some(self.after_load_accumulator(self.accumulator_pair(code))),
            Operation::STAX => Some(self.after_store_accumulator(self.accumulator_pair(code))),
            Operation::RLC => Some(self.after_rotate_left(false)),
            Operation::RAL => Some(self.after_rotate_left(true)),
            Operation::RRC => Some(self.after_rotate_right(false)),
            Operation::RAR => Some(self.after_rotate_right(true)),
            Operation::CMA => Some(self.after_complement_accumulator()),
            Operation::CMC => Some(self.after_complement_carry()),
            Operation::STC => Some(self.after_set_carry()),
            Operation::DAA => Some(self.after_decimal_adjust()),
            Operation::NOP => Some(self),
            _ => None,
        }
    }

    /// The byte that the program counter addresses: the opcode of the next
    /// instruction.
    pub open spec fn opcode(self) -> Byte {
        self.read(self.pc)
    }

    /// What executing one instruction returns: the cycles it took, or the
    /// reason why the byte at the program counter could not be executed.
    pub open spec fn step_result(self) -> Result<Byte, CpuError> {
        let code = self.opcode();
        match operation_of(code) {
            None => Err(CpuError::UnrecognizedOpcode { code, pc: self.pc }),
            Some(operation) => match self.advanced().executed(operation, code) {
                Some(_) => Ok(cycles_of(code)),
                None => Err(CpuError::UnhandledOperand { code, pc: next_word(self.pc) }),
            },
        }
    }

    /// The state after executing one instruction. A byte that is no opcode
    /// leaves the state as it was; an opcode of a family without a handler
    /// leaves the program counter past the opcode and changes nothing else.
    pub open spec fn after_step(self) -> CpuState {
        let code = self.opcode();
        match operation_of(code) {
            None => self,
            Some(operation) => match self.advanced().executed(operation, code) {
                Some(state) => state,
                None => self.advanced(),
            },
        }
    }
}

} // verus!
