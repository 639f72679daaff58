//! What holds of the instruction set as a whole: laws that relate the
//! instruction families to each other and to the flags.

use vstd::prelude::*;
use crate::constants::{Byte, Word};
use crate::cpu::CpuError;
use crate::ops::operation_of;
use crate::registers::lemma_word_halves;
use crate::state::{
    lemma_with_flag,
    lemma_with_flags,
    lemma_with_result_flags,
    lemma_wrap_byte,
    wrap_byte,
    CpuState,
};
use crate::utils::{bit_of, even_parity};

verus! {

/// ADD sets Carry exactly when the sum does not fit in a byte, Zero exactly
/// when the sum is zero modulo 256, and Parity exactly when the new
/// accumulator has an even number of one bits.
pub proof fn law_add_flags(state: CpuState, operand: Byte)
    ensures
        state.after_add(operand, false).a == wrap_byte(state.a + operand),
        state.after_add(operand, false).carry() == (state.a + operand > 255),
        state.after_add(operand, false).zero() == ((state.a + operand) % 256 == 0),
        state.after_add(operand, false).parity() == even_parity(
            state.after_add(operand, false).a,
        ),
{
    let value = wrap_byte(state.a + operand);
    lemma_with_flags(
        state.f,
        bit_of(value, 7),
        value == 0,
        state.a % 16 + operand % 16 > 15,
        even_parity(value),
        state.a + operand > 255,
    );
}

/// SUB followed by ADD of the same operand gives the accumulator its first
/// value again.
pub proof fn law_sub_then_add(state: CpuState, operand: Byte)
    ensures
        state.after_sub(operand, false).after_add(operand, false).a == state.a,
{
    lemma_wrap_byte(state.a - operand);
    lemma_wrap_byte(wrap_byte(state.a - operand) + operand);
}

/// CMP keeps the accumulator, whatever the operand and the flags.
pub proof fn law_compare_keeps_accumulator(state: CpuState, operand: Byte)
    ensures
        state.after_compare(operand).a == state.a,
{
}

/// DCR followed by INR of the same register gives the register its first
/// value again.
pub proof fn law_decrement_then_increment(state: CpuState, index: Byte)
    requires
        state.wf(),
    ensures
        state.after_decrement(index).after_increment(index).reg(index) == state.reg(index),
{
    let value = wrap_byte(state.reg(index) - 1);
    lemma_wrap_byte(state.reg(index) - 1);
    lemma_wrap_byte(value + 1);
    lemma_word_halves(0, state.h, state.l);
    lemma_word_halves(0, value, state.l);
    lemma_word_halves(0, state.h, value);
}

/// INR and DCR keep Carry, whatever the register holds.
pub proof fn law_counting_keeps_carry(state: CpuState, index: Byte)
    ensures
        state.after_increment(index).carry() == state.carry(),
        state.after_decrement(index).carry() == state.carry(),
{
    let up = wrap_byte(state.reg(index) + 1);
    lemma_with_result_flags(state.f, bit_of(up, 7), up == 0, up % 16 == 0, even_parity(up));
    let down = wrap_byte(state.reg(index) - 1);
    lemma_with_result_flags(
        state.f,
        bit_of(down, 7),
        down == 0,
        down % 16 == 15,
        even_parity(down),
    );
}

/// ANA, XRA and ORA clear Carry and Auxiliary Carry, whatever they were.
pub proof fn law_logic_clears_carries(state: CpuState, operand: Byte)
    ensures
        !state.after_and(operand).carry(),
        !state.after_and(operand).aux_carry(),
        !state.after_xor(operand).carry(),
        !state.after_xor(operand).aux_carry(),
        !state.after_or(operand).carry(),
        !state.after_or(operand).aux_carry(),
{
    let and = state.a & operand;
    lemma_with_flags(state.f, bit_of(and, 7), and == 0, false, even_parity(and), false);
    let xor = state.a ^ operand;
    lemma_with_flags(state.f, bit_of(xor, 7), xor == 0, false, even_parity(xor), false);
    let or = state.a | operand;
    lemma_with_flags(state.f, bit_of(or, 7), or == 0, false, even_parity(or), false);
}

/// The accumulator after RLC.
pub open spec fn rotated_left(a: Byte) -> Byte {
    (a << 1) | (if bit_of(a, 7) {
        1u8
    } else {
        0u8
    })
}

/// The state after RLC, `times` times over.
pub open spec fn after_rotations_left(state: CpuState, times: nat) -> CpuState
    decreases times,
{
    if times == 0 {
        state
    } else {
        after_rotations_left(state, (times - 1) as nat).after_rotate_left(false)
    }
}

/// Eight times RLC gives the accumulator its first value again. Carry ends as
/// the bit that left the accumulator last, which is the first value's bit 0.
pub proof fn law_rotate_left_eight_times(state: CpuState)
    ensures
        after_rotations_left(state, 8).a == state.a,
        after_rotations_left(state, 8).carry() == bit_of(state.a, 0),
{
    reveal_with_fuel(after_rotations_left, 9);
    let a0 = state.a;
    let a1 = rotated_left(a0);
    let a2 = rotated_left(a1);
    let a3 = rotated_left(a2);
    let a4 = rotated_left(a3);
    let a5 = rotated_left(a4);
    let a6 = rotated_left(a5);
    let a7 = rotated_left(a6);
    let a8 = rotated_left(a7);
    assert(after_rotations_left(state, 7).a == a7);
    assert(after_rotations_left(state, 8).a == a8);
    lemma_with_flag(after_rotations_left(state, 7).f, 0, bit_of(a7, 7), 0);
    assert(after_rotations_left(state, 8).carry() == bit_of(a7, 7));
    assert(a8 == a0 && ((a7 & (1u8 << 7usize) != 0) == (a0 & (1u8 << 0usize) != 0))) by (bit_vector)
        requires
            a1 == (a0 << 1) | (if a0 & (1u8 << 7usize) != 0 { 1u8 } else { 0u8 }),
            a2 == (a1 << 1) | (if a1 & (1u8 << 7usize) != 0 { 1u8 } else { 0u8 }),
            a3 == (a2 << 1) | (if a2 & (1u8 << 7usize) != 0 { 1u8 } else { 0u8 }),
            a4 == (a3 << 1) | (if a3 & (1u8 << 7usize) != 0 { 1u8 } else { 0u8 }),
            a5 == (a4 << 1) | (if a4 & (1u8 << 7usize) != 0 { 1u8 } else { 0u8 }),
            a6 == (a5 << 1) | (if a5 & (1u8 << 7usize) != 0 { 1u8 } else { 0u8 }),
            a7 == (a6 << 1) | (if a6 & (1u8 << 7usize) != 0 { 1u8 } else { 0u8 }),
            a8 == (a7 << 1) | (if a7 & (1u8 << 7usize) != 0 { 1u8 } else { 0u8 }),
    ;
}

/// Where bit 7 and bit 0 of the accumulator agree, eight times RLC leave
/// Carry equal to that bit 7.
pub proof fn law_rotate_left_eight_times_carry(state: CpuState)
    requires
        bit_of(state.a, 7) == bit_of(state.a, 0),
    ensures
        after_rotations_left(state, 8).carry() == bit_of(state.a, 7),
{
    law_rotate_left_eight_times(state);
}

/// A word that is pushed is the word on top of the stack, and popping it puts
/// the stack pointer back where it was.
pub proof fn law_push_then_pop(state: CpuState, data: Word)
    requires
        state.wf(),
    ensures
        state.pushed_word(data).top_word() == data,
        state.pushed_word(data).popped_word().sp == state.sp,
{
    lemma_word_halves(data, 0, 0);
}

/// A byte that stands for no instruction makes a step fail with
/// `UnrecognizedOpcode`, which names the byte and its address, and the step
/// leaves the state as it was.
pub proof fn law_unrecognized_opcode(state: CpuState)
    requires
        operation_of(state.opcode()) is None,
    ensures
        state.step_result() == Err::<Byte, CpuError>(
            CpuError::UnrecognizedOpcode { code: state.opcode(), pc: state.pc },
        ),
        state.after_step() == state,
{
}

} // verus!
