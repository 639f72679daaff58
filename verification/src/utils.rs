//! Single-bit helpers on bytes, used throughout the flag computation.

use vstd::prelude::*;
use crate::constants::Byte;

verus! {

/// Whether bit `position` of `data` is one.
pub open spec fn bit_of(data: Byte, position: usize) -> bool {
    data & (1u8 << position) != 0
}

/// Bit `position` of `data` as a number, 0 or 1.
pub open spec fn bit_value(data: Byte, position: usize) -> Byte {
    if bit_of(data, position) {
        1
    } else {
        0
    }
}

/// `data` with bit `position` forced to one.
pub open spec fn with_bit_set(data: Byte, position: usize) -> Byte {
    data | (1u8 << position)
}

/// `data` with bit `position` forced to zero.
pub open spec fn with_bit_reset(data: Byte, position: usize) -> Byte {
    data & !(1u8 << position)
}

/// How many of the bits of `data` below `position` are one.
pub open spec fn ones_below(data: Byte, position: usize) -> nat
    decreases position,
{
    if position == 0 {
        0
    } else {
        let rest = ones_below(data, (position - 1) as usize);
        if bit_of(data, (position - 1) as usize) {
            rest + 1
        } else {
            rest
        }
    }
}

/// Whether `data` has an even number of one bits.
pub open spec fn even_parity(data: Byte) -> bool {
    ones_below(data, 8) % 2 == 0
}

/// Setting a bit makes that bit one and leaves the seven others as they were.
pub proof fn lemma_with_bit_set(data: Byte, position: usize, other: usize)
    requires
        position < 8,
        other < 8,
    ensures
        bit_of(with_bit_set(data, position), other) == (other == position || bit_of(data, other)),
{
    assert((data | (1u8 << position)) & (1u8 << other) != 0 <==> (other == position || data & (1u8
        << other) != 0)) by (bit_vector)
        requires
            position < 8,
            other < 8,
    ;
}

/// Resetting a bit makes that bit zero and leaves the seven others as they
/// were.
pub proof fn lemma_with_bit_reset(data: Byte, position: usize, other: usize)
    requires
        position < 8,
        other < 8,
    ensures
        bit_of(with_bit_reset(data, position), other) == (other != position && bit_of(data, other)),
{
    assert((data & !(1u8 << position)) & (1u8 << other) != 0 <==> (other != position && data & (1u8
        << other) != 0)) by (bit_vector)
        requires
            position < 8,
            other < 8,
    ;
}

/// The low nibble of a byte is its remainder modulo 16, the high nibble its
/// quotient by 16.
pub proof fn lemma_nibbles(data: Byte)
    ensures
        data & 0xF == data % 16,
        data >> 4 == data / 16,
{
    assert(data & 0xF == data % 16) by (bit_vector);
    assert(data >> 4 == data / 16) by (bit_vector);
}

/// Two nibbles joined by shifting and or-ing make sixteen times the upper one
/// plus the lower one.
pub proof fn lemma_join_nibbles(upper: Byte, lower: Byte)
    requires
        upper < 16,
        lower < 16,
    ensures
        (upper << 4) | lower == upper * 16 + lower,
{
    assert((upper << 4) | lower == upper * 16 + lower) by (bit_vector)
        requires
            upper < 16,
            lower < 16,
    ;
}

/// Tells whether bit `position` of `data` is one.
pub fn is_bit_set(data: &Byte, position: usize) -> (r: bool)
    requires
        position < 8,
    ensures
        r == bit_of(*data, position),
{
    (*data & (1u8 << position)) > 0
}

/// Forces bit `position` of `data` to one.
pub fn set_bit(data: &mut Byte, position: usize)
    requires
        position < 8,
    ensures
        *final(data) == with_bit_set(*old(data), position),
        forall|other: usize|
            other < 8 ==> bit_of(*final(data), other) == (other == position || bit_of(
                *old(data),
                other,
            )),
{
    let setter: Byte = 1u8 << position;
    *data |= setter;
    proof {
        assert forall|other: usize| other < 8 implies bit_of(*data, other) == (other == position
            || bit_of(*old(data), other)) by {
            lemma_with_bit_set(*old(data), position, other);
        }
    }
}

/// Forces bit `position` of `data` to zero.
pub fn reset_bit(data: &mut Byte, position: usize)
    requires
        position < 8,
    ensures
        *final(data) == with_bit_reset(*old(data), position),
        forall|other: usize|
            other < 8 ==> bit_of(*final(data), other) == (other != position && bit_of(
                *old(data),
                other,
            )),
{
    let setter: Byte = !(1u8 << position);
    *data &= setter;
    proof {
        assert forall|other: usize| other < 8 implies bit_of(*data, other) == (other != position
            && bit_of(*old(data), other)) by {
            lemma_with_bit_reset(*old(data), position, other);
        }
    }
}

/// Bit `position` of `data` as a number, 0 or 1.
pub fn get_bit_val(data: &Byte, position: u8) -> (r: u8)
    requires
        position < 8,
    ensures
        r == bit_value(*data, position as usize),
        r <= 1,
{
    assert(1u8 << position == 1u8 << (position as usize)) by (bit_vector)
        requires
            position < 8,
    ;
    match (*data & (1u8 << position)) > 0 {
        true => 1,
        false => 0,
    }
}

/// Tells whether `data` has an even number of one bits.
pub fn is_even_parity(data: &Byte) -> (r: bool)
    ensures
        r == even_parity(*data),
{
    let mut ones: u8 = 0;
    let mut position: usize = 0;
    while position < 8
        invariant
            position <= 8,
            ones == ones_below(*data, position),
            ones <= position,
        decreases 8 - position,
    {
        if is_bit_set(data, position) {
            ones += 1;
        }
        position += 1;
    }
    ones % 2 == 0
}

} // verus!
