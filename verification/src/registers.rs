//! Register pairs: one 16-bit word whose two halves are also read and written
//! as 8-bit registers.

use vstd::prelude::*;
use crate::constants::{Byte, Word};

verus! {

/// The word whose high byte is `hi` and whose low byte is `lo`.
pub open spec fn word_of(hi: Byte, lo: Byte) -> Word {
    (hi * 256 + lo) as Word
}

/// The high byte of `word`.
pub open spec fn hi_of(word: Word) -> Byte {
    (word / 256) as Byte
}

/// The low byte of `word`.
pub open spec fn lo_of(word: Word) -> Byte {
    (word % 256) as Byte
}

/// The word after `word`, modulo 65536.
pub open spec fn next_word(word: Word) -> Word {
    if word == 0xFFFF {
        0
    } else {
        (word + 1) as Word
    }
}

/// The word before `word`, modulo 65536.
pub open spec fn prev_word(word: Word) -> Word {
    if word == 0 {
        0xFFFF
    } else {
        (word - 1) as Word
    }
}

/// Two 8-bit registers stored as one word; the first-named register of the
/// pair is the high byte.
#[derive(Debug, Copy, Clone)]
pub struct RegisterPair {
    pub val: Word,
}

impl RegisterPair {
    /// The high register of the pair.
    pub open spec fn spec_hi(&self) -> Byte {
        hi_of(self.val)
    }

    /// The low register of the pair.
    pub open spec fn spec_lo(&self) -> Byte {
        lo_of(self.val)
    }

    pub fn new(val: Word) -> (pair: RegisterPair)
        ensures
            pair.val == val,
    {
        RegisterPair { val }
    }

    /// Reads the high register.
    #[verifier::when_used_as_spec(spec_hi)]
    pub fn hi(&self) -> (r: Byte)
        ensures
            r == self.spec_hi(),
    {
        let word = self.val;
        assert(word >> 8 == word / 256 && (word >> 8) < 256) by (bit_vector);
        (word >> 8) as Byte
    }

    /// Reads the low register.
    #[verifier::when_used_as_spec(spec_lo)]
    pub fn lo(&self) -> (r: Byte)
        ensures
            r == self.spec_lo(),
    {
        let word = self.val;
        assert(word & 0xFF == word % 256) by (bit_vector);
        (word & 0xFF) as Byte
    }

    /// Writes the high register; the low register keeps its value.
    pub fn set_hi(&mut self, data: Byte)
        ensures
            final(self).val == word_of(data, old(self).lo()),
            final(self).hi() == data,
            final(self).lo() == old(self).lo(),
    {
        let word = self.val;
        assert(((data as u16) << 8) | (word & 0x00FF) == (data as u16) * 256 + word % 256)
            by (bit_vector);
        self.val = ((data as Word) << 8) | (word & 0x00FF);
    }

    /// Writes the low register; the high register keeps its value.
    pub fn set_lo(&mut self, data: Byte)
        ensures
            final(self).val == word_of(old(self).hi(), data),
            final(self).hi() == old(self).hi(),
            final(self).lo() == data,
    {
        let word = self.val;
        assert((word & 0xFF00) | (data as u16) == (word / 256) * 256 + (data as u16))
            by (bit_vector);
        self.val = (word & 0xFF00) | (data as Word);
    }
}

/// The two halves of a word make up the word again, and a word made of two
/// bytes has them as its halves.
pub proof fn lemma_word_halves(word: Word, hi: Byte, lo: Byte)
    ensures
        word_of(hi_of(word), lo_of(word)) == word,
        hi_of(word_of(hi, lo)) == hi,
        lo_of(word_of(hi, lo)) == lo,
{
}

} // verus!
