//! Shared type aliases, display geometry, memory size and flag bit positions.

use vstd::prelude::*;

verus! {

pub type Byte = u8;

pub type SignedByte = i8;

pub type Word = u16;

pub type SignedWord = i16;

/// Width in pixels of the cabinet's monitor, which is mounted rotated by a
/// quarter turn: the tube is 256 x 224, the picture 224 x 256.
pub const DISPLAY_WIDTH: u32 = 224;

pub const DISPLAY_HEIGHT: u32 = 256;

pub const DISPLAY_FACTOR: u32 = 2;

/// Number of addressable bytes: every 16-bit address is valid.
pub const MEMORY_SIZE: usize = 65536;

/// Clock cycles that fit in one video frame: a 2 MHz clock at 60 frames per
/// second.
pub const MAX_CYCLES_PER_FRAME: usize = 33333;

/// Bit of the flag register that mirrors bit 7 of the last result.
pub const SIGN_FLAG: usize = 7;

/// Bit of the flag register that is set when the last result was zero.
pub const ZERO_FLAG: usize = 6;

/// Bit of the flag register that holds the carry out of bit 3.
pub const AUXILIARY_CARRY_FLAG: usize = 4;

/// Bit of the flag register that is set when the last result had an even
/// number of one bits.
pub const PARITY_FLAG: usize = 2;

/// Bit of the flag register that holds the carry or borrow out of bit 7.
pub const CARRY_FLAG: usize = 0;

} // verus!
