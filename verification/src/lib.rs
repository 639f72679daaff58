//! A cycle-counted interpreter for the Intel 8080 instruction set, driving a
//! flat 64 KiB memory: the execution core of an arcade-hardware emulator.

pub mod bus;
pub mod constants;
pub mod cpu;
pub mod emulator;
pub mod laws;
pub mod ops;
pub mod registers;
pub mod state;
pub mod utils;
