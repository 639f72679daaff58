//! The memory bus: one flat array that covers the whole 16-bit address space.

use vstd::prelude::*;
use crate::constants::{Byte, Word, MEMORY_SIZE};

verus! {

/// Size in bytes of each of the four program-image parts.
pub const ROM_PART_SIZE: usize = 0x0800;

pub struct Bus {
    memory: Vec<Byte>,
}

impl View for Bus {
    type V = Seq<Byte>;

    /// The stored bytes, by address.
    closed spec fn view(&self) -> Seq<Byte> {
        self.memory@
    }
}

/// What memory holds at `addr` once the four parts of the program image are
/// in place: the first part from address 0x0000, the second from 0x0800, the
/// third from 0x1000, the fourth from 0x1800; memory above 0x1FFF is kept.
pub open spec fn rom_layout(
    before: Seq<Byte>,
    invaders_h: Seq<Byte>,
    invaders_g: Seq<Byte>,
    invaders_f: Seq<Byte>,
    invaders_e: Seq<Byte>,
    addr: int,
) -> Byte {
    if addr < 0x0800 {
        invaders_h[addr]
    } else if addr < 0x1000 {
        invaders_g[addr - 0x0800]
    } else if addr < 0x1800 {
        invaders_f[addr - 0x1000]
    } else if addr < 0x2000 {
        invaders_e[addr - 0x1800]
    } else {
        before[addr]
    }
}

impl Bus {
    #[verifier::type_invariant]
    spec fn covers_address_space(self) -> bool {
        self.memory.len() == MEMORY_SIZE
    }

    /// A bus whose memory is all zero.
    pub fn new() -> (bus: Bus)
        ensures
            bus@ == Seq::new(MEMORY_SIZE as nat, |addr: int| 0u8),
    {
        let memory = vec![0u8; MEMORY_SIZE];
        assert(memory@ =~= Seq::new(MEMORY_SIZE as nat, |addr: int| 0u8));
        Bus { memory }
    }

    /// Places the four parts of the program image at their addresses.
    pub fn load_rom(
        &mut self,
        invaders_h: &[Byte],
        invaders_g: &[Byte],
        invaders_f: &[Byte],
        invaders_e: &[Byte],
    )
        requires
            invaders_h@.len() >= ROM_PART_SIZE,
            invaders_g@.len() >= ROM_PART_SIZE,
            invaders_f@.len() >= ROM_PART_SIZE,
            invaders_e@.len() >= ROM_PART_SIZE,
        ensures
            final(self)@.len() == MEMORY_SIZE,
            forall|addr: int|
                0 <= addr < MEMORY_SIZE ==> final(self)@[addr] == rom_layout(
                    old(self)@,
                    invaders_h@,
                    invaders_g@,
                    invaders_f@,
                    invaders_e@,
                    addr,
                ),
    {
        proof {
            use_type_invariant(&*self);
        }
        let mut i: usize = 0;
        while i < 0x2000
            invariant
                i <= 0x2000,
                self.memory.len() == MEMORY_SIZE,
                invaders_h@.len() >= ROM_PART_SIZE,
                invaders_g@.len() >= ROM_PART_SIZE,
                invaders_f@.len() >= ROM_PART_SIZE,
                invaders_e@.len() >= ROM_PART_SIZE,
                forall|addr: int|
                    0 <= addr < i ==> self.memory@[addr] == rom_layout(
                        old(self)@,
                        invaders_h@,
                        invaders_g@,
                        invaders_f@,
                        invaders_e@,
                        addr,
                    ),
                forall|addr: int| i <= addr < MEMORY_SIZE ==> self.memory@[addr] == old(self)@[addr],
            decreases 0x2000 - i,
        {
            if i < 0x0800 {
                self.memory[i] = invaders_h[i];
            } else if i < 0x1000 {
                self.memory[i] = invaders_g[i - 0x0800];
            } else if i < 0x1800 {
                self.memory[i] = invaders_f[i - 0x1000];
            } else {
                self.memory[i] = invaders_e[i - 0x1800];
            }
            i += 1;
        }
    }

    /// The byte stored at `addr`.
    pub fn read_byte(&self, addr: Word) -> (data: Byte)
        ensures
            self@.len() == MEMORY_SIZE,
            data == self@[addr as int],
    {
        proof {
            use_type_invariant(self);
        }
        self.memory[addr as usize]
    }

    /// Stores `data` at `addr`; every other address keeps its byte.
    pub fn write_byte(&mut self, addr: Word, data: Byte)
        ensures
            old(self)@.len() == MEMORY_SIZE,
            final(self)@ == old(self)@.update(addr as int, data),
    {
        proof {
            use_type_invariant(&*self);
        }
        self.memory[addr as usize] = data;
    }
}

} // verus!
