//! The frame driver: runs the processor until the cycles of one video frame
//! are used up.

use vstd::prelude::*;
use crate::bus::Bus;
use crate::constants::MAX_CYCLES_PER_FRAME;
use crate::cpu::{Cpu, CpuError};
use crate::ops::{is_opcode_map, lemma_cycles_positive};
use crate::state::CpuState;

verus! {

pub struct Emulator {
    pub cpu: Cpu,
    pub paused: bool,
}

/// The state in which a frame ends that starts in `state` with `cycles` clock
/// cycles already used: instructions are executed one after the other until
/// the cycles of a frame are used up or an instruction fails.
pub open spec fn after_frame(state: CpuState, cycles: nat) -> CpuState
    decreases MAX_CYCLES_PER_FRAME + 256 - cycles,
{
    if cycles >= MAX_CYCLES_PER_FRAME {
        state
    } else {
        match state.step_result() {
            Ok(used) => {
                proof {
                    lemma_cycles_positive(state.opcode());
                }
                after_frame(state.after_step(), cycles + used as nat)
            },
            Err(_) => state.after_step(),
        }
    }
}

/// How a frame ends that starts in `state` with `cycles` clock cycles already
/// used: with the error of the first instruction that fails, if one does.
pub open spec fn frame_result(state: CpuState, cycles: nat) -> Result<(), CpuError>
    decreases MAX_CYCLES_PER_FRAME + 256 - cycles,
{
    if cycles >= MAX_CYCLES_PER_FRAME {
        Ok(())
    } else {
        match state.step_result() {
            Ok(used) => {
                proof {
                    lemma_cycles_positive(state.opcode());
                }
                frame_result(state.after_step(), cycles + used as nat)
            },
            Err(error) => Err(error),
        }
    }
}

impl Emulator {
    /// An emulator, not paused, whose processor starts from its reset state
    /// on `bus`, which holds the program.
    pub fn new(bus: Bus) -> (emulator: Emulator)
        ensures
            !emulator.paused,
            emulator.cpu.af.val == 0,
            emulator.cpu.bc.val == 0,
            emulator.cpu.de.val == 0,
            emulator.cpu.hl.val == 0,
            emulator.cpu.program_counter == 0,
            emulator.cpu.stack_pointer == 0,
            emulator.cpu.bus == bus,
            is_opcode_map(emulator.cpu.ops@),
    {
        let mut cpu = Cpu::new(bus);
        cpu.reset();

        Emulator { cpu: cpu, paused: false }
    }

    /// Runs the processor for one video frame, unless the emulator is paused.
    /// The frame ends early, with the error, at an instruction that fails.
    pub fn run(&mut self) -> (r: Result<(), CpuError>)
        ensures
            final(self).paused == old(self).paused,
            final(self).cpu.ops == old(self).cpu.ops,
            old(self).paused ==> r == Ok::<(), CpuError>(()) && final(self).cpu == old(self).cpu,
            !old(self).paused ==> r == frame_result(old(self).cpu@, 0) && final(self).cpu@
                == after_frame(old(self).cpu@, 0),
    {
        let mut frame_cycles: usize = 0;

        if !self.paused {
            while frame_cycles < MAX_CYCLES_PER_FRAME
                invariant
                    !self.paused,
                    !old(self).paused,
                    self.cpu.ops == old(self).cpu.ops,
                    frame_cycles < MAX_CYCLES_PER_FRAME + 256,
                    frame_result(self.cpu@, frame_cycles as nat) == frame_result(old(self).cpu@, 0),
                    after_frame(self.cpu@, frame_cycles as nat) == after_frame(old(self).cpu@, 0),
                decreases MAX_CYCLES_PER_FRAME + 256 - frame_cycles,
            {
                proof {
                    lemma_cycles_positive(self.cpu@.opcode());
                }
                let cycles = match self.cpu.execute() {
                    Ok(cycles) => cycles,
                    Err(error) => {
                        return Err(error);
                    },
                };
                frame_cycles += cycles as usize;
            }
        }
        Ok(())
    }
}

} // verus!
