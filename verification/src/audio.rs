//! The audio engine: an unimplemented stub that only consumes the
//! memory-mapped sound registers. It works on a snapshot of memory handed
//! to it, never on a live buffer shared with the CPU.

use vstd::prelude::*;

use crate::mmu::{bit_of, read_bit, Memory};

verus! {

/// The direction of the channel-1 frequency sweep, decoded from bit 3 of
/// the sweep register at 0xFF10.
#[derive(Clone, Copy, PartialEq, Eq, Structural, Debug)]
pub enum SweepDirection {
    Addition,
    Subtraction,
}

/// The audio engine. Synthesis is not modeled; the engine only decodes the
/// sound registers it would consume.
pub struct AudioEngine {}

impl AudioEngine {
    /// Decodes the channel-1 sweep direction from a snapshot of the sound
    /// registers: subtraction when bit 3 of the sweep register is set,
    /// addition otherwise.
    pub fn do_audio(mem: &Memory) -> (d: SweepDirection)
        ensures
            d == (if bit_of(mem@[0xFF10], 3) {
                SweepDirection::Subtraction
            } else {
                SweepDirection::Addition
            }),
    {
        if read_bit(0xFF10, 3, mem) {
            SweepDirection::Subtraction
        } else {
            SweepDirection::Addition
        }
    }
}

} // verus!
