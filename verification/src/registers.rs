//! The register file: 32 unsigned 32-bit registers, index-addressable, with
//! named slots for the program counter, stack pointer, link registers and
//! status word.

use vstd::prelude::*;

verus! {

/// The number of registers in the file.
pub const REGISTERS_SIZE: usize = 32;

/// Interrupt link register index.
pub const INTLR: usize = 26;

/// Interrupt handler register index.
pub const IHDLR: usize = 27;

/// Program counter register index.
pub const PC: usize = 28;

/// Status register index.
pub const STS: usize = 29;

/// Stack pointer register index.
pub const SP: usize = 30;

/// Subroutine link register index.
pub const LR: usize = 31;

/// Holds all computation registers.
///
/// Indexes 0 to 25 are general purpose; 26 to 31 are the named slots above.
/// The file never changes size, and a write to an index is visible to the
/// next read of that index.
#[derive(Debug, Clone, PartialEq, Eq)]
pub struct Registers {
    file: Vec<u32>,
}

impl Registers {
    /// The register values, as a sequence of exactly `REGISTERS_SIZE` words.
    pub closed spec fn view(&self) -> Seq<u32> {
        self.file@
    }

    /// The file holds exactly `REGISTERS_SIZE` registers.
    pub open spec fn wf(&self) -> bool {
        self@.len() == REGISTERS_SIZE
    }

    /// Creates a register file with every register zero.
    pub fn new() -> (r: Registers)
        ensures
            r.wf(),
            r@ =~= Seq::new(REGISTERS_SIZE as nat, |i: int| 0u32),
    {
        let mut file: Vec<u32> = Vec::new();
        let mut i: usize = 0;
        while i < REGISTERS_SIZE
            invariant
                i <= REGISTERS_SIZE,
                file@.len() == i,
                forall|j: int| 0 <= j < i ==> file@[j] == 0u32,
            decreases REGISTERS_SIZE - i,
        {
            file.push(0);
            i += 1;
        }
        Registers { file }
    }

    /// Reads the register at `idx`. Indexes always come from 5-bit
    /// instruction fields, so they are in range by construction.
    pub fn read(&self, idx: usize) -> (r: u32)
        requires
            self.wf(),
            idx < REGISTERS_SIZE,
        ensures
            r == self@[idx as int],
    {
        self.file[idx]
    }

    /// Writes `value` to the register at `idx`.
    pub fn write(&mut self, idx: usize, value: u32)
        requires
            old(self).wf(),
            idx < REGISTERS_SIZE,
        ensures
            final(self).wf(),
            final(self)@ == old(self)@.update(idx as int, value),
    {
        self.file.set(idx, value);
    }
}

} // verus!
