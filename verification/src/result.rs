//! The uniform outcome type of every pipeline stage and memory operation:
//! either a failure, or a value paired with the number of simulated cycles
//! that remain before the value is authoritative.

use vstd::prelude::*;

verus! {

/// Outcome of a simulator operation. `D` is the data type, `E` the error type.
///
/// `Wait(cycles, value)` means the operation succeeded and `value` becomes
/// authoritative after `cycles` further simulated cycles; `cycles == 0` means
/// it is ready now. Composing two dependent operations sums their cycle
/// counts; a failure anywhere makes the whole composition fail.
#[derive(Debug, Clone, PartialEq, Eq, Structural)]
pub enum SimResult<D, E> {
    /// The operation failed.
    Fail(E),
    /// The operation succeeded; the value is ready after the given number of
    /// simulated cycles.
    Wait(u32, D),
}

/// The failure taxonomy of the simulator.
#[derive(Debug, Clone, PartialEq, Eq, Structural)]
pub enum SimError {
    /// An instruction word's type or opcode bits match no known variant.
    /// Carries the offending word.
    Decode(u32),
    /// A division instruction met a zero divisor during its execute stage.
    DivideByZero,
    /// A memory `get` or `set` failed at the given address. The levels in
    /// this crate never fail; the kind exists for collaborator-supplied
    /// memory implementations.
    Memory(u32),
    /// A memory image had a length that is not a multiple of four bytes.
    /// Carries the malformed length.
    Load(usize),
}

impl<D, E> SimResult<D, E> {
    /// Returns the `Wait` fields. The caller must know the operation
    /// succeeded; a failed result has no cycle count or value to hand out.
    pub fn unwrap(self) -> (r: (u32, D))
        requires
            self is Wait,
        ensures
            self == SimResult::<D, E>::Wait(r.0, r.1),
    {
        match self {
            SimResult::Wait(c, d) => (c, d),
            SimResult::Fail(_) => unreached(),
        }
    }

    /// True exactly when the operation succeeded and its value is ready now.
    pub fn ready(&self) -> (r: bool)
        ensures
            r == (self matches SimResult::Wait(c, _) && c == 0),
    {
        match self {
            SimResult::Fail(_) => false,
            SimResult::Wait(wait, _) => *wait == 0,
        }
    }
}

} // verus!
