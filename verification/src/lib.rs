//! Cycle-level simulator of the LEG architecture: a small pipelined CPU with
//! a register file, a chain of direct-mapped write-back caches over a sparse
//! backing store, and a five-stage instruction pipeline.

pub mod bits;
pub mod control_unit;
pub mod instructions;
pub mod memory;
pub mod ops;
pub mod registers;
pub mod result;
