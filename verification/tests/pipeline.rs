use leg_sim::control_unit::ControlUnit;
use leg_sim::memory::{DMCache, DRAM, Memory};
use leg_sim::ops::{ALUOp, InstructionT, MemoryOp};
use leg_sim::ops::ControlOp;
use leg_sim::registers::PC;
use leg_sim::result::SimError;

/// The register-direct load of R1 from the address in R10:
/// memory type, load opcode, destination 1, address register 10.
fn load_r1_from_r10() -> u32 {
    (InstructionT::Memory.value() << 5) | (MemoryOp::LoadRD.value() << 7) | (1 << 10) | (10 << 15)
}

/// End-to-end: one load instruction at address 0, its operand register
/// pointing at address 10 where 43 waits. Five steps shepherd it through
/// all five stages; the sixth finds the pipeline drained.
#[test]
fn end_to_end_single_load() {
    let mut dram = DRAM::new(100);
    let _ = dram.set(0, load_r1_from_r10());
    let _ = dram.set(10, 43);
    let mut cu = ControlUnit::new(Memory::Dram(dram));
    cu.registers.write(10, 10);

    for cycle in 0..5 {
        assert_eq!(cu.step(), Ok(true), "cycle {}", cycle);
    }
    assert_eq!(cu.registers.read(1), 43);
    assert_eq!(cu.step(), Ok(false));
}

/// `step` keeps reporting true until fetch has read the sentinel word 0
/// and every later stage has drained, and reports false exactly then.
#[test]
fn pipeline_drains_after_halt_sentinel() {
    // One register-to-register move, then empty memory.
    let move_word = (InstructionT::ALU.value() << 5) | (ALUOp::Move.value() << 7);
    let mut dram = DRAM::new(1);
    let _ = dram.set(0, move_word);
    let mut cu = ControlUnit::new(Memory::Dram(dram));

    // Fetch, decode, execute, access-memory, write-back: one cycle each.
    for cycle in 0..5 {
        assert_eq!(cu.step(), Ok(true), "cycle {}", cycle);
    }
    assert_eq!(cu.step(), Ok(false));
    // An empty program stops at once.
    let mut idle = ControlUnit::new(Memory::Dram(DRAM::new(1)));
    assert_eq!(idle.step(), Ok(false));
}

/// The same program runs identically behind a cache chain.
#[test]
fn end_to_end_through_cache_chain() {
    let mut dram = DRAM::new(100);
    let _ = dram.set(0, load_r1_from_r10());
    let _ = dram.set(10, 43);
    let chain = Memory::Cache(DMCache::new(1, 16, Memory::Dram(dram)));
    let mut cu = ControlUnit::new(chain);
    cu.registers.write(10, 10);

    for _ in 0..5 {
        assert_eq!(cu.step(), Ok(true));
    }
    assert_eq!(cu.registers.read(1), 43);
    assert_eq!(cu.step(), Ok(false));
}

/// A word whose type and opcode match nothing aborts the cycle as a
/// decode error carrying the word.
#[test]
fn unknown_word_is_a_decode_error() {
    let bad = InstructionT::Graphics.value() << 5;
    let mut dram = DRAM::new(1);
    let _ = dram.set(0, bad);
    let mut cu = ControlUnit::new(Memory::Dram(dram));

    assert_eq!(cu.step(), Ok(true)); // fetch
    assert_eq!(cu.step(), Err(SimError::Decode(bad))); // decode fails
}

/// A division by zero aborts the cycle in the execute stage.
#[test]
fn divide_by_zero_aborts_the_run() {
    // R0 / R0 with every register zero.
    let div = (InstructionT::ALU.value() << 5) | (ALUOp::DivUnsignedRD.value() << 7);
    let mut dram = DRAM::new(1);
    let _ = dram.set(0, div);
    let mut cu = ControlUnit::new(Memory::Dram(dram));

    assert_eq!(cu.step(), Ok(true)); // fetch
    assert_eq!(cu.step(), Ok(true)); // decode
    assert_eq!(cu.step(), Err(SimError::DivideByZero)); // execute fails
}

/// A jump written back on one cycle redirects that same cycle's fetch.
#[test]
fn jump_redirects_the_program_counter() {
    // An unconditional register-direct jump to the address in R2.
    let jump = (InstructionT::Control.value() << 5) | (ControlOp::Jump.value() << 7) | (2 << 10);
    let mut dram = DRAM::new(1);
    let _ = dram.set(0, jump);
    // The jump target holds a move so the run continues a moment.
    let move_word = (InstructionT::ALU.value() << 5) | (ALUOp::Move.value() << 7);
    let _ = dram.set(50, move_word);
    let mut cu = ControlUnit::new(Memory::Dram(dram));
    cu.registers.write(2, 50);

    // Fetch the jump; then walk it to write-back.
    for _ in 0..5 {
        assert_eq!(cu.step(), Ok(true));
    }
    // Write-back set the counter; the same call fetched from the target.
    assert_eq!(cu.registers.read(PC), 51);
    assert!(cu.fetch_instruction.is_some());
}

/// `load_memory` places the image at the head of the chain.
#[test]
fn control_unit_loads_an_image() {
    let mut cu = ControlUnit::new(Memory::Dram(DRAM::new(1)));
    let bytes: Vec<u8> = vec![0x00, 0x05, 0x04, 0x40, 0x00, 0x00, 0x00, 0x07];
    assert_eq!(cu.load_memory(&bytes), Ok(()));
    assert_eq!(cu.memory.get(0), leg_sim::result::SimResult::Wait(1, 0x0005_0440));
    assert_eq!(cu.memory.get(1), leg_sim::result::SimResult::Wait(1, 7));

    let ragged: Vec<u8> = vec![1, 2, 3];
    assert_eq!(cu.load_memory(&ragged), Err(SimError::Load(3)));
}
