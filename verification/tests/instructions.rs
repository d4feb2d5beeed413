use leg_sim::instructions::{Arith, ArithKind, Comp, Instruction, Jump, Load, Noop, Shift, Store, ThreeOpLogic, LogicKind};
use leg_sim::memory::{Memory, DRAM};
use leg_sim::ops::{AddrMode, ALUOp, ControlOp, InstructionT, MemoryOp, COND_ALWAYS, COND_GT, COND_LT};
use leg_sim::registers::{Registers, PC, STS, LR};
use leg_sim::result::{SimError, SimResult};

/// Ensures that the load instruction functions correctly.
#[test]
fn test_load_instruction() {
    let mut regs = Registers::new();

    // Setup registers
    const ADDR_VAL: u32 = 777;
    const DEST_REG_IDX: usize = 20;
    const ADDR_REG_IDX: usize = 6;
    regs.write(ADDR_REG_IDX, ADDR_VAL);

    // Setup memory
    const MEM_DELAY: u16 = 101;
    const MEM_VALUE: u32 = 567;
    let mut dram = DRAM::new(MEM_DELAY);
    let _ = dram.set(ADDR_VAL, MEM_VALUE);
    let mut memory = Memory::Dram(dram);

    // Test decode with register direct: dest in bits 10..=14, address
    // register in bits 15..=19.
    let mut load_instruction = Load::new(AddrMode::RegisterDirect);
    let instruction_rd: u32 = ((DEST_REG_IDX as u32) << 10) | ((ADDR_REG_IDX as u32) << 15);

    assert_eq!(
        load_instruction.decode(instruction_rd, &regs),
        SimResult::Wait(0, ()),
        "register direct, decode() == expected"
    );
    assert_eq!(load_instruction.dest_reg, DEST_REG_IDX, "register direct, .dest_reg == expected");
    assert_eq!(load_instruction.mem_addr, ADDR_VAL, "register direct, .mem_addr == expected");

    // Test decode with immediate: the 17-bit field in bits 15..=31 is a
    // signed offset from one past the program counter.
    let instruction_i: u32 =
        ((DEST_REG_IDX as u32) << 10) | ((ADDR_VAL - (regs.read(PC) + 1)) << 15);

    load_instruction = Load::new(AddrMode::Immediate);

    assert_eq!(
        load_instruction.decode(instruction_i, &regs),
        SimResult::Wait(0, ()),
        "immediate, decode() == expected"
    );
    assert_eq!(load_instruction.dest_reg, DEST_REG_IDX, "immediate, .dest_reg == expected");
    assert_eq!(load_instruction.mem_addr, ADDR_VAL, "immediate, .mem_addr == expected");

    // Test execute
    assert_eq!(load_instruction.execute(), SimResult::Wait(0, ()), "execute() == expected");

    // Test access memory
    assert_eq!(
        load_instruction.access_memory(&mut memory),
        SimResult::Wait(MEM_DELAY as u32, ()),
        "access_memory() == expected"
    );
    assert_eq!(load_instruction.value, MEM_VALUE, ".value == expected");

    // Test write back
    let mut expected_wb_regs = regs.clone();
    expected_wb_regs.write(DEST_REG_IDX, MEM_VALUE);

    assert_eq!(
        load_instruction.write_back(&mut regs),
        SimResult::Wait(0, ()),
        "write_back() == expected"
    );
    assert_eq!(regs, expected_wb_regs, "regs == expected");
}

/// Ensures the store instruction functions properly.
#[test]
fn test_store_instruction() {
    let mut regs = Registers::new();
    let mut store_instruction = Store::new();

    // Pack instruction operands: value register in bits 10..=14, address
    // register in bits 15..=19.
    const SRC_REG_IDX: usize = 5;
    const ADDR_REG_IDX: usize = 8;
    let instruction: u32 = ((SRC_REG_IDX as u32) << 10) | ((ADDR_REG_IDX as u32) << 15);

    // Setup registers
    const DEST_ADDR: u32 = 34567;
    const SRC_VAL: u32 = 346;

    regs.write(SRC_REG_IDX, SRC_VAL);
    regs.write(ADDR_REG_IDX, DEST_ADDR);

    // Test decode
    assert_eq!(store_instruction.decode(instruction, &regs), SimResult::Wait(0, ()),
               "decode() == expected");
    assert_eq!(store_instruction.value, SRC_VAL, ".value == expected");
    assert_eq!(store_instruction.dest_addr, DEST_ADDR, ".dest_addr == expected");

    // Test execute
    assert_eq!(store_instruction.execute(), SimResult::Wait(0, ()), "execute() == expected");

    // Test access memory
    const MEM_DELAY: u16 = 45;
    let dram = DRAM::new(MEM_DELAY);
    let mut memory = Memory::Dram(dram);
    assert_eq!(
        store_instruction.access_memory(&mut memory),
        SimResult::Wait(MEM_DELAY as u32, ())
    );
    assert_eq!(memory.get(DEST_ADDR), SimResult::Wait(MEM_DELAY as u32, SRC_VAL));

    // Test write back
    let expected_wb_regs = regs.clone();

    assert_eq!(store_instruction.write_back(&mut regs), SimResult::Wait(0, ()),
               "write_back == expected");
    assert_eq!(regs, expected_wb_regs, "regs == expected");
}

/// A word for each instruction type and opcode, with 5-bit register
/// operands r1, r2, r3 after the opcode field.
fn alu_word(op: ALUOp, r1: u32, r2: u32, r3: u32) -> u32 {
    (InstructionT::ALU.value() << 5) | (op.value() << 7) | (r1 << 13) | (r2 << 18) | (r3 << 23)
}

fn mem_word(op: MemoryOp, r1: u32, r2: u32) -> u32 {
    (InstructionT::Memory.value() << 5) | (op.value() << 7) | (r1 << 10) | (r2 << 15)
}

fn control_word(op: ControlOp, cond: u32, r1: u32) -> u32 {
    cond | (InstructionT::Control.value() << 5) | (op.value() << 7) | (r1 << 10)
}

#[test]
fn decode_word_finds_each_variant() {
    assert!(matches!(
        Instruction::decode_word(mem_word(MemoryOp::LoadRD, 1, 2)),
        Ok(Instruction::Load(Load { mem_addr_mode: AddrMode::RegisterDirect, .. }))
    ));
    assert!(matches!(
        Instruction::decode_word(mem_word(MemoryOp::LoadI, 1, 2)),
        Ok(Instruction::Load(Load { mem_addr_mode: AddrMode::Immediate, .. }))
    ));
    assert!(matches!(
        Instruction::decode_word(mem_word(MemoryOp::StoreRD, 1, 2)),
        Ok(Instruction::Store(Store { addr_mode: AddrMode::RegisterDirect, .. }))
    ));
    assert!(matches!(
        Instruction::decode_word(alu_word(ALUOp::Move, 1, 2, 0)),
        Ok(Instruction::Move(_))
    ));
    assert!(matches!(
        Instruction::decode_word(alu_word(ALUOp::AddUnsignedI, 1, 2, 3)),
        Ok(Instruction::Arith(Arith { kind: ArithKind::Add, mode: AddrMode::Immediate, signed_imm: false, .. }))
    ));
    assert!(matches!(
        Instruction::decode_word(alu_word(ALUOp::Compare, 1, 2, 0)),
        Ok(Instruction::Comp(Comp { signed: false, .. }))
    ));
    assert!(matches!(
        Instruction::decode_word(alu_word(ALUOp::ArithShiftRightI, 1, 2, 0)),
        Ok(Instruction::Shift(Shift { arithmetic: true, right: true, mode: AddrMode::Immediate, .. }))
    ));
    assert!(matches!(
        Instruction::decode_word(alu_word(ALUOp::XorRD, 1, 2, 3)),
        Ok(Instruction::Logic(ThreeOpLogic { kind: LogicKind::Xor, .. }))
    ));
    assert!(matches!(
        Instruction::decode_word(alu_word(ALUOp::Not, 1, 2, 0)),
        Ok(Instruction::Not(_))
    ));
    assert!(matches!(
        Instruction::decode_word(control_word(ControlOp::Halt, 0, 0)),
        Ok(Instruction::Noop(Noop {}))
    ));
    assert!(matches!(
        Instruction::decode_word(control_word(ControlOp::JumpSI, 0, 0)),
        Ok(Instruction::Jump(Jump { subroutine: true, mode: AddrMode::Immediate, .. }))
    ));
}

#[test]
fn decode_word_rejects_unknown_combinations() {
    // Reserved graphics type.
    let graphics = InstructionT::Graphics.value() << 5;
    assert_eq!(Instruction::decode_word(graphics), Err(SimError::Decode(graphics)));
    // Memory opcodes past the known table.
    let push = mem_word(MemoryOp::Push, 0, 0);
    assert_eq!(Instruction::decode_word(push), Err(SimError::Decode(push)));
    let pop = mem_word(MemoryOp::Pop, 0, 0);
    assert_eq!(Instruction::decode_word(pop), Err(SimError::Decode(pop)));
    // An ALU opcode with no operation behind it.
    let bad_alu = (InstructionT::ALU.value() << 5) | (60 << 7);
    assert_eq!(Instruction::decode_word(bad_alu), Err(SimError::Decode(bad_alu)));
    // A control opcode with no operation behind it.
    let bad_ctl = (InstructionT::Control.value() << 5) | (7 << 7);
    assert_eq!(Instruction::decode_word(bad_ctl), Err(SimError::Decode(bad_ctl)));
}

/// Decodes a word, runs all four stages against the given state, and
/// hands back the register file afterwards.
fn run_through(word: u32, regs: &mut Registers, memory: &mut Memory) {
    let mut inst = Instruction::decode_word(word).expect("should decode");
    assert_eq!(inst.decode(word, regs), SimResult::Wait(0, ()));
    assert_eq!(inst.execute(), SimResult::Wait(0, ()));
    let am = inst.access_memory(memory);
    assert!(matches!(am, SimResult::Wait(_, ())));
    assert_eq!(inst.write_back(regs), SimResult::Wait(0, ()));
}

#[test]
fn arithmetic_wraps_without_overflow_check() {
    let mut memory = Memory::Dram(DRAM::new(0));
    let mut regs = Registers::new();
    regs.write(1, 0xFFFF_FFFF);
    regs.write(2, 2);

    // R3 = R1 + R2 wraps.
    run_through(alu_word(ALUOp::AddUnsignedRD, 3, 1, 2), &mut regs, &mut memory);
    assert_eq!(regs.read(3), 1);

    // R4 = R2 - R1 wraps below zero.
    run_through(alu_word(ALUOp::SubUnsignedRD, 4, 2, 1), &mut regs, &mut memory);
    assert_eq!(regs.read(4), 3);

    // R5 = R1 * R2 wraps.
    run_through(alu_word(ALUOp::MulUnsignedRD, 5, 1, 2), &mut regs, &mut memory);
    assert_eq!(regs.read(5), 0xFFFF_FFFE);
}

#[test]
fn division_signed_and_unsigned() {
    let mut memory = Memory::Dram(DRAM::new(0));
    let mut regs = Registers::new();
    regs.write(1, 0xFFFF_FFFA); // -6 as a signed word
    regs.write(2, 3);

    // Unsigned: a plain quotient of the raw words.
    run_through(alu_word(ALUOp::DivUnsignedRD, 3, 1, 2), &mut regs, &mut memory);
    assert_eq!(regs.read(3), 0xFFFF_FFFA / 3);

    // Signed: -6 / 3 == -2.
    run_through(alu_word(ALUOp::DivSignedRD, 4, 1, 2), &mut regs, &mut memory);
    assert_eq!(regs.read(4), 0xFFFF_FFFE);

    // Signed immediate: -6 / -2 == 3 (immediate 0x1FE sign-extends to -2).
    run_through(alu_word(ALUOp::DivSignedI, 5, 1, 0x1FE), &mut regs, &mut memory);
    assert_eq!(regs.read(5), 3);
}

#[test]
fn division_by_zero_fails_execute() {
    let mut regs = Registers::new();
    let word = alu_word(ALUOp::DivUnsignedRD, 3, 1, 2);
    let mut inst = Instruction::decode_word(word).expect("should decode");
    assert_eq!(inst.decode(word, &regs), SimResult::Wait(0, ()));
    assert_eq!(inst.execute(), SimResult::Fail(SimError::DivideByZero));
}

#[test]
fn shifts_move_and_replicate_bits() {
    let mut memory = Memory::Dram(DRAM::new(0));
    let mut regs = Registers::new();

    // Logical shift left by an immediate amount.
    regs.write(1, 3);
    run_through(alu_word(ALUOp::LogicShiftLeftI, 1, 4, 0), &mut regs, &mut memory);
    assert_eq!(regs.read(1), 48);

    // Logical shift right fills with zeroes.
    regs.write(2, 0x8000_0010);
    run_through(alu_word(ALUOp::LogicShiftRightI, 2, 4, 0), &mut regs, &mut memory);
    assert_eq!(regs.read(2), 0x0800_0001);

    // Arithmetic shift right replicates the sign bit.
    regs.write(3, 0x8000_0000);
    run_through(alu_word(ALUOp::ArithShiftRightI, 3, 4, 0), &mut regs, &mut memory);
    assert_eq!(regs.read(3), 0xF800_0000);

    // A shift by a register amount.
    regs.write(4, 1);
    regs.write(5, 8);
    run_through(alu_word(ALUOp::LogicShiftLeftRD, 4, 5, 0), &mut regs, &mut memory);
    assert_eq!(regs.read(4), 256);

    // The amount is taken modulo the word width: 36 shifts like 4.
    regs.write(6, 1);
    regs.write(7, 36);
    run_through(alu_word(ALUOp::LogicShiftLeftRD, 6, 7, 0), &mut regs, &mut memory);
    assert_eq!(regs.read(6), 16);
}

#[test]
fn three_operand_logic_and_not() {
    let mut memory = Memory::Dram(DRAM::new(0));
    let mut regs = Registers::new();
    regs.write(1, 0b1100);
    regs.write(2, 0b1010);

    run_through(alu_word(ALUOp::AndRD, 3, 1, 2), &mut regs, &mut memory);
    assert_eq!(regs.read(3), 0b1000);
    run_through(alu_word(ALUOp::OrRD, 4, 1, 2), &mut regs, &mut memory);
    assert_eq!(regs.read(4), 0b1110);
    run_through(alu_word(ALUOp::XorRD, 5, 1, 2), &mut regs, &mut memory);
    assert_eq!(regs.read(5), 0b0110);
    run_through(alu_word(ALUOp::AndI, 6, 1, 0b0101), &mut regs, &mut memory);
    assert_eq!(regs.read(6), 0b0100);
    run_through(alu_word(ALUOp::Not, 7, 1, 0), &mut regs, &mut memory);
    assert_eq!(regs.read(7), !0b1100u32);
}

#[test]
fn compare_writes_status_register() {
    let mut memory = Memory::Dram(DRAM::new(0));
    let mut regs = Registers::new();
    regs.write(1, 0xFFFF_FFFF); // -1 signed, huge unsigned
    regs.write(2, 1);

    // Unsigned: 0xFFFF_FFFF > 1.
    run_through(alu_word(ALUOp::Compare, 1, 2, 0), &mut regs, &mut memory);
    assert_eq!(regs.read(STS), 2);

    // Signed: -1 < 1.
    run_through(alu_word(ALUOp::CompareSigned, 1, 2, 0), &mut regs, &mut memory);
    assert_eq!(regs.read(STS), 3);

    // Equal operands.
    run_through(alu_word(ALUOp::Compare, 2, 2, 0), &mut regs, &mut memory);
    assert_eq!(regs.read(STS), 1);
}

#[test]
fn conditional_jumps_follow_status() {
    let mut memory = Memory::Dram(DRAM::new(0));
    let mut regs = Registers::new();
    regs.write(1, 500);
    regs.write(STS, 2); // "greater"

    // A jump whose condition matches the status fires.
    run_through(control_word(ControlOp::Jump, COND_GT, 1), &mut regs, &mut memory);
    assert_eq!(regs.read(PC), 500);

    // A jump whose condition does not match leaves the counter alone.
    regs.write(PC, 7);
    run_through(control_word(ControlOp::Jump, COND_LT, 1), &mut regs, &mut memory);
    assert_eq!(regs.read(PC), 7);

    // An unconditional subroutine jump links the word after itself.
    run_through(control_word(ControlOp::JumpS, COND_ALWAYS, 1), &mut regs, &mut memory);
    assert_eq!(regs.read(PC), 500);
    assert_eq!(regs.read(LR), 8);
}

#[test]
fn immediate_addresses_are_signed_offsets_from_pc_plus_one() {
    let mut regs = Registers::new();
    regs.write(PC, 100);

    // A negative 17-bit offset: -50 two's complement in 17 bits.
    let neg50: u32 = 0x2_0000 - 50;
    let mut load = Load::new(AddrMode::Immediate);
    let word = (7u32 << 10) | (neg50 << 15);
    assert_eq!(load.decode(word, &regs), SimResult::Wait(0, ()));
    assert_eq!(load.dest_reg, 7);
    assert_eq!(load.mem_addr, 51); // 100 + 1 - 50

    // A store to an immediate address takes the same base.
    let store_word = mem_word(MemoryOp::StoreI, 3, 0) | (25 << 15);
    regs.write(3, 9000);
    let mut store = match Instruction::decode_word(store_word) {
        Ok(Instruction::Store(s)) => s,
        other => panic!("expected a store, got {:?}", other),
    };
    assert_eq!(store.decode(store_word, &regs), SimResult::Wait(0, ()));
    assert_eq!(store.value, 9000);
    assert_eq!(store.dest_addr, 126); // 100 + 1 + 25

    // An immediate jump: a signed 22-bit offset from one past the counter.
    let neg3: u32 = 0x40_0000 - 3;
    let jump_word = control_word(ControlOp::JumpI, 0, 0) | (neg3 << 10);
    let mut jump = match Instruction::decode_word(jump_word) {
        Ok(Instruction::Jump(j)) => j,
        other => panic!("expected a jump, got {:?}", other),
    };
    assert_eq!(jump.decode(jump_word, &regs), SimResult::Wait(0, ()));
    assert_eq!(jump.target, 98); // 100 + 1 - 3
    assert_eq!(jump.return_addr, 101);
}

#[test]
fn noop_touches_nothing() {
    let mut memory = Memory::Dram(DRAM::new(0));
    let mut regs = Registers::new();
    regs.write(1, 5);
    let before = regs.clone();
    let mut noop = Noop::new();
    assert_eq!(noop.decode(0xFFFF_FFFF, &regs), SimResult::Wait(0, ()));
    assert_eq!(noop.execute(), SimResult::Wait(0, ()));
    assert_eq!(noop.access_memory(&mut memory), SimResult::Wait(0, ()));
    assert_eq!(noop.write_back(&mut regs), SimResult::Wait(0, ()));
    assert_eq!(regs, before);
}
