use leg_sim::bits::{encode_alu, encode_control, encode_control_imm, encode_mem, encode_mem_imm};
use leg_sim::control_unit::ControlUnit;
use leg_sim::instructions::{Instruction, Load};
use leg_sim::memory::{Memory, DRAM};
use leg_sim::ops::{ALUOp, AddrMode, ControlOp, MemoryOp};

#[test]
fn encoded_words_decode_to_their_variants() {
    assert!(matches!(
        Instruction::decode_word(encode_mem(MemoryOp::LoadRD.value(), 1, 10)),
        Ok(Instruction::Load(Load { mem_addr_mode: AddrMode::RegisterDirect, .. }))
    ));
    assert!(matches!(
        Instruction::decode_word(encode_mem_imm(MemoryOp::StoreI.value(), 3, 99)),
        Ok(Instruction::Store(_))
    ));
    assert!(matches!(
        Instruction::decode_word(encode_alu(ALUOp::Not.value(), 4, 5, 0)),
        Ok(Instruction::Not(_))
    ));
    assert!(matches!(
        Instruction::decode_word(encode_control(0, ControlOp::Jump.value(), 2)),
        Ok(Instruction::Jump(_))
    ));
    assert!(matches!(
        Instruction::decode_word(encode_control_imm(3, ControlOp::JumpI.value(), 7)),
        Ok(Instruction::Jump(_))
    ));
}

/// An encoded program runs: R1 = R2 + R3, stored to the address in R4.
/// The pipeline has no interlock, so two spacing instructions keep the
/// store's decode behind the addition's write-back.
#[test]
fn encoded_program_runs_end_to_end() {
    let spacer = encode_alu(ALUOp::Move.value(), 0, 0, 0);
    let mut dram = DRAM::new(2);
    let _ = dram.set(0, encode_alu(ALUOp::AddUnsignedRD.value(), 1, 2, 3));
    let _ = dram.set(1, spacer);
    let _ = dram.set(2, spacer);
    let _ = dram.set(3, encode_mem(MemoryOp::StoreRD.value(), 1, 4));
    let mut cu = ControlUnit::new(Memory::Dram(dram));
    cu.registers.write(2, 30);
    cu.registers.write(3, 12);
    cu.registers.write(4, 200);

    loop {
        match cu.step() {
            Ok(true) => continue,
            Ok(false) => break,
            Err(e) => panic!("run failed: {:?}", e),
        }
    }
    assert_eq!(cu.registers.read(1), 42);
    assert_eq!(cu.memory.get(200), leg_sim::result::SimResult::Wait(2, 42));
}
