use leg_sim::ops::{ALUOp, AddrMode, ControlOp, InstructionT, MemoryOp};

#[test]
fn instruction_type_values_round_trip() {
    for t in [
        InstructionT::Control,
        InstructionT::ALU,
        InstructionT::Memory,
        InstructionT::Graphics,
    ] {
        assert_eq!(InstructionT::match_val(t.value()), Some(t));
    }
    assert_eq!(InstructionT::Control.value(), 0);
    assert_eq!(InstructionT::ALU.value(), 1);
    assert_eq!(InstructionT::Memory.value(), 2);
    assert_eq!(InstructionT::Graphics.value(), 3);
    assert_eq!(InstructionT::match_val(4), None);
}

#[test]
fn memory_op_values_round_trip() {
    for op in [
        MemoryOp::LoadRD,
        MemoryOp::LoadI,
        MemoryOp::StoreRD,
        MemoryOp::StoreI,
        MemoryOp::Push,
        MemoryOp::Pop,
    ] {
        assert_eq!(MemoryOp::match_val(op.value()), Some(op));
    }
    assert_eq!(MemoryOp::LoadRD.value(), 0);
    assert_eq!(MemoryOp::StoreI.value(), 3);
    assert_eq!(MemoryOp::match_val(6), None);
}

#[test]
fn control_op_values_round_trip() {
    for op in [
        ControlOp::Halt,
        ControlOp::Jump,
        ControlOp::JumpI,
        ControlOp::JumpS,
        ControlOp::JumpSI,
    ] {
        assert_eq!(ControlOp::match_val(op.value()), Some(op));
    }
    assert_eq!(ControlOp::Halt.value(), 0);
    assert_eq!(ControlOp::Jump.value(), 1);
    assert_eq!(ControlOp::match_val(5), None);
}

#[test]
fn alu_op_values_round_trip() {
    let all = [
        ALUOp::AddUnsignedRD,
        ALUOp::AddSignedRD,
        ALUOp::AddUnsignedI,
        ALUOp::AddSignedI,
        ALUOp::SubUnsignedRD,
        ALUOp::SubSignedRD,
        ALUOp::SubUnsignedI,
        ALUOp::SubSignedI,
        ALUOp::MulUnsignedRD,
        ALUOp::MulSignedRD,
        ALUOp::MulUnsignedI,
        ALUOp::MulSignedI,
        ALUOp::Move,
        ALUOp::Compare,
        ALUOp::CompareSigned,
        ALUOp::DivUnsignedRD,
        ALUOp::DivSignedRD,
        ALUOp::DivUnsignedI,
        ALUOp::DivSignedI,
        ALUOp::ArithShiftLeftRD,
        ALUOp::ArithShiftLeftI,
        ALUOp::ArithShiftRightRD,
        ALUOp::ArithShiftRightI,
        ALUOp::LogicShiftLeftRD,
        ALUOp::LogicShiftLeftI,
        ALUOp::LogicShiftRightRD,
        ALUOp::LogicShiftRightI,
        ALUOp::AndRD,
        ALUOp::AndI,
        ALUOp::OrRD,
        ALUOp::OrI,
        ALUOp::XorRD,
        ALUOp::XorI,
        ALUOp::Not,
    ];
    for op in all {
        assert_eq!(ALUOp::match_val(op.value()), Some(op));
    }
    // The values the original table fixes.
    assert_eq!(ALUOp::AddUnsignedI.value(), 2);
    assert_eq!(ALUOp::Move.value(), 12);
    assert_eq!(ALUOp::Compare.value(), 13);
    assert_eq!(ALUOp::match_val(60), None);
}

#[test]
fn addressing_modes_are_distinct() {
    assert_ne!(AddrMode::RegisterDirect, AddrMode::Immediate);
}
