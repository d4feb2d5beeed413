//! The opcode tables: instruction types, per-type operation codes, operand
//! addressing modes, and the condition-code values that conditional jumps
//! compare against the status register.

use vstd::prelude::*;

verus! {

/// Condition field value for an unconditional instruction.
pub const COND_ALWAYS: u32 = 0;

/// Condition field value that fires when the status register says "equal".
pub const COND_EQ: u32 = 1;

/// Condition field value that fires when the status register says "greater".
pub const COND_GT: u32 = 2;

/// Condition field value that fires when the status register says "less".
pub const COND_LT: u32 = 3;

/// Identifies types of instructions (the `itype` field, bits 5..=6).
#[derive(Copy, Clone, Debug, PartialEq, Eq, Structural)]
pub enum InstructionT {
    ALU,
    Memory,
    Control,
    Graphics,
}

impl InstructionT {
    /// The value of the type field for the represented instruction type.
    pub open spec fn spec_value(self) -> u32 {
        match self {
            InstructionT::Control => 0,
            InstructionT::ALU => 1,
            InstructionT::Memory => 2,
            InstructionT::Graphics => 3,
        }
    }

    /// The instruction type a type-field value denotes, if any.
    pub open spec fn spec_match(val: u32) -> Option<InstructionT> {
        match val {
            0 => Some(InstructionT::Control),
            1 => Some(InstructionT::ALU),
            2 => Some(InstructionT::Memory),
            3 => Some(InstructionT::Graphics),
            _ => None,
        }
    }

    /// Returns the value of the type field for the represented instruction type.
    pub fn value(self) -> (r: u32)
        ensures
            r == self.spec_value(),
    {
        match self {
            InstructionT::Control => 0,
            InstructionT::ALU => 1,
            InstructionT::Memory => 2,
            InstructionT::Graphics => 3,
        }
    }

    /// Matches a value to an instruction type.
    pub fn match_val(val: u32) -> (r: Option<InstructionT>)
        ensures
            r == InstructionT::spec_match(val),
    {
        match val {
            0 => Some(InstructionT::Control),
            1 => Some(InstructionT::ALU),
            2 => Some(InstructionT::Memory),
            3 => Some(InstructionT::Graphics),
            _ => None,
        }
    }
}

/// Identifies the addressing mode of an instruction operand.
#[derive(Copy, Clone, Debug, PartialEq, Eq, Structural)]
pub enum AddrMode {
    /// The operand value comes from the named register.
    RegisterDirect,
    /// The operand value is embedded in the instruction word; for
    /// address-producing instructions it is a signed offset from `PC + 1`.
    Immediate,
}

/// Identifies control operations (3-bit opcode under `InstructionT::Control`).
#[derive(Copy, Clone, Debug, PartialEq, Eq, Structural)]
pub enum ControlOp {
    Halt,
    Jump,
    JumpI,
    JumpS,
    JumpSI,
}

impl ControlOp {
    /// The value of the operation field for the represented operation.
    pub open spec fn spec_value(self) -> u32 {
        match self {
            ControlOp::Halt => 0,
            ControlOp::Jump => 1,
            ControlOp::JumpI => 2,
            ControlOp::JumpS => 3,
            ControlOp::JumpSI => 4,
        }
    }

    /// The control operation an operation-field value denotes, if any.
    pub open spec fn spec_match(val: u32) -> Option<ControlOp> {
        match val {
            0 => Some(ControlOp::Halt),
            1 => Some(ControlOp::Jump),
            2 => Some(ControlOp::JumpI),
            3 => Some(ControlOp::JumpS),
            4 => Some(ControlOp::JumpSI),
            _ => None,
        }
    }

    /// Returns the value of the operation field for the represented operation.
    pub fn value(self) -> (r: u32)
        ensures
            r == self.spec_value(),
    {
        match self {
            ControlOp::Halt => 0,
            ControlOp::Jump => 1,
            ControlOp::JumpI => 2,
            ControlOp::JumpS => 3,
            ControlOp::JumpSI => 4,
        }
    }

    /// Matches a value with a ControlOp.
    pub fn match_val(val: u32) -> (r: Option<ControlOp>)
        ensures
            r == ControlOp::spec_match(val),
    {
        match val {
            0 => Some(ControlOp::Halt),
            1 => Some(ControlOp::Jump),
            2 => Some(ControlOp::JumpI),
            3 => Some(ControlOp::JumpS),
            4 => Some(ControlOp::JumpSI),
            _ => None,
        }
    }
}

/// Identifies arithmetic and logic operations (6-bit opcode under
/// `InstructionT::ALU`). Signed and unsigned variants of addition,
/// subtraction and multiplication share their wrapping two's-complement
/// result and differ only in how an immediate operand is extended.
#[derive(Copy, Clone, Debug, PartialEq, Eq, Structural)]
pub enum ALUOp {
    AddUnsignedRD,
    AddSignedRD,
    AddUnsignedI,
    AddSignedI,
    SubUnsignedRD,
    SubSignedRD,
    SubUnsignedI,
    SubSignedI,
    MulUnsignedRD,
    MulSignedRD,
    MulUnsignedI,
    MulSignedI,
    Move,
    Compare,
    CompareSigned,
    DivUnsignedRD,
    DivSignedRD,
    DivUnsignedI,
    DivSignedI,
    ArithShiftLeftRD,
    ArithShiftLeftI,
    ArithShiftRightRD,
    ArithShiftRightI,
    LogicShiftLeftRD,
    LogicShiftLeftI,
    LogicShiftRightRD,
    LogicShiftRightI,
    AndRD,
    AndI,
    OrRD,
    OrI,
    XorRD,
    XorI,
    Not,
}

impl ALUOp {
    /// The value of the operation field for the represented operation.
    pub open spec fn spec_value(self) -> u32 {
        match self {
            ALUOp::AddUnsignedRD => 0,
            ALUOp::AddSignedRD => 1,
            ALUOp::AddUnsignedI => 2,
            ALUOp::AddSignedI => 3,
            ALUOp::SubUnsignedRD => 4,
            ALUOp::SubSignedRD => 5,
            ALUOp::SubUnsignedI => 6,
            ALUOp::SubSignedI => 7,
            ALUOp::MulUnsignedRD => 8,
            ALUOp::MulSignedRD => 9,
            ALUOp::MulUnsignedI => 10,
            ALUOp::MulSignedI => 11,
            ALUOp::Move => 12,
            ALUOp::Compare => 13,
            ALUOp::CompareSigned => 14,
            ALUOp::DivUnsignedRD => 15,
            ALUOp::DivSignedRD => 16,
            ALUOp::DivUnsignedI => 17,
            ALUOp::DivSignedI => 18,
            ALUOp::ArithShiftLeftRD => 19,
            ALUOp::ArithShiftLeftI => 20,
            ALUOp::ArithShiftRightRD => 21,
            ALUOp::ArithShiftRightI => 22,
            ALUOp::LogicShiftLeftRD => 23,
            ALUOp::LogicShiftLeftI => 24,
            ALUOp::LogicShiftRightRD => 25,
            ALUOp::LogicShiftRightI => 26,
            ALUOp::AndRD => 27,
            ALUOp::AndI => 28,
            ALUOp::OrRD => 29,
            ALUOp::OrI => 30,
            ALUOp::XorRD => 31,
            ALUOp::XorI => 32,
            ALUOp::Not => 33,
        }
    }

    /// The ALU operation an operation-field value denotes, if any.
    pub open spec fn spec_match(val: u32) -> Option<ALUOp> {
        match val {
            0 => Some(ALUOp::AddUnsignedRD),
            1 => Some(ALUOp::AddSignedRD),
            2 => Some(ALUOp::AddUnsignedI),
            3 => Some(ALUOp::AddSignedI),
            4 => Some(ALUOp::SubUnsignedRD),
            5 => Some(ALUOp::SubSignedRD),
            6 => Some(ALUOp::SubUnsignedI),
            7 => Some(ALUOp::SubSignedI),
            8 => Some(ALUOp::MulUnsignedRD),
            9 => Some(ALUOp::MulSignedRD),
            10 => Some(ALUOp::MulUnsignedI),
            11 => Some(ALUOp::MulSignedI),
            12 => Some(ALUOp::Move),
            13 => Some(ALUOp::Compare),
            14 => Some(ALUOp::CompareSigned),
            15 => Some(ALUOp::DivUnsignedRD),
            16 => Some(ALUOp::DivSignedRD),
            17 => Some(ALUOp::DivUnsignedI),
            18 => Some(ALUOp::DivSignedI),
            19 => Some(ALUOp::ArithShiftLeftRD),
            20 => Some(ALUOp::ArithShiftLeftI),
            21 => Some(ALUOp::ArithShiftRightRD),
            22 => Some(ALUOp::ArithShiftRightI),
            23 => Some(ALUOp::LogicShiftLeftRD),
            24 => Some(ALUOp::LogicShiftLeftI),
            25 => Some(ALUOp::LogicShiftRightRD),
            26 => Some(ALUOp::LogicShiftRightI),
            27 => Some(ALUOp::AndRD),
            28 => Some(ALUOp::AndI),
            29 => Some(ALUOp::OrRD),
            30 => Some(ALUOp::OrI),
            31 => Some(ALUOp::XorRD),
            32 => Some(ALUOp::XorI),
            33 => Some(ALUOp::Not),
            _ => None,
        }
    }

    /// Returns the value of the operation field for the represented operation.
    pub fn value(self) -> (r: u32)
        ensures
            r == self.spec_value(),
    {
        match self {
            ALUOp::AddUnsignedRD => 0,
            ALUOp::AddSignedRD => 1,
            ALUOp::AddUnsignedI => 2,
            ALUOp::AddSignedI => 3,
            ALUOp::SubUnsignedRD => 4,
            ALUOp::SubSignedRD => 5,
            ALUOp::SubUnsignedI => 6,
            ALUOp::SubSignedI => 7,
            ALUOp::MulUnsignedRD => 8,
            ALUOp::MulSignedRD => 9,
            ALUOp::MulUnsignedI => 10,
            ALUOp::MulSignedI => 11,
            ALUOp::Move => 12,
            ALUOp::Compare => 13,
            ALUOp::CompareSigned => 14,
            ALUOp::DivUnsignedRD => 15,
            ALUOp::DivSignedRD => 16,
            ALUOp::DivUnsignedI => 17,
            ALUOp::DivSignedI => 18,
            ALUOp::ArithShiftLeftRD => 19,
            ALUOp::ArithShiftLeftI => 20,
            ALUOp::ArithShiftRightRD => 21,
            ALUOp::ArithShiftRightI => 22,
            ALUOp::LogicShiftLeftRD => 23,
            ALUOp::LogicShiftLeftI => 24,
            ALUOp::LogicShiftRightRD => 25,
            ALUOp::LogicShiftRightI => 26,
            ALUOp::AndRD => 27,
            ALUOp::AndI => 28,
            ALUOp::OrRD => 29,
            ALUOp::OrI => 30,
            ALUOp::XorRD => 31,
            ALUOp::XorI => 32,
            ALUOp::Not => 33,
        }
    }

    /// Matches a value with a ALUOp.
    pub fn match_val(val: u32) -> (r: Option<ALUOp>)
        ensures
            r == ALUOp::spec_match(val),
    {
        match val {
            0 => Some(ALUOp::AddUnsignedRD),
            1 => Some(ALUOp::AddSignedRD),
            2 => Some(ALUOp::AddUnsignedI),
            3 => Some(ALUOp::AddSignedI),
            4 => Some(ALUOp::SubUnsignedRD),
            5 => Some(ALUOp::SubSignedRD),
            6 => Some(ALUOp::SubUnsignedI),
            7 => Some(ALUOp::SubSignedI),
            8 => Some(ALUOp::MulUnsignedRD),
            9 => Some(ALUOp::MulSignedRD),
            10 => Some(ALUOp::MulUnsignedI),
            11 => Some(ALUOp::MulSignedI),
            12 => Some(ALUOp::Move),
            13 => Some(ALUOp::Compare),
            14 => Some(ALUOp::CompareSigned),
            15 => Some(ALUOp::DivUnsignedRD),
            16 => Some(ALUOp::DivSignedRD),
            17 => Some(ALUOp::DivUnsignedI),
            18 => Some(ALUOp::DivSignedI),
            19 => Some(ALUOp::ArithShiftLeftRD),
            20 => Some(ALUOp::ArithShiftLeftI),
            21 => Some(ALUOp::ArithShiftRightRD),
            22 => Some(ALUOp::ArithShiftRightI),
            23 => Some(ALUOp::LogicShiftLeftRD),
            24 => Some(ALUOp::LogicShiftLeftI),
            25 => Some(ALUOp::LogicShiftRightRD),
            26 => Some(ALUOp::LogicShiftRightI),
            27 => Some(ALUOp::AndRD),
            28 => Some(ALUOp::AndI),
            29 => Some(ALUOp::OrRD),
            30 => Some(ALUOp::OrI),
            31 => Some(ALUOp::XorRD),
            32 => Some(ALUOp::XorI),
            33 => Some(ALUOp::Not),
            _ => None,
        }
    }
}

/// Identifies memory operations (3-bit opcode under `InstructionT::Memory`).
#[derive(Copy, Clone, Debug, PartialEq, Eq, Structural)]
pub enum MemoryOp {
    LoadRD,
    LoadI,
    StoreRD,
    StoreI,
    Push,
    Pop,
}

impl MemoryOp {
    /// The value of the operation field for the represented operation.
    pub open spec fn spec_value(self) -> u32 {
        match self {
            MemoryOp::LoadRD => 0,
            MemoryOp::LoadI => 1,
            MemoryOp::StoreRD => 2,
            MemoryOp::StoreI => 3,
            MemoryOp::Push => 4,
            MemoryOp::Pop => 5,
        }
    }

    /// The memory operation an operation-field value denotes, if any.
    pub open spec fn spec_match(val: u32) -> Option<MemoryOp> {
        match val {
            0 => Some(MemoryOp::LoadRD),
            1 => Some(MemoryOp::LoadI),
            2 => Some(MemoryOp::StoreRD),
            3 => Some(MemoryOp::StoreI),
            4 => Some(MemoryOp::Push),
            5 => Some(MemoryOp::Pop),
            _ => None,
        }
    }

    /// Returns the value of the operation field for the represented operation.
    pub fn value(self) -> (r: u32)
        ensures
            r == self.spec_value(),
    {
        match self {
            MemoryOp::LoadRD => 0,
            MemoryOp::LoadI => 1,
            MemoryOp::StoreRD => 2,
            MemoryOp::StoreI => 3,
            MemoryOp::Push => 4,
            MemoryOp::Pop => 5,
        }
    }

    /// Matches a value with a MemoryOp.
    pub fn match_val(val: u32) -> (r: Option<MemoryOp>)
        ensures
            r == MemoryOp::spec_match(val),
    {
        match val {
            0 => Some(MemoryOp::LoadRD),
            1 => Some(MemoryOp::LoadI),
            2 => Some(MemoryOp::StoreRD),
            3 => Some(MemoryOp::StoreI),
            4 => Some(MemoryOp::Push),
            5 => Some(MemoryOp::Pop),
            _ => None,
        }
    }
}

} // verus!
