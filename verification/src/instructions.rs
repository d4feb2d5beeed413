//! The instruction set: a closed family of instruction variants, each
//! carrying the operands its decode stage extracted and implementing the
//! four pipeline operations — decode, execute, access-memory, write-back.
//! A single routine maps an instruction word's type and opcode fields to a
//! variant; an unrecognized combination is a decode error.

use vstd::prelude::*;
use vstd::arithmetic::power2::pow2;
use vstd::arithmetic::power2::lemma2_to64;

use crate::bits::{
    spec_itype, spec_opcode3, spec_opcode6, spec_condition, spec_reg_at_10, spec_reg_at_13, spec_reg_at_15, spec_reg_at_18, spec_reg_at_23,
    spec_imm_at_10, spec_imm_at_15, spec_imm_at_18, spec_imm_at_23, spec_sign_extend, to_signed,
    condition, reg_at_10, reg_at_13, reg_at_15, reg_at_18, reg_at_23, imm_at_10, imm_at_15,
    imm_at_18, imm_at_23, sign_extend_9, sign_extend_17, sign_extend_22,
};
use crate::memory::{Memory, MemModel};
use crate::ops::AddrMode;
use crate::registers::{Registers, REGISTERS_SIZE, PC, STS, LR};
use crate::result::{SimResult, SimError};

verus! {

/// The magnitude of the signed value a 32-bit word denotes.
pub open spec fn magnitude(a: u32) -> nat {
    if a < 0x8000_0000 {
        a as nat
    } else {
        (0x1_0000_0000 - a) as nat
    }
}

/// Truncating signed division on 32-bit words, with the single overflow
/// case (the most negative value divided by minus one) wrapping.
pub open spec fn sdiv32(a: u32, b: u32) -> u32
    recommends
        b != 0,
{
    let q = magnitude(a) / magnitude(b);
    if (a < 0x8000_0000) == (b < 0x8000_0000) {
        (q % 0x1_0000_0000) as u32
    } else {
        ((0x1_0000_0000 - q as int) % 0x1_0000_0000) as u32
    }
}

/// Left shift of a 32-bit word by `k` bits, high bits discarded.
pub open spec fn shl32(x: u32, k: nat) -> u32
    recommends
        k < 32,
{
    ((x as nat * pow2(k)) % 0x1_0000_0000) as u32
}

/// Logical right shift of a 32-bit word by `k` bits, zeroes shifted in.
pub open spec fn lsr32(x: u32, k: nat) -> u32
    recommends
        k < 32,
{
    (x as nat / pow2(k)) as u32
}

/// Arithmetic right shift of a 32-bit word by `k` bits: the sign bit is
/// replicated into the vacated high bits.
pub open spec fn asr32(x: u32, k: nat) -> u32
    recommends
        k < 32,
{
    if x < 0x8000_0000 {
        (x as nat / pow2(k)) as u32
    } else {
        (x as nat / pow2(k) + 0x1_0000_0000 - pow2((32 - k) as nat)) as u32
    }
}

/// The status word a comparison produces: 1 when the operands are equal,
/// 2 when the first is greater, 3 when it is less — unsigned or signed
/// per the variant.
pub open spec fn compare_status(signed: bool, op1: u32, op2: u32) -> u32 {
    if op1 == op2 {
        1
    } else if (if signed {
        to_signed(op1) > to_signed(op2)
    } else {
        op1 > op2
    }) {
        2
    } else {
        3
    }
}

/// Whether a condition-code field lets a conditional instruction fire:
/// a zero condition always fires, any other fires exactly when it equals
/// the status register.
pub open spec fn cond_fires(cond: u32, status: u32) -> bool {
    cond == 0 || cond == status
}

/// The address an instruction's PC-relative immediate denotes at decode
/// time: one past the program counter, plus the sign-extended offset,
/// wrapping.
pub open spec fn pc_relative(pc: u32, imm: u32, width: nat) -> u32 {
    pc.wrapping_add(1).wrapping_add(spec_sign_extend(imm, width))
}

/// Two to the `k`-th as a 32-bit word.
fn pow2_u32(k: u32) -> (p: u32)
    requires
        k < 32,
    ensures
        p == pow2(k as nat),
        p >= 1,
{
    proof {
        lemma2_to64();
    }
    let mut p: u32 = 1;
    let mut i: u32 = 0;
    while i < k
        invariant
            i <= k < 32,
            p == pow2(i as nat),
        decreases k - i,
    {
        proof {
            lemma2_to64();
            vstd::arithmetic::power2::lemma_pow2_unfold((i + 1) as nat);
            if i + 1 < 31 {
                vstd::arithmetic::power2::lemma_pow2_strictly_increases((i + 1) as nat, 31);
            }
        }
        p = p * 2;
        i += 1;
    }
    p
}

/// Left shift, computed arithmetically.
fn shl_exec(x: u32, k: u32) -> (r: u32)
    requires
        k < 32,
    ensures
        r == shl32(x, k as nat),
{
    let p = pow2_u32(k);
    proof {
        lemma2_to64();
        vstd::arithmetic::power2::lemma_pow2_strictly_increases(k as nat, 32);
        assert((x as int) * (p as int) < 0x1_0000_0000 * 0x1_0000_0000) by (nonlinear_arith)
            requires
                x < 0x1_0000_0000,
                p < 0x1_0000_0000,
        ;
    }
    let wide = (x as u64) * (p as u64);
    proof {
        assert(wide == x as nat * pow2(k as nat));
    }
    (wide % 0x1_0000_0000) as u32
}

/// Logical right shift, computed arithmetically.
fn lsr_exec(x: u32, k: u32) -> (r: u32)
    requires
        k < 32,
    ensures
        r == lsr32(x, k as nat),
{
    let p = pow2_u32(k);
    x / p
}

/// Arithmetic right shift, computed arithmetically.
fn asr_exec(x: u32, k: u32) -> (r: u32)
    requires
        k < 32,
    ensures
        r == asr32(x, k as nat),
{
    let p = pow2_u32(k);
    if x < 0x8000_0000 {
        x / p
    } else {
        proof {
            lemma2_to64();
            vstd::arithmetic::power2::lemma_pow2_adds(k as nat, (32 - k) as nat);
            assert((pow2((32 - k) as nat) - 1) * pow2(k as nat) == pow2(32) - pow2(k as nat))
                by (nonlinear_arith)
                requires
                    pow2(k as nat) * pow2((32 - k) as nat) == pow2(32),
            ;
            vstd::arithmetic::div_mod::lemma_fundamental_div_mod_converse_div(
                0xFFFF_FFFF,
                pow2(k as nat) as int,
                pow2((32 - k) as nat) - 1,
                pow2(k as nat) - 1,
            );
            assert(0xFFFF_FFFF as int / pow2(k as nat) as int == pow2((32 - k) as nat) - 1);
            vstd::arithmetic::div_mod::lemma_div_is_ordered(
                x as int,
                0xFFFF_FFFF,
                pow2(k as nat) as int,
            );
        }
        let filler = 0xFFFF_FFFFu32 - (0xFFFF_FFFFu32 / p);
        x / p + filler
    }
}

/// Truncating signed division, computed on magnitudes.
fn sdiv_exec(a: u32, b: u32) -> (r: u32)
    requires
        b != 0,
    ensures
        r == sdiv32(a, b),
{
    let ma = if a < 0x8000_0000 {
        a
    } else {
        0u32.wrapping_sub(a)
    };
    let mb = if b < 0x8000_0000 {
        b
    } else {
        0u32.wrapping_sub(b)
    };
    let q = ma / mb;
    if (a < 0x8000_0000) == (b < 0x8000_0000) {
        q
    } else {
        0u32.wrapping_sub(q)
    }
}

/// An instruction which performs no operations.
#[derive(Debug, Clone, PartialEq, Eq, Structural)]
pub struct Noop {
}

impl Noop {
    /// Creates a no-operation instruction.
    pub fn new() -> (r: Noop)
        ensures
            r == (Noop {  }),
    {
        Noop {  }
    }

    /// Nothing to extract.
    pub fn decode(&mut self, _instruction: u32, _registers: &Registers) -> (r: SimResult<
        (),
        SimError,
    >)
        ensures
            *final(self) == *old(self),
            r == SimResult::<(), SimError>::Wait(0u32, ()),
    {
        SimResult::Wait(0, ())
    }

    /// Nothing to compute.
    pub fn execute(&mut self) -> (r: SimResult<(), SimError>)
        ensures
            *final(self) == *old(self),
            r == SimResult::<(), SimError>::Wait(0u32, ()),
    {
        SimResult::Wait(0, ())
    }

    /// Nothing to access.
    pub fn access_memory(&mut self, memory: &mut Memory) -> (r: SimResult<(), SimError>)
        ensures
            *final(self) == *old(self),
            *final(memory) == *old(memory),
            r == SimResult::<(), SimError>::Wait(0u32, ()),
    {
        SimResult::Wait(0, ())
    }

    /// Nothing to commit.
    pub fn write_back(&mut self, registers: &mut Registers) -> (r: SimResult<(), SimError>)
        ensures
            *final(self) == *old(self),
            *final(registers) == *old(registers),
            r == SimResult::<(), SimError>::Wait(0u32, ()),
    {
        SimResult::Wait(0, ())
    }
}

/// Read a value from an address in memory and place it in a register.
#[derive(Debug, Clone, PartialEq, Eq, Structural)]
pub struct Load {
    /// Addressing mode of the memory address operand.
    pub mem_addr_mode: AddrMode,
    /// Register to place the value from memory in.
    pub dest_reg: usize,
    /// Memory address to load into the register.
    pub mem_addr: u32,
    /// Value loaded from memory during access-memory.
    pub value: u32,
}

impl Load {
    /// Register-operand fields stay inside the register file.
    pub open spec fn wf(self) -> bool {
        self.dest_reg < REGISTERS_SIZE
    }

    /// What decoding a word leaves in the instruction: the destination
    /// register from bits 10..=14, and the address — a register's value
    /// directly, or a signed 17-bit offset from one past the program
    /// counter.
    pub open spec fn spec_decode(self, w: u32, regs: Seq<u32>) -> Load {
        Load {
            mem_addr_mode: self.mem_addr_mode,
            dest_reg: spec_reg_at_10(w) as usize,
            mem_addr: if self.mem_addr_mode is RegisterDirect {
                regs[spec_reg_at_15(w) as int]
            } else {
                pc_relative(regs[PC as int], spec_imm_at_15(w), 17)
            },
            value: self.value,
        }
    }

    /// Creates an empty load instruction.
    pub fn new(mem_addr_mode: AddrMode) -> (r: Load)
        ensures
            r == (Load { mem_addr_mode, dest_reg: 0, mem_addr: 0, value: 0 }),
            r.wf(),
    {
        Load { mem_addr_mode, dest_reg: 0, mem_addr: 0, value: 0 }
    }

    /// Extracts the destination register and the memory address.
    pub fn decode(&mut self, instruction: u32, registers: &Registers) -> (r: SimResult<
        (),
        SimError,
    >)
        requires
            registers.wf(),
        ensures
            *final(self) == old(self).spec_decode(instruction, registers@),
            final(self).wf(),
            r == SimResult::<(), SimError>::Wait(0u32, ()),
    {
        self.dest_reg = reg_at_10(instruction) as usize;
        match self.mem_addr_mode {
            AddrMode::RegisterDirect => {
                self.mem_addr = registers.read(reg_at_15(instruction) as usize);
            },
            AddrMode::Immediate => {
                let offset = sign_extend_17(imm_at_15(instruction));
                self.mem_addr = registers.read(PC).wrapping_add(1).wrapping_add(offset);
            },
        }
        SimResult::Wait(0, ())
    }

    /// No execute step.
    pub fn execute(&mut self) -> (r: SimResult<(), SimError>)
        ensures
            *final(self) == *old(self),
            r == SimResult::<(), SimError>::Wait(0u32, ()),
    {
        SimResult::Wait(0, ())
    }

    /// Loads the word at the decoded address into the instruction.
    pub fn access_memory(&mut self, memory: &mut Memory) -> (r: SimResult<(), SimError>)
        requires
            old(memory)@.wf(),
        ensures
            final(memory)@ == old(memory)@.get_m(old(self).mem_addr),
            *final(self) == (Load {
                value: old(memory)@.word_at(old(self).mem_addr),
                ..*old(self)
            }),
            r matches SimResult::Wait(cycles, u) && cycles == old(memory)@.get_cost(
                old(self).mem_addr,
            ),
    {
        let res = memory.get(self.mem_addr);
        let (cycles, val) = res.unwrap();
        self.value = val;
        SimResult::Wait(cycles, ())
    }

    /// Writes the loaded value into the destination register.
    pub fn write_back(&mut self, registers: &mut Registers) -> (r: SimResult<(), SimError>)
        requires
            old(registers).wf(),
            old(self).wf(),
        ensures
            *final(self) == *old(self),
            final(registers).wf(),
            final(registers)@ == old(registers)@.update(old(self).dest_reg as int, old(self).value),
            r == SimResult::<(), SimError>::Wait(0u32, ()),
    {
        registers.write(self.dest_reg, self.value);
        SimResult::Wait(0, ())
    }
}

/// Writes a register's value to an address in memory.
#[derive(Debug, Clone, PartialEq, Eq, Structural)]
pub struct Store {
    /// Addressing mode of the memory address operand.
    pub addr_mode: AddrMode,
    /// Address in memory to save the value at.
    pub dest_addr: u32,
    /// Value to save in memory.
    pub value: u32,
}

impl Store {
    /// What decoding a word leaves in the instruction: the value from the
    /// register in bits 10..=14, and the address — a register's value
    /// directly, or a signed 17-bit offset from one past the program
    /// counter.
    pub open spec fn spec_decode(self, w: u32, regs: Seq<u32>) -> Store {
        Store {
            addr_mode: self.addr_mode,
            value: regs[spec_reg_at_10(w) as int],
            dest_addr: if self.addr_mode is RegisterDirect {
                regs[spec_reg_at_15(w) as int]
            } else {
                pc_relative(regs[PC as int], spec_imm_at_15(w), 17)
            },
        }
    }

    /// Creates an empty register-direct store instruction.
    pub fn new() -> (r: Store)
        ensures
            r == (Store { addr_mode: AddrMode::RegisterDirect, dest_addr: 0, value: 0 }),
    {
        Store { addr_mode: AddrMode::RegisterDirect, dest_addr: 0, value: 0 }
    }

    /// Extracts the value to store and the destination address.
    pub fn decode(&mut self, instruction: u32, registers: &Registers) -> (r: SimResult<
        (),
        SimError,
    >)
        requires
            registers.wf(),
        ensures
            *final(self) == old(self).spec_decode(instruction, registers@),
            r == SimResult::<(), SimError>::Wait(0u32, ()),
    {
        self.value = registers.read(reg_at_10(instruction) as usize);
        match self.addr_mode {
            AddrMode::RegisterDirect => {
                self.dest_addr = registers.read(reg_at_15(instruction) as usize);
            },
            AddrMode::Immediate => {
                let offset = sign_extend_17(imm_at_15(instruction));
                self.dest_addr = registers.read(PC).wrapping_add(1).wrapping_add(offset);
            },
        }
        SimResult::Wait(0, ())
    }

    /// No execution stage.
    pub fn execute(&mut self) -> (r: SimResult<(), SimError>)
        ensures
            *final(self) == *old(self),
            r == SimResult::<(), SimError>::Wait(0u32, ()),
    {
        SimResult::Wait(0, ())
    }

    /// Sets the decoded address in memory to the decoded value.
    pub fn access_memory(&mut self, memory: &mut Memory) -> (r: SimResult<(), SimError>)
        requires
            old(memory)@.wf(),
        ensures
            *final(self) == *old(self),
            final(memory)@ == old(memory)@.set_m(old(self).dest_addr, old(self).value),
            r matches SimResult::Wait(cycles, u) && cycles == old(memory)@.set_cost(
                old(self).dest_addr,
            ),
    {
        let res = memory.set(self.dest_addr, self.value);
        let (cycles, _unit) = res.unwrap();
        SimResult::Wait(cycles, ())
    }

    /// No write-back stage.
    pub fn write_back(&mut self, registers: &mut Registers) -> (r: SimResult<(), SimError>)
        ensures
            *final(self) == *old(self),
            *final(registers) == *old(registers),
            r == SimResult::<(), SimError>::Wait(0u32, ()),
    {
        SimResult::Wait(0, ())
    }
}


/// Copies a source register's value into a destination register.
#[derive(Debug, Clone, PartialEq, Eq, Structural)]
pub struct Move {
    /// Register to place the value in.
    pub dest_reg: usize,
    /// Value read from the source register at decode.
    pub value: u32,
}

impl Move {
    /// Register-operand fields stay inside the register file.
    pub open spec fn wf(self) -> bool {
        self.dest_reg < REGISTERS_SIZE
    }

    /// What decoding a word leaves in the instruction: the destination
    /// register from bits 13..=17 and the source register's value from
    /// bits 18..=22.
    pub open spec fn spec_decode(self, w: u32, regs: Seq<u32>) -> Move {
        Move { dest_reg: spec_reg_at_13(w) as usize, value: regs[spec_reg_at_18(w) as int] }
    }

    /// Creates an empty move instruction.
    pub fn new() -> (r: Move)
        ensures
            r == (Move { dest_reg: 0, value: 0 }),
            r.wf(),
    {
        Move { dest_reg: 0, value: 0 }
    }

    /// Extracts the destination register and the source value.
    pub fn decode(&mut self, instruction: u32, registers: &Registers) -> (r: SimResult<
        (),
        SimError,
    >)
        requires
            registers.wf(),
        ensures
            *final(self) == old(self).spec_decode(instruction, registers@),
            final(self).wf(),
            r == SimResult::<(), SimError>::Wait(0u32, ()),
    {
        self.dest_reg = reg_at_13(instruction) as usize;
        self.value = registers.read(reg_at_18(instruction) as usize);
        SimResult::Wait(0, ())
    }

    /// No execute step.
    pub fn execute(&mut self) -> (r: SimResult<(), SimError>)
        ensures
            *final(self) == *old(self),
            r == SimResult::<(), SimError>::Wait(0u32, ()),
    {
        SimResult::Wait(0, ())
    }

    /// No memory access.
    pub fn access_memory(&mut self, memory: &mut Memory) -> (r: SimResult<(), SimError>)
        ensures
            *final(self) == *old(self),
            *final(memory) == *old(memory),
            r == SimResult::<(), SimError>::Wait(0u32, ()),
    {
        SimResult::Wait(0, ())
    }

    /// Writes the source value into the destination register.
    pub fn write_back(&mut self, registers: &mut Registers) -> (r: SimResult<(), SimError>)
        requires
            old(registers).wf(),
            old(self).wf(),
        ensures
            *final(self) == *old(self),
            final(registers).wf(),
            final(registers)@ == old(registers)@.update(old(self).dest_reg as int, old(self).value),
            r == SimResult::<(), SimError>::Wait(0u32, ()),
    {
        registers.write(self.dest_reg, self.value);
        SimResult::Wait(0, ())
    }
}

/// The four arithmetic operations an ALU instruction can ask for.
#[derive(Copy, Clone, Debug, PartialEq, Eq, Structural)]
pub enum ArithKind {
    /// Wrapping addition; identical for the signed and unsigned variants.
    Add,
    /// Wrapping subtraction; identical for the signed and unsigned variants.
    Sub,
    /// Wrapping multiplication; identical for the signed and unsigned variants.
    Mul,
    /// Unsigned division.
    DivUnsigned,
    /// Truncating signed division.
    DivSigned,
}

/// The wrapped two's-complement result of an arithmetic operation, for a
/// nonzero divisor in the division cases.
pub open spec fn arith_result(kind: ArithKind, op1: u32, op2: u32) -> u32 {
    match kind {
        ArithKind::Add => op1.wrapping_add(op2),
        ArithKind::Sub => op1.wrapping_sub(op2),
        ArithKind::Mul => op1.wrapping_mul(op2),
        ArithKind::DivUnsigned => (op1 as int / op2 as int) as u32,
        ArithKind::DivSigned => sdiv32(op1, op2),
    }
}

/// A three-operand arithmetic instruction: destination register, a first
/// operand register, and a second operand that is a register or an
/// immediate. Addition, subtraction and multiplication wrap with no
/// overflow check; a zero divisor fails the execute stage.
#[derive(Debug, Clone, PartialEq, Eq, Structural)]
pub struct Arith {
    /// Which operation to perform.
    pub kind: ArithKind,
    /// Addressing mode of the second operand.
    pub mode: AddrMode,
    /// Whether an immediate second operand is sign-extended (the signed
    /// opcodes) or zero-extended (the unsigned ones).
    pub signed_imm: bool,
    /// Register to place the result in.
    pub dest_reg: usize,
    /// First operand, read from a register at decode.
    pub op1: u32,
    /// Second operand: a register's value or the extended immediate.
    pub op2: u32,
    /// Result computed during execute.
    pub result: u32,
}

impl Arith {
    /// Register-operand fields stay inside the register file.
    pub open spec fn wf(self) -> bool {
        self.dest_reg < REGISTERS_SIZE
    }

    /// What decoding a word leaves in the instruction: the destination
    /// register from bits 13..=17, the first operand from the register in
    /// bits 18..=22, and the second operand from the register in bits
    /// 23..=27 or the 9-bit immediate in bits 23..=31.
    pub open spec fn spec_decode(self, w: u32, regs: Seq<u32>) -> Arith {
        Arith {
            dest_reg: spec_reg_at_13(w) as usize,
            op1: regs[spec_reg_at_18(w) as int],
            op2: if self.mode is RegisterDirect {
                regs[spec_reg_at_23(w) as int]
            } else if self.signed_imm {
                spec_sign_extend(spec_imm_at_23(w), 9)
            } else {
                spec_imm_at_23(w)
            },
            ..self
        }
    }

    /// What executing does: a zero divisor is a failure; any other input
    /// stores the operation's result.
    pub open spec fn spec_execute(self) -> Result<Arith, SimError> {
        if (self.kind is DivUnsigned || self.kind is DivSigned) && self.op2 == 0 {
            Err(SimError::DivideByZero)
        } else {
            Ok(Arith { result: arith_result(self.kind, self.op1, self.op2), ..self })
        }
    }

    /// Creates an empty arithmetic instruction of the given operation,
    /// mode and immediate signedness.
    pub fn new(kind: ArithKind, mode: AddrMode, signed_imm: bool) -> (r: Arith)
        ensures
            r == (Arith { kind, mode, signed_imm, dest_reg: 0, op1: 0, op2: 0, result: 0 }),
            r.wf(),
    {
        Arith { kind, mode, signed_imm, dest_reg: 0, op1: 0, op2: 0, result: 0 }
    }

    /// Extracts the destination register and both operands.
    pub fn decode(&mut self, instruction: u32, registers: &Registers) -> (r: SimResult<
        (),
        SimError,
    >)
        requires
            registers.wf(),
        ensures
            *final(self) == old(self).spec_decode(instruction, registers@),
            final(self).wf(),
            r == SimResult::<(), SimError>::Wait(0u32, ()),
    {
        self.dest_reg = reg_at_13(instruction) as usize;
        self.op1 = registers.read(reg_at_18(instruction) as usize);
        match self.mode {
            AddrMode::RegisterDirect => {
                self.op2 = registers.read(reg_at_23(instruction) as usize);
            },
            AddrMode::Immediate => {
                let imm = imm_at_23(instruction);
                self.op2 = if self.signed_imm {
                    sign_extend_9(imm)
                } else {
                    imm
                };
            },
        }
        SimResult::Wait(0, ())
    }

    /// Computes the result; a division by zero fails the stage.
    pub fn execute(&mut self) -> (r: SimResult<(), SimError>)
        ensures
            old(self).spec_execute() matches Ok(next) ==> *final(self) == next && r
                == SimResult::<(), SimError>::Wait(0u32, ()),
            old(self).spec_execute() matches Err(e) ==> *final(self) == *old(self) && r
                == SimResult::<(), SimError>::Fail(e),
    {
        let result = match self.kind {
            ArithKind::Add => self.op1.wrapping_add(self.op2),
            ArithKind::Sub => self.op1.wrapping_sub(self.op2),
            ArithKind::Mul => self.op1.wrapping_mul(self.op2),
            ArithKind::DivUnsigned => {
                if self.op2 == 0 {
                    return SimResult::Fail(SimError::DivideByZero);
                }
                self.op1 / self.op2
            },
            ArithKind::DivSigned => {
                if self.op2 == 0 {
                    return SimResult::Fail(SimError::DivideByZero);
                }
                sdiv_exec(self.op1, self.op2)
            },
        };
        self.result = result;
        SimResult::Wait(0, ())
    }

    /// No memory access.
    pub fn access_memory(&mut self, memory: &mut Memory) -> (r: SimResult<(), SimError>)
        ensures
            *final(self) == *old(self),
            *final(memory) == *old(memory),
            r == SimResult::<(), SimError>::Wait(0u32, ()),
    {
        SimResult::Wait(0, ())
    }

    /// Writes the result into the destination register.
    pub fn write_back(&mut self, registers: &mut Registers) -> (r: SimResult<(), SimError>)
        requires
            old(registers).wf(),
            old(self).wf(),
        ensures
            *final(self) == *old(self),
            final(registers).wf(),
            final(registers)@ == old(registers)@.update(
                old(self).dest_reg as int,
                old(self).result,
            ),
            r == SimResult::<(), SimError>::Wait(0u32, ()),
    {
        registers.write(self.dest_reg, self.result);
        SimResult::Wait(0, ())
    }
}

/// Compares two register operands and reports through the status register.
#[derive(Debug, Clone, PartialEq, Eq, Structural)]
pub struct Comp {
    /// Whether the comparison is signed.
    pub signed: bool,
    /// First operand, read from a register at decode.
    pub op1: u32,
    /// Second operand, read from a register at decode.
    pub op2: u32,
}

impl Comp {
    /// What decoding a word leaves in the instruction: the operands from
    /// the registers in bits 13..=17 and 18..=22.
    pub open spec fn spec_decode(self, w: u32, regs: Seq<u32>) -> Comp {
        Comp {
            signed: self.signed,
            op1: regs[spec_reg_at_13(w) as int],
            op2: regs[spec_reg_at_18(w) as int],
        }
    }

    /// Creates an empty comparison instruction.
    pub fn new(signed: bool) -> (r: Comp)
        ensures
            r == (Comp { signed, op1: 0, op2: 0 }),
    {
        Comp { signed, op1: 0, op2: 0 }
    }

    /// Extracts both operands.
    pub fn decode(&mut self, instruction: u32, registers: &Registers) -> (r: SimResult<
        (),
        SimError,
    >)
        requires
            registers.wf(),
        ensures
            *final(self) == old(self).spec_decode(instruction, registers@),
            r == SimResult::<(), SimError>::Wait(0u32, ()),
    {
        self.op1 = registers.read(reg_at_13(instruction) as usize);
        self.op2 = registers.read(reg_at_18(instruction) as usize);
        SimResult::Wait(0, ())
    }

    /// No execute step.
    pub fn execute(&mut self) -> (r: SimResult<(), SimError>)
        ensures
            *final(self) == *old(self),
            r == SimResult::<(), SimError>::Wait(0u32, ()),
    {
        SimResult::Wait(0, ())
    }

    /// No memory access.
    pub fn access_memory(&mut self, memory: &mut Memory) -> (r: SimResult<(), SimError>)
        ensures
            *final(self) == *old(self),
            *final(memory) == *old(memory),
            r == SimResult::<(), SimError>::Wait(0u32, ()),
    {
        SimResult::Wait(0, ())
    }

    /// Writes the comparison outcome to the status register: 1 when the
    /// operands are equal, 2 when the first is greater, 3 when it is less.
    pub fn write_back(&mut self, registers: &mut Registers) -> (r: SimResult<(), SimError>)
        requires
            old(registers).wf(),
        ensures
            *final(self) == *old(self),
            final(registers).wf(),
            final(registers)@ == old(registers)@.update(
                STS as int,
                compare_status(old(self).signed, old(self).op1, old(self).op2),
            ),
            r == SimResult::<(), SimError>::Wait(0u32, ()),
    {
        let status: u32 = if self.op1 == self.op2 {
            1
        } else {
            let gt = if self.signed {
                if (self.op1 < 0x8000_0000) == (self.op2 < 0x8000_0000) {
                    self.op1 > self.op2
                } else {
                    self.op1 < 0x8000_0000
                }
            } else {
                self.op1 > self.op2
            };
            if gt {
                2
            } else {
                3
            }
        };
        registers.write(STS, status);
        SimResult::Wait(0, ())
    }
}

/// Shifts a register's value in place: arithmetic or logical, left or
/// right, by a register or immediate amount. The amount is taken modulo
/// the word width.
#[derive(Debug, Clone, PartialEq, Eq, Structural)]
pub struct Shift {
    /// Whether a right shift replicates the sign bit. Left shifts are the
    /// same arithmetic or logical.
    pub arithmetic: bool,
    /// Whether the shift moves right; else left.
    pub right: bool,
    /// Addressing mode of the amount operand.
    pub mode: AddrMode,
    /// Register shifted, which is also the destination.
    pub dest_reg: usize,
    /// The value to shift, read from the destination register at decode.
    pub operand: u32,
    /// The shift amount.
    pub amount: u32,
    /// Result computed during execute.
    pub result: u32,
}

/// The shifted value: left shifts discard high bits, logical right shifts
/// fill with zeroes, arithmetic right shifts replicate the sign bit.
pub open spec fn shift_result(arithmetic: bool, right: bool, operand: u32, amount: u32) -> u32 {
    let k = (amount % 32) as nat;
    if !right {
        shl32(operand, k)
    } else if arithmetic {
        asr32(operand, k)
    } else {
        lsr32(operand, k)
    }
}

impl Shift {
    /// Register-operand fields stay inside the register file.
    pub open spec fn wf(self) -> bool {
        self.dest_reg < REGISTERS_SIZE
    }

    /// What decoding a word leaves in the instruction: the shifted (and
    /// destination) register from bits 13..=17, its current value, and
    /// the amount from the register in bits 18..=22 or the immediate in
    /// bits 18..=31.
    pub open spec fn spec_decode(self, w: u32, regs: Seq<u32>) -> Shift {
        Shift {
            dest_reg: spec_reg_at_13(w) as usize,
            operand: regs[spec_reg_at_13(w) as int],
            amount: if self.mode is RegisterDirect {
                regs[spec_reg_at_18(w) as int]
            } else {
                spec_imm_at_18(w)
            },
            ..self
        }
    }

    /// Creates an empty shift instruction.
    pub fn new(arithmetic: bool, right: bool, mode: AddrMode) -> (r: Shift)
        ensures
            r == (Shift {
                arithmetic,
                right,
                mode,
                dest_reg: 0,
                operand: 0,
                amount: 0,
                result: 0,
            }),
            r.wf(),
    {
        Shift { arithmetic, right, mode, dest_reg: 0, operand: 0, amount: 0, result: 0 }
    }

    /// Extracts the shifted register, its value and the amount.
    pub fn decode(&mut self, instruction: u32, registers: &Registers) -> (r: SimResult<
        (),
        SimError,
    >)
        requires
            registers.wf(),
        ensures
            *final(self) == old(self).spec_decode(instruction, registers@),
            final(self).wf(),
            r == SimResult::<(), SimError>::Wait(0u32, ()),
    {
        self.dest_reg = reg_at_13(instruction) as usize;
        self.operand = registers.read(self.dest_reg);
        match self.mode {
            AddrMode::RegisterDirect => {
                self.amount = registers.read(reg_at_18(instruction) as usize);
            },
            AddrMode::Immediate => {
                self.amount = imm_at_18(instruction);
            },
        }
        SimResult::Wait(0, ())
    }

    /// Computes the shifted value.
    pub fn execute(&mut self) -> (r: SimResult<(), SimError>)
        ensures
            *final(self) == (Shift {
                result: shift_result(
                    old(self).arithmetic,
                    old(self).right,
                    old(self).operand,
                    old(self).amount,
                ),
                ..*old(self)
            }),
            r == SimResult::<(), SimError>::Wait(0u32, ()),
    {
        let k = self.amount % 32;
        self.result = if !self.right {
            shl_exec(self.operand, k)
        } else if self.arithmetic {
            asr_exec(self.operand, k)
        } else {
            lsr_exec(self.operand, k)
        };
        SimResult::Wait(0, ())
    }

    /// No memory access.
    pub fn access_memory(&mut self, memory: &mut Memory) -> (r: SimResult<(), SimError>)
        ensures
            *final(self) == *old(self),
            *final(memory) == *old(memory),
            r == SimResult::<(), SimError>::Wait(0u32, ()),
    {
        SimResult::Wait(0, ())
    }

    /// Writes the shifted value back to the register it came from.
    pub fn write_back(&mut self, registers: &mut Registers) -> (r: SimResult<(), SimError>)
        requires
            old(registers).wf(),
            old(self).wf(),
        ensures
            *final(self) == *old(self),
            final(registers).wf(),
            final(registers)@ == old(registers)@.update(
                old(self).dest_reg as int,
                old(self).result,
            ),
            r == SimResult::<(), SimError>::Wait(0u32, ()),
    {
        registers.write(self.dest_reg, self.result);
        SimResult::Wait(0, ())
    }
}

/// The three bitwise combinations a logic instruction can ask for.
#[derive(Copy, Clone, Debug, PartialEq, Eq, Structural)]
pub enum LogicKind {
    And,
    Or,
    Xor,
}

/// The bitwise combination of two words.
pub open spec fn logic_result(kind: LogicKind, op1: u32, op2: u32) -> u32 {
    match kind {
        LogicKind::And => op1 & op2,
        LogicKind::Or => op1 | op2,
        LogicKind::Xor => op1 ^ op2,
    }
}

/// A three-operand bitwise instruction: and, or, or exclusive-or of a
/// register with a register or immediate, into a destination register.
#[derive(Debug, Clone, PartialEq, Eq, Structural)]
pub struct ThreeOpLogic {
    /// Which combination to perform.
    pub kind: LogicKind,
    /// Addressing mode of the second operand.
    pub mode: AddrMode,
    /// Register to place the result in.
    pub dest_reg: usize,
    /// First operand, read from a register at decode.
    pub op1: u32,
    /// Second operand: a register's value or the zero-extended immediate.
    pub op2: u32,
    /// Result computed during execute.
    pub result: u32,
}

impl ThreeOpLogic {
    /// Register-operand fields stay inside the register file.
    pub open spec fn wf(self) -> bool {
        self.dest_reg < REGISTERS_SIZE
    }

    /// What decoding a word leaves in the instruction: the destination
    /// register from bits 13..=17, the first operand from the register in
    /// bits 18..=22, and the second from the register in bits 23..=27 or
    /// the immediate in bits 23..=31.
    pub open spec fn spec_decode(self, w: u32, regs: Seq<u32>) -> ThreeOpLogic {
        ThreeOpLogic {
            dest_reg: spec_reg_at_13(w) as usize,
            op1: regs[spec_reg_at_18(w) as int],
            op2: if self.mode is RegisterDirect {
                regs[spec_reg_at_23(w) as int]
            } else {
                spec_imm_at_23(w)
            },
            ..self
        }
    }

    /// Creates an empty logic instruction.
    pub fn new(kind: LogicKind, mode: AddrMode) -> (r: ThreeOpLogic)
        ensures
            r == (ThreeOpLogic { kind, mode, dest_reg: 0, op1: 0, op2: 0, result: 0 }),
            r.wf(),
    {
        ThreeOpLogic { kind, mode, dest_reg: 0, op1: 0, op2: 0, result: 0 }
    }

    /// Extracts the destination register and both operands.
    pub fn decode(&mut self, instruction: u32, registers: &Registers) -> (r: SimResult<
        (),
        SimError,
    >)
        requires
            registers.wf(),
        ensures
            *final(self) == old(self).spec_decode(instruction, registers@),
            final(self).wf(),
            r == SimResult::<(), SimError>::Wait(0u32, ()),
    {
        self.dest_reg = reg_at_13(instruction) as usize;
        self.op1 = registers.read(reg_at_18(instruction) as usize);
        match self.mode {
            AddrMode::RegisterDirect => {
                self.op2 = registers.read(reg_at_23(instruction) as usize);
            },
            AddrMode::Immediate => {
                self.op2 = imm_at_23(instruction);
            },
        }
        SimResult::Wait(0, ())
    }

    /// Computes the bitwise combination.
    pub fn execute(&mut self) -> (r: SimResult<(), SimError>)
        ensures
            *final(self) == (ThreeOpLogic {
                result: logic_result(old(self).kind, old(self).op1, old(self).op2),
                ..*old(self)
            }),
            r == SimResult::<(), SimError>::Wait(0u32, ()),
    {
        self.result = match self.kind {
            LogicKind::And => self.op1 & self.op2,
            LogicKind::Or => self.op1 | self.op2,
            LogicKind::Xor => self.op1 ^ self.op2,
        };
        SimResult::Wait(0, ())
    }

    /// No memory access.
    pub fn access_memory(&mut self, memory: &mut Memory) -> (r: SimResult<(), SimError>)
        ensures
            *final(self) == *old(self),
            *final(memory) == *old(memory),
            r == SimResult::<(), SimError>::Wait(0u32, ()),
    {
        SimResult::Wait(0, ())
    }

    /// Writes the result into the destination register.
    pub fn write_back(&mut self, registers: &mut Registers) -> (r: SimResult<(), SimError>)
        requires
            old(registers).wf(),
            old(self).wf(),
        ensures
            *final(self) == *old(self),
            final(registers).wf(),
            final(registers)@ == old(registers)@.update(
                old(self).dest_reg as int,
                old(self).result,
            ),
            r == SimResult::<(), SimError>::Wait(0u32, ()),
    {
        registers.write(self.dest_reg, self.result);
        SimResult::Wait(0, ())
    }
}

/// Bitwise complement of a register operand, into a destination register.
#[derive(Debug, Clone, PartialEq, Eq, Structural)]
pub struct Not {
    /// Register to place the result in.
    pub dest_reg: usize,
    /// Operand, read from a register at decode.
    pub operand: u32,
}

impl Not {
    /// Register-operand fields stay inside the register file.
    pub open spec fn wf(self) -> bool {
        self.dest_reg < REGISTERS_SIZE
    }

    /// What decoding a word leaves in the instruction: the destination
    /// register from bits 13..=17 and the operand from the register in
    /// bits 18..=22.
    pub open spec fn spec_decode(self, w: u32, regs: Seq<u32>) -> Not {
        Not { dest_reg: spec_reg_at_13(w) as usize, operand: regs[spec_reg_at_18(w) as int] }
    }

    /// Creates an empty complement instruction.
    pub fn new() -> (r: Not)
        ensures
            r == (Not { dest_reg: 0, operand: 0 }),
            r.wf(),
    {
        Not { dest_reg: 0, operand: 0 }
    }

    /// Extracts the destination register and the operand.
    pub fn decode(&mut self, instruction: u32, registers: &Registers) -> (r: SimResult<
        (),
        SimError,
    >)
        requires
            registers.wf(),
        ensures
            *final(self) == old(self).spec_decode(instruction, registers@),
            final(self).wf(),
            r == SimResult::<(), SimError>::Wait(0u32, ()),
    {
        self.dest_reg = reg_at_13(instruction) as usize;
        self.operand = registers.read(reg_at_18(instruction) as usize);
        SimResult::Wait(0, ())
    }

    /// No execute step.
    pub fn execute(&mut self) -> (r: SimResult<(), SimError>)
        ensures
            *final(self) == *old(self),
            r == SimResult::<(), SimError>::Wait(0u32, ()),
    {
        SimResult::Wait(0, ())
    }

    /// No memory access.
    pub fn access_memory(&mut self, memory: &mut Memory) -> (r: SimResult<(), SimError>)
        ensures
            *final(self) == *old(self),
            *final(memory) == *old(memory),
            r == SimResult::<(), SimError>::Wait(0u32, ()),
    {
        SimResult::Wait(0, ())
    }

    /// Writes the bitwise complement of the operand into the destination
    /// register.
    pub fn write_back(&mut self, registers: &mut Registers) -> (r: SimResult<(), SimError>)
        requires
            old(registers).wf(),
            old(self).wf(),
        ensures
            *final(self) == *old(self),
            final(registers).wf(),
            final(registers)@ == old(registers)@.update(
                old(self).dest_reg as int,
                !old(self).operand,
            ),
            r == SimResult::<(), SimError>::Wait(0u32, ()),
    {
        registers.write(self.dest_reg, !self.operand);
        SimResult::Wait(0, ())
    }
}

/// A conditional jump, plain or subroutine: when its condition code
/// matches the status register it overwrites the program counter, and a
/// subroutine jump also records the return address in the link register.
#[derive(Debug, Clone, PartialEq, Eq, Structural)]
pub struct Jump {
    /// Whether the link register receives the return address.
    pub subroutine: bool,
    /// Addressing mode of the target operand.
    pub mode: AddrMode,
    /// Condition-code field; zero fires unconditionally.
    pub condition: u32,
    /// Target address: a register's value, or a signed 22-bit offset from
    /// one past the program counter.
    pub target: u32,
    /// The address of the word after the jump, kept for the link register.
    pub return_addr: u32,
}

impl Jump {
    /// What decoding a word leaves in the instruction: the condition from
    /// bits 0..=4, the target from the register in bits 10..=14 or the
    /// 22-bit immediate in bits 10..=31, and one past the program counter
    /// as the return address.
    pub open spec fn spec_decode(self, w: u32, regs: Seq<u32>) -> Jump {
        Jump {
            subroutine: self.subroutine,
            mode: self.mode,
            condition: spec_condition(w),
            target: if self.mode is RegisterDirect {
                regs[spec_reg_at_10(w) as int]
            } else {
                pc_relative(regs[PC as int], spec_imm_at_10(w), 22)
            },
            return_addr: regs[PC as int].wrapping_add(1),
        }
    }

    /// What writing back does to the register file: nothing unless the
    /// condition fires; then the program counter takes the target, and a
    /// subroutine jump links the return address.
    pub open spec fn spec_wb(self, regs: Seq<u32>) -> Seq<u32> {
        if cond_fires(self.condition, regs[STS as int]) {
            if self.subroutine {
                regs.update(PC as int, self.target).update(LR as int, self.return_addr)
            } else {
                regs.update(PC as int, self.target)
            }
        } else {
            regs
        }
    }

    /// Creates an empty jump instruction.
    pub fn new(subroutine: bool, mode: AddrMode) -> (r: Jump)
        ensures
            r == (Jump { subroutine, mode, condition: 0, target: 0, return_addr: 0 }),
    {
        Jump { subroutine, mode, condition: 0, target: 0, return_addr: 0 }
    }

    /// Extracts the condition, the target and the return address.
    pub fn decode(&mut self, instruction: u32, registers: &Registers) -> (r: SimResult<
        (),
        SimError,
    >)
        requires
            registers.wf(),
        ensures
            *final(self) == old(self).spec_decode(instruction, registers@),
            r == SimResult::<(), SimError>::Wait(0u32, ()),
    {
        self.condition = condition(instruction);
        match self.mode {
            AddrMode::RegisterDirect => {
                self.target = registers.read(reg_at_10(instruction) as usize);
            },
            AddrMode::Immediate => {
                let offset = sign_extend_22(imm_at_10(instruction));
                self.target = registers.read(PC).wrapping_add(1).wrapping_add(offset);
            },
        }
        self.return_addr = registers.read(PC).wrapping_add(1);
        SimResult::Wait(0, ())
    }

    /// No execute step.
    pub fn execute(&mut self) -> (r: SimResult<(), SimError>)
        ensures
            *final(self) == *old(self),
            r == SimResult::<(), SimError>::Wait(0u32, ()),
    {
        SimResult::Wait(0, ())
    }

    /// No memory access.
    pub fn access_memory(&mut self, memory: &mut Memory) -> (r: SimResult<(), SimError>)
        ensures
            *final(self) == *old(self),
            *final(memory) == *old(memory),
            r == SimResult::<(), SimError>::Wait(0u32, ()),
    {
        SimResult::Wait(0, ())
    }

    /// When the condition matches the status register, sets the program
    /// counter to the target; a subroutine jump also links the return
    /// address.
    pub fn write_back(&mut self, registers: &mut Registers) -> (r: SimResult<(), SimError>)
        requires
            old(registers).wf(),
        ensures
            *final(self) == *old(self),
            final(registers).wf(),
            final(registers)@ == old(self).spec_wb(old(registers)@),
            r == SimResult::<(), SimError>::Wait(0u32, ()),
    {
        let status = registers.read(STS);
        if self.condition == 0 || self.condition == status {
            registers.write(PC, self.target);
            if self.subroutine {
                registers.write(LR, self.return_addr);
            }
        }
        SimResult::Wait(0, ())
    }
}


/// One instruction in flight: the closed union of every variant, each
/// holding the operands its decode extracted. Present in at most one
/// pipeline stage at a time.
#[derive(Debug, Clone, PartialEq, Eq, Structural)]
pub enum Instruction {
    Noop(Noop),
    Load(Load),
    Store(Store),
    Move(Move),
    Arith(Arith),
    Comp(Comp),
    Shift(Shift),
    Logic(ThreeOpLogic),
    Not(Not),
    Jump(Jump),
}

impl Instruction {
    /// Register-operand fields of every variant stay inside the register
    /// file.
    pub open spec fn wf(self) -> bool {
        match self {
            Instruction::Noop(_) => true,
            Instruction::Load(i) => i.wf(),
            Instruction::Store(_) => true,
            Instruction::Move(i) => i.wf(),
            Instruction::Arith(i) => i.wf(),
            Instruction::Comp(_) => true,
            Instruction::Shift(i) => i.wf(),
            Instruction::Logic(i) => i.wf(),
            Instruction::Not(i) => i.wf(),
            Instruction::Jump(_) => true,
        }
    }

    /// What decoding a word leaves in the instruction, per variant.
    pub open spec fn spec_decode(self, w: u32, regs: Seq<u32>) -> Instruction {
        match self {
            Instruction::Noop(i) => Instruction::Noop(i),
            Instruction::Load(i) => Instruction::Load(i.spec_decode(w, regs)),
            Instruction::Store(i) => Instruction::Store(i.spec_decode(w, regs)),
            Instruction::Move(i) => Instruction::Move(i.spec_decode(w, regs)),
            Instruction::Arith(i) => Instruction::Arith(i.spec_decode(w, regs)),
            Instruction::Comp(i) => Instruction::Comp(i.spec_decode(w, regs)),
            Instruction::Shift(i) => Instruction::Shift(i.spec_decode(w, regs)),
            Instruction::Logic(i) => Instruction::Logic(i.spec_decode(w, regs)),
            Instruction::Not(i) => Instruction::Not(i.spec_decode(w, regs)),
            Instruction::Jump(i) => Instruction::Jump(i.spec_decode(w, regs)),
        }
    }

    /// What executing does, per variant: only arithmetic can fail (on a
    /// zero divisor), and only arithmetic and shifts compute anything.
    pub open spec fn spec_execute(self) -> Result<Instruction, SimError> {
        match self {
            Instruction::Arith(i) => match i.spec_execute() {
                Ok(next) => Ok(Instruction::Arith(next)),
                Err(e) => Err(e),
            },
            Instruction::Shift(i) => Ok(
                Instruction::Shift(
                    Shift {
                        result: shift_result(i.arithmetic, i.right, i.operand, i.amount),
                        ..i
                    },
                ),
            ),
            Instruction::Logic(i) => Ok(
                Instruction::Logic(
                    ThreeOpLogic { result: logic_result(i.kind, i.op1, i.op2), ..i },
                ),
            ),
            _ => Ok(self),
        }
    }

    /// What the access-memory stage does, per variant: the instruction
    /// afterwards, the memory afterwards, and the cycles charged. Only a
    /// load reads memory and only a store writes it.
    pub open spec fn spec_access(self, m: MemModel) -> (Instruction, MemModel, int) {
        match self {
            Instruction::Load(i) => (
                Instruction::Load(Load { value: m.word_at(i.mem_addr), ..i }),
                m.get_m(i.mem_addr),
                m.get_cost(i.mem_addr),
            ),
            Instruction::Store(i) => (self, m.set_m(i.dest_addr, i.value), m.set_cost(i.dest_addr)),
            _ => (self, m, 0),
        }
    }

    /// What the write-back stage commits to the register file, per the
    /// variant table: loads, moves, arithmetic, shifts, logic and
    /// complements write their destination register; a comparison writes
    /// the status register; a firing jump writes the program counter and
    /// possibly the link register; stores and no-ops write nothing.
    pub open spec fn spec_wb(self, regs: Seq<u32>) -> Seq<u32> {
        match self {
            Instruction::Noop(_) => regs,
            Instruction::Load(i) => regs.update(i.dest_reg as int, i.value),
            Instruction::Store(_) => regs,
            Instruction::Move(i) => regs.update(i.dest_reg as int, i.value),
            Instruction::Arith(i) => regs.update(i.dest_reg as int, i.result),
            Instruction::Comp(i) => regs.update(
                STS as int,
                compare_status(i.signed, i.op1, i.op2),
            ),
            Instruction::Shift(i) => regs.update(i.dest_reg as int, i.result),
            Instruction::Logic(i) => regs.update(i.dest_reg as int, i.result),
            Instruction::Not(i) => regs.update(i.dest_reg as int, !i.operand),
            Instruction::Jump(i) => i.spec_wb(regs),
        }
    }

    /// Extracts the variant's operands from the word and register file.
    pub fn decode(&mut self, instruction: u32, registers: &Registers) -> (r: SimResult<
        (),
        SimError,
    >)
        requires
            registers.wf(),
        ensures
            *final(self) == old(self).spec_decode(instruction, registers@),
            old(self).wf() ==> final(self).wf(),
            r == SimResult::<(), SimError>::Wait(0u32, ()),
    {
        match self {
            Instruction::Noop(i) => i.decode(instruction, registers),
            Instruction::Load(i) => i.decode(instruction, registers),
            Instruction::Store(i) => i.decode(instruction, registers),
            Instruction::Move(i) => i.decode(instruction, registers),
            Instruction::Arith(i) => i.decode(instruction, registers),
            Instruction::Comp(i) => i.decode(instruction, registers),
            Instruction::Shift(i) => i.decode(instruction, registers),
            Instruction::Logic(i) => i.decode(instruction, registers),
            Instruction::Not(i) => i.decode(instruction, registers),
            Instruction::Jump(i) => i.decode(instruction, registers),
        }
    }

    /// Performs the variant's pure computation, if it has one. A division
    /// by zero fails the stage and leaves the instruction unchanged.
    pub fn execute(&mut self) -> (r: SimResult<(), SimError>)
        ensures
            *final(self) == (match old(self).spec_execute() {
                Ok(next) => next,
                Err(_) => *old(self),
            }),
            r == (match old(self).spec_execute() {
                Ok(_) => SimResult::<(), SimError>::Wait(0u32, ()),
                Err(e) => SimResult::<(), SimError>::Fail(e),
            }),
    {
        match self {
            Instruction::Noop(i) => i.execute(),
            Instruction::Load(i) => i.execute(),
            Instruction::Store(i) => i.execute(),
            Instruction::Move(i) => i.execute(),
            Instruction::Arith(i) => i.execute(),
            Instruction::Comp(i) => i.execute(),
            Instruction::Shift(i) => i.execute(),
            Instruction::Logic(i) => i.execute(),
            Instruction::Not(i) => i.execute(),
            Instruction::Jump(i) => i.execute(),
        }
    }

    /// Performs the variant's single memory operation, if it has one, and
    /// charges its cycles.
    pub fn access_memory(&mut self, memory: &mut Memory) -> (r: SimResult<(), SimError>)
        requires
            old(memory)@.wf(),
        ensures
            ({
                let (next, mem2, cycles) = old(self).spec_access(old(memory)@);
                &&& *final(self) == next
                &&& final(memory)@ == mem2
                &&& r matches SimResult::Wait(c, u) && c == cycles
            }),
    {
        match self {
            Instruction::Noop(i) => i.access_memory(memory),
            Instruction::Load(i) => i.access_memory(memory),
            Instruction::Store(i) => i.access_memory(memory),
            Instruction::Move(i) => i.access_memory(memory),
            Instruction::Arith(i) => i.access_memory(memory),
            Instruction::Comp(i) => i.access_memory(memory),
            Instruction::Shift(i) => i.access_memory(memory),
            Instruction::Logic(i) => i.access_memory(memory),
            Instruction::Not(i) => i.access_memory(memory),
            Instruction::Jump(i) => i.access_memory(memory),
        }
    }

    /// Commits the variant's results to the register file.
    pub fn write_back(&mut self, registers: &mut Registers) -> (r: SimResult<(), SimError>)
        requires
            old(registers).wf(),
            old(self).wf(),
        ensures
            *final(self) == *old(self),
            final(registers).wf(),
            final(registers)@ == old(self).spec_wb(old(registers)@),
            r == SimResult::<(), SimError>::Wait(0u32, ()),
    {
        match self {
            Instruction::Noop(i) => i.write_back(registers),
            Instruction::Load(i) => i.write_back(registers),
            Instruction::Store(i) => i.write_back(registers),
            Instruction::Move(i) => i.write_back(registers),
            Instruction::Arith(i) => i.write_back(registers),
            Instruction::Comp(i) => i.write_back(registers),
            Instruction::Shift(i) => i.write_back(registers),
            Instruction::Logic(i) => i.write_back(registers),
            Instruction::Not(i) => i.write_back(registers),
            Instruction::Jump(i) => i.write_back(registers),
        }
    }
}

/// The variant a word's type and opcode fields denote, fresh and empty,
/// or a decode error carrying the word when no variant matches. This is
/// the whole opcode table in one place.
pub open spec fn spec_decode_word(w: u32) -> Result<Instruction, SimError> {
    match crate::ops::InstructionT::spec_match(spec_itype(w)) {
        Some(crate::ops::InstructionT::Memory) => match crate::ops::MemoryOp::spec_match(
            spec_opcode3(w),
        ) {
            Some(crate::ops::MemoryOp::LoadRD) => Ok(
                Instruction::Load(
                    Load {
                        mem_addr_mode: AddrMode::RegisterDirect,
                        dest_reg: 0,
                        mem_addr: 0,
                        value: 0,
                    },
                ),
            ),
            Some(crate::ops::MemoryOp::LoadI) => Ok(
                Instruction::Load(
                    Load { mem_addr_mode: AddrMode::Immediate, dest_reg: 0, mem_addr: 0, value: 0 },
                ),
            ),
            Some(crate::ops::MemoryOp::StoreRD) => Ok(
                Instruction::Store(
                    Store { addr_mode: AddrMode::RegisterDirect, dest_addr: 0, value: 0 },
                ),
            ),
            Some(crate::ops::MemoryOp::StoreI) => Ok(
                Instruction::Store(
                    Store { addr_mode: AddrMode::Immediate, dest_addr: 0, value: 0 },
                ),
            ),
            _ => Err(SimError::Decode(w)),
        },
        Some(crate::ops::InstructionT::ALU) => match crate::ops::ALUOp::spec_match(
            spec_opcode6(w),
        ) {
            Some(op) => spec_alu_instruction(op),
            None => Err(SimError::Decode(w)),
        },
        Some(crate::ops::InstructionT::Control) => match crate::ops::ControlOp::spec_match(
            spec_opcode3(w),
        ) {
            Some(crate::ops::ControlOp::Halt) => Ok(Instruction::Noop(Noop {  })),
            Some(crate::ops::ControlOp::Jump) => Ok(
                Instruction::Jump(
                    Jump {
                        subroutine: false,
                        mode: AddrMode::RegisterDirect,
                        condition: 0,
                        target: 0,
                        return_addr: 0,
                    },
                ),
            ),
            Some(crate::ops::ControlOp::JumpI) => Ok(
                Instruction::Jump(
                    Jump {
                        subroutine: false,
                        mode: AddrMode::Immediate,
                        condition: 0,
                        target: 0,
                        return_addr: 0,
                    },
                ),
            ),
            Some(crate::ops::ControlOp::JumpS) => Ok(
                Instruction::Jump(
                    Jump {
                        subroutine: true,
                        mode: AddrMode::RegisterDirect,
                        condition: 0,
                        target: 0,
                        return_addr: 0,
                    },
                ),
            ),
            Some(crate::ops::ControlOp::JumpSI) => Ok(
                Instruction::Jump(
                    Jump {
                        subroutine: true,
                        mode: AddrMode::Immediate,
                        condition: 0,
                        target: 0,
                        return_addr: 0,
                    },
                ),
            ),
            None => Err(SimError::Decode(w)),
        },
        _ => Err(SimError::Decode(w)),
    }
}

/// The fresh instruction an ALU opcode denotes.
pub open spec fn spec_alu_instruction(op: crate::ops::ALUOp) -> Result<Instruction, SimError> {
    match op {
        crate::ops::ALUOp::AddUnsignedRD => Ok(
            Instruction::Arith(arith_empty(ArithKind::Add, AddrMode::RegisterDirect, false)),
        ),
        crate::ops::ALUOp::AddSignedRD => Ok(
            Instruction::Arith(arith_empty(ArithKind::Add, AddrMode::RegisterDirect, true)),
        ),
        crate::ops::ALUOp::AddUnsignedI => Ok(
            Instruction::Arith(arith_empty(ArithKind::Add, AddrMode::Immediate, false)),
        ),
        crate::ops::ALUOp::AddSignedI => Ok(
            Instruction::Arith(arith_empty(ArithKind::Add, AddrMode::Immediate, true)),
        ),
        crate::ops::ALUOp::SubUnsignedRD => Ok(
            Instruction::Arith(arith_empty(ArithKind::Sub, AddrMode::RegisterDirect, false)),
        ),
        crate::ops::ALUOp::SubSignedRD => Ok(
            Instruction::Arith(arith_empty(ArithKind::Sub, AddrMode::RegisterDirect, true)),
        ),
        crate::ops::ALUOp::SubUnsignedI => Ok(
            Instruction::Arith(arith_empty(ArithKind::Sub, AddrMode::Immediate, false)),
        ),
        crate::ops::ALUOp::SubSignedI => Ok(
            Instruction::Arith(arith_empty(ArithKind::Sub, AddrMode::Immediate, true)),
        ),
        crate::ops::ALUOp::MulUnsignedRD => Ok(
            Instruction::Arith(arith_empty(ArithKind::Mul, AddrMode::RegisterDirect, false)),
        ),
        crate::ops::ALUOp::MulSignedRD => Ok(
            Instruction::Arith(arith_empty(ArithKind::Mul, AddrMode::RegisterDirect, true)),
        ),
        crate::ops::ALUOp::MulUnsignedI => Ok(
            Instruction::Arith(arith_empty(ArithKind::Mul, AddrMode::Immediate, false)),
        ),
        crate::ops::ALUOp::MulSignedI => Ok(
            Instruction::Arith(arith_empty(ArithKind::Mul, AddrMode::Immediate, true)),
        ),
        crate::ops::ALUOp::Move => Ok(Instruction::Move(Move { dest_reg: 0, value: 0 })),
        crate::ops::ALUOp::Compare => Ok(
            Instruction::Comp(Comp { signed: false, op1: 0, op2: 0 }),
        ),
        crate::ops::ALUOp::CompareSigned => Ok(
            Instruction::Comp(Comp { signed: true, op1: 0, op2: 0 }),
        ),
        crate::ops::ALUOp::DivUnsignedRD => Ok(
            Instruction::Arith(
                arith_empty(ArithKind::DivUnsigned, AddrMode::RegisterDirect, false),
            ),
        ),
        crate::ops::ALUOp::DivSignedRD => Ok(
            Instruction::Arith(arith_empty(ArithKind::DivSigned, AddrMode::RegisterDirect, true)),
        ),
        crate::ops::ALUOp::DivUnsignedI => Ok(
            Instruction::Arith(arith_empty(ArithKind::DivUnsigned, AddrMode::Immediate, false)),
        ),
        crate::ops::ALUOp::DivSignedI => Ok(
            Instruction::Arith(arith_empty(ArithKind::DivSigned, AddrMode::Immediate, true)),
        ),
        crate::ops::ALUOp::ArithShiftLeftRD => Ok(
            Instruction::Shift(shift_empty(true, false, AddrMode::RegisterDirect)),
        ),
        crate::ops::ALUOp::ArithShiftLeftI => Ok(
            Instruction::Shift(shift_empty(true, false, AddrMode::Immediate)),
        ),
        crate::ops::ALUOp::ArithShiftRightRD => Ok(
            Instruction::Shift(shift_empty(true, true, AddrMode::RegisterDirect)),
        ),
        crate::ops::ALUOp::ArithShiftRightI => Ok(
            Instruction::Shift(shift_empty(true, true, AddrMode::Immediate)),
        ),
        crate::ops::ALUOp::LogicShiftLeftRD => Ok(
            Instruction::Shift(shift_empty(false, false, AddrMode::RegisterDirect)),
        ),
        crate::ops::ALUOp::LogicShiftLeftI => Ok(
            Instruction::Shift(shift_empty(false, false, AddrMode::Immediate)),
        ),
        crate::ops::ALUOp::LogicShiftRightRD => Ok(
            Instruction::Shift(shift_empty(false, true, AddrMode::RegisterDirect)),
        ),
        crate::ops::ALUOp::LogicShiftRightI => Ok(
            Instruction::Shift(shift_empty(false, true, AddrMode::Immediate)),
        ),
        crate::ops::ALUOp::AndRD => Ok(
            Instruction::Logic(logic_empty(LogicKind::And, AddrMode::RegisterDirect)),
        ),
        crate::ops::ALUOp::AndI => Ok(
            Instruction::Logic(logic_empty(LogicKind::And, AddrMode::Immediate)),
        ),
        crate::ops::ALUOp::OrRD => Ok(
            Instruction::Logic(logic_empty(LogicKind::Or, AddrMode::RegisterDirect)),
        ),
        crate::ops::ALUOp::OrI => Ok(
            Instruction::Logic(logic_empty(LogicKind::Or, AddrMode::Immediate)),
        ),
        crate::ops::ALUOp::XorRD => Ok(
            Instruction::Logic(logic_empty(LogicKind::Xor, AddrMode::RegisterDirect)),
        ),
        crate::ops::ALUOp::XorI => Ok(
            Instruction::Logic(logic_empty(LogicKind::Xor, AddrMode::Immediate)),
        ),
        crate::ops::ALUOp::Not => Ok(Instruction::Not(Not { dest_reg: 0, operand: 0 })),
    }
}

/// An empty arithmetic instruction, for the opcode table.
pub open spec fn arith_empty(kind: ArithKind, mode: AddrMode, signed_imm: bool) -> Arith {
    Arith { kind, mode, signed_imm, dest_reg: 0, op1: 0, op2: 0, result: 0 }
}

/// An empty shift instruction, for the opcode table.
pub open spec fn shift_empty(arithmetic: bool, right: bool, mode: AddrMode) -> Shift {
    Shift { arithmetic, right, mode, dest_reg: 0, operand: 0, amount: 0, result: 0 }
}

/// An empty logic instruction, for the opcode table.
pub open spec fn logic_empty(kind: LogicKind, mode: AddrMode) -> ThreeOpLogic {
    ThreeOpLogic { kind, mode, dest_reg: 0, op1: 0, op2: 0, result: 0 }
}

impl Instruction {
    /// Determines the instruction variant an encoded word denotes from its
    /// type and opcode fields, and constructs it, empty. A combination the
    /// table does not know is a decode error carrying the word.
    pub fn decode_word(w: u32) -> (r: Result<Instruction, SimError>)
        ensures
            r == spec_decode_word(w),
            r matches Ok(i) ==> i.wf(),
    {
        let it = crate::ops::InstructionT::match_val(crate::bits::itype(w));
        match it {
            Some(crate::ops::InstructionT::Memory) => {
                match crate::ops::MemoryOp::match_val(crate::bits::opcode3(w)) {
                    Some(crate::ops::MemoryOp::LoadRD) => Ok(
                        Instruction::Load(Load::new(AddrMode::RegisterDirect)),
                    ),
                    Some(crate::ops::MemoryOp::LoadI) => Ok(
                        Instruction::Load(Load::new(AddrMode::Immediate)),
                    ),
                    Some(crate::ops::MemoryOp::StoreRD) => Ok(Instruction::Store(Store::new())),
                    Some(crate::ops::MemoryOp::StoreI) => Ok(
                        Instruction::Store(
                            Store { addr_mode: AddrMode::Immediate, dest_addr: 0, value: 0 },
                        ),
                    ),
                    _ => Err(SimError::Decode(w)),
                }
            },
            Some(crate::ops::InstructionT::ALU) => {
                match crate::ops::ALUOp::match_val(crate::bits::opcode6(w)) {
                    Some(op) => Instruction::alu_instruction(op),
                    None => Err(SimError::Decode(w)),
                }
            },
            Some(crate::ops::InstructionT::Control) => {
                match crate::ops::ControlOp::match_val(crate::bits::opcode3(w)) {
                    Some(crate::ops::ControlOp::Halt) => Ok(Instruction::Noop(Noop::new())),
                    Some(crate::ops::ControlOp::Jump) => Ok(
                        Instruction::Jump(Jump::new(false, AddrMode::RegisterDirect)),
                    ),
                    Some(crate::ops::ControlOp::JumpI) => Ok(
                        Instruction::Jump(Jump::new(false, AddrMode::Immediate)),
                    ),
                    Some(crate::ops::ControlOp::JumpS) => Ok(
                        Instruction::Jump(Jump::new(true, AddrMode::RegisterDirect)),
                    ),
                    Some(crate::ops::ControlOp::JumpSI) => Ok(
                        Instruction::Jump(Jump::new(true, AddrMode::Immediate)),
                    ),
                    None => Err(SimError::Decode(w)),
                }
            },
            _ => Err(SimError::Decode(w)),
        }
    }

    /// Constructs the empty instruction an ALU opcode denotes.
    fn alu_instruction(op: crate::ops::ALUOp) -> (r: Result<Instruction, SimError>)
        ensures
            r == spec_alu_instruction(op),
            r matches Ok(i) ==> i.wf(),
    {
        match op {
            crate::ops::ALUOp::AddUnsignedRD => Ok(
                Instruction::Arith(Arith::new(ArithKind::Add, AddrMode::RegisterDirect, false)),
            ),
            crate::ops::ALUOp::AddSignedRD => Ok(
                Instruction::Arith(Arith::new(ArithKind::Add, AddrMode::RegisterDirect, true)),
            ),
            crate::ops::ALUOp::AddUnsignedI => Ok(
                Instruction::Arith(Arith::new(ArithKind::Add, AddrMode::Immediate, false)),
            ),
            crate::ops::ALUOp::AddSignedI => Ok(
                Instruction::Arith(Arith::new(ArithKind::Add, AddrMode::Immediate, true)),
            ),
            crate::ops::ALUOp::SubUnsignedRD => Ok(
                Instruction::Arith(Arith::new(ArithKind::Sub, AddrMode::RegisterDirect, false)),
            ),
            crate::ops::ALUOp::SubSignedRD => Ok(
                Instruction::Arith(Arith::new(ArithKind::Sub, AddrMode::RegisterDirect, true)),
            ),
            crate::ops::ALUOp::SubUnsignedI => Ok(
                Instruction::Arith(Arith::new(ArithKind::Sub, AddrMode::Immediate, false)),
            ),
            crate::ops::ALUOp::SubSignedI => Ok(
                Instruction::Arith(Arith::new(ArithKind::Sub, AddrMode::Immediate, true)),
            ),
            crate::ops::ALUOp::MulUnsignedRD => Ok(
                Instruction::Arith(Arith::new(ArithKind::Mul, AddrMode::RegisterDirect, false)),
            ),
            crate::ops::ALUOp::MulSignedRD => Ok(
                Instruction::Arith(Arith::new(ArithKind::Mul, AddrMode::RegisterDirect, true)),
            ),
            crate::ops::ALUOp::MulUnsignedI => Ok(
                Instruction::Arith(Arith::new(ArithKind::Mul, AddrMode::Immediate, false)),
            ),
            crate::ops::ALUOp::MulSignedI => Ok(
                Instruction::Arith(Arith::new(ArithKind::Mul, AddrMode::Immediate, true)),
            ),
            crate::ops::ALUOp::Move => Ok(Instruction::Move(Move::new())),
            crate::ops::ALUOp::Compare => Ok(Instruction::Comp(Comp::new(false))),
            crate::ops::ALUOp::CompareSigned => Ok(Instruction::Comp(Comp::new(true))),
            crate::ops::ALUOp::DivUnsignedRD => Ok(
                Instruction::Arith(
                    Arith::new(ArithKind::DivUnsigned, AddrMode::RegisterDirect, false),
                ),
            ),
            crate::ops::ALUOp::DivSignedRD => Ok(
                Instruction::Arith(
                    Arith::new(ArithKind::DivSigned, AddrMode::RegisterDirect, true),
                ),
            ),
            crate::ops::ALUOp::DivUnsignedI => Ok(
                Instruction::Arith(Arith::new(ArithKind::DivUnsigned, AddrMode::Immediate, false)),
            ),
            crate::ops::ALUOp::DivSignedI => Ok(
                Instruction::Arith(Arith::new(ArithKind::DivSigned, AddrMode::Immediate, true)),
            ),
            crate::ops::ALUOp::ArithShiftLeftRD => Ok(
                Instruction::Shift(Shift::new(true, false, AddrMode::RegisterDirect)),
            ),
            crate::ops::ALUOp::ArithShiftLeftI => Ok(
                Instruction::Shift(Shift::new(true, false, AddrMode::Immediate)),
            ),
            crate::ops::ALUOp::ArithShiftRightRD => Ok(
                Instruction::Shift(Shift::new(true, true, AddrMode::RegisterDirect)),
            ),
            crate::ops::ALUOp::ArithShiftRightI => Ok(
                Instruction::Shift(Shift::new(true, true, AddrMode::Immediate)),
            ),
            crate::ops::ALUOp::LogicShiftLeftRD => Ok(
                Instruction::Shift(Shift::new(false, false, AddrMode::RegisterDirect)),
            ),
            crate::ops::ALUOp::LogicShiftLeftI => Ok(
                Instruction::Shift(Shift::new(false, false, AddrMode::Immediate)),
            ),
            crate::ops::ALUOp::LogicShiftRightRD => Ok(
                Instruction::Shift(Shift::new(false, true, AddrMode::RegisterDirect)),
            ),
            crate::ops::ALUOp::LogicShiftRightI => Ok(
                Instruction::Shift(Shift::new(false, true, AddrMode::Immediate)),
            ),
            crate::ops::ALUOp::AndRD => Ok(
                Instruction::Logic(ThreeOpLogic::new(LogicKind::And, AddrMode::RegisterDirect)),
            ),
            crate::ops::ALUOp::AndI => Ok(
                Instruction::Logic(ThreeOpLogic::new(LogicKind::And, AddrMode::Immediate)),
            ),
            crate::ops::ALUOp::OrRD => Ok(
                Instruction::Logic(ThreeOpLogic::new(LogicKind::Or, AddrMode::RegisterDirect)),
            ),
            crate::ops::ALUOp::OrI => Ok(
                Instruction::Logic(ThreeOpLogic::new(LogicKind::Or, AddrMode::Immediate)),
            ),
            crate::ops::ALUOp::XorRD => Ok(
                Instruction::Logic(ThreeOpLogic::new(LogicKind::Xor, AddrMode::RegisterDirect)),
            ),
            crate::ops::ALUOp::XorI => Ok(
                Instruction::Logic(ThreeOpLogic::new(LogicKind::Xor, AddrMode::Immediate)),
            ),
            crate::ops::ALUOp::Not => Ok(Instruction::Not(Not::new())),
        }
    }
}

} // verus!
