//! The control unit: owner of the register file and of the head of the
//! memory chain, it drives the five pipeline stages once per simulated
//! cycle and reports whether the program is still running.

use vstd::prelude::*;

use crate::instructions::{spec_decode_word, Instruction};
use crate::memory::{word_be, MemModel, Memory};
use crate::registers::{Registers, PC, REGISTERS_SIZE};
use crate::result::{SimError, SimResult};

verus! {

/// The ghost state of the control unit: the cycle counter, the register
/// file, the memory chain, and the five pipeline slots. Each slot holds
/// the instruction that has just finished the stage of that name (for the
/// fetch slot, the raw word), or nothing.
pub struct CUModel {
    /// Cycles accumulated so far.
    pub cycle_count: u64,
    /// The register file.
    pub regs: Seq<u32>,
    /// The memory chain.
    pub mem: MemModel,
    /// The word fetch read, if it was not the halt sentinel.
    pub fetch: Option<u32>,
    /// The instruction that finished decode.
    pub decode: Option<Instruction>,
    /// The instruction that finished execute.
    pub execute: Option<Instruction>,
    /// The instruction that finished access-memory.
    pub access_mem: Option<Instruction>,
    /// The instruction that finished write-back.
    pub write_back: Option<Instruction>,
}

/// Saturating addition into a 64-bit cycle counter.
pub open spec fn sat_add64(a: u64, b: int) -> u64 {
    if a + b > u64::MAX {
        u64::MAX
    } else {
        (a + b) as u64
    }
}

/// What the write-back stage does to the register file.
pub open spec fn wb_step(slot: Option<Instruction>, regs: Seq<u32>) -> Seq<u32> {
    match slot {
        None => regs,
        Some(i) => i.spec_wb(regs),
    }
}

/// What the access-memory stage does: the slot afterwards, the memory
/// afterwards, and the cycles charged.
pub open spec fn am_step(slot: Option<Instruction>, mem: MemModel) -> (
    Option<Instruction>,
    MemModel,
    int,
) {
    match slot {
        None => (None, mem, 0),
        Some(i) => {
            let (i2, mem2, cycles) = i.spec_access(mem);
            (Some(i2), mem2, cycles)
        },
    }
}

/// What the execute stage does: the slot afterwards, or the stage failure.
pub open spec fn ex_step(slot: Option<Instruction>) -> Result<Option<Instruction>, SimError> {
    match slot {
        None => Ok(None),
        Some(i) => match i.spec_execute() {
            Ok(i2) => Ok(Some(i2)),
            Err(e) => Err(e),
        },
    }
}

/// What the decode stage does with the fetched word, reading the register
/// file as the write-back stage left it: the decoded instruction, or the
/// decode failure.
pub open spec fn de_step(fetched: Option<u32>, regs: Seq<u32>) -> Result<
    Option<Instruction>,
    SimError,
> {
    match fetched {
        None => Ok(None),
        Some(w) => match spec_decode_word(w) {
            Ok(i) => Ok(Some(i.spec_decode(w, regs))),
            Err(e) => Err(e),
        },
    }
}

/// One cycle of the pipeline, latest stage first, so a stage never
/// consumes what was produced in the same call: write-back, access
/// memory, execute, decode, fetch, then the unconditional program-counter
/// increment. A failing stage aborts the cycle; stages already completed
/// stay applied. The fetch of the sentinel word 0 leaves the fetch slot
/// empty, and the call reports whether any slot still holds an
/// instruction.
pub open spec fn spec_step(s: CUModel) -> (CUModel, Result<bool, SimError>) {
    let regs1 = wb_step(s.access_mem, s.regs);
    let wb2 = s.access_mem;
    let (am2, mem1, c_am) = am_step(s.execute, s.mem);
    let cc1 = sat_add64(s.cycle_count, c_am);
    match ex_step(s.decode) {
        Err(e) => (
            CUModel {
                cycle_count: cc1,
                regs: regs1,
                mem: mem1,
                fetch: s.fetch,
                decode: s.decode,
                execute: None,
                access_mem: am2,
                write_back: wb2,
            },
            Err(e),
        ),
        Ok(ex2) => match de_step(s.fetch, regs1) {
            Err(e) => (
                CUModel {
                    cycle_count: cc1,
                    regs: regs1,
                    mem: mem1,
                    fetch: s.fetch,
                    decode: None,
                    execute: ex2,
                    access_mem: am2,
                    write_back: wb2,
                },
                Err(e),
            ),
            Ok(de2) => {
                let pc = regs1[PC as int];
                let word = mem1.word_at(pc);
                let cc2 = sat_add64(cc1, mem1.get_cost(pc));
                let fetch2 = if word == 0 {
                    None
                } else {
                    Some(word)
                };
                let regs2 = regs1.update(PC as int, pc.wrapping_add(1));
                let running = fetch2 is Some || de2 is Some || ex2 is Some || am2 is Some
                    || wb2 is Some;
                (
                    CUModel {
                        cycle_count: cc2,
                        regs: regs2,
                        mem: mem1.get_m(pc),
                        fetch: fetch2,
                        decode: de2,
                        execute: ex2,
                        access_mem: am2,
                        write_back: wb2,
                    },
                    Ok(running),
                )
            },
        },
    }
}

/// The access-memory stage keeps the memory well formed and of the same
/// shape, and keeps the instruction's operand fields in range.
pub proof fn lemma_am_step_wf(slot: Option<Instruction>, mem: MemModel)
    requires
        mem.wf(),
    ensures
        ({
            let (slot2, mem2, cycles) = am_step(slot, mem);
            &&& mem2.wf()
            &&& mem2.cdepth() == mem.cdepth()
            &&& 0 <= cycles
            &&& (match (slot, slot2) {
                (Some(i), Some(i2)) => i.wf() ==> i2.wf(),
                (None, None) => true,
                _ => false,
            })
        }),
{
    match slot {
        None => {},
        Some(i) => match i {
            Instruction::Load(l) => {
                crate::memory::lemma_get_m_props(mem, l.mem_addr);
                crate::memory::lemma_cost_bounds(mem, l.mem_addr);
            },
            Instruction::Store(st) => {
                crate::memory::lemma_set_m_props(mem, st.dest_addr, st.value);
                crate::memory::lemma_cost_bounds(mem, st.dest_addr);
            },
            _ => {},
        },
    }
}

/// Law: a step that completes reports that the program is still running
/// exactly when some pipeline slot still holds an instruction afterwards;
/// it reports termination exactly on the cycle after fetch has read the
/// halt sentinel and every later stage has drained.
pub proof fn lemma_step_reports_drained(s: CUModel)
    ensures
        ({
            let (s2, r) = spec_step(s);
            r matches Ok(running) ==> (running <==> (s2.fetch is Some || s2.decode is Some
                || s2.execute is Some || s2.access_mem is Some || s2.write_back is Some))
        }),
{
}

/// Responsible for running instructions: one `step` call per simulated
/// cycle.
#[derive(Debug)]
pub struct ControlUnit {
    /// Processor cycle counter. Latencies reported by the stages are
    /// accumulated here for reporting; they do not block a stage from
    /// advancing.
    pub cycle_count: u64,
    /// Holds computation registers.
    pub registers: Registers,
    /// The head of the memory chain.
    pub memory: Memory,
    /// The word that resulted from the fetch stage of the pipeline.
    pub fetch_instruction: Option<u32>,
    /// Instruction that finished the decode stage of the pipeline.
    pub decode_instruction: Option<Instruction>,
    /// Instruction that finished the execute stage of the pipeline.
    pub execute_instruction: Option<Instruction>,
    /// Instruction that finished the access-memory stage of the pipeline.
    pub access_mem_instruction: Option<Instruction>,
    /// Instruction that finished the write-back stage of the pipeline.
    pub write_back_instruction: Option<Instruction>,
}

impl View for ControlUnit {
    type V = CUModel;

    open spec fn view(&self) -> CUModel {
        CUModel {
            cycle_count: self.cycle_count,
            regs: self.registers@,
            mem: self.memory@,
            fetch: self.fetch_instruction,
            decode: self.decode_instruction,
            execute: self.execute_instruction,
            access_mem: self.access_mem_instruction,
            write_back: self.write_back_instruction,
        }
    }
}

/// A well-formed control-unit state: a full register file, a well-formed
/// memory chain, and in-range operand fields in every slot.
pub open spec fn cu_wf(s: CUModel) -> bool {
    &&& s.regs.len() == REGISTERS_SIZE
    &&& s.mem.wf()
    &&& (s.decode matches Some(i) ==> i.wf())
    &&& (s.execute matches Some(i) ==> i.wf())
    &&& (s.access_mem matches Some(i) ==> i.wf())
    &&& (s.write_back matches Some(i) ==> i.wf())
}

impl ControlUnit {
    /// A well-formed control unit.
    pub open spec fn wf(&self) -> bool {
        cu_wf(self@)
    }

    /// Creates a control unit over the given memory chain, with zeroed
    /// registers, an empty pipeline and a zero cycle counter.
    pub fn new(memory: Memory) -> (r: ControlUnit)
        requires
            memory@.wf(),
        ensures
            r.wf(),
            r@.cycle_count == 0,
            r@.regs =~= Seq::new(REGISTERS_SIZE as nat, |i: int| 0u32),
            r@.mem == memory@,
            r@.fetch is None,
            r@.decode is None,
            r@.execute is None,
            r@.access_mem is None,
            r@.write_back is None,
    {
        ControlUnit {
            cycle_count: 0,
            registers: Registers::new(),
            memory,
            fetch_instruction: None,
            decode_instruction: None,
            execute_instruction: None,
            access_mem_instruction: None,
            write_back_instruction: None,
        }
    }

    /// Loads a memory image into the chain: a sequence of 4-byte
    /// big-endian words, the k-th placed at address k. A length that is
    /// not a multiple of four bytes is a load error and changes no word.
    pub fn load_memory(&mut self, bytes: &Vec<u8>) -> (r: Result<(), SimError>)
        requires
            old(self).wf(),
            bytes@.len() / 4 <= 0xFFFF_FFFF,
        ensures
            final(self).wf(),
            r is Ok <==> bytes@.len() % 4 == 0,
            bytes@.len() % 4 != 0 ==> r == Err::<(), SimError>(SimError::Load(
                bytes@.len() as usize,
            )) && *final(self) == *old(self),
            r is Ok ==> (forall|k: u32|
                (k as int) < bytes@.len() / 4 ==> final(self)@.mem.word_at(k) == word_be(
                    bytes@,
                    k as int,
                )),
            r is Ok ==> (forall|a: u32|
                (a as int) >= bytes@.len() / 4 ==> final(self)@.mem.word_at(a)
                    == old(self)@.mem.word_at(a)),
            final(self)@.regs == old(self)@.regs,
            final(self)@.cycle_count == old(self)@.cycle_count,
            final(self)@.fetch == old(self)@.fetch,
            final(self)@.decode == old(self)@.decode,
            final(self)@.execute == old(self)@.execute,
            final(self)@.access_mem == old(self)@.access_mem,
            final(self)@.write_back == old(self)@.write_back,
    {
        let n = bytes.len();
        if n % 4 != 0 {
            return Err(SimError::Load(n));
        }
        let words = n / 4;
        let mut k: usize = 0;
        let mut off: usize = 0;
        while k < words
            invariant
                old(self).wf(),
                n == bytes@.len(),
                words == bytes@.len() / 4,
                bytes@.len() % 4 == 0,
                words <= 0xFFFF_FFFF,
                k <= words,
                off == 4 * k,
                self.memory@.wf(),
                self.cycle_count == old(self).cycle_count,
                self.registers == old(self).registers,
                self.fetch_instruction == old(self).fetch_instruction,
                self.decode_instruction == old(self).decode_instruction,
                self.execute_instruction == old(self).execute_instruction,
                self.access_mem_instruction == old(self).access_mem_instruction,
                self.write_back_instruction == old(self).write_back_instruction,
                forall|j: u32|
                    (j as int) < k ==> self.memory@.word_at(j) == word_be(bytes@, j as int),
                forall|a: u32|
                    (a as int) >= k ==> self.memory@.word_at(a) == old(self).memory@.word_at(a),
            decreases words - k,
        {
            proof {
                vstd::arithmetic::div_mod::lemma_fundamental_div_mod(bytes@.len() as int, 4);
                assert(4 * (words as int) == bytes@.len());
            }
            let b0 = bytes[off];
            let b1 = bytes[off + 1];
            let b2 = bytes[off + 2];
            let b3 = bytes[off + 3];
            let w = (b0 as u32) * 0x100_0000 + (b1 as u32) * 0x1_0000 + (b2 as u32) * 0x100 + (
            b3 as u32);
            let ghost mem_pre = self.memory@;
            let _ = self.memory.set(k as u32, w);
            proof {
                crate::memory::lemma_set_m_props(mem_pre, k as u32, w);
            }
            k += 1;
            off += 4;
        }
        Ok(())
    }

    /// Steps through one cycle of the processor, stages in write-back-first
    /// order exactly as [`spec_step`] describes. An `Ok` result says
    /// whether the program should keep running: false exactly when every
    /// pipeline slot has drained.
    pub fn step(&mut self) -> (r: Result<bool, SimError>)
        requires
            old(self).wf(),
        ensures
            final(self).wf(),
            final(self)@ == spec_step(old(self)@).0,
            r == spec_step(old(self)@).1,
    {
        let ghost s0 = self@;
        // Write-back stage.
        match self.access_mem_instruction.take() {
            None => {
                self.write_back_instruction = None;
            },
            Some(mut inst) => {
                let res = inst.write_back(&mut self.registers);
                let (_wait, _unit) = res.unwrap();
                self.write_back_instruction = Some(inst);
                self.access_mem_instruction = None;
            },
        }
        // Access-memory stage.
        proof {
            lemma_am_step_wf(s0.execute, s0.mem);
        }
        match self.execute_instruction.take() {
            None => {
                self.access_mem_instruction = None;
            },
            Some(mut inst) => {
                let res = inst.access_memory(&mut self.memory);
                let (wait, _unit) = res.unwrap();
                let w64 = wait as u64;
                self.cycle_count = if w64 > u64::MAX - self.cycle_count {
                    u64::MAX
                } else {
                    self.cycle_count + w64
                };
                self.access_mem_instruction = Some(inst);
            },
        }
        // Execute stage.
        match self.decode_instruction.take() {
            None => {
                self.execute_instruction = None;
            },
            Some(mut inst) => {
                match inst.execute() {
                    SimResult::Fail(e) => {
                        self.decode_instruction = Some(inst);
                        return Err(e);
                    },
                    SimResult::Wait(_wait, _unit) => {
                        self.execute_instruction = Some(inst);
                    },
                }
            },
        }
        // Decode stage.
        match self.fetch_instruction {
            None => {
                self.decode_instruction = None;
            },
            Some(w) => {
                match Instruction::decode_word(w) {
                    Err(e) => {
                        return Err(e);
                    },
                    Ok(mut inst) => {
                        let res = inst.decode(w, &self.registers);
                        let (_wait, _unit) = res.unwrap();
                        self.decode_instruction = Some(inst);
                    },
                }
            },
        }
        // Fetch stage.
        let ghost mem1 = self.memory@;
        proof {
            crate::memory::lemma_get_m_props(mem1, self.registers@[PC as int]);
        }
        let pc_val = self.registers.read(PC);
        let res = self.memory.get(pc_val);
        let (wait, word) = res.unwrap();
        let w64 = wait as u64;
        self.cycle_count = if w64 > u64::MAX - self.cycle_count {
            u64::MAX
        } else {
            self.cycle_count + w64
        };
        self.fetch_instruction = if word == 0 {
            None
        } else {
            Some(word)
        };
        // The program counter advances unconditionally; a jump that wrote
        // it during write-back takes effect through this cycle's fetch.
        self.registers.write(PC, pc_val.wrapping_add(1));
        // The program runs on while any slot holds an instruction.
        Ok(
            self.fetch_instruction.is_some() || self.decode_instruction.is_some()
                || self.execute_instruction.is_some() || self.access_mem_instruction.is_some()
                || self.write_back_instruction.is_some(),
        )
    }
}

} // verus!
