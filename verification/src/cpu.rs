//! The CPU: one register file and one memory, driven by a
//! fetch-decode-execute loop. Component-level faults compose into a single
//! CPU-level error; ECALL and EBREAK are orderly halts, not faults.
use vstd::prelude::*;

use crate::instructions::{
    exec_step, spec_decode, DecodeError, ExecuteError, ExecuteStatus, Instruction,
};
use crate::mem::{MemoryError, MemV, RAM};
use crate::registers::RV32Registers;

verus! {

#[derive(Debug, Clone, Copy, PartialEq, Eq, Structural)]
pub enum CPUError {
    FetchError,
    DecodeError(DecodeError),
    ExecuteError(ExecuteError),
    MemoryError(MemoryError),
}

pub type CPUResult<T> = Result<T, CPUError>;

#[derive(Debug, Clone, Copy, PartialEq, Eq, Structural)]
pub enum CPUStatus {
    Continue,
    Halt,
}

/// Mathematical model of the whole machine: register values, program
/// counter, and memory.
#[verifier::ext_equal]
pub ghost struct CpuV {
    pub regs: Seq<u32>,
    pub pc: u32,
    pub mem: MemV,
}

/// What a fetch yields: the word at the program counter, or the memory fault
/// wrapped as a CPU error.
pub open spec fn spec_fetch(s: CpuV) -> CPUResult<u32> {
    match s.mem.read_word_result(s.pc) {
        Ok(w) => Ok(w),
        Err(e) => Err(CPUError::MemoryError(e)),
    }
}

/// An execution status folded into the run loop's status: every halt reason
/// becomes `Halt`.
pub open spec fn spec_cpu_status(st: ExecuteStatus) -> CPUStatus {
    match st {
        ExecuteStatus::CONTINUE => CPUStatus::Continue,
        _ => CPUStatus::Halt,
    }
}

/// An execution outcome folded into the run loop's outcome.
pub open spec fn spec_cpu_result(r: Result<ExecuteStatus, ExecuteError>) -> CPUResult<CPUStatus> {
    match r {
        Ok(st) => Ok(spec_cpu_status(st)),
        Err(e) => Err(CPUError::ExecuteError(e)),
    }
}


/// The machine and outcome after `n` iterations of the bounded run loop:
/// each iteration fetches at the program counter, decodes, and executes. A
/// fetch or decode fault stops the loop at once with the machine unchanged
/// by that iteration; an execution outcome (including a fault) is recorded
/// and the loop moves on, so the result reported is that of the last
/// iteration reached.
pub open spec fn spec_run_steps(s: CpuV, n: nat) -> (CpuV, CPUResult<CPUStatus>)
    decreases n,
{
    if n == 0 {
        (s, Ok(CPUStatus::Continue))
    } else {
        match spec_fetch(s) {
            Err(e) => (s, Err(e)),
            Ok(w) => match spec_decode(w) {
                Err(d) => (s, Err(CPUError::DecodeError(d))),
                Ok(i) => {
                    let (s2, r) = exec_step(s, i);
                    if n == 1 {
                        (s2, spec_cpu_result(r))
                    } else {
                        spec_run_steps(s2, (n - 1) as nat)
                    }
                },
            },
        }
    }
}

pub struct CPU {
    pub registers: RV32Registers,
    pub memory: RAM,
}

impl CPU {
    pub open spec fn view(&self) -> CpuV {
        CpuV { regs: self.registers@.regs, pc: self.registers@.pc, mem: self.memory@ }
    }

    pub open spec fn wf(&self) -> bool {
        &&& self.registers.wf()
        &&& self.memory.wf()
    }

    /// A fresh machine: all registers and the program counter zero, and one
    /// zero-filled memory segment covering `[memory_base, memory_base +
    /// memory_size)`.
    pub fn new(memory_base: u32, memory_size: u32) -> (r: Self)
        requires
            memory_base + memory_size <= 0x1_0000_0000,
        ensures
            r.wf(),
            r@.pc == 0,
            r@.regs.len() == 32,
            forall|i: int| 0 <= i < 32 ==> r@.regs[i] == 0,
            r@.mem.segs.len() == 1,
            r@.mem.segs[0].base == memory_base,
            r@.mem.segs[0].data.len() == memory_size,
            forall|i: int| 0 <= i < memory_size ==> r@.mem.segs[0].data[i] == 0,
    {
        CPU { registers: RV32Registers::new(), memory: RAM::new(memory_base, memory_size) }
    }

    /// Mutable access to the register file, for host setup and inspection.
    pub fn get_registers(&mut self) -> (r: &mut RV32Registers)
        ensures
            (*r)@.regs == old(self)@.regs,
            (*r)@.pc == old(self)@.pc,
            final(self)@.regs == final(r)@.regs,
            final(self)@.pc == final(r)@.pc,
            final(self)@.mem == old(self)@.mem,
            old(self).memory.wf() ==> final(self).memory.wf(),
            final(r).wf() ==> final(self).registers.wf(),
    {
        &mut self.registers
    }

    /// Mutable access to the memory subsystem, for host setup and inspection.
    pub fn get_memory(&mut self) -> (r: &mut RAM)
        ensures
            (*r)@ == old(self)@.mem,
            final(self)@.mem == final(r)@,
            final(self)@.regs == old(self)@.regs,
            final(self)@.pc == old(self)@.pc,
            old(self).registers.wf() ==> final(self).registers.wf(),
            final(r).wf() ==> final(self).memory.wf(),
    {
        &mut self.memory
    }

    /// Reads the instruction word at the program counter.
    pub fn fetch(&self) -> (r: CPUResult<u32>)
        requires
            self.wf(),
        ensures
            r == spec_fetch(self@),
    {
        match self.memory.read_word(self.registers.get_pc()) {
            Ok(w) => Ok(w),
            Err(e) => Err(CPUError::MemoryError(e)),
        }
    }

    /// Decodes one instruction word, wrapping a decoder fault as a CPU error.
    pub fn decode(&self, instr: u32) -> (r: CPUResult<Instruction>)
        ensures
            spec_decode(instr) matches Ok(i) ==> r == Ok::<Instruction, CPUError>(i) && i.wf(),
            spec_decode(instr) matches Err(e) ==> r == Err::<Instruction, CPUError>(
                CPUError::DecodeError(e),
            ),
    {
        match Instruction::decode(instr) {
            Ok(i) => Ok(i),
            Err(e) => Err(CPUError::DecodeError(e)),
        }
    }

    /// Executes one decoded instruction against this machine's registers and
    /// memory, folding the outcome into the run loop's status.
    pub fn execute(&mut self, instr: Instruction) -> (r: CPUResult<CPUStatus>)
        requires
            old(self).wf(),
            instr.wf(),
        ensures
            final(self).wf(),
            final(self)@ == exec_step(old(self)@, instr).0,
            r == spec_cpu_result(exec_step(old(self)@, instr).1),
    {
        match instr.execute(self) {
            Ok(st) => match st {
                ExecuteStatus::CONTINUE => Ok(CPUStatus::Continue),
                _ => Ok(CPUStatus::Halt),
            },
            Err(e) => Err(CPUError::ExecuteError(e)),
        }
    }

    /// Runs the fetch-decode-execute loop for exactly `steps` iterations and
    /// returns the outcome of the last iteration, stopping early only on a
    /// fetch or decode fault. Intended for host-driven single-stepping; it
    /// does not stop on a halt or an execution fault mid-run.
    #[verifier::rlimit(60)]
    pub fn run_for_steps(&mut self, steps: usize) -> (r: CPUResult<CPUStatus>)
        requires
            old(self).wf(),
        ensures
            final(self).wf(),
            final(self)@ == spec_run_steps(old(self)@, steps as nat).0,
            r == spec_run_steps(old(self)@, steps as nat).1,
    {
        let mut step_result: CPUResult<CPUStatus> = Ok(CPUStatus::Continue);
        let mut i: usize = 0;
        while i < steps
            invariant
                old(self).wf(),
                self.wf(),
                i <= steps,
                i < steps ==> spec_run_steps(self@, (steps - i) as nat) == spec_run_steps(
                    old(self)@,
                    steps as nat,
                ),
                i == steps ==> (self@, step_result) == spec_run_steps(old(self)@, steps as nat),
            decreases steps - i,
        {
            let w = match self.fetch() {
                Ok(w) => w,
                Err(e) => {
                    return Err(e);
                },
            };
            let instr = match self.decode(w) {
                Ok(instr) => instr,
                Err(e) => {
                    return Err(e);
                },
            };
            step_result = self.execute(instr);
            i = i + 1;
        }
        step_result
    }
}

} // verus!
