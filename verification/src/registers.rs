//! The RV32 register file: 32 general-purpose registers plus the program
//! counter. Register index 0 is hard-wired to zero: reads yield 0 and writes
//! to it are discarded. All program-counter arithmetic is 32-bit modular.
use vstd::prelude::*;
use vstd::wrapping::u32_specs;

verus! {

/// Mathematical model of the register file: the 32 register values and the
/// program counter.
#[verifier::ext_equal]
pub ghost struct RegsV {
    pub regs: Seq<u32>,
    pub pc: u32,
}

/// The value a read of register `index` yields: index 0 always reads as 0.
pub open spec fn reg_read(regs: Seq<u32>, index: u32) -> u32 {
    if index == 0 {
        0
    } else {
        regs[index as int]
    }
}

/// The register sequence after a write of `value` to register `index`:
/// a write to index 0 changes nothing.
pub open spec fn reg_write(regs: Seq<u32>, index: u32, value: u32) -> Seq<u32> {
    if index == 0 {
        regs
    } else {
        regs.update(index as int, value)
    }
}

pub struct RV32Registers {
    inner: Vec<u32>,
    pc: u32,
}

impl RV32Registers {
    pub closed spec fn view(&self) -> RegsV {
        RegsV { regs: self.inner@, pc: self.pc }
    }

    /// The register file always holds exactly 32 registers and register 0
    /// always holds 0.
    pub open spec fn wf(&self) -> bool {
        &&& self@.regs.len() == 32
        &&& self@.regs[0] == 0
    }

    pub fn new() -> (r: Self)
        ensures
            r.wf(),
            r@.regs.len() == 32,
            forall|i: int| 0 <= i < 32 ==> r@.regs[i] == 0,
            r@.pc == 0,
    {
        RV32Registers { inner: vec![0u32; 32], pc: 0 }
    }

    pub fn get(&self, index: u32) -> (r: u32)
        requires
            self.wf(),
            index < 32,
        ensures
            r == reg_read(self@.regs, index),
    {
        if index == 0 {
            0
        } else {
            self.inner[index as usize]
        }
    }

    pub fn set(&mut self, index: u32, value: u32)
        requires
            old(self).wf(),
            index < 32,
        ensures
            final(self).wf(),
            final(self)@.regs == reg_write(old(self)@.regs, index, value),
            final(self)@.pc == old(self)@.pc,
    {
        if index != 0 {
            self.inner[index as usize] = value;
        }
    }

    pub fn get_pc(&self) -> (r: u32)
        ensures
            r == self@.pc,
    {
        self.pc
    }

    pub fn set_pc(&mut self, val: u32)
        ensures
            final(self)@.pc == val,
            final(self)@.regs == old(self)@.regs,
            old(self).wf() ==> final(self).wf(),
    {
        self.pc = val;
    }

    /// Adds a displacement to the program counter with 32-bit wraparound; a
    /// two's-complement negative displacement moves the counter backwards.
    pub fn add_to_pc(&mut self, val: u32)
        ensures
            final(self)@.pc == u32_specs::wrapping_add(old(self)@.pc, val),
            final(self)@.regs == old(self)@.regs,
            old(self).wf() ==> final(self).wf(),
    {
        self.pc = self.pc.wrapping_add(val);
    }

    pub fn increment_pc(&mut self)
        ensures
            final(self)@.pc == u32_specs::wrapping_add(old(self)@.pc, 4),
            final(self)@.regs == old(self)@.regs,
            old(self).wf() ==> final(self).wf(),
    {
        self.pc = self.pc.wrapping_add(4);
    }
}

/// Register 0 is immutable: whatever value a write to it carried, a read of
/// register 0 afterwards still yields 0, and no register changed.
pub proof fn lemma_reg_zero_immutable(regs: Seq<u32>, v: u32)
    ensures
        reg_write(regs, 0, v) == regs,
        reg_read(reg_write(regs, 0, v), 0) == 0,
{
}

} // verus!
