//! The saved register file of one processor: an ordered sequence of 31
//! general registers plus a program counter, zeroed before first use and
//! mutated only by the trap handler.

use vstd::prelude::*;

verus! {

/// Number of general registers in a saved register file.
pub const NUM_REGS: usize = 31;

/// A fixed-size register-file snapshot, one per processor.
pub struct CpuContext {
    /// The 31 saved general registers, in order.
    pub regs: Vec<u64>,
    /// The saved program counter.
    pub pc: u64,
}

impl CpuContext {
    /// The register file has its fixed size.
    pub open spec fn wf(self) -> bool {
        self.regs@.len() == NUM_REGS
    }

    /// Every saved register and the program counter are zero.
    pub open spec fn zeroed(self) -> bool {
        &&& self.wf()
        &&& self.pc == 0
        &&& forall|i: int| 0 <= i < NUM_REGS ==> self.regs@[i] == 0
    }

    /// A fresh, fully zeroed register file.
    pub fn new() -> (c: CpuContext)
        ensures
            c.zeroed(),
    {
        let mut regs: Vec<u64> = Vec::new();
        let mut i: usize = 0;
        while i < NUM_REGS
            invariant
                i <= NUM_REGS,
                regs@.len() == i,
                forall|j: int| 0 <= j < i ==> regs@[j] == 0,
            decreases NUM_REGS - i,
        {
            regs.push(0);
            i = i + 1;
        }
        CpuContext { regs, pc: 0 }
    }

    /// Reads saved general register `i`.
    pub fn reg(&self, i: usize) -> (r: u64)
        requires
            self.wf(),
            i < NUM_REGS,
        ensures
            r == self.regs@[i as int],
    {
        self.regs[i]
    }

    /// Writes saved general register `i`, leaving every other register and
    /// the program counter unchanged.
    pub fn set_reg(&mut self, i: usize, v: u64)
        requires
            old(self).wf(),
            i < NUM_REGS,
        ensures
            final(self).wf(),
            final(self).regs@ == old(self).regs@.update(i as int, v),
            final(self).pc == old(self).pc,
    {
        self.regs[i] = v;
    }
}

/// Zeroes a processor's saved register file before its first use.
pub fn helper_init_host_cpu_context(ctxt: &mut CpuContext)
    ensures
        final(ctxt).zeroed(),
{
    *ctxt = CpuContext::new();
}

} // verus!
