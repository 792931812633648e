//! Per-CPU host registry: the two process-wide arrays — host-state blocks and
//! hypervisor-stack pointers — each published exactly once after allocation,
//! then read by every processor. A reader can obtain an entry only through an
//! observation that yields nothing until the publishing step has completed,
//! the model of the release-store / acquire-load pointer pair.

use crate::context::CpuContext;
use vstd::prelude::*;

verus! {

/// One processor's host-state block; opaque to this core except for the
/// embedded saved register file.
pub struct HostState {
    /// The processor's saved register file.
    pub host_ctxt: CpuContext,
}

impl HostState {
    /// The embedded register file has its fixed size.
    pub open spec fn wf(self) -> bool {
        self.host_ctxt.wf()
    }
}

/// The registry: per-processor host-state blocks and per-processor stack
/// addresses, each behind a one-time publication flag.
pub struct Registry {
    /// Number of online processors the registry is sized for.
    pub ncpus: usize,
    /// Whether the host-state array has been published.
    pub host_published: bool,
    /// The host-state array; empty until published, then one block per
    /// processor.
    pub host_dat: Vec<HostState>,
    /// Whether the stack-pointer array has been published.
    pub stack_published: bool,
    /// Per-processor stack base addresses; empty until published, zero until
    /// a processor records its own allocation.
    pub hyp_stack: Vec<u64>,
}

impl Registry {
    /// A published array has one well-formed entry per processor; an
    /// unpublished one holds nothing that could be observed.
    pub open spec fn wf(self) -> bool {
        &&& self.host_published ==> self.host_dat@.len() == self.ncpus && (forall|i: int|
            0 <= i < self.ncpus ==> self.host_dat@[i].wf())
        &&& !self.host_published ==> self.host_dat@.len() == 0
        &&& self.stack_published ==> self.hyp_stack@.len() == self.ncpus
        &&& !self.stack_published ==> self.hyp_stack@.len() == 0
    }

    /// What a processor's acquire-load of the host-state pointer observes:
    /// its own entry once published, nothing before.
    pub open spec fn observed_host(self, cpu: usize) -> Option<HostState> {
        if self.host_published && cpu < self.ncpus {
            Some(self.host_dat@[cpu as int])
        } else {
            None
        }
    }

    /// What a processor's acquire-load of the stack-pointer array observes.
    pub open spec fn observed_stack(self, cpu: usize) -> Option<u64> {
        if self.stack_published && cpu < self.ncpus {
            Some(self.hyp_stack@[cpu as int])
        } else {
            None
        }
    }

    /// A registry with nothing published yet.
    pub fn new(ncpus: usize) -> (r: Registry)
        ensures
            r.wf(),
            r.ncpus == ncpus,
            !r.host_published,
            !r.stack_published,
    {
        Registry {
            ncpus,
            host_published: false,
            host_dat: Vec::new(),
            stack_published: false,
            hyp_stack: Vec::new(),
        }
    }

    /// Publishes the fully allocated host-state array (the release store).
    /// Publication happens exactly once.
    pub fn publish_host_dat(&mut self, blocks: Vec<HostState>)
        requires
            old(self).wf(),
            !old(self).host_published,
            blocks@.len() == old(self).ncpus,
            forall|i: int| 0 <= i < blocks@.len() ==> blocks@[i].wf(),
        ensures
            final(self).wf(),
            final(self).ncpus == old(self).ncpus,
            final(self).host_published,
            final(self).host_dat@ == blocks@,
            final(self).stack_published == old(self).stack_published,
            final(self).hyp_stack == old(self).hyp_stack,
    {
        self.host_dat = blocks;
        self.host_published = true;
    }

    /// Publishes the allocated stack-pointer array (the release store), every
    /// slot still zero; each processor records its own slot afterwards.
    pub fn publish_hyp_stack(&mut self, slots: Vec<u64>)
        requires
            old(self).wf(),
            !old(self).stack_published,
            slots@.len() == old(self).ncpus,
        ensures
            final(self).wf(),
            final(self).ncpus == old(self).ncpus,
            final(self).stack_published,
            final(self).hyp_stack@ == slots@,
            final(self).host_published == old(self).host_published,
            final(self).host_dat == old(self).host_dat,
    {
        self.hyp_stack = slots;
        self.stack_published = true;
    }

    /// A processor's read of its own host-state block: the acquire load.
    /// Yields an entry exactly when publication has completed.
    pub fn observe_host(&self, cpu: usize) -> (r: Option<&HostState>)
        requires
            self.wf(),
        ensures
            match r {
                Some(h) => self.observed_host(cpu) == Some(*h),
                None => self.observed_host(cpu) is None,
            },
    {
        if self.host_published && cpu < self.ncpus {
            Some(&self.host_dat[cpu])
        } else {
            None
        }
    }

    /// A processor's read of its own stack slot: the acquire load.
    pub fn observe_stack(&self, cpu: usize) -> (r: Option<u64>)
        requires
            self.wf(),
        ensures
            r == self.observed_stack(cpu),
    {
        if self.stack_published && cpu < self.ncpus {
            Some(self.hyp_stack[cpu])
        } else {
            None
        }
    }

    /// Records the stack a processor allocated for itself in its own slot.
    pub fn set_stack(&mut self, cpu: usize, va: u64)
        requires
            old(self).wf(),
            old(self).stack_published,
            cpu < old(self).ncpus,
        ensures
            final(self).wf(),
            final(self).ncpus == old(self).ncpus,
            final(self).stack_published,
            final(self).hyp_stack@ == old(self).hyp_stack@.update(cpu as int, va),
            final(self).host_published == old(self).host_published,
            final(self).host_dat == old(self).host_dat,
    {
        self.hyp_stack[cpu] = va;
    }

    /// A processor's stack slot once it is known to be published; the strictly
    /// local accessor used on the handshake path.
    pub fn stack_of(&self, cpu: usize) -> (va: u64)
        requires
            self.wf(),
            self.stack_published,
            cpu < self.ncpus,
        ensures
            va == self.hyp_stack@[cpu as int],
    {
        match self.observe_stack(cpu) {
            Some(va) => va,
            None => 0,
        }
    }

    /// Mutable access to a processor's own saved register file: used by the
    /// handler-state initializer and by the trap handler.
    pub fn ctxt_mut(&mut self, cpu: usize) -> (c: &mut CpuContext)
        requires
            old(self).wf(),
            old(self).host_published,
            cpu < old(self).ncpus,
        ensures
            *c == old(self).host_dat@[cpu as int].host_ctxt,
            final(self).ncpus == old(self).ncpus,
            final(self).host_published,
            final(self).stack_published == old(self).stack_published,
            final(self).hyp_stack == old(self).hyp_stack,
            final(self).host_dat@ == old(self).host_dat@.update(
                cpu as int,
                (HostState { host_ctxt: *final(c) }),
            ),
    {
        &mut self.host_dat[cpu].host_ctxt
    }

    /// Reads saved register `r` of a processor's register file.
    pub fn saved_reg(&self, cpu: usize, r: usize) -> (v: u64)
        requires
            self.wf(),
            self.host_published,
            cpu < self.ncpus,
            r < crate::context::NUM_REGS,
        ensures
            v == self.host_dat@[cpu as int].host_ctxt.regs@[r as int],
    {
        self.host_dat[cpu].host_ctxt.reg(r)
    }

    /// Writes saved register `r` of a processor's register file, leaving every
    /// other register, processor and array untouched.
    pub fn set_saved_reg(&mut self, cpu: usize, r: usize, v: u64)
        requires
            old(self).wf(),
            old(self).host_published,
            cpu < old(self).ncpus,
            r < crate::context::NUM_REGS,
        ensures
            final(self).wf(),
            final(self).ncpus == old(self).ncpus,
            final(self).host_published,
            final(self).stack_published == old(self).stack_published,
            final(self).hyp_stack == old(self).hyp_stack,
            final(self).host_dat@.len() == old(self).host_dat@.len(),
            final(self).host_dat@[cpu as int].host_ctxt.regs@ == old(self).host_dat@[
                cpu as int].host_ctxt.regs@.update(r as int, v),
            final(self).host_dat@[cpu as int].host_ctxt.pc == old(self).host_dat@[
                cpu as int].host_ctxt.pc,
            forall|k: int|
                0 <= k < old(self).host_dat@.len() && k != cpu ==> final(self).host_dat@[k] == old(
                    self,
                ).host_dat@[k],
    {
        let c = self.ctxt_mut(cpu);
        c.set_reg(r, v);
    }
}

/// Law (publication before use): no processor observes a host-state block or
/// a stack slot before the corresponding publishing step has completed; and
/// what it then observes is exactly the entry that was published for it —
/// the fully initialized value, never a partial one.
pub proof fn lemma_publication_before_use(r: Registry, cpu: usize)
    requires
        r.wf(),
    ensures
        !r.host_published ==> r.observed_host(cpu) is None,
        !r.stack_published ==> r.observed_stack(cpu) is None,
        r.observed_host(cpu) is Some ==> r.host_published && cpu < r.ncpus && r.observed_host(cpu)
            == Some(r.host_dat@[cpu as int]),
        r.observed_stack(cpu) is Some ==> r.stack_published && cpu < r.ncpus
            && r.observed_stack(cpu) == Some(r.hyp_stack@[cpu as int]),
{
}

} // verus!
