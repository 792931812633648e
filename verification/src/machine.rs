//! The machine model: the contiguous allocator, the two address translations,
//! cache maintenance, the cross-processor driver and the hypercall interface,
//! all as explicit state, plus the activation driver that relocates the
//! vector table, patches its fixup slots and walks every processor through
//! the handshake.

use crate::context::{helper_init_host_cpu_context, CpuContext, NUM_REGS};
use crate::encoder::{encode_jump_sequence, jump_words};
use crate::handshake::{
    arm_step, full_order, init_step, probe_step, reset_step, Cpu,
};
use crate::image::{in_fixup_1, in_fixup_2, qword_at, word_at_slot2, VectorImage, FIXUP_1, FIXUP_2,
    MIN_IMAGE_LEN};
use crate::registry::{HostState, Registry};
use crate::trap::{hvc_handled, hvc_syndrome, new_handle_trap, TRAP_SENTINEL};
use vstd::prelude::*;

verus! {

/// Largest processor count the model admits.
pub const MAX_CPUS: usize = 4096;
/// Allocation footprint of one host-state block (page aligned).
pub const HOST_BLOCK_SIZE: usize = 4096;
/// Size in bytes of one per-processor hypervisor-mode stack.
pub const NEW_HYP_STACK_SIZE: usize = 16384;
/// Size in bytes of one entry of the stack-pointer array.
pub const STACK_PTR_SIZE: usize = 8;
/// Call number of the init-vectors hypercall.
pub const NEW_HVC_INIT_VECTORS: u64 = 0x100;
/// Upper bound of the modelled allocator's address range.
pub const ALLOC_LIMIT: u64 = 0x1000_0000_0000_0000;
/// Largest vector-table template extent the model admits.
pub const MAX_TEMPLATE: usize = 0x10_0000;

/// One observable memory-ordering action: the write-then-flush discipline for
/// self-modifying code is stated over a trace of these.
#[derive(Clone, Copy, PartialEq, Eq, Debug)]
pub enum Event {
    /// The template was copied into the contiguous image at `base`.
    CopyVectors { base: u64 },
    /// Cache maintenance of the line at `addr`, performed on `cpu`.
    FlushVirt { cpu: usize, addr: u64 },
    /// The host-state physical address was written into fixup slot 1.
    WriteFixup1 { pa: u64 },
    /// The jump sequence to `target_pa` was written into fixup slot 2.
    WriteFixup2 { target_pa: u64 },
}

/// One operation the cross-processor driver runs once per online processor.
#[derive(Clone, Copy, PartialEq, Eq, Debug)]
pub enum CpuOp {
    /// Cache maintenance of `addr` on the executing processor.
    FlushVirt(u64),
    /// Zero the executing processor's saved register file.
    InitHostContext,
    /// Handshake step 1: the vector-reset call.
    ResetVectors,
    /// Handshake step 2: program the vector-base register with the address.
    SetVectors(u64),
    /// Allocate the executing processor's hypervisor stack and record it.
    AllocStack,
    /// Handshake step 3: the init-vectors hypercall.
    CallInitVectors,
    /// Handshake step 4: the zero-argument probe hypercall.
    CallProbe,
}

/// The flush events a broadcast cache-maintenance of `addr` appends: one per
/// processor, in processor order.
pub open spec fn flush_events(n: int, addr: u64) -> Seq<Event> {
    Seq::new(n as nat, |k: int| Event::FlushVirt { cpu: k as usize, addr })
}

/// The whole simulated machine.
pub struct Machine {
    /// The vector-table template region, `[start, end)`.
    pub template: Vec<u8>,
    /// Linear-map translation: physical = virtual - `phys_offset`.
    pub phys_offset: u64,
    /// Translation for module/highmem addresses, valid once `init_mm_ready`.
    pub highmem_offset: u64,
    /// Whether the highmem translation tables have been located.
    pub init_mm_ready: bool,
    /// Address of the trap handler's entry code; stable after build.
    pub trap_handler_va: u64,
    /// Address of the bootstrap stub vector table.
    pub stub_vectors_va: u64,
    /// Next free address of the contiguous allocator.
    pub alloc_cursor: u64,
    /// Number of online processors.
    pub ncpus: usize,
    /// Ordinal of the processor currently running a broadcast operation.
    pub current_cpu: usize,
    /// The relocated vector image; empty until built.
    pub image: VectorImage,
    /// The per-processor host registry.
    pub registry: Registry,
    /// The simulated processors.
    pub cpus: Vec<Cpu>,
    /// The ordering trace of copy, write and flush actions.
    pub log: Vec<Event>,
    /// Address of the host-state array, once allocated.
    pub host_dat_va: u64,
    /// Address of the stack-pointer array, once allocated.
    pub stack_arr_va: u64,
}

/// The configuration fields no operation ever changes.
pub open spec fn same_config(pre: Machine, post: Machine) -> bool {
    &&& post.template == pre.template
    &&& post.phys_offset == pre.phys_offset
    &&& post.highmem_offset == pre.highmem_offset
    &&& post.trap_handler_va == pre.trap_handler_va
    &&& post.stub_vectors_va == pre.stub_vectors_va
    &&& post.ncpus == pre.ncpus
}

/// What every per-processor operation leaves alone.
pub open spec fn frame_core(pre: Machine, post: Machine) -> bool {
    &&& same_config(pre, post)
    &&& post.init_mm_ready == pre.init_mm_ready
    &&& post.image == pre.image
    &&& post.host_dat_va == pre.host_dat_va
    &&& post.stack_arr_va == pre.stack_arr_va
}

/// What must hold of the machine before the driver broadcasts `op`.
pub open spec fn op_pre(m: Machine, op: CpuOp) -> bool {
    match op {
        CpuOp::FlushVirt(_addr) => true,
        CpuOp::InitHostContext => m.registry.host_published,
        CpuOp::ResetVectors => forall|k: int|
            #![trigger m.cpus@[k]]
            0 <= k < m.ncpus ==> m.cpus@[k].state is Idle,
        CpuOp::SetVectors(_addr) => forall|k: int|
            #![trigger m.cpus@[k]]
            0 <= k < m.ncpus ==> m.cpus@[k].state is StubActive,
        CpuOp::AllocStack => m.registry.stack_published && m.alloc_cursor as int + m.ncpus
            * NEW_HYP_STACK_SIZE <= ALLOC_LIMIT,
        CpuOp::CallInitVectors => {
            &&& m.registry.stack_published
            &&& m.image.base >= m.phys_offset
            &&& forall|k: int| #![trigger m.cpus@[k]] 0 <= k < m.ncpus ==> m.cpus@[k].state
                is VectorsArmed
            &&& forall|k: int|
                #![trigger m.registry.hyp_stack@[k]]
                0 <= k < m.ncpus ==> m.phys_offset <= m.registry.hyp_stack@[k]
                    && m.registry.hyp_stack@[k] <= ALLOC_LIMIT
        },
        CpuOp::CallProbe => m.registry.host_published && forall|k: int|
            #![trigger m.cpus@[k]]
            0 <= k < m.ncpus ==> m.cpus@[k].state is Hijacked,
    }
}

/// The machine after the driver has run `op` on the first `k` processors:
/// with `k == pre.ncpus` this is the effect of the whole broadcast.
pub open spec fn op_progress(pre: Machine, cur: Machine, op: CpuOp, k: int) -> bool {
    match op {
        CpuOp::FlushVirt(addr) => {
            &&& frame_core(pre, cur)
            &&& cur.registry == pre.registry
            &&& cur.cpus == pre.cpus
            &&& cur.alloc_cursor == pre.alloc_cursor
            &&& cur.log@ == pre.log@ + flush_events(k, addr)
        },
        CpuOp::InitHostContext => {
            &&& frame_core(pre, cur)
            &&& cur.cpus == pre.cpus
            &&& cur.alloc_cursor == pre.alloc_cursor
            &&& cur.log == pre.log
            &&& cur.registry.ncpus == pre.registry.ncpus
            &&& cur.registry.host_published == pre.registry.host_published
            &&& cur.registry.stack_published == pre.registry.stack_published
            &&& cur.registry.hyp_stack == pre.registry.hyp_stack
            &&& cur.registry.host_dat@.len() == pre.registry.host_dat@.len()
            &&& forall|j: int|
                #![trigger cur.registry.host_dat@[j]]
                0 <= j < k ==> cur.registry.host_dat@[j].host_ctxt.zeroed()
            &&& forall|j: int|
                #![trigger cur.registry.host_dat@[j]]
                k <= j < pre.registry.host_dat@.len() ==> cur.registry.host_dat@[j]
                    == pre.registry.host_dat@[j]
        },
        CpuOp::ResetVectors => {
            &&& frame_core(pre, cur)
            &&& cur.registry == pre.registry
            &&& cur.alloc_cursor == pre.alloc_cursor
            &&& cur.log == pre.log
            &&& cur.cpus@.len() == pre.cpus@.len()
            &&& forall|j: int|
                #![trigger cur.cpus@[j]]
                0 <= j < k ==> reset_step(pre.cpus@[j], cur.cpus@[j])
            &&& forall|j: int|
                #![trigger cur.cpus@[j]]
                k <= j < pre.cpus@.len() ==> cur.cpus@[j] == pre.cpus@[j]
        },
        CpuOp::SetVectors(addr) => {
            &&& frame_core(pre, cur)
            &&& cur.registry == pre.registry
            &&& cur.alloc_cursor == pre.alloc_cursor
            &&& cur.log == pre.log
            &&& cur.cpus@.len() == pre.cpus@.len()
            &&& forall|j: int|
                #![trigger cur.cpus@[j]]
                0 <= j < k ==> arm_step(pre.cpus@[j], cur.cpus@[j], addr)
            &&& forall|j: int|
                #![trigger cur.cpus@[j]]
                k <= j < pre.cpus@.len() ==> cur.cpus@[j] == pre.cpus@[j]
        },
        CpuOp::AllocStack => {
            &&& frame_core(pre, cur)
            &&& cur.cpus == pre.cpus
            &&& cur.log == pre.log
            &&& cur.alloc_cursor as int == pre.alloc_cursor as int + k * NEW_HYP_STACK_SIZE
            &&& cur.registry.ncpus == pre.registry.ncpus
            &&& cur.registry.host_published == pre.registry.host_published
            &&& cur.registry.stack_published == pre.registry.stack_published
            &&& cur.registry.host_dat == pre.registry.host_dat
            &&& cur.registry.hyp_stack@.len() == pre.registry.hyp_stack@.len()
            &&& forall|j: int|
                #![trigger cur.registry.hyp_stack@[j]]
                0 <= j < k ==> cur.registry.hyp_stack@[j] as int == pre.alloc_cursor as int + j
                    * NEW_HYP_STACK_SIZE
            &&& forall|j: int|
                #![trigger cur.registry.hyp_stack@[j]]
                k <= j < pre.registry.hyp_stack@.len() ==> cur.registry.hyp_stack@[j]
                    == pre.registry.hyp_stack@[j]
        },
        CpuOp::CallInitVectors => {
            &&& frame_core(pre, cur)
            &&& cur.registry == pre.registry
            &&& cur.alloc_cursor == pre.alloc_cursor
            &&& cur.log == pre.log
            &&& cur.cpus@.len() == pre.cpus@.len()
            &&& forall|j: int|
                #![trigger cur.cpus@[j]]
                0 <= j < k ==> init_step(
                    pre.cpus@[j],
                    cur.cpus@[j],
                    (pre.image.base - pre.phys_offset) as u64,
                    ((pre.registry.hyp_stack@[j] - pre.phys_offset) + NEW_HYP_STACK_SIZE) as u64,
                )
            &&& forall|j: int|
                #![trigger cur.cpus@[j]]
                k <= j < pre.cpus@.len() ==> cur.cpus@[j] == pre.cpus@[j]
        },
        CpuOp::CallProbe => {
            &&& frame_core(pre, cur)
            &&& cur.alloc_cursor == pre.alloc_cursor
            &&& cur.log == pre.log
            &&& cur.cpus@.len() == pre.cpus@.len()
            &&& forall|j: int|
                #![trigger cur.cpus@[j]]
                0 <= j < k ==> probe_step(pre.cpus@[j], cur.cpus@[j])
            &&& forall|j: int|
                #![trigger cur.cpus@[j]]
                k <= j < pre.cpus@.len() ==> cur.cpus@[j] == pre.cpus@[j]
            &&& cur.registry.ncpus == pre.registry.ncpus
            &&& cur.registry.host_published == pre.registry.host_published
            &&& cur.registry.stack_published == pre.registry.stack_published
            &&& cur.registry.hyp_stack == pre.registry.hyp_stack
            &&& cur.registry.host_dat@.len() == pre.registry.host_dat@.len()
            &&& forall|j: int|
                #![trigger cur.registry.host_dat@[j]]
                0 <= j < k ==> hvc_handled(
                    pre.registry.host_dat@[j].host_ctxt,
                    cur.registry.host_dat@[j].host_ctxt,
                )
            &&& forall|j: int|
                #![trigger cur.registry.host_dat@[j]]
                k <= j < pre.registry.host_dat@.len() ==> cur.registry.host_dat@[j]
                    == pre.registry.host_dat@[j]
        },
    }
}

impl Machine {
    /// Structural invariant of the model: the processor vector matches the
    /// processor count, the registry is sized to it, the allocator cursor
    /// stays inside the translated range.
    pub open spec fn wf(self) -> bool {
        &&& 1 <= self.ncpus <= MAX_CPUS
        &&& self.cpus@.len() == self.ncpus
        &&& forall|i: int|
            #![trigger self.cpus@[i]]
            0 <= i < self.ncpus ==> self.cpus@[i].wf() && self.cpus@[i].id == i
        &&& self.registry.wf()
        &&& self.registry.ncpus == self.ncpus
        &&& self.phys_offset <= self.alloc_cursor
        &&& self.alloc_cursor <= ALLOC_LIMIT
        &&& self.current_cpu < self.ncpus
        &&& self.template@.len() <= MAX_TEMPLATE
    }

    /// A machine before activation: nothing built, nothing published, every
    /// processor idle.
    pub fn new(
        ncpus: usize,
        template: Vec<u8>,
        phys_offset: u64,
        highmem_offset: u64,
        trap_handler_va: u64,
        stub_vectors_va: u64,
        alloc_base: u64,
    ) -> (m: Machine)
        requires
            1 <= ncpus <= MAX_CPUS,
            template@.len() <= MAX_TEMPLATE,
            phys_offset <= alloc_base <= ALLOC_LIMIT,
            highmem_offset <= trap_handler_va,
            highmem_offset <= stub_vectors_va,
        ensures
            m.wf(),
            m.ncpus == ncpus,
            m.template == template,
            m.phys_offset == phys_offset,
            m.highmem_offset == highmem_offset,
            m.trap_handler_va == trap_handler_va,
            m.stub_vectors_va == stub_vectors_va,
            m.alloc_cursor == alloc_base,
            !m.init_mm_ready,
            !m.registry.host_published,
            !m.registry.stack_published,
            m.image.bytes@.len() == 0,
            m.log@.len() == 0,
            forall|k: int| #![trigger m.cpus@[k]] 0 <= k < ncpus ==> m.cpus@[k].state is Idle,
    {
        let mut cpus: Vec<Cpu> = Vec::new();
        let mut i: usize = 0;
        while i < ncpus
            invariant
                i <= ncpus,
                cpus@.len() == i,
                forall|k: int|
                    #![trigger cpus@[k]]
                    0 <= k < i ==> cpus@[k].wf() && cpus@[k].id == k && cpus@[k].state is Idle,
            decreases ncpus - i,
        {
            cpus.push(Cpu::new(i));
            i = i + 1;
        }
        Machine {
            template,
            phys_offset,
            highmem_offset,
            init_mm_ready: false,
            trap_handler_va,
            stub_vectors_va,
            alloc_cursor: alloc_base,
            ncpus,
            current_cpu: 0,
            image: VectorImage { base: 0, bytes: Vec::new() },
            registry: Registry::new(ncpus),
            cpus,
            log: Vec::new(),
            host_dat_va: 0,
            stack_arr_va: 0,
        }
    }

    /// Number of online processors.
    pub fn num_online_cpus(&self) -> (n: usize)
        ensures
            n == self.ncpus,
    {
        self.ncpus
    }

    /// Ordinal of the processor executing the current broadcast operation.
    pub fn new_get_smp_processor_id(&self) -> (id: usize)
        ensures
            id == self.current_cpu,
    {
        self.current_cpu
    }

    /// Linear-map address translation for allocator addresses.
    pub fn virt_to_phys(&self, va: u64) -> (pa: u64)
        requires
            va >= self.phys_offset,
        ensures
            pa == va - self.phys_offset,
    {
        va - self.phys_offset
    }

    /// Address translation for module/highmem addresses, through the tables
    /// that `init_init_mm_ptr` located.
    pub fn highmem_virt_to_phys(&self, va: u64) -> (pa: u64)
        requires
            self.init_mm_ready,
            va >= self.highmem_offset,
        ensures
            pa == va - self.highmem_offset,
    {
        va - self.highmem_offset
    }

    /// Locates the kernel's own translation tables; must run before any
    /// highmem translation.
    pub fn init_init_mm_ptr(&mut self)
        ensures
            same_config(*old(self), *final(self)),
            final(self).init_mm_ready,
            final(self).image == old(self).image,
            final(self).registry == old(self).registry,
            final(self).cpus == old(self).cpus,
            final(self).log == old(self).log,
            final(self).alloc_cursor == old(self).alloc_cursor,
            final(self).current_cpu == old(self).current_cpu,
            final(self).host_dat_va == old(self).host_dat_va,
            final(self).stack_arr_va == old(self).stack_arr_va,
    {
        self.init_mm_ready = true;
    }

    /// Cache maintenance of `addr` on the executing processor, recorded in
    /// the ordering trace.
    pub fn helper_flush_virt(&mut self, addr: u64)
        ensures
            frame_core(*old(self), *final(self)),
            final(self).registry == old(self).registry,
            final(self).cpus == old(self).cpus,
            final(self).alloc_cursor == old(self).alloc_cursor,
            final(self).current_cpu == old(self).current_cpu,
            final(self).log@ == old(self).log@.push(
                (Event::FlushVirt { cpu: old(self).current_cpu, addr }),
            ),
    {
        let cpu = self.current_cpu;
        self.log.push(Event::FlushVirt { cpu, addr });
    }

    /// The contiguous allocator: hands out the next `size` bytes.
    fn allocate(&mut self, size: usize) -> (va: u64)
        requires
            old(self).wf(),
            old(self).alloc_cursor as int + size <= ALLOC_LIMIT,
        ensures
            final(self).wf(),
            va == old(self).alloc_cursor,
            va >= final(self).phys_offset,
            final(self).alloc_cursor as int == old(self).alloc_cursor as int + size,
            same_config(*old(self), *final(self)),
            final(self).init_mm_ready == old(self).init_mm_ready,
            final(self).image == old(self).image,
            final(self).registry == old(self).registry,
            final(self).cpus == old(self).cpus,
            final(self).log == old(self).log,
            final(self).current_cpu == old(self).current_cpu,
            final(self).host_dat_va == old(self).host_dat_va,
            final(self).stack_arr_va == old(self).stack_arr_va,
    {
        let va = self.alloc_cursor;
        self.alloc_cursor = self.alloc_cursor + (size as u64);
        va
    }

    /// Copies the vector-table template into a freshly obtained contiguous
    /// block and returns its base address.
    pub fn helper_make_contig(&mut self) -> (base: u64)
        requires
            old(self).wf(),
            MIN_IMAGE_LEN <= old(self).template@.len(),
            old(self).alloc_cursor as int + old(self).template@.len() <= ALLOC_LIMIT,
        ensures
            final(self).wf(),
            same_config(*old(self), *final(self)),
            final(self).init_mm_ready == old(self).init_mm_ready,
            final(self).registry == old(self).registry,
            final(self).cpus == old(self).cpus,
            final(self).log == old(self).log,
            final(self).current_cpu == old(self).current_cpu,
            final(self).host_dat_va == old(self).host_dat_va,
            final(self).stack_arr_va == old(self).stack_arr_va,
            base == old(self).alloc_cursor,
            final(self).alloc_cursor as int == old(self).alloc_cursor as int + old(
                self,
            ).template@.len(),
            final(self).image.base == base,
            final(self).image.bytes@ == old(self).template@,
            final(self).image.wf(),
            base >= final(self).phys_offset,
            base <= ALLOC_LIMIT,
    {
        let size = self.template.len();
        let base = self.allocate(size);
        let mut bytes: Vec<u8> = Vec::new();
        let mut i: usize = 0;
        while i < size
            invariant
                i <= size,
                size == self.template@.len(),
                bytes@ == self.template@.subrange(0, i as int),
            decreases size - i,
        {
            let b = self.template[i];
            bytes.push(b);
            i = i + 1;
        }
        proof {
            assert(bytes@ =~= self.template@);
        }
        self.image = VectorImage { base, bytes };
        base
    }

    /// The hypercall instruction, issued on the executing processor. The
    /// hypervisor's side: an init-vectors call installs the vectors and stack
    /// handed to it and is served by the bootstrap stub; a probe call traps
    /// into the hijacked vectors, where the trap handler serves it. Whatever
    /// the call, the observed return value is zero.
    pub fn new_hvc(&mut self, arg0: u64, arg1: u64, arg2: u64, arg3: u64) -> (ret: u64)
        requires
            old(self).wf(),
            arg0 == NEW_HVC_INIT_VECTORS || arg0 == 0,
            arg0 == NEW_HVC_INIT_VECTORS ==> old(self).cpus@[old(self).current_cpu as int].state
                is VectorsArmed && arg3 == old(self).cpus@[old(self).current_cpu as int].affinity,
            arg0 == 0 ==> old(self).cpus@[old(self).current_cpu as int].state is Hijacked && old(
                self,
            ).registry.host_published,
        ensures
            final(self).wf(),
            ret == 0,
            frame_core(*old(self), *final(self)),
            final(self).current_cpu == old(self).current_cpu,
            final(self).alloc_cursor == old(self).alloc_cursor,
            final(self).log == old(self).log,
            final(self).cpus@.len() == old(self).cpus@.len(),
            forall|j: int|
                #![trigger final(self).cpus@[j]]
                0 <= j < old(self).cpus@.len() && j != old(self).current_cpu
                    ==> final(self).cpus@[j] == old(self).cpus@[j],
            arg0 == NEW_HVC_INIT_VECTORS ==> final(self).registry == old(self).registry
                && init_step(
                old(self).cpus@[old(self).current_cpu as int],
                final(self).cpus@[old(self).current_cpu as int],
                arg1,
                arg2,
            ),
            arg0 == 0 ==> {
                &&& probe_step(
                    old(self).cpus@[old(self).current_cpu as int],
                    final(self).cpus@[old(self).current_cpu as int],
                )
                &&& final(self).registry.ncpus == old(self).registry.ncpus
                &&& final(self).registry.host_published == old(self).registry.host_published
                &&& final(self).registry.stack_published == old(self).registry.stack_published
                &&& final(self).registry.hyp_stack == old(self).registry.hyp_stack
                &&& final(self).registry.host_dat@.len() == old(self).registry.host_dat@.len()
                &&& hvc_handled(
                    old(self).registry.host_dat@[old(self).current_cpu as int].host_ctxt,
                    final(self).registry.host_dat@[old(self).current_cpu as int].host_ctxt,
                )
                &&& forall|j: int|
                    #![trigger final(self).registry.host_dat@[j]]
                    0 <= j < old(self).registry.host_dat@.len() && j != old(self).current_cpu
                        ==> final(self).registry.host_dat@[j] == old(self).registry.host_dat@[j]
            },
    {
        let id = self.new_get_smp_processor_id();
        if arg0 == NEW_HVC_INIT_VECTORS {
            let c = &mut self.cpus[id];
            c.step_init_vectors(arg1, arg2);
            0
        } else {
            let esr = hvc_syndrome();
            let ctxt = self.registry.ctxt_mut(id);
            new_handle_trap(esr, ctxt);
            let c = &mut self.cpus[id];
            c.step_probe();
            0
        }
    }

    /// The cross-processor driver: runs `op` once on every online processor,
    /// in processor order, and does not return before all have finished.
    pub fn helper_for_each_cpu(&mut self, op: CpuOp)
        requires
            old(self).wf(),
            op_pre(*old(self), op),
        ensures
            final(self).wf(),
            op_progress(*old(self), *final(self), op, old(self).ncpus as int),
    {
        let ghost pre: Machine = *self;
        let n = self.ncpus;
        let mut k: usize = 0;
        while k < n
            invariant
                self.wf(),
                n == pre.ncpus,
                n == self.ncpus,
                k <= n,
                op_pre(pre, op),
                op_progress(pre, *self, op, k as int),
            decreases n - k,
        {
            self.current_cpu = k;
            match op {
                CpuOp::FlushVirt(addr) => {
                    self.helper_flush_virt(addr);
                    proof {
                        assert(flush_events(k + 1, addr) =~= flush_events(k as int, addr).push(
                            (Event::FlushVirt { cpu: k, addr }),
                        ));
                    }
                },
                CpuOp::InitHostContext => {
                    let id = self.new_get_smp_processor_id();
                    let ctxt = self.registry.ctxt_mut(id);
                    helper_init_host_cpu_context(ctxt);
                },
                CpuOp::ResetVectors => {
                    let id = self.new_get_smp_processor_id();
                    let c = &mut self.cpus[id];
                    c.new_reset_vectors();
                },
                CpuOp::SetVectors(addr) => {
                    let id = self.new_get_smp_processor_id();
                    let c = &mut self.cpus[id];
                    c.new_set_vectors(addr);
                },
                CpuOp::AllocStack => {
                    let id = self.new_get_smp_processor_id();
                    let stack_va = self.allocate(NEW_HYP_STACK_SIZE);
                    self.registry.set_stack(id, stack_va);
                },
                CpuOp::CallInitVectors => {
                    let id = self.new_get_smp_processor_id();
                    let stack_va = self.registry.stack_of(id);
                    let stack_pa = self.virt_to_phys(stack_va);
                    let top = stack_top(stack_pa);
                    let vectors_pa = self.virt_to_phys(self.image.base);
                    let affinity = self.cpus[id].affinity;
                    let _ret = self.new_hvc(NEW_HVC_INIT_VECTORS, vectors_pa, top, affinity);
                },
                CpuOp::CallProbe => {
                    let _ret = self.new_hvc(0, 0, 0, 0);
                },
            }
            k = k + 1;
        }
    }

    /// Patches the relocated image. Allocates one host-state block per
    /// processor, publishes the array, writes its physical address into fixup
    /// slot 1 and flushes the slot on every processor; only then generates the
    /// jump-to-handler sequence, writes it into fixup slot 2 and flushes that
    /// on every processor. Slot 1 is globally visible before slot 2 is
    /// touched: the image is never observable partially updated.
    pub fn fixup_vectors(&mut self)
        requires
            old(self).wf(),
            old(self).image.wf(),
            old(self).image.base <= ALLOC_LIMIT,
            old(self).init_mm_ready,
            old(self).highmem_offset <= old(self).trap_handler_va,
            !old(self).registry.host_published,
            old(self).alloc_cursor as int + old(self).ncpus * HOST_BLOCK_SIZE <= ALLOC_LIMIT,
        ensures
            final(self).wf(),
            same_config(*old(self), *final(self)),
            final(self).init_mm_ready,
            final(self).cpus == old(self).cpus,
            final(self).stack_arr_va == old(self).stack_arr_va,
            final(self).registry.stack_published == old(self).registry.stack_published,
            final(self).registry.hyp_stack == old(self).registry.hyp_stack,
            final(self).host_dat_va == old(self).alloc_cursor,
            final(self).alloc_cursor as int == old(self).alloc_cursor as int + old(self).ncpus
                * HOST_BLOCK_SIZE,
            final(self).registry.host_published,
            final(self).registry.host_dat@.len() == old(self).ncpus,
            forall|k: int|
                #![trigger final(self).registry.host_dat@[k]]
                0 <= k < old(self).ncpus ==> final(self).registry.host_dat@[k].host_ctxt.zeroed(),
            final(self).image.base == old(self).image.base,
            final(self).image.bytes@.len() == old(self).image.bytes@.len(),
            qword_at(final(self).image.bytes@, FIXUP_1 as int) == (final(self).host_dat_va - final(self).phys_offset) as u64,
            forall|w: int|
                    0 <= w < 5 ==> #[trigger] word_at_slot2(final(self).image.bytes@, w) == jump_words(
                    (old(self).trap_handler_va - old(self).highmem_offset) as u64,
                )[w],
            forall|i: int|
                0 <= i < old(self).image.bytes@.len() && !in_fixup_1(i) && !in_fixup_2(i) ==> final(self).image.bytes@[i] == old(self).image.bytes@[i],
            final(self).log@ == old(self).log@ + seq![
                (Event::WriteFixup1 {
                    pa: (old(self).alloc_cursor - old(self).phys_offset) as u64,
                }),
            ] + flush_events(old(self).ncpus as int, (old(self).image.base + FIXUP_1) as u64)
                + seq![
                (Event::WriteFixup2 {
                    target_pa: (old(self).trap_handler_va - old(self).highmem_offset) as u64,
                }),
            ] + flush_events(old(self).ncpus as int, (old(self).image.base + FIXUP_2) as u64),
    {
        let num_cpus = self.num_online_cpus();
        let mut blocks: Vec<HostState> = Vec::new();
        let mut i: usize = 0;
        while i < num_cpus
            invariant
                i <= num_cpus,
                blocks@.len() == i,
                forall|j: int| #![trigger blocks@[j]] 0 <= j < i ==> blocks@[j].host_ctxt.zeroed(),
            decreases num_cpus - i,
        {
            blocks.push(HostState { host_ctxt: CpuContext::new() });
            i = i + 1;
        }
        let host_dat_va = self.allocate(num_cpus * HOST_BLOCK_SIZE);
        self.host_dat_va = host_dat_va;
        let host_dat_pa = self.virt_to_phys(host_dat_va);
        self.registry.publish_host_dat(blocks);
        self.image.write_fixup_1(host_dat_pa);
        self.log.push(Event::WriteFixup1 { pa: host_dat_pa });
        let f1_addr = addr_new_vectors(self.image.base, FIXUP_1);
        self.helper_for_each_cpu(CpuOp::FlushVirt(f1_addr));
        let trap_handler_pa = self.highmem_virt_to_phys(self.trap_handler_va);
        let shellcode_br = encode_jump_sequence(trap_handler_pa);
        self.image.write_fixup_2(&shellcode_br);
        self.log.push(Event::WriteFixup2 { target_pa: trap_handler_pa });
        let f2_addr = addr_new_vectors(self.image.base, FIXUP_2);
        self.helper_for_each_cpu(CpuOp::FlushVirt(f2_addr));
        proof {
            assert(self.log@ =~= old(self).log@ + seq![
                (Event::WriteFixup1 {
                    pa: (old(self).alloc_cursor - old(self).phys_offset) as u64,
                }),
            ] + flush_events(old(self).ncpus as int, (old(self).image.base + FIXUP_1) as u64)
                + seq![
                (Event::WriteFixup2 {
                    target_pa: (old(self).trap_handler_va - old(self).highmem_offset) as u64,
                }),
            ] + flush_events(old(self).ncpus as int, (old(self).image.base + FIXUP_2) as u64));
        }
    }

    /// Builds the relocated image: copies the template into a fresh
    /// contiguous block, flushes the copy on every processor so it is
    /// coherent everywhere, only then patches the fixup slots, and flushes
    /// the image once more. Returns the image's base address.
    pub fn copy_new_vectors(&mut self) -> (base: u64)
        requires
            old(self).wf(),
            old(self).init_mm_ready,
            old(self).highmem_offset <= old(self).trap_handler_va,
            !old(self).registry.host_published,
            MIN_IMAGE_LEN <= old(self).template@.len(),
            old(self).alloc_cursor as int + old(self).template@.len() + old(self).ncpus
                * HOST_BLOCK_SIZE <= ALLOC_LIMIT,
        ensures
            final(self).wf(),
            same_config(*old(self), *final(self)),
            final(self).init_mm_ready,
            final(self).cpus == old(self).cpus,
            final(self).stack_arr_va == old(self).stack_arr_va,
            final(self).registry.stack_published == old(self).registry.stack_published,
            final(self).registry.hyp_stack == old(self).registry.hyp_stack,
            base == old(self).alloc_cursor,
            final(self).image.base == base,
            final(self).image.base >= final(self).phys_offset,
            final(self).image.base <= ALLOC_LIMIT,
            final(self).image.wf(),
            final(self).image.bytes@.len() == old(self).template@.len(),
            final(self).host_dat_va as int == old(self).alloc_cursor as int + old(
                self,
            ).template@.len(),
            final(self).alloc_cursor as int == old(self).alloc_cursor as int + old(
                self,
            ).template@.len() + old(self).ncpus * HOST_BLOCK_SIZE,
            final(self).registry.host_published,
            final(self).registry.host_dat@.len() == old(self).ncpus,
            forall|k: int|
                #![trigger final(self).registry.host_dat@[k]]
                0 <= k < old(self).ncpus ==> final(self).registry.host_dat@[k].host_ctxt.zeroed(),
            qword_at(final(self).image.bytes@, FIXUP_1 as int) == (final(self).host_dat_va - final(self).phys_offset) as u64,
            forall|w: int|
                    0 <= w < 5 ==> #[trigger] word_at_slot2(final(self).image.bytes@, w) == jump_words(
                    (old(self).trap_handler_va - old(self).highmem_offset) as u64,
                )[w],
            forall|i: int|
                0 <= i < final(self).image.bytes@.len() && !in_fixup_1(i) && !in_fixup_2(i)
                    ==> final(self).image.bytes@[i] == old(self).template@[i],
            final(self).log@ == old(self).log@ + seq![
                (Event::CopyVectors { base: old(self).alloc_cursor }),
            ] + flush_events(old(self).ncpus as int, old(self).alloc_cursor) + seq![
                (Event::WriteFixup1 {
                    pa: (final(self).host_dat_va - old(self).phys_offset) as u64,
                }),
            ] + flush_events(old(self).ncpus as int, (old(self).alloc_cursor + FIXUP_1) as u64)
                + seq![
                (Event::WriteFixup2 {
                    target_pa: (old(self).trap_handler_va - old(self).highmem_offset) as u64,
                }),
            ] + flush_events(old(self).ncpus as int, (old(self).alloc_cursor + FIXUP_2) as u64)
                + flush_events(old(self).ncpus as int, old(self).alloc_cursor),
    {
        let base = self.helper_make_contig();
        self.log.push(Event::CopyVectors { base });
        self.helper_for_each_cpu(CpuOp::FlushVirt(base));
        self.fixup_vectors();
        self.helper_for_each_cpu(CpuOp::FlushVirt(base));
        proof {
            assert(self.log@ =~= old(self).log@ + seq![
                (Event::CopyVectors { base: old(self).alloc_cursor }),
            ] + flush_events(old(self).ncpus as int, old(self).alloc_cursor) + seq![
                (Event::WriteFixup1 {
                    pa: (self.host_dat_va - old(self).phys_offset) as u64,
                }),
            ] + flush_events(old(self).ncpus as int, (old(self).alloc_cursor + FIXUP_1) as u64)
                + seq![
                (Event::WriteFixup2 {
                    target_pa: (old(self).trap_handler_va - old(self).highmem_offset) as u64,
                }),
            ] + flush_events(old(self).ncpus as int, (old(self).alloc_cursor + FIXUP_2) as u64)
                + flush_events(old(self).ncpus as int, old(self).alloc_cursor));
        }
        base
    }

    /// Allocates the per-processor stack-pointer array, publishes it, lets
    /// every processor allocate and record its own hypervisor stack, then
    /// flushes the filled array on every processor.
    pub fn setup_hyp_stacks(&mut self)
        requires
            old(self).wf(),
            !old(self).registry.stack_published,
            old(self).alloc_cursor as int + old(self).ncpus * STACK_PTR_SIZE + old(self).ncpus
                * NEW_HYP_STACK_SIZE <= ALLOC_LIMIT,
        ensures
            final(self).wf(),
            same_config(*old(self), *final(self)),
            final(self).init_mm_ready == old(self).init_mm_ready,
            final(self).image == old(self).image,
            final(self).cpus == old(self).cpus,
            final(self).host_dat_va == old(self).host_dat_va,
            final(self).registry.host_published == old(self).registry.host_published,
            final(self).registry.host_dat == old(self).registry.host_dat,
            final(self).registry.stack_published,
            final(self).stack_arr_va == old(self).alloc_cursor,
            final(self).registry.hyp_stack@.len() == old(self).ncpus,
            forall|k: int|
                #![trigger final(self).registry.hyp_stack@[k]]
                0 <= k < old(self).ncpus ==> final(self).registry.hyp_stack@[k] as int == old(
                    self,
                ).alloc_cursor as int + old(self).ncpus * STACK_PTR_SIZE + k * NEW_HYP_STACK_SIZE
                    && final(self).phys_offset <= final(self).registry.hyp_stack@[k] && final(self).registry.hyp_stack@[k] <= ALLOC_LIMIT,
            final(self).alloc_cursor as int == old(self).alloc_cursor as int + old(self).ncpus
                * STACK_PTR_SIZE + old(self).ncpus * NEW_HYP_STACK_SIZE,
            final(self).log@ == old(self).log@ + flush_events(
                old(self).ncpus as int,
                old(self).alloc_cursor,
            ),
    {
        let n = self.num_online_cpus();
        let arr_va = self.allocate(n * STACK_PTR_SIZE);
        self.stack_arr_va = arr_va;
        let mut slots: Vec<u64> = Vec::new();
        let mut i: usize = 0;
        while i < n
            invariant
                i <= n,
                slots@.len() == i,
            decreases n - i,
        {
            slots.push(0);
            i = i + 1;
        }
        self.registry.publish_hyp_stack(slots);
        self.helper_for_each_cpu(CpuOp::AllocStack);
        self.helper_for_each_cpu(CpuOp::FlushVirt(arr_va));
    }

    /// The activation entry point. Locates the translation tables, builds and
    /// patches the relocated image, zeroes every processor's saved register
    /// file, resets every processor to the stub vectors, arms the vector-base
    /// register, gives every processor a hypervisor stack, issues the
    /// init-vectors call and the probe call on every processor, in that
    /// order. Returns zero.
    pub fn new_init(&mut self) -> (status: i32)
        requires
            old(self).wf(),
            old(self).highmem_offset <= old(self).trap_handler_va,
            old(self).highmem_offset <= old(self).stub_vectors_va,
            !old(self).registry.host_published,
            !old(self).registry.stack_published,
            forall|k: int|
                #![trigger old(self).cpus@[k]]
                0 <= k < old(self).ncpus ==> old(self).cpus@[k].state is Idle,
            MIN_IMAGE_LEN <= old(self).template@.len(),
            old(self).alloc_cursor as int + old(self).template@.len() + old(self).ncpus
                * HOST_BLOCK_SIZE + old(self).ncpus * STACK_PTR_SIZE + old(self).ncpus
                * NEW_HYP_STACK_SIZE <= ALLOC_LIMIT,
        ensures
            status == 0,
            final(self).wf(),
            same_config(*old(self), *final(self)),
            final(self).registry.host_published,
            final(self).registry.stack_published,
            final(self).registry.host_dat@.len() == final(self).ncpus,
            final(self).registry.hyp_stack@.len() == final(self).ncpus,
            forall|k: int|
                #![trigger final(self).cpus@[k]]
                0 <= k < final(self).ncpus ==> final(self).cpus@[k].state is Verified && final(self).cpus@[k].trace@ == full_order() && final(self).cpus@[k].hyp_vectors_pa == (final(self).image.base - final(self).phys_offset) as u64 && final(self).cpus@[k].hyp_stack_top as int == final(self).registry.hyp_stack@[k] - final(self).phys_offset + NEW_HYP_STACK_SIZE,
            forall|k: int|
                #![trigger final(self).registry.host_dat@[k]]
                0 <= k < final(self).ncpus ==> final(self).registry.host_dat@[k].host_ctxt.wf()
                    && final(self).registry.host_dat@[k].host_ctxt.regs@[0] == TRAP_SENTINEL && (
                forall|r: int|
                    #![trigger final(self).registry.host_dat@[k].host_ctxt.regs@[r]]
                    1 <= r < NUM_REGS ==> final(self).registry.host_dat@[k].host_ctxt.regs@[r]
                        == 0),
            final(self).image.wf(),
            final(self).image.bytes@.len() == old(self).template@.len(),
            qword_at(final(self).image.bytes@, FIXUP_1 as int) == (final(self).host_dat_va - final(self).phys_offset) as u64,
            forall|w: int|
                    0 <= w < 5 ==> #[trigger] word_at_slot2(final(self).image.bytes@, w) == jump_words(
                    (old(self).trap_handler_va - old(self).highmem_offset) as u64,
                )[w],
            forall|i: int|
                0 <= i < final(self).image.bytes@.len() && !in_fixup_1(i) && !in_fixup_2(i)
                    ==> final(self).image.bytes@[i] == old(self).template@[i],
    {
        self.init_init_mm_ptr();
        let _new_vectors = self.copy_new_vectors();
        self.helper_for_each_cpu(CpuOp::InitHostContext);
        self.helper_for_each_cpu(CpuOp::ResetVectors);
        let stub_pa = self.highmem_virt_to_phys(self.stub_vectors_va);
        self.helper_for_each_cpu(CpuOp::SetVectors(stub_pa));
        self.setup_hyp_stacks();
        self.helper_for_each_cpu(CpuOp::CallInitVectors);
        self.helper_for_each_cpu(CpuOp::CallProbe);
        0
    }
}

/// Top-of-stack address of the stack whose base physical address is `addr`.
pub fn stack_top(addr: u64) -> (top: u64)
    requires
        addr as int + NEW_HYP_STACK_SIZE <= u64::MAX,
    ensures
        top as int == addr as int + NEW_HYP_STACK_SIZE,
{
    addr + (NEW_HYP_STACK_SIZE as u64)
}

/// Address of the byte at `offset` inside the image that starts at `base`.
pub fn addr_new_vectors(base: u64, offset: usize) -> (addr: u64)
    requires
        base as int + offset <= u64::MAX,
    ensures
        addr as int == base as int + offset,
{
    base + (offset as u64)
}

} // verus!
