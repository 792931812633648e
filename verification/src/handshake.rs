//! The per-processor hypercall handshake: four strictly ordered steps — reset
//! to the stub vectors, arm the vector-base register, the init-vectors
//! hypercall, and the probe hypercall — each recorded in a per-processor
//! trace so the order can be stated and proved.

use vstd::prelude::*;

verus! {

/// Where one processor stands in the handshake.
#[derive(Clone, Copy, PartialEq, Eq, Debug)]
pub enum HandshakeState {
    /// Nothing done yet.
    Idle,
    /// The bootstrap stub vectors are active.
    StubActive,
    /// The vector-base register points at the relocated image.
    VectorsArmed,
    /// The hypervisor uses the new vectors and stack for this processor.
    Hijacked,
    /// The probe call has been issued and its trap observed.
    Verified,
}

/// One observed handshake step.
#[derive(Clone, Copy, PartialEq, Eq, Debug)]
pub enum HandshakeStep {
    /// The vector-reset call.
    Reset,
    /// Programming the vector-base control register.
    ArmVectors,
    /// The init-vectors hypercall.
    InitVectors,
    /// The zero-argument probe hypercall.
    Probe,
}

/// The one order the four steps may be observed in on a processor.
pub open spec fn full_order() -> Seq<HandshakeStep> {
    seq![
        HandshakeStep::Reset,
        HandshakeStep::ArmVectors,
        HandshakeStep::InitVectors,
        HandshakeStep::Probe,
    ]
}

/// The steps a processor in state `s` has taken: always a prefix of the full
/// order.
pub open spec fn steps_of(s: HandshakeState) -> Seq<HandshakeStep> {
    match s {
        HandshakeState::Idle => seq![],
        HandshakeState::StubActive => seq![HandshakeStep::Reset],
        HandshakeState::VectorsArmed => seq![HandshakeStep::Reset, HandshakeStep::ArmVectors],
        HandshakeState::Hijacked => seq![
            HandshakeStep::Reset,
            HandshakeStep::ArmVectors,
            HandshakeStep::InitVectors,
        ],
        HandshakeState::Verified => full_order(),
    }
}

/// One simulated processor: its ordinal, hardware affinity identifier, the
/// vector base its control register holds, what the hypervisor has installed
/// for it, and its handshake progress.
pub struct Cpu {
    /// Ordinal of this processor among the online processors.
    pub id: usize,
    /// The hardware affinity identifier the processor reports.
    pub affinity: u64,
    /// The physical address programmed into the vector-base control register.
    pub vbar: u64,
    /// The vectors physical address the init-vectors call installed.
    pub hyp_vectors_pa: u64,
    /// The stack-top physical address the init-vectors call installed.
    pub hyp_stack_top: u64,
    /// Handshake progress.
    pub state: HandshakeState,
    /// The handshake steps observed on this processor, in order.
    pub trace: Vec<HandshakeStep>,
}

/// Transition: the vector-reset call, from idle to the bootstrap stub.
pub open spec fn reset_step(pre: Cpu, post: Cpu) -> bool {
    &&& post.id == pre.id
    &&& post.affinity == pre.affinity
    &&& post.vbar == pre.vbar
    &&& post.hyp_vectors_pa == pre.hyp_vectors_pa
    &&& post.hyp_stack_top == pre.hyp_stack_top
    &&& post.state is StubActive
    &&& post.trace@ == pre.trace@.push(HandshakeStep::Reset)
}

/// Transition: programming the vector-base control register with `addr`.
pub open spec fn arm_step(pre: Cpu, post: Cpu, addr: u64) -> bool {
    &&& post.id == pre.id
    &&& post.affinity == pre.affinity
    &&& post.vbar == addr
    &&& post.hyp_vectors_pa == pre.hyp_vectors_pa
    &&& post.hyp_stack_top == pre.hyp_stack_top
    &&& post.state is VectorsArmed
    &&& post.trace@ == pre.trace@.push(HandshakeStep::ArmVectors)
}

/// Transition: the init-vectors hypercall installing vectors and stack.
pub open spec fn init_step(pre: Cpu, post: Cpu, vectors_pa: u64, stack_top: u64) -> bool {
    &&& post.id == pre.id
    &&& post.affinity == pre.affinity
    &&& post.vbar == pre.vbar
    &&& post.hyp_vectors_pa == vectors_pa
    &&& post.hyp_stack_top == stack_top
    &&& post.state is Hijacked
    &&& post.trace@ == pre.trace@.push(HandshakeStep::InitVectors)
}

/// Transition: the probe hypercall, whose trap the handler just served.
pub open spec fn probe_step(pre: Cpu, post: Cpu) -> bool {
    &&& post.id == pre.id
    &&& post.affinity == pre.affinity
    &&& post.vbar == pre.vbar
    &&& post.hyp_vectors_pa == pre.hyp_vectors_pa
    &&& post.hyp_stack_top == pre.hyp_stack_top
    &&& post.state is Verified
    &&& post.trace@ == pre.trace@.push(HandshakeStep::Probe)
}

impl Cpu {
    /// The trace is exactly what the state says has happened.
    pub open spec fn wf(self) -> bool {
        self.trace@ == steps_of(self.state)
    }

    /// A fresh, idle processor with ordinal `id`.
    pub fn new(id: usize) -> (c: Cpu)
        ensures
            c.wf(),
            c.id == id,
            c.affinity == id as u64,
            c.state is Idle,
    {
        let c = Cpu {
            id,
            affinity: id as u64,
            vbar: 0,
            hyp_vectors_pa: 0,
            hyp_stack_top: 0,
            state: HandshakeState::Idle,
            trace: Vec::new(),
        };
        proof {
            assert(c.trace@ =~= steps_of(c.state));
        }
        c
    }

    /// Issues the vector-reset call on this processor: the first handshake
    /// step, allowed only from idle.
    pub fn new_reset_vectors(&mut self)
        requires
            old(self).wf(),
            old(self).state is Idle,
        ensures
            final(self).wf(),
            reset_step(*old(self), *final(self)),
    {
        self.state = HandshakeState::StubActive;
        self.trace.push(HandshakeStep::Reset);
        proof {
            assert(self.trace@ =~= steps_of(self.state));
        }
    }

    /// Programs the vector-base control register of this processor with
    /// `addr`: the second handshake step.
    pub fn new_set_vectors(&mut self, addr: u64)
        requires
            old(self).wf(),
            old(self).state is StubActive,
        ensures
            final(self).wf(),
            arm_step(*old(self), *final(self), addr),
    {
        self.vbar = addr;
        self.state = HandshakeState::VectorsArmed;
        self.trace.push(HandshakeStep::ArmVectors);
        proof {
            assert(self.trace@ =~= steps_of(self.state));
        }
    }

    /// Records that the hypervisor accepted the init-vectors call for this
    /// processor: the third handshake step.
    pub fn step_init_vectors(&mut self, vectors_pa: u64, stack_top: u64)
        requires
            old(self).wf(),
            old(self).state is VectorsArmed,
        ensures
            final(self).wf(),
            init_step(*old(self), *final(self), vectors_pa, stack_top),
    {
        self.hyp_vectors_pa = vectors_pa;
        self.hyp_stack_top = stack_top;
        self.state = HandshakeState::Hijacked;
        self.trace.push(HandshakeStep::InitVectors);
        proof {
            assert(self.trace@ =~= steps_of(self.state));
        }
    }

    /// Records that the probe call trapped and returned on this processor:
    /// the fourth and last handshake step.
    pub fn step_probe(&mut self)
        requires
            old(self).wf(),
            old(self).state is Hijacked,
        ensures
            final(self).wf(),
            probe_step(*old(self), *final(self)),
    {
        self.state = HandshakeState::Verified;
        self.trace.push(HandshakeStep::Probe);
        proof {
            assert(self.trace@ =~= steps_of(self.state));
        }
    }
}

/// Law (handshake ordering): on any processor the observed steps are a prefix
/// of reset, arm vectors, init vectors, probe, in that order; in particular a
/// probe is only ever observed as the fourth step, after init-vectors, and a
/// verified processor has observed all four.
pub proof fn lemma_handshake_ordering(c: Cpu)
    requires
        c.wf(),
    ensures
        c.trace@.len() <= 4,
        forall|j: int| 0 <= j < c.trace@.len() ==> #[trigger] c.trace@[j] == full_order()[j],
        forall|j: int|
            0 <= j < c.trace@.len() && #[trigger] c.trace@[j] is Probe ==> j == 3 && c.trace@[2]
                is InitVectors,
        c.state is Verified ==> c.trace@ == full_order(),
{
    match c.state {
        HandshakeState::Idle => {},
        HandshakeState::StubActive => {},
        HandshakeState::VectorsArmed => {},
        HandshakeState::Hijacked => {},
        HandshakeState::Verified => {},
    }
}

} // verus!
