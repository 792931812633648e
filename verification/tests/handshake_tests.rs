use kvmrsk::handshake::{Cpu, HandshakeState, HandshakeStep};

#[test]
fn four_steps_recorded_in_order() {
    let mut c = Cpu::new(0);
    assert_eq!(c.state, HandshakeState::Idle);
    assert!(c.trace.is_empty());
    c.new_reset_vectors();
    assert_eq!(c.state, HandshakeState::StubActive);
    c.new_set_vectors(0x1000);
    assert_eq!(c.state, HandshakeState::VectorsArmed);
    assert_eq!(c.vbar, 0x1000);
    c.step_init_vectors(0x2000, 0x3000);
    assert_eq!(c.state, HandshakeState::Hijacked);
    assert_eq!(c.hyp_vectors_pa, 0x2000);
    assert_eq!(c.hyp_stack_top, 0x3000);
    c.step_probe();
    assert_eq!(c.state, HandshakeState::Verified);
    assert_eq!(
        c.trace,
        vec![
            HandshakeStep::Reset,
            HandshakeStep::ArmVectors,
            HandshakeStep::InitVectors,
            HandshakeStep::Probe,
        ]
    );
}

#[test]
fn fresh_cpu_carries_its_ordinal_as_affinity() {
    let c = Cpu::new(3);
    assert_eq!(c.id, 3);
    assert_eq!(c.affinity, 3);
    assert_eq!(c.state, HandshakeState::Idle);
}
