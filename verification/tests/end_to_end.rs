use kvmrsk::encoder::encode_jump_sequence;
use kvmrsk::handshake::{HandshakeState, HandshakeStep};
use kvmrsk::image::{FIXUP_1, FIXUP_2};
use kvmrsk::machine::{addr_new_vectors, stack_top, CpuOp, Event, Machine};

const NCPUS: usize = 4;
const PHYS_OFFSET: u64 = 0x1000;
const HIGHMEM_OFFSET: u64 = 0x2000;
const TRAP_HANDLER_VA: u64 = 0xF000;
const STUB_VECTORS_VA: u64 = 0xE000;
const ALLOC_BASE: u64 = 0x10000;

fn fresh_machine(fill: u8) -> Machine {
    Machine::new(
        NCPUS,
        vec![fill; 0x900],
        PHYS_OFFSET,
        HIGHMEM_OFFSET,
        TRAP_HANDLER_VA,
        STUB_VECTORS_VA,
        ALLOC_BASE,
    )
}

fn qword(bytes: &[u8], off: usize) -> u64 {
    let mut v: u64 = 0;
    for k in 0..8 {
        v |= (bytes[off + k] as u64) << (8 * k);
    }
    v
}

fn word(bytes: &[u8], off: usize) -> u32 {
    let mut v: u32 = 0;
    for k in 0..4 {
        v |= (bytes[off + k] as u32) << (8 * k);
    }
    v
}

#[test]
fn activation_reports_success_and_verifies_every_processor() {
    let mut m = fresh_machine(0x5A);
    let status = m.new_init();
    assert_eq!(status, 0);
    for k in 0..NCPUS {
        assert_eq!(m.cpus[k].state, HandshakeState::Verified);
        assert_eq!(
            m.cpus[k].trace,
            vec![
                HandshakeStep::Reset,
                HandshakeStep::ArmVectors,
                HandshakeStep::InitVectors,
                HandshakeStep::Probe,
            ]
        );
        // register 0 carries the sentinel; the rest are still zero
        assert_eq!(m.registry.host_dat[k].host_ctxt.regs[0], 0x333);
        for r in 1..31 {
            assert_eq!(m.registry.host_dat[k].host_ctxt.regs[r], 0);
        }
    }
}

#[test]
fn activation_installs_image_and_distinct_stacks() {
    let mut m = fresh_machine(0x5A);
    m.new_init();
    let image_pa = m.image.base - PHYS_OFFSET;
    for k in 0..NCPUS {
        assert_eq!(m.cpus[k].hyp_vectors_pa, image_pa);
        let stack_pa = m.registry.hyp_stack[k] - PHYS_OFFSET;
        assert_eq!(m.cpus[k].hyp_stack_top, stack_pa + 16384);
    }
    // the four stacks are distinct
    for a in 0..NCPUS {
        for b in 0..a {
            assert_ne!(m.registry.hyp_stack[a], m.registry.hyp_stack[b]);
        }
    }
}

#[test]
fn activation_patches_exactly_the_two_slots() {
    let mut m = fresh_machine(0x5A);
    m.new_init();
    // slot 1: the physical address of the host-state array, little-endian
    assert_eq!(qword(&m.image.bytes, FIXUP_1), m.host_dat_va - PHYS_OFFSET);
    // slot 2: the generated jump to the translated trap handler
    let expect = encode_jump_sequence(TRAP_HANDLER_VA - HIGHMEM_OFFSET);
    for w in 0..5 {
        assert_eq!(word(&m.image.bytes, FIXUP_2 + 4 * w), expect[w]);
    }
    // every byte outside the two slots is still the template's
    for i in 0..m.image.bytes.len() {
        let in_slot_1 = i >= FIXUP_1 && i < FIXUP_1 + 8;
        let in_slot_2 = i >= FIXUP_2 && i < FIXUP_2 + 20;
        if !in_slot_1 && !in_slot_2 {
            assert_eq!(m.image.bytes[i], 0x5A, "byte {} changed", i);
        }
    }
}

#[test]
fn probe_preserves_preseeded_registers_on_four_processors() {
    let mut m = fresh_machine(0x00);
    m.init_init_mm_ptr();
    let _base = m.copy_new_vectors();
    m.helper_for_each_cpu(CpuOp::InitHostContext);
    m.helper_for_each_cpu(CpuOp::ResetVectors);
    let stub_pa = m.highmem_virt_to_phys(STUB_VECTORS_VA);
    m.helper_for_each_cpu(CpuOp::SetVectors(stub_pa));
    m.setup_hyp_stacks();
    m.helper_for_each_cpu(CpuOp::CallInitVectors);
    // pre-seed distinguishable sentinels right before the trap
    for k in 0..NCPUS {
        m.registry.set_saved_reg(k, 1, 0x1);
        m.registry.set_saved_reg(k, 2, 0x2);
        m.registry.set_saved_reg(k, 3, 0x3);
    }
    m.helper_for_each_cpu(CpuOp::CallProbe);
    for k in 0..NCPUS {
        assert_eq!(m.registry.saved_reg(k, 0), 0x333);
        assert_eq!(m.registry.saved_reg(k, 1), 0x1);
        assert_eq!(m.registry.saved_reg(k, 2), 0x2);
        assert_eq!(m.registry.saved_reg(k, 3), 0x3);
        assert_eq!(m.cpus[k].state, HandshakeState::Verified);
    }
}

#[test]
fn flush_ordering_copy_then_slot_1_then_slot_2() {
    let mut m = fresh_machine(0x00);
    m.new_init();
    let base = m.image.base;
    let n = NCPUS;
    // copy, flushed everywhere, before any fixup write
    assert_eq!(m.log[0], Event::CopyVectors { base });
    for k in 0..n {
        assert_eq!(m.log[1 + k], Event::FlushVirt { cpu: k, addr: base });
    }
    // slot 1 written and flushed everywhere ...
    assert_eq!(
        m.log[1 + n],
        Event::WriteFixup1 {
            pa: m.host_dat_va - PHYS_OFFSET
        }
    );
    let f1 = base + FIXUP_1 as u64;
    for k in 0..n {
        assert_eq!(m.log[2 + n + k], Event::FlushVirt { cpu: k, addr: f1 });
    }
    // ... strictly before slot 2 is written and flushed
    assert_eq!(
        m.log[2 + 2 * n],
        Event::WriteFixup2 {
            target_pa: TRAP_HANDLER_VA - HIGHMEM_OFFSET
        }
    );
    let f2 = base + FIXUP_2 as u64;
    for k in 0..n {
        assert_eq!(m.log[3 + 2 * n + k], Event::FlushVirt { cpu: k, addr: f2 });
    }
    // and the whole image flushed once more after patching
    for k in 0..n {
        assert_eq!(m.log[3 + 3 * n + k], Event::FlushVirt { cpu: k, addr: base });
    }
}

#[test]
fn single_processor_and_smallest_template_activate() {
    // one online processor, template exactly as small as the slots allow
    let mut m = Machine::new(
        1,
        vec![0xEE; 0x824],
        PHYS_OFFSET,
        HIGHMEM_OFFSET,
        TRAP_HANDLER_VA,
        STUB_VECTORS_VA,
        ALLOC_BASE,
    );
    assert_eq!(m.new_init(), 0);
    assert_eq!(m.cpus[0].state, HandshakeState::Verified);
    assert_eq!(m.registry.host_dat[0].host_ctxt.regs[0], 0x333);
}

#[test]
fn helper_arithmetic_is_exact() {
    assert_eq!(stack_top(0x1000), 0x1000 + 16384);
    assert_eq!(addr_new_vectors(0x10000, FIXUP_2), 0x10810);
    let m = fresh_machine(0x00);
    assert_eq!(m.num_online_cpus(), NCPUS);
    assert_eq!(m.virt_to_phys(0x2000), 0x1000);
}
