use kvmrsk::context::CpuContext;
use kvmrsk::trap::new_handle_trap;

#[test]
fn hvc_class_sets_sentinel_and_keeps_other_registers() {
    let mut ctxt = CpuContext::new();
    ctxt.set_reg(1, 0x1);
    ctxt.set_reg(2, 0x2);
    ctxt.set_reg(3, 0x3);
    // exception class 0x16 in bits [31:26], arbitrary syndrome detail below
    let esr: u64 = (0x16 << 26) | 0x1234;
    new_handle_trap(esr, &mut ctxt);
    assert_eq!(ctxt.reg(0), 0x333);
    assert_eq!(ctxt.reg(1), 0x1);
    assert_eq!(ctxt.reg(2), 0x2);
    assert_eq!(ctxt.reg(3), 0x3);
    for r in 4..31 {
        assert_eq!(ctxt.reg(r), 0);
    }
    assert_eq!(ctxt.pc, 0);
}

#[test]
fn other_class_leaves_every_register_untouched() {
    let mut ctxt = CpuContext::new();
    ctxt.set_reg(0, 0xAAAA);
    ctxt.set_reg(7, 0xBBBB);
    // exception class 0x15, one bit away from the hypervisor-call class
    let esr: u64 = 0x15 << 26;
    new_handle_trap(esr, &mut ctxt);
    assert_eq!(ctxt.reg(0), 0xAAAA);
    assert_eq!(ctxt.reg(7), 0xBBBB);
}

#[test]
fn class_bits_outside_mask_do_not_match() {
    let mut ctxt = CpuContext::new();
    // all syndrome detail bits set, but class 0: not a hypervisor call
    let esr: u64 = 0x03FF_FFFF;
    new_handle_trap(esr, &mut ctxt);
    assert_eq!(ctxt.reg(0), 0);
}

#[test]
fn fresh_context_is_zeroed() {
    let ctxt = CpuContext::new();
    for r in 0..31 {
        assert_eq!(ctxt.reg(r), 0);
    }
    assert_eq!(ctxt.pc, 0);
    assert_eq!(ctxt.regs.len(), 31);
}
