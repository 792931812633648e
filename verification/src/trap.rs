//! The trap handler that runs at the hijacked vector entry: it classifies the
//! trap by the exception-class field of the syndrome value and marks
//! intercepted hypervisor calls in the saved register file.

use crate::context::CpuContext;
use vstd::prelude::*;

verus! {

/// Bit position of the exception-class field inside a syndrome value.
pub const ESR_EC_SHIFT: u64 = 26;
/// Width mask of the exception-class field (bits [31:26] of the syndrome).
pub const ESR_EC_MASK: u64 = 0x3F;
/// Exception class of a hypervisor call from an equal or lower level.
pub const EC_HVC: u64 = 0x16;
/// The sentinel the handler stores in saved register 0 of an intercepted
/// hypervisor call: the observable proof that the hijack took the trap.
pub const TRAP_SENTINEL: u64 = 0x333;

/// The exception-class field of a syndrome value.
pub open spec fn exception_class(esr: u64) -> u64 {
    (esr >> ESR_EC_SHIFT) & ESR_EC_MASK
}

/// Whether a syndrome value reports a hypervisor call.
pub open spec fn is_hvc_trap(esr: u64) -> bool {
    exception_class(esr) == EC_HVC
}

/// How the handler transforms a saved register file on a hypervisor-call
/// trap: register 0 becomes the sentinel, everything else is kept.
pub open spec fn hvc_handled(pre: CpuContext, post: CpuContext) -> bool {
    &&& post.regs@ == pre.regs@.update(0, TRAP_SENTINEL)
    &&& post.pc == pre.pc
}

/// The trap handler. Given the syndrome value the hardware presents for the
/// current trap and the trapping processor's saved register file: if the
/// exception class reports a hypervisor call, set saved register 0 to the
/// sentinel; any other class leaves the register file untouched.
pub fn new_handle_trap(esr: u64, host_ctxt: &mut CpuContext)
    requires
        old(host_ctxt).wf(),
    ensures
        final(host_ctxt).wf(),
        is_hvc_trap(esr) ==> hvc_handled(*old(host_ctxt), *final(host_ctxt)),
        !is_hvc_trap(esr) ==> *final(host_ctxt) == *old(host_ctxt),
{
    if (esr >> 26) & 0x3F == 0x16 {
        host_ctxt.set_reg(0, TRAP_SENTINEL);
    }
}

/// The syndrome value a hypervisor-call trap presents, as synthesized by the
/// machine model: the hypervisor-call class in bits [31:26], nothing else.
pub fn hvc_syndrome() -> (esr: u64)
    ensures
        is_hvc_trap(esr),
{
    proof {
        assert(((0x16u64 << 26) >> 26) & 0x3F == 0x16) by (bit_vector);
    }
    EC_HVC << 26
}

} // verus!
