use kvmrsk::context::CpuContext;
use kvmrsk::registry::{HostState, Registry};

fn blocks(n: usize) -> Vec<HostState> {
    let mut v = Vec::new();
    for _ in 0..n {
        v.push(HostState {
            host_ctxt: CpuContext::new(),
        });
    }
    v
}

#[test]
fn nothing_observed_before_publication() {
    let r = Registry::new(2);
    assert!(r.observe_host(0).is_none());
    assert!(r.observe_host(1).is_none());
    assert!(r.observe_stack(0).is_none());
    assert!(r.observe_stack(1).is_none());
}

#[test]
fn publication_makes_own_entry_observable() {
    let mut r = Registry::new(2);
    r.publish_host_dat(blocks(2));
    assert!(r.observe_host(0).is_some());
    assert!(r.observe_host(1).is_some());
    // an ordinal beyond the online processors observes nothing
    assert!(r.observe_host(2).is_none());
    // the stack array is published separately, and is not observable yet
    assert!(r.observe_stack(0).is_none());
}

#[test]
fn stack_slots_observable_after_publication() {
    let mut r = Registry::new(2);
    r.publish_hyp_stack(vec![0, 0]);
    assert_eq!(r.observe_stack(0), Some(0));
    r.set_stack(1, 0x8000);
    assert_eq!(r.observe_stack(1), Some(0x8000));
    assert_eq!(r.stack_of(1), 0x8000);
    assert!(r.observe_stack(2).is_none());
}

#[test]
fn saved_registers_read_back() {
    let mut r = Registry::new(1);
    r.publish_host_dat(blocks(1));
    assert_eq!(r.saved_reg(0, 4), 0);
    r.set_saved_reg(0, 4, 0xCAFE);
    assert_eq!(r.saved_reg(0, 4), 0xCAFE);
    assert_eq!(r.saved_reg(0, 5), 0);
}
