//! A verified model of an ARM64 hypervisor vector-table relocation and hijack
//! subsystem: machine-code synthesis for an absolute jump, a relocated vector
//! image with two fixup slots, a per-processor host-state registry published
//! once and read many times, the per-processor hypercall handshake that
//! switches a processor onto the new vectors, and the trap handler that marks
//! intercepted hypervisor calls in the saved register file.
//!
//! Hardware services (cache maintenance, address translation, the contiguous
//! allocator, the cross-processor driver and the hypercall instruction) are
//! modelled by an explicit machine state, so that the ordering and fixup logic
//! is checked for every processor count and every address the model admits.

pub mod context;
pub mod encoder;
pub mod handshake;
pub mod image;
pub mod machine;
pub mod registry;
pub mod trap;
