//! Virtual GICv3 / GICv3-ITS interrupt-controller state capture and restore.
//!
//! This library models the register-state save/restore engine of a virtual
//! ARM Generic Interrupt Controller as used by a virtual-machine monitor.
//! Register accesses go through the [`transport::GicTransport`] trait, a
//! device-attribute interface in the style of the kernel virtualization ABI;
//! the engines, the register enumerations, the guest memory layout and the
//! snapshot encoding are verified against a register-file model.

pub mod device;
pub mod gicv3;
pub mod gicv3_its;
pub mod layout;
pub mod mem_transport;
pub mod regs;
pub mod snapshot;
pub mod transport;
