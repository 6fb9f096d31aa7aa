//! Building blocks for an x86 hardware-assisted virtualization layer: the
//! guest general-purpose register file, the taxonomy of VM exits and
//! interruption events, and physical frames backing the per-vCPU control
//! structures.

pub mod definitions;
pub mod diff;
pub mod err;
pub mod frame;
pub mod regs;
pub mod vmx;

pub use definitions::{VmxExitReason, VmxInstructionError, VmxInterruptionType};
pub use diff::GeneralRegistersDiff;
pub use err::HvError;
pub use frame::{FrameHal, PhysFrame};
pub use regs::GeneralRegisters;
pub use vmx::has_hardware_support;

use vstd::prelude::*;

verus! {

/// Size in bytes of one physical memory frame.
pub const PAGE_SIZE: usize = 4096;

} // verus!
