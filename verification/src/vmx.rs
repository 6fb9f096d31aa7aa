//! Per-core virtualization support: probing the processor for the
//! virtualization extension, reading the control-block revision identifier
//! out of the hardware's basic capability value, and translating the
//! two-condition-flag failure report of a virtualization instruction into a
//! typed error.

use vstd::prelude::*;

use crate::definitions::{spec_instruction_error_str, VmxInstructionError};
use crate::err::HvError;

verus! {

/// Returns whether the current platform supports the virtualization
/// extension.
///
/// Relies on raw_cpuid::CpuId: reads the processor's feature-identification
/// leaf and reports its VMX bit. The result depends on the machine the call
/// runs on, so nothing is promised of it.
#[verifier::external_body]
pub fn has_hardware_support() -> bool {
    raw_cpuid::CpuId::new().get_feature_info().map(|f| f.has_vmx()).unwrap_or(false)
}

/// Extracts the control-block revision identifier from a raw value of the
/// hardware's basic capability register: its low 31 bits (the register's bit
/// 31 is always zero). A control block's backing page must be tagged with
/// this identifier before first use.
pub fn read_vmcs_revision_id(vmx_basic: u64) -> (r: u32)
    ensures
        r == vmx_basic & 0x7fff_ffff,
{
    proof {
        assert((vmx_basic & 0x7fff_ffff) as u32 == vmx_basic & 0x7fff_ffff) by (bit_vector);
    }
    (vmx_basic & 0x7fff_ffff) as u32
}

/// The two ways a virtualization instruction reports failure through the
/// processor condition flags: with a valid current control block, in which
/// case a detailed error number was recorded and can be read back, or
/// without one, in which case no detail is available.
#[derive(Debug, Clone, Copy, PartialEq, Eq, Structural)]
pub enum VmFail {
    /// A current control block is valid; the VM-instruction error field holds
    /// the detailed error number.
    VmFailValid,
    /// The control-block pointer is not valid; no detail was recorded.
    VmFailInvalid,
}

/// Translates a hardware failure report into a typed bad-state error: the
/// decoded VM-instruction error description when the hardware recorded one,
/// or the generic invalid-pointer message when it did not.
/// `instruction_error` is the value read from the VM-instruction error field
/// and is consulted only in the former case.
pub fn decode_vm_fail(fail: VmFail, instruction_error: u32) -> (r: HvError)
    ensures
        fail is VmFailValid ==> (r matches HvError::BadState(s) && s@ == spec_instruction_error_str(
            instruction_error,
        )),
        fail is VmFailInvalid ==> (r matches HvError::BadState(s) && s@
            == "VMCS pointer is not valid"@),
{
    match fail {
        VmFail::VmFailValid => {
            let detail = VmxInstructionError(instruction_error);
            HvError::BadState(detail.as_str())
        },
        VmFail::VmFailInvalid => HvError::BadState("VMCS pointer is not valid"),
    }
}

} // verus!
