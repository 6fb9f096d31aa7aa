//! The closed taxonomy of VM exits and interruption events, and the decoding
//! of VM-instruction error numbers, with their exact architectural numeric
//! encodings.

use vstd::prelude::*;

verus! {

/// The hardware-defined meaning of a VM-instruction error number; numbers the
/// architecture leaves unassigned render as a diagnostic placeholder.
pub open spec fn spec_instruction_error_str(code: u32) -> Seq<char> {
    if code == 0 {
        "OK"@
    } else if code == 1 {
        "VMCALL executed in VMX root operation"@
    } else if code == 2 {
        "VMCLEAR with invalid physical address"@
    } else if code == 3 {
        "VMCLEAR with VMXON pointer"@
    } else if code == 4 {
        "VMLAUNCH with non-clear VMCS"@
    } else if code == 5 {
        "VMRESUME with non-launched VMCS"@
    } else if code == 6 {
        "VMRESUME after VMXOFF (VMXOFF and VMXON between VMLAUNCH and VMRESUME)"@
    } else if code == 7 {
        "VM entry with invalid control field(s)"@
    } else if code == 8 {
        "VM entry with invalid host-state field(s)"@
    } else if code == 9 {
        "VMPTRLD with invalid physical address"@
    } else if code == 10 {
        "VMPTRLD with VMXON pointer"@
    } else if code == 11 {
        "VMPTRLD with incorrect VMCS revision identifier"@
    } else if code == 12 {
        "VMREAD/VMWRITE from/to unsupported VMCS component"@
    } else if code == 13 {
        "VMWRITE to read-only VMCS component"@
    } else if code == 15 {
        "VMXON executed in VMX root operation"@
    } else if code == 16 {
        "VM entry with invalid executive-VMCS pointer"@
    } else if code == 17 {
        "VM entry with non-launched executive VMCS"@
    } else if code == 18 {
        "VM entry with executive-VMCS pointer not VMXON pointer (when attempting to deactivate the dual-monitor treatment of SMIs and SMM)"@
    } else if code == 19 {
        "VMCALL with non-clear VMCS (when attempting to activate the dual-monitor treatment of SMIs and SMM)"@
    } else if code == 20 {
        "VMCALL with invalid VM-exit control fields"@
    } else if code == 22 {
        "VMCALL with incorrect MSEG revision identifier (when attempting to activate the dual-monitor treatment of SMIs and SMM)"@
    } else if code == 23 {
        "VMXOFF under dual-monitor treatment of SMIs and SMM"@
    } else if code == 24 {
        "VMCALL with invalid SMM-monitor features (when attempting to activate the dual-monitor treatment of SMIs and SMM)"@
    } else if code == 25 {
        "VM entry with invalid VM-execution control fields in executive VMCS (when attempting to return from SMM)"@
    } else if code == 26 {
        "VM entry with events blocked by MOV SS"@
    } else if code == 28 {
        "Invalid operand to INVEPT/INVVPID"@
    } else {
        "[INVALID]"@
    }
}

/// A VM-instruction error number, as recorded by the hardware when a
/// virtualization instruction fails with a valid control block loaded.
#[derive(Debug, Clone, Copy, PartialEq, Eq, Structural)]
pub struct VmxInstructionError(pub u32);

impl VmxInstructionError {
    /// The hardware-defined description of this error number; an unassigned
    /// number degrades to the placeholder `"[INVALID]"` rather than failing,
    /// since the description serves human-readable reporting only.
    pub fn as_str(&self) -> (r: &'static str)
        ensures
            r@ == spec_instruction_error_str(self.0),
    {
        match self.0 {
            0 => "OK",
            1 => "VMCALL executed in VMX root operation",
            2 => "VMCLEAR with invalid physical address",
            3 => "VMCLEAR with VMXON pointer",
            4 => "VMLAUNCH with non-clear VMCS",
            5 => "VMRESUME with non-launched VMCS",
            6 => "VMRESUME after VMXOFF (VMXOFF and VMXON between VMLAUNCH and VMRESUME)",
            7 => "VM entry with invalid control field(s)",
            8 => "VM entry with invalid host-state field(s)",
            9 => "VMPTRLD with invalid physical address",
            10 => "VMPTRLD with VMXON pointer",
            11 => "VMPTRLD with incorrect VMCS revision identifier",
            12 => "VMREAD/VMWRITE from/to unsupported VMCS component",
            13 => "VMWRITE to read-only VMCS component",
            15 => "VMXON executed in VMX root operation",
            16 => "VM entry with invalid executive-VMCS pointer",
            17 => "VM entry with non-launched executive VMCS",
            18 => "VM entry with executive-VMCS pointer not VMXON pointer (when attempting to deactivate the dual-monitor treatment of SMIs and SMM)",
            19 => "VMCALL with non-clear VMCS (when attempting to activate the dual-monitor treatment of SMIs and SMM)",
            20 => "VMCALL with invalid VM-exit control fields",
            22 => "VMCALL with incorrect MSEG revision identifier (when attempting to activate the dual-monitor treatment of SMIs and SMM)",
            23 => "VMXOFF under dual-monitor treatment of SMIs and SMM",
            24 => "VMCALL with invalid SMM-monitor features (when attempting to activate the dual-monitor treatment of SMIs and SMM)",
            25 => "VM entry with invalid VM-execution control fields in executive VMCS (when attempting to return from SMM)",
            26 => "VM entry with events blocked by MOV SS",
            28 => "Invalid operand to INVEPT/INVVPID",
            _ => "[INVALID]",
        }
    }
}

impl From<u32> for VmxInstructionError {
    /// Wraps a raw error number.
    fn from(value: u32) -> (r: Self) {
        VmxInstructionError(value)
    }
}

impl vstd::std_specs::convert::FromSpecImpl<u32> for VmxInstructionError {
    open spec fn obeys_from_spec() -> bool {
        true
    }

    open spec fn from_spec(value: u32) -> Self {
        VmxInstructionError(value)
    }
}

/// True exactly for the numeric codes that the architecture assigns to a
/// basic exit reason: 0 through 69, with 35, 38 and 42 unassigned.
pub open spec fn exit_reason_defined(value: u32) -> bool {
    value <= 69 && value != 35 && value != 38 && value != 42
}

/// VMX basic exit reasons: the closed, architecturally numbered
/// classification of why control returned from guest execution to the host.
#[derive(Debug, Clone, Copy, PartialEq, Eq, Structural)]
#[allow(non_camel_case_types)]
pub enum VmxExitReason {
    /// Exception or non-maskable interrupt (NMI) occurred.
    EXCEPTION_NMI,
    /// An external interrupt was received.
    EXTERNAL_INTERRUPT,
    /// A triple fault occurred.
    TRIPLE_FAULT,
    /// INIT signal was received.
    INIT,
    /// Startup IPI (SIPI) was received.
    SIPI,
    /// System Management Interrupt (SMI) was received.
    SMI,
    /// Other SMI was received.
    OTHER_SMI,
    /// An interrupt window was open.
    INTERRUPT_WINDOW,
    /// An NMI window was open.
    NMI_WINDOW,
    /// A task switch occurred.
    TASK_SWITCH,
    /// CPUID instruction was executed.
    CPUID,
    /// GETSEC instruction was executed.
    GETSEC,
    /// HLT instruction was executed.
    HLT,
    /// INVD instruction was executed.
    INVD,
    /// INVLPG instruction was executed.
    INVLPG,
    /// RDPMC instruction was executed.
    RDPMC,
    /// RDTSC instruction was executed.
    RDTSC,
    /// RSM instruction was executed in SMM.
    RSM,
    /// VMCALL instruction was executed.
    VMCALL,
    /// VMCLEAR instruction was executed.
    VMCLEAR,
    /// VMLAUNCH instruction was executed.
    VMLAUNCH,
    /// VMPTRLD instruction was executed.
    VMPTRLD,
    /// VMPTRST instruction was executed.
    VMPTRST,
    /// VMREAD instruction was executed.
    VMREAD,
    /// VMRESUME instruction was executed.
    VMRESUME,
    /// VMWRITE instruction was executed.
    VMWRITE,
    /// VMOFF instruction was executed.
    VMOFF,
    /// VMON instruction was executed.
    VMON,
    /// Control Register (CR) access.
    CR_ACCESS,
    /// Debug Register (DR) access.
    DR_ACCESS,
    /// I/O instruction was executed.
    IO_INSTRUCTION,
    /// Model-Specific Register (MSR) read.
    MSR_READ,
    /// Model-Specific Register (MSR) write.
    MSR_WRITE,
    /// Guest state is invalid.
    INVALID_GUEST_STATE,
    /// MSR load failed.
    MSR_LOAD_FAIL,
    /// MWAIT instruction was executed.
    MWAIT_INSTRUCTION,
    /// Monitor trap flag triggered.
    MONITOR_TRAP_FLAG,
    /// MONITOR instruction was executed.
    MONITOR_INSTRUCTION,
    /// PAUSE instruction was executed.
    PAUSE_INSTRUCTION,
    /// Machine Check Exception (MCE) occurred during VM entry.
    MCE_DURING_VMENTRY,
    /// Task Priority Register (TPR) below threshold.
    TPR_BELOW_THRESHOLD,
    /// Access to Advanced Programmable Interrupt Controller (APIC).
    APIC_ACCESS,
    /// Virtualized End Of Interrupt (EOI) was executed.
    VIRTUALIZED_EOI,
    /// Access to Global or Interrupt Descriptor Table Register (GDTR/IDTR).
    GDTR_IDTR,
    /// Access to Local Descriptor Table Register (LDTR) or Task Register (TR).
    LDTR_TR,
    /// Extended Page Table (EPT) violation occurred.
    EPT_VIOLATION,
    /// Extended Page Table (EPT) misconfiguration occurred.
    EPT_MISCONFIG,
    /// INVEPT instruction was executed.
    INVEPT,
    /// RDTSCP instruction was executed.
    RDTSCP,
    /// Preemption timer expired.
    PREEMPTION_TIMER,
    /// INVVPID instruction was executed.
    INVVPID,
    /// WBINVD instruction was executed.
    WBINVD,
    /// XSETBV instruction was executed.
    XSETBV,
    /// APIC write occurred.
    APIC_WRITE,
    /// RDRAND instruction was executed.
    RDRAND,
    /// INVPCID instruction was executed.
    INVPCID,
    /// VMFUNC was executed.
    VMFUNC,
    /// ENCLS instruction was executed.
    ENCLS,
    /// RDSEED instruction was executed.
    RDSEED,
    /// Page modification log (PML) became full.
    PML_FULL,
    /// XSAVES instruction was executed.
    XSAVES,
    /// XRSTORS instruction was executed.
    XRSTORS,
    /// PCONFIG instruction was executed.
    PCONFIG,
    /// SPP event occurred.
    SPP_EVENT,
    /// UMWAIT instruction was executed.
    UMWAIT,
    /// TPAUSE instruction was executed.
    TPAUSE,
    /// LOADIWKEY instruction was executed.
    LOADIWKEY,
}

impl VmxExitReason {
    /// The architectural numeric code of this exit reason. The encoding is a
    /// binary-compatibility contract with the hardware, not a choice.
    pub open spec fn code(self) -> u32 {
        match self {
            VmxExitReason::EXCEPTION_NMI => 0,
            VmxExitReason::EXTERNAL_INTERRUPT => 1,
            VmxExitReason::TRIPLE_FAULT => 2,
            VmxExitReason::INIT => 3,
            VmxExitReason::SIPI => 4,
            VmxExitReason::SMI => 5,
            VmxExitReason::OTHER_SMI => 6,
            VmxExitReason::INTERRUPT_WINDOW => 7,
            VmxExitReason::NMI_WINDOW => 8,
            VmxExitReason::TASK_SWITCH => 9,
            VmxExitReason::CPUID => 10,
            VmxExitReason::GETSEC => 11,
            VmxExitReason::HLT => 12,
            VmxExitReason::INVD => 13,
            VmxExitReason::INVLPG => 14,
            VmxExitReason::RDPMC => 15,
            VmxExitReason::RDTSC => 16,
            VmxExitReason::RSM => 17,
            VmxExitReason::VMCALL => 18,
            VmxExitReason::VMCLEAR => 19,
            VmxExitReason::VMLAUNCH => 20,
            VmxExitReason::VMPTRLD => 21,
            VmxExitReason::VMPTRST => 22,
            VmxExitReason::VMREAD => 23,
            VmxExitReason::VMRESUME => 24,
            VmxExitReason::VMWRITE => 25,
            VmxExitReason::VMOFF => 26,
            VmxExitReason::VMON => 27,
            VmxExitReason::CR_ACCESS => 28,
            VmxExitReason::DR_ACCESS => 29,
            VmxExitReason::IO_INSTRUCTION => 30,
            VmxExitReason::MSR_READ => 31,
            VmxExitReason::MSR_WRITE => 32,
            VmxExitReason::INVALID_GUEST_STATE => 33,
            VmxExitReason::MSR_LOAD_FAIL => 34,
            VmxExitReason::MWAIT_INSTRUCTION => 36,
            VmxExitReason::MONITOR_TRAP_FLAG => 37,
            VmxExitReason::MONITOR_INSTRUCTION => 39,
            VmxExitReason::PAUSE_INSTRUCTION => 40,
            VmxExitReason::MCE_DURING_VMENTRY => 41,
            VmxExitReason::TPR_BELOW_THRESHOLD => 43,
            VmxExitReason::APIC_ACCESS => 44,
            VmxExitReason::VIRTUALIZED_EOI => 45,
            VmxExitReason::GDTR_IDTR => 46,
            VmxExitReason::LDTR_TR => 47,
            VmxExitReason::EPT_VIOLATION => 48,
            VmxExitReason::EPT_MISCONFIG => 49,
            VmxExitReason::INVEPT => 50,
            VmxExitReason::RDTSCP => 51,
            VmxExitReason::PREEMPTION_TIMER => 52,
            VmxExitReason::INVVPID => 53,
            VmxExitReason::WBINVD => 54,
            VmxExitReason::XSETBV => 55,
            VmxExitReason::APIC_WRITE => 56,
            VmxExitReason::RDRAND => 57,
            VmxExitReason::INVPCID => 58,
            VmxExitReason::VMFUNC => 59,
            VmxExitReason::ENCLS => 60,
            VmxExitReason::RDSEED => 61,
            VmxExitReason::PML_FULL => 62,
            VmxExitReason::XSAVES => 63,
            VmxExitReason::XRSTORS => 64,
            VmxExitReason::PCONFIG => 65,
            VmxExitReason::SPP_EVENT => 66,
            VmxExitReason::UMWAIT => 67,
            VmxExitReason::TPAUSE => 68,
            VmxExitReason::LOADIWKEY => 69,
        }
    }

    /// Returns the architectural numeric code of this exit reason.
    pub fn as_u32(&self) -> (r: u32)
        ensures
            r == self.code(),
    {
        match self {
            VmxExitReason::EXCEPTION_NMI => 0,
            VmxExitReason::EXTERNAL_INTERRUPT => 1,
            VmxExitReason::TRIPLE_FAULT => 2,
            VmxExitReason::INIT => 3,
            VmxExitReason::SIPI => 4,
            VmxExitReason::SMI => 5,
            VmxExitReason::OTHER_SMI => 6,
            VmxExitReason::INTERRUPT_WINDOW => 7,
            VmxExitReason::NMI_WINDOW => 8,
            VmxExitReason::TASK_SWITCH => 9,
            VmxExitReason::CPUID => 10,
            VmxExitReason::GETSEC => 11,
            VmxExitReason::HLT => 12,
            VmxExitReason::INVD => 13,
            VmxExitReason::INVLPG => 14,
            VmxExitReason::RDPMC => 15,
            VmxExitReason::RDTSC => 16,
            VmxExitReason::RSM => 17,
            VmxExitReason::VMCALL => 18,
            VmxExitReason::VMCLEAR => 19,
            VmxExitReason::VMLAUNCH => 20,
            VmxExitReason::VMPTRLD => 21,
            VmxExitReason::VMPTRST => 22,
            VmxExitReason::VMREAD => 23,
            VmxExitReason::VMRESUME => 24,
            VmxExitReason::VMWRITE => 25,
            VmxExitReason::VMOFF => 26,
            VmxExitReason::VMON => 27,
            VmxExitReason::CR_ACCESS => 28,
            VmxExitReason::DR_ACCESS => 29,
            VmxExitReason::IO_INSTRUCTION => 30,
            VmxExitReason::MSR_READ => 31,
            VmxExitReason::MSR_WRITE => 32,
            VmxExitReason::INVALID_GUEST_STATE => 33,
            VmxExitReason::MSR_LOAD_FAIL => 34,
            VmxExitReason::MWAIT_INSTRUCTION => 36,
            VmxExitReason::MONITOR_TRAP_FLAG => 37,
            VmxExitReason::MONITOR_INSTRUCTION => 39,
            VmxExitReason::PAUSE_INSTRUCTION => 40,
            VmxExitReason::MCE_DURING_VMENTRY => 41,
            VmxExitReason::TPR_BELOW_THRESHOLD => 43,
            VmxExitReason::APIC_ACCESS => 44,
            VmxExitReason::VIRTUALIZED_EOI => 45,
            VmxExitReason::GDTR_IDTR => 46,
            VmxExitReason::LDTR_TR => 47,
            VmxExitReason::EPT_VIOLATION => 48,
            VmxExitReason::EPT_MISCONFIG => 49,
            VmxExitReason::INVEPT => 50,
            VmxExitReason::RDTSCP => 51,
            VmxExitReason::PREEMPTION_TIMER => 52,
            VmxExitReason::INVVPID => 53,
            VmxExitReason::WBINVD => 54,
            VmxExitReason::XSETBV => 55,
            VmxExitReason::APIC_WRITE => 56,
            VmxExitReason::RDRAND => 57,
            VmxExitReason::INVPCID => 58,
            VmxExitReason::VMFUNC => 59,
            VmxExitReason::ENCLS => 60,
            VmxExitReason::RDSEED => 61,
            VmxExitReason::PML_FULL => 62,
            VmxExitReason::XSAVES => 63,
            VmxExitReason::XRSTORS => 64,
            VmxExitReason::PCONFIG => 65,
            VmxExitReason::SPP_EVENT => 66,
            VmxExitReason::UMWAIT => 67,
            VmxExitReason::TPAUSE => 68,
            VmxExitReason::LOADIWKEY => 69,
        }
    }

    /// Decodes a raw numeric code into its exit reason. A code outside the
    /// assigned table is a hard decode failure, reported as `Err` with the
    /// offending value, never a silent default.
    pub fn try_from(value: u32) -> (r: Result<VmxExitReason, u32>)
        ensures
            r is Ok <==> exit_reason_defined(value),
            r matches Ok(reason) ==> reason.code() == value,
            r matches Err(raw) ==> raw == value,
    {
        match value {
            0 => Ok(VmxExitReason::EXCEPTION_NMI),
            1 => Ok(VmxExitReason::EXTERNAL_INTERRUPT),
            2 => Ok(VmxExitReason::TRIPLE_FAULT),
            3 => Ok(VmxExitReason::INIT),
            4 => Ok(VmxExitReason::SIPI),
            5 => Ok(VmxExitReason::SMI),
            6 => Ok(VmxExitReason::OTHER_SMI),
            7 => Ok(VmxExitReason::INTERRUPT_WINDOW),
            8 => Ok(VmxExitReason::NMI_WINDOW),
            9 => Ok(VmxExitReason::TASK_SWITCH),
            10 => Ok(VmxExitReason::CPUID),
            11 => Ok(VmxExitReason::GETSEC),
            12 => Ok(VmxExitReason::HLT),
            13 => Ok(VmxExitReason::INVD),
            14 => Ok(VmxExitReason::INVLPG),
            15 => Ok(VmxExitReason::RDPMC),
            16 => Ok(VmxExitReason::RDTSC),
            17 => Ok(VmxExitReason::RSM),
            18 => Ok(VmxExitReason::VMCALL),
            19 => Ok(VmxExitReason::VMCLEAR),
            20 => Ok(VmxExitReason::VMLAUNCH),
            21 => Ok(VmxExitReason::VMPTRLD),
            22 => Ok(VmxExitReason::VMPTRST),
            23 => Ok(VmxExitReason::VMREAD),
            24 => Ok(VmxExitReason::VMRESUME),
            25 => Ok(VmxExitReason::VMWRITE),
            26 => Ok(VmxExitReason::VMOFF),
            27 => Ok(VmxExitReason::VMON),
            28 => Ok(VmxExitReason::CR_ACCESS),
            29 => Ok(VmxExitReason::DR_ACCESS),
            30 => Ok(VmxExitReason::IO_INSTRUCTION),
            31 => Ok(VmxExitReason::MSR_READ),
            32 => Ok(VmxExitReason::MSR_WRITE),
            33 => Ok(VmxExitReason::INVALID_GUEST_STATE),
            34 => Ok(VmxExitReason::MSR_LOAD_FAIL),
            36 => Ok(VmxExitReason::MWAIT_INSTRUCTION),
            37 => Ok(VmxExitReason::MONITOR_TRAP_FLAG),
            39 => Ok(VmxExitReason::MONITOR_INSTRUCTION),
            40 => Ok(VmxExitReason::PAUSE_INSTRUCTION),
            41 => Ok(VmxExitReason::MCE_DURING_VMENTRY),
            43 => Ok(VmxExitReason::TPR_BELOW_THRESHOLD),
            44 => Ok(VmxExitReason::APIC_ACCESS),
            45 => Ok(VmxExitReason::VIRTUALIZED_EOI),
            46 => Ok(VmxExitReason::GDTR_IDTR),
            47 => Ok(VmxExitReason::LDTR_TR),
            48 => Ok(VmxExitReason::EPT_VIOLATION),
            49 => Ok(VmxExitReason::EPT_MISCONFIG),
            50 => Ok(VmxExitReason::INVEPT),
            51 => Ok(VmxExitReason::RDTSCP),
            52 => Ok(VmxExitReason::PREEMPTION_TIMER),
            53 => Ok(VmxExitReason::INVVPID),
            54 => Ok(VmxExitReason::WBINVD),
            55 => Ok(VmxExitReason::XSETBV),
            56 => Ok(VmxExitReason::APIC_WRITE),
            57 => Ok(VmxExitReason::RDRAND),
            58 => Ok(VmxExitReason::INVPCID),
            59 => Ok(VmxExitReason::VMFUNC),
            60 => Ok(VmxExitReason::ENCLS),
            61 => Ok(VmxExitReason::RDSEED),
            62 => Ok(VmxExitReason::PML_FULL),
            63 => Ok(VmxExitReason::XSAVES),
            64 => Ok(VmxExitReason::XRSTORS),
            65 => Ok(VmxExitReason::PCONFIG),
            66 => Ok(VmxExitReason::SPP_EVENT),
            67 => Ok(VmxExitReason::UMWAIT),
            68 => Ok(VmxExitReason::TPAUSE),
            69 => Ok(VmxExitReason::LOADIWKEY),
            _ => Err(value),
        }
    }
}

/// The interruption type carried in bits 10:8 of the VM-entry and VM-exit
/// interruption-information fields.
#[derive(Debug, Clone, Copy, PartialEq, Eq, Structural)]
pub enum VmxInterruptionType {
    /// External interrupt
    External,
    /// Reserved
    Reserved,
    /// Non-maskable interrupt (NMI)
    NMI,
    /// Hardware exception (e.g., #PF)
    HardException,
    /// Software interrupt (INT n)
    SoftIntr,
    /// Privileged software exception (INT1)
    PrivSoftException,
    /// Software exception (INT3 or INTO)
    SoftException,
    /// Other event
    Other,
}

/// The interruption type an injected interrupt vector classifies as:
/// vector 1 (debug) is a privileged software exception, vector 2 is an NMI,
/// vectors 3 (breakpoint) and 4 (overflow) are software exceptions, every
/// other vector up to 21 is a hardware exception, vectors 32 through 255 are
/// external interrupts, and the remaining vectors (22 through 31) are other
/// events.
pub open spec fn spec_interruption_type_of_vector(vector: u8) -> VmxInterruptionType {
    if vector == 1 {
        VmxInterruptionType::PrivSoftException
    } else if vector == 2 {
        VmxInterruptionType::NMI
    } else if vector == 3 || vector == 4 {
        VmxInterruptionType::SoftException
    } else if vector <= 21 {
        VmxInterruptionType::HardException
    } else if vector >= 32 {
        VmxInterruptionType::External
    } else {
        VmxInterruptionType::Other
    }
}

/// True exactly for the exception vectors that the hardware pushes an error
/// code for: double fault (8), invalid TSS (10), segment not present (11),
/// stack fault (12), general protection (13), page fault (14) and alignment
/// check (17).
pub open spec fn spec_vector_has_error_code(vector: u8) -> bool {
    vector == 8 || vector == 10 || vector == 11 || vector == 12 || vector == 13 || vector == 14
        || vector == 17
}

impl VmxInterruptionType {
    /// The 3-bit encoding of this interruption type, as the hardware reports
    /// and accepts it; a binary-compatibility contract with the architecture.
    pub open spec fn code(self) -> u8 {
        match self {
            VmxInterruptionType::External => 0,
            VmxInterruptionType::Reserved => 1,
            VmxInterruptionType::NMI => 2,
            VmxInterruptionType::HardException => 3,
            VmxInterruptionType::SoftIntr => 4,
            VmxInterruptionType::PrivSoftException => 5,
            VmxInterruptionType::SoftException => 6,
            VmxInterruptionType::Other => 7,
        }
    }

    /// Returns the 3-bit encoding of this interruption type.
    pub fn as_u8(&self) -> (r: u8)
        ensures
            r == self.code(),
    {
        match self {
            VmxInterruptionType::External => 0,
            VmxInterruptionType::Reserved => 1,
            VmxInterruptionType::NMI => 2,
            VmxInterruptionType::HardException => 3,
            VmxInterruptionType::SoftIntr => 4,
            VmxInterruptionType::PrivSoftException => 5,
            VmxInterruptionType::SoftException => 6,
            VmxInterruptionType::Other => 7,
        }
    }

    /// Decodes a hardware-reported 3-bit interruption type; a value above 7
    /// cannot come from the 3-bit field and is rejected with the raw value.
    pub fn try_from(value: u8) -> (r: Result<VmxInterruptionType, u8>)
        ensures
            r is Ok <==> value <= 7,
            r matches Ok(t) ==> t.code() == value,
            r matches Err(raw) ==> raw == value,
    {
        match value {
            0 => Ok(VmxInterruptionType::External),
            1 => Ok(VmxInterruptionType::Reserved),
            2 => Ok(VmxInterruptionType::NMI),
            3 => Ok(VmxInterruptionType::HardException),
            4 => Ok(VmxInterruptionType::SoftIntr),
            5 => Ok(VmxInterruptionType::PrivSoftException),
            6 => Ok(VmxInterruptionType::SoftException),
            7 => Ok(VmxInterruptionType::Other),
            _ => Err(value),
        }
    }

    /// Whether the exception or interrupt with this vector pushes a hardware
    /// error code.
    pub fn vector_has_error_code(vector: u8) -> (r: bool)
        ensures
            r == spec_vector_has_error_code(vector),
    {
        matches!(vector, 8 | 10 | 11 | 12 | 13 | 14 | 17)
    }

    /// Determines the interruption type to inject for an interrupt vector.
    pub fn from_vector(vector: u8) -> (r: Self)
        ensures
            r == spec_interruption_type_of_vector(vector),
    {
        if vector == 1 {
            VmxInterruptionType::PrivSoftException
        } else if vector == 2 {
            VmxInterruptionType::NMI
        } else if vector == 3 || vector == 4 {
            VmxInterruptionType::SoftException
        } else if vector <= 21 {
            VmxInterruptionType::HardException
        } else if vector >= 32 {
            VmxInterruptionType::External
        } else {
            VmxInterruptionType::Other
        }
    }

    /// For a software interrupt, software exception, or privileged software
    /// exception the VM-entry instruction-length field must be set; this
    /// reports whether this type is one of those three.
    pub fn is_soft(&self) -> (r: bool)
        ensures
            r == (*self is SoftIntr || *self is SoftException || *self is PrivSoftException),
    {
        matches!(
            self,
            VmxInterruptionType::SoftIntr
            | VmxInterruptionType::SoftException
            | VmxInterruptionType::PrivSoftException
        )
    }
}

} // verus!
