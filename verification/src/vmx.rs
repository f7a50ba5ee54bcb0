//! The protocol that turns on VMX operation: feature-control MSR, the
//! fixed bits of CR0 and CR4, the VMXON region and the VMXON instruction.
//!
//! The hardware work (MSR and control-register access, memory allocation,
//! the VMXON instruction) is done by the caller; `VmxEnabler` decides, from
//! each value the caller hands back, what is to be done next.

use vstd::prelude::*;
use vstd::arithmetic::power2::is_pow2;
use vstd::layout::valid_layout;
use crate::cpu::check_vmx_support;
use crate::memory::PhysFrame;

verus! {

/// MSR that locks and enables VMX operation.
pub const IA32_FEATURE_CONTROL: u32 = 0x3a;
/// MSR that reports the VMCS revision identifier.
pub const IA32_VMX_BASIC: u32 = 0x480;
/// MSR: bits of CR0 that must be 1 in VMX operation.
pub const IA32_VMX_CR0_FIXED0: u32 = 0x486;
/// MSR: bits of CR0 that may be 1 in VMX operation.
pub const IA32_VMX_CR0_FIXED1: u32 = 0x487;
/// MSR: bits of CR4 that must be 1 in VMX operation.
pub const IA32_VMX_CR4_FIXED0: u32 = 0x488;
/// MSR: bits of CR4 that may be 1 in VMX operation.
pub const IA32_VMX_CR4_FIXED1: u32 = 0x489;

/// Alignment (and size) of the VMXON region: 4 KiB.
pub const VMXON_REGION_ALIGN: usize = 4096;

/// Lock bit of IA32_FEATURE_CONTROL.
pub const FEATURE_CONTROL_LOCK: u64 = 0x1;
/// Bits written into IA32_FEATURE_CONTROL when it is not locked yet:
/// the lock bit and "VMXON outside SMX".
pub const FEATURE_CONTROL_ENABLE: u64 = 0x5;

/// CR4.VMXE, bit 13.
pub const CR4_VMXE: u64 = 0x2000;

/// Why VMX operation could not be enabled.
#[derive(Debug, Clone, Copy, PartialEq, Eq)]
pub enum VmxError {
    /// CPUID does not report VMX.
    NoVmxSupport,
    /// The requested alignment is not a power of two.
    AlignmentNotPowerOfTwo,
    /// Size and alignment do not form a valid memory layout.
    InvalidLayout,
    /// The allocator returned no memory.
    AllocationFailed,
}

impl VmxError {
    /// The text reported for each error.
    pub open spec fn spec_message(self) -> Seq<char> {
        match self {
            VmxError::NoVmxSupport => "CPU does not support VMX"@,
            VmxError::AlignmentNotPowerOfTwo => "Alignment must be a power of two"@,
            VmxError::InvalidLayout => "Invalid layout"@,
            VmxError::AllocationFailed => "Failed to allocate aligned memory"@,
        }
    }

    /// The text reported for the error.
    pub fn message(&self) -> (r: &'static str)
        ensures
            r@ == self.spec_message(),
    {
        match self {
            VmxError::NoVmxSupport => "CPU does not support VMX",
            VmxError::AlignmentNotPowerOfTwo => "Alignment must be a power of two",
            VmxError::InvalidLayout => "Invalid layout",
            VmxError::AllocationFailed => "Failed to allocate aligned memory",
        }
    }
}

/// A control-register value adjusted to the VMX fixed bits: bits outside
/// `fixed1` are cleared, bits of `fixed0` are set.
pub open spec fn spec_apply_fixed_bits(value: u64, fixed0: u64, fixed1: u64) -> u64 {
    (value & fixed1) | fixed0
}

/// Adjusts a control-register value to the VMX fixed bits.
pub fn apply_fixed_bits(value: u64, fixed0: u64, fixed1: u64) -> (r: u64)
    ensures
        r == spec_apply_fixed_bits(value, fixed0, fixed1),
{
    let mut v = value;
    v &= fixed1;
    v |= fixed0;
    v
}

/// Whether IA32_FEATURE_CONTROL is still unlocked (its lock bit, bit 0, is
/// clear), so that it is written.
pub open spec fn feature_control_unlocked(value: u64) -> bool {
    value % 2 == 0
}

/// The value written into an unlocked IA32_FEATURE_CONTROL.
pub open spec fn spec_feature_control_update(value: u64) -> u64 {
    value | FEATURE_CONTROL_ENABLE
}

/// The VMCS revision identifier: the low 32 bits of IA32_VMX_BASIC.
pub open spec fn spec_revision_id(vmx_basic: u64) -> u32 {
    (vmx_basic % 0x1_0000_0000) as u32
}

/// Reads the VMCS revision identifier out of IA32_VMX_BASIC.
pub fn revision_id(vmx_basic: u64) -> (r: u32)
    ensures
        r == spec_revision_id(vmx_basic),
{
    let r = #[verifier::truncate] (vmx_basic as u32);
    assert(r == (vmx_basic % 0x1_0000_0000) as u32) by (bit_vector)
        requires
            r == #[verifier::truncate] (vmx_basic as u32),
    ;
    r
}


/// Calls `usize::is_power_of_two`, documented to return true if and only if
/// the value is `2^k` for some `k`.
#[verifier::external_body]
fn usize_is_power_of_two(n: usize) -> (r: bool)
    ensures
        r == is_pow2(n as int),
{
    n.is_power_of_two()
}

/// Calls `core::alloc::Layout::from_size_align` and tells success from
/// failure. Its documentation: it fails unless `align` is a power of two and
/// `size`, rounded up to a multiple of `align`, does not exceed `isize::MAX`;
/// `valid_layout` states exactly that.
#[verifier::external_body]
fn layout_from_size_align_ok(size: usize, align: usize) -> (r: bool)
    ensures
        r == valid_layout(size, align),
{
    match core::alloc::Layout::from_size_align(size, align) {
        Ok(_) => true,
        Err(_) => false,
    }
}

/// The outcome of checking an aligned allocation request.
pub open spec fn spec_check_allocation_request(align: usize, size: usize) -> Result<(), VmxError> {
    if !is_pow2(align as int) {
        Err(VmxError::AlignmentNotPowerOfTwo)
    } else if !valid_layout(size, align) {
        Err(VmxError::InvalidLayout)
    } else {
        Ok(())
    }
}

/// Checks a request for `size` bytes aligned to `align`, before memory is
/// asked for: the alignment must be a power of two, and the two must form a
/// valid layout.
pub fn check_allocation_request(align: usize, size: usize) -> (r: Result<(), VmxError>)
    ensures
        r == spec_check_allocation_request(align, size),
        r is Ok <==> (is_pow2(align as int) && valid_layout(size, align)),
        r == Err::<(), VmxError>(VmxError::AlignmentNotPowerOfTwo) <==> !is_pow2(align as int),
        r == Err::<(), VmxError>(VmxError::InvalidLayout) <==> (is_pow2(align as int)
            && !valid_layout(size, align)),
{
    if !usize_is_power_of_two(align) {
        return Err(VmxError::AlignmentNotPowerOfTwo);
    }
    if !layout_from_size_align_ok(size, align) {
        return Err(VmxError::InvalidLayout);
    }
    Ok(())
}

/// Turns the address the allocator returned into the allocation's outcome:
/// a null address means that no memory was available.
pub fn finish_allocation(addr: u64) -> (r: Result<u64, VmxError>)
    ensures
        addr == 0 ==> r == Err::<u64, VmxError>(VmxError::AllocationFailed),
        addr != 0 ==> r == Ok::<u64, VmxError>(addr),
{
    if addr == 0 {
        Err(VmxError::AllocationFailed)
    } else {
        Ok(addr)
    }
}


/// A piece of hardware work the caller is asked to do.
#[derive(Debug, Clone, Copy, PartialEq, Eq)]
pub enum VmxAction {
    /// Read the MSR and hand back its value (`VmxEvent::Value`).
    ReadMsr(u32),
    /// Write the value into the MSR, then hand back `VmxEvent::Done`.
    WriteMsr(u32, u64),
    /// Read CR0 and hand back its value.
    ReadCr0,
    /// Write CR0, then hand back `VmxEvent::Done`.
    WriteCr0(u64),
    /// Read CR4 and hand back its value.
    ReadCr4,
    /// Write CR4, then hand back `VmxEvent::Done`.
    WriteCr4(u64),
    /// Allocate `size` bytes aligned to `align` and hand back the outcome
    /// (`VmxEvent::Allocated`).
    AllocateRegion { align: usize, size: usize },
    /// Store the revision identifier in the first 32 bits of the region,
    /// then hand back `VmxEvent::Done`.
    WriteRevisionId { region: u64, revision_id: u32 },
    /// Execute VMXON on the region and hand back the status it left in RAX.
    Vmxon { region: u64 },
    /// Report that VMXON left a non-zero status, then hand back
    /// `VmxEvent::Done`.
    ReportVmxonFailure(u64),
    /// The protocol is over, with this outcome.
    Finished(Result<(), VmxError>),
}

/// What the caller hands back after doing an action.
#[derive(Debug, Clone, Copy, PartialEq, Eq)]
pub enum VmxEvent {
    /// The value that was read (or the VMXON status).
    Value(u64),
    /// The write or report was done.
    Done,
    /// The outcome of the region allocation: its address, or the error.
    Allocated(Result<u64, VmxError>),
}

/// The action a `VmxEnabler` is waiting on.
#[derive(Debug, Clone, Copy, PartialEq, Eq)]
pub enum VmxStage {
    ReadFeatureControl,
    WriteFeatureControl,
    ReadCr0Fixed0,
    ReadCr0Fixed1,
    ReadCr4Fixed0,
    ReadCr4Fixed1,
    ReadCr0,
    WriteCr0,
    ReadCr4,
    WriteCr4,
    AllocateRegion,
    ReadVmxBasic,
    WriteRevisionId,
    ReadCr4ForVmxe,
    WriteCr4Vmxe,
    Vmxon,
    ReportVmxonFailure,
    Finished,
}

/// The decisions of the VMX enabling protocol, one step per hardware action.
#[derive(Debug, Clone, Copy, PartialEq, Eq)]
pub struct VmxEnabler {
    /// The action the enabler waits on.
    pub stage: VmxStage,
    /// CR0 bits that must be 1, as read from IA32_VMX_CR0_FIXED0.
    pub cr0_fixed0: u64,
    /// CR0 bits that may be 1, as read from IA32_VMX_CR0_FIXED1.
    pub cr0_fixed1: u64,
    /// CR4 bits that must be 1, as read from IA32_VMX_CR4_FIXED0.
    pub cr4_fixed0: u64,
    /// CR4 bits that may be 1, as read from IA32_VMX_CR4_FIXED1.
    pub cr4_fixed1: u64,
    /// Address of the VMXON region, once it is allocated.
    pub region: u64,
}

impl VmxEnabler {
    /// The enabler after the support check, and its first action.
    pub open spec fn spec_start(supported: bool) -> (VmxEnabler, VmxAction) {
        if supported {
            (
                VmxEnabler {
                    stage: VmxStage::ReadFeatureControl,
                    cr0_fixed0: 0,
                    cr0_fixed1: 0,
                    cr4_fixed0: 0,
                    cr4_fixed1: 0,
                    region: 0,
                },
                VmxAction::ReadMsr(IA32_FEATURE_CONTROL),
            )
        } else {
            (
                VmxEnabler {
                    stage: VmxStage::Finished,
                    cr0_fixed0: 0,
                    cr0_fixed1: 0,
                    cr4_fixed0: 0,
                    cr4_fixed1: 0,
                    region: 0,
                },
                VmxAction::Finished(Err(VmxError::NoVmxSupport)),
            )
        }
    }

    /// Whether the enabler waits on an event of this kind.
    pub open spec fn expects(self, event: VmxEvent) -> bool {
        match self.stage {
            VmxStage::Finished => false,
            VmxStage::AllocateRegion => event is Allocated,
            VmxStage::WriteFeatureControl | VmxStage::WriteCr0 | VmxStage::WriteCr4
            | VmxStage::WriteRevisionId | VmxStage::WriteCr4Vmxe
            | VmxStage::ReportVmxonFailure => event is Done,
            _ => event is Value,
        }
    }

    /// Whether the protocol is over.
    pub open spec fn is_finished(self) -> bool {
        self.stage == VmxStage::Finished
    }

    /// The enabler in another stage.
    pub open spec fn at(self, stage: VmxStage) -> VmxEnabler {
        VmxEnabler { stage, ..self }
    }

    /// One step of the protocol: the next enabler and the next action.
    pub open spec fn spec_step(self, event: VmxEvent) -> (VmxEnabler, VmxAction) {
        match (self.stage, event) {
            (VmxStage::ReadFeatureControl, VmxEvent::Value(fc)) => {
                if feature_control_unlocked(fc) {
                    (
                        self.at(VmxStage::WriteFeatureControl),
                        VmxAction::WriteMsr(IA32_FEATURE_CONTROL, spec_feature_control_update(fc)),
                    )
                } else {
                    (self.at(VmxStage::ReadCr0Fixed0), VmxAction::ReadMsr(IA32_VMX_CR0_FIXED0))
                }
            },
            (VmxStage::WriteFeatureControl, VmxEvent::Done) => {
                (self.at(VmxStage::ReadCr0Fixed0), VmxAction::ReadMsr(IA32_VMX_CR0_FIXED0))
            },
            (VmxStage::ReadCr0Fixed0, VmxEvent::Value(v)) => {
                (
                    VmxEnabler { stage: VmxStage::ReadCr0Fixed1, cr0_fixed0: v, ..self },
                    VmxAction::ReadMsr(IA32_VMX_CR0_FIXED1),
                )
            },
            (VmxStage::ReadCr0Fixed1, VmxEvent::Value(v)) => {
                (
                    VmxEnabler { stage: VmxStage::ReadCr4Fixed0, cr0_fixed1: v, ..self },
                    VmxAction::ReadMsr(IA32_VMX_CR4_FIXED0),
                )
            },
            (VmxStage::ReadCr4Fixed0, VmxEvent::Value(v)) => {
                (
                    VmxEnabler { stage: VmxStage::ReadCr4Fixed1, cr4_fixed0: v, ..self },
                    VmxAction::ReadMsr(IA32_VMX_CR4_FIXED1),
                )
            },
            (VmxStage::ReadCr4Fixed1, VmxEvent::Value(v)) => {
                (
                    VmxEnabler { stage: VmxStage::ReadCr0, cr4_fixed1: v, ..self },
                    VmxAction::ReadCr0,
                )
            },
            (VmxStage::ReadCr0, VmxEvent::Value(cr0)) => {
                (
                    self.at(VmxStage::WriteCr0),
                    VmxAction::WriteCr0(spec_apply_fixed_bits(cr0, self.cr0_fixed0, self.cr0_fixed1)),
                )
            },
            (VmxStage::WriteCr0, VmxEvent::Done) => {
                (self.at(VmxStage::ReadCr4), VmxAction::ReadCr4)
            },
            (VmxStage::ReadCr4, VmxEvent::Value(cr4)) => {
                (
                    self.at(VmxStage::WriteCr4),
                    VmxAction::WriteCr4(spec_apply_fixed_bits(cr4, self.cr4_fixed0, self.cr4_fixed1)),
                )
            },
            (VmxStage::WriteCr4, VmxEvent::Done) => {
                (
                    self.at(VmxStage::AllocateRegion),
                    VmxAction::AllocateRegion { align: VMXON_REGION_ALIGN, size: VMXON_REGION_ALIGN },
                )
            },
            (VmxStage::AllocateRegion, VmxEvent::Allocated(Err(e))) => {
                (self.at(VmxStage::Finished), VmxAction::Finished(Err(e)))
            },
            (VmxStage::AllocateRegion, VmxEvent::Allocated(Ok(addr))) => {
                (
                    VmxEnabler { stage: VmxStage::ReadVmxBasic, region: addr, ..self },
                    VmxAction::ReadMsr(IA32_VMX_BASIC),
                )
            },
            (VmxStage::ReadVmxBasic, VmxEvent::Value(basic)) => {
                (
                    self.at(VmxStage::WriteRevisionId),
                    VmxAction::WriteRevisionId {
                        region: self.region,
                        revision_id: spec_revision_id(basic),
                    },
                )
            },
            (VmxStage::WriteRevisionId, VmxEvent::Done) => {
                (self.at(VmxStage::ReadCr4ForVmxe), VmxAction::ReadCr4)
            },
            (VmxStage::ReadCr4ForVmxe, VmxEvent::Value(cr4)) => {
                (self.at(VmxStage::WriteCr4Vmxe), VmxAction::WriteCr4(cr4 | CR4_VMXE))
            },
            (VmxStage::WriteCr4Vmxe, VmxEvent::Done) => {
                (self.at(VmxStage::Vmxon), VmxAction::Vmxon { region: self.region })
            },
            (VmxStage::Vmxon, VmxEvent::Value(status)) => {
                if status != 0 {
                    (self.at(VmxStage::ReportVmxonFailure), VmxAction::ReportVmxonFailure(status))
                } else {
                    (self.at(VmxStage::Finished), VmxAction::Finished(Ok(())))
                }
            },
            (VmxStage::ReportVmxonFailure, VmxEvent::Done) => {
                (self.at(VmxStage::Finished), VmxAction::Finished(Ok(())))
            },
            _ => (self, VmxAction::Finished(Err(VmxError::NoVmxSupport))),
        }
    }

    /// Starts the protocol once support is known: without VMX support it is
    /// over at once, with the error; otherwise IA32_FEATURE_CONTROL is read.
    pub fn start_with_support(supported: bool) -> (r: (VmxEnabler, VmxAction))
        ensures
            r == Self::spec_start(supported),
    {
        if supported {
            (
                VmxEnabler {
                    stage: VmxStage::ReadFeatureControl,
                    cr0_fixed0: 0,
                    cr0_fixed1: 0,
                    cr4_fixed0: 0,
                    cr4_fixed1: 0,
                    region: 0,
                },
                VmxAction::ReadMsr(IA32_FEATURE_CONTROL),
            )
        } else {
            (
                VmxEnabler {
                    stage: VmxStage::Finished,
                    cr0_fixed0: 0,
                    cr0_fixed1: 0,
                    cr4_fixed0: 0,
                    cr4_fixed1: 0,
                    region: 0,
                },
                VmxAction::Finished(Err(VmxError::NoVmxSupport)),
            )
        }
    }

    /// Starts the protocol on the running processor: checks CPUID for VMX,
    /// then goes on as `start_with_support` says for the answer.
    pub fn start() -> (r: (VmxEnabler, VmxAction))
        ensures
            r == Self::spec_start(true) || r == Self::spec_start(false),
    {
        Self::start_with_support(check_vmx_support())
    }

    /// Whether the enabler waits on an event of this kind.
    pub fn accepts(&self, event: &VmxEvent) -> (r: bool)
        ensures
            r == self.expects(*event),
    {
        match self.stage {
            VmxStage::Finished => false,
            VmxStage::AllocateRegion => matches!(event, VmxEvent::Allocated(_)),
            VmxStage::WriteFeatureControl | VmxStage::WriteCr0 | VmxStage::WriteCr4
            | VmxStage::WriteRevisionId | VmxStage::WriteCr4Vmxe
            | VmxStage::ReportVmxonFailure => matches!(event, VmxEvent::Done),
            _ => matches!(event, VmxEvent::Value(_)),
        }
    }

    /// Whether the protocol is over.
    pub fn finished(&self) -> (r: bool)
        ensures
            r == self.is_finished(),
    {
        matches!(self.stage, VmxStage::Finished)
    }

    /// Takes the outcome of the last action and gives the next one.
    pub fn step(&mut self, event: VmxEvent) -> (action: VmxAction)
        requires
            old(self).expects(event),
        ensures
            (*final(self), action) == old(self).spec_step(event),
            (old(self).stage == VmxStage::ReadVmxBasic && event is Value) ==> action
                == (VmxAction::WriteRevisionId {
                region: old(self).region,
                revision_id: (event->Value_0 & 0xffff_ffff) as u32,
            }),
    {
        match (self.stage, event) {
            (VmxStage::ReadFeatureControl, VmxEvent::Value(fc)) => {
                let unlocked = fc & FEATURE_CONTROL_LOCK == 0;
                assert(unlocked == (fc % 2 == 0)) by (bit_vector)
                    requires
                        unlocked == (fc & 1u64 == 0),
                ;
                if unlocked {
                    self.stage = VmxStage::WriteFeatureControl;
                    VmxAction::WriteMsr(IA32_FEATURE_CONTROL, fc | FEATURE_CONTROL_ENABLE)
                } else {
                    self.stage = VmxStage::ReadCr0Fixed0;
                    VmxAction::ReadMsr(IA32_VMX_CR0_FIXED0)
                }
            },
            (VmxStage::WriteFeatureControl, VmxEvent::Done) => {
                self.stage = VmxStage::ReadCr0Fixed0;
                VmxAction::ReadMsr(IA32_VMX_CR0_FIXED0)
            },
            (VmxStage::ReadCr0Fixed0, VmxEvent::Value(v)) => {
                self.stage = VmxStage::ReadCr0Fixed1;
                self.cr0_fixed0 = v;
                VmxAction::ReadMsr(IA32_VMX_CR0_FIXED1)
            },
            (VmxStage::ReadCr0Fixed1, VmxEvent::Value(v)) => {
                self.stage = VmxStage::ReadCr4Fixed0;
                self.cr0_fixed1 = v;
                VmxAction::ReadMsr(IA32_VMX_CR4_FIXED0)
            },
            (VmxStage::ReadCr4Fixed0, VmxEvent::Value(v)) => {
                self.stage = VmxStage::ReadCr4Fixed1;
                self.cr4_fixed0 = v;
                VmxAction::ReadMsr(IA32_VMX_CR4_FIXED1)
            },
            (VmxStage::ReadCr4Fixed1, VmxEvent::Value(v)) => {
                self.stage = VmxStage::ReadCr0;
                self.cr4_fixed1 = v;
                VmxAction::ReadCr0
            },
            (VmxStage::ReadCr0, VmxEvent::Value(cr0)) => {
                self.stage = VmxStage::WriteCr0;
                VmxAction::WriteCr0(apply_fixed_bits(cr0, self.cr0_fixed0, self.cr0_fixed1))
            },
            (VmxStage::WriteCr0, VmxEvent::Done) => {
                self.stage = VmxStage::ReadCr4;
                VmxAction::ReadCr4
            },
            (VmxStage::ReadCr4, VmxEvent::Value(cr4)) => {
                self.stage = VmxStage::WriteCr4;
                VmxAction::WriteCr4(apply_fixed_bits(cr4, self.cr4_fixed0, self.cr4_fixed1))
            },
            (VmxStage::WriteCr4, VmxEvent::Done) => {
                self.stage = VmxStage::AllocateRegion;
                VmxAction::AllocateRegion { align: VMXON_REGION_ALIGN, size: VMXON_REGION_ALIGN }
            },
            (VmxStage::AllocateRegion, VmxEvent::Allocated(Err(e))) => {
                self.stage = VmxStage::Finished;
                VmxAction::Finished(Err(e))
            },
            (VmxStage::AllocateRegion, VmxEvent::Allocated(Ok(addr))) => {
                self.stage = VmxStage::ReadVmxBasic;
                self.region = addr;
                VmxAction::ReadMsr(IA32_VMX_BASIC)
            },
            (VmxStage::ReadVmxBasic, VmxEvent::Value(basic)) => {
                proof {
                    lemma_revision_id_is_low_half(basic);
                }
                self.stage = VmxStage::WriteRevisionId;
                VmxAction::WriteRevisionId { region: self.region, revision_id: revision_id(basic) }
            },
            (VmxStage::WriteRevisionId, VmxEvent::Done) => {
                self.stage = VmxStage::ReadCr4ForVmxe;
                VmxAction::ReadCr4
            },
            (VmxStage::ReadCr4ForVmxe, VmxEvent::Value(cr4)) => {
                self.stage = VmxStage::WriteCr4Vmxe;
                VmxAction::WriteCr4(cr4 | CR4_VMXE)
            },
            (VmxStage::WriteCr4Vmxe, VmxEvent::Done) => {
                self.stage = VmxStage::Vmxon;
                VmxAction::Vmxon { region: self.region }
            },
            (VmxStage::Vmxon, VmxEvent::Value(status)) => {
                if status != 0 {
                    self.stage = VmxStage::ReportVmxonFailure;
                    VmxAction::ReportVmxonFailure(status)
                } else {
                    self.stage = VmxStage::Finished;
                    VmxAction::Finished(Ok(()))
                }
            },
            (VmxStage::ReportVmxonFailure, VmxEvent::Done) => {
                self.stage = VmxStage::Finished;
                VmxAction::Finished(Ok(()))
            },
            _ => VmxAction::Finished(Err(VmxError::NoVmxSupport)),
        }
    }
}


/// The VMXON region of a processor: the physical frame that holds it.
#[derive(Debug, Clone, Copy, PartialEq, Eq)]
pub struct VmxRegion {
    pub frame: PhysFrame,
}

impl VmxRegion {
    /// The region held in `frame`.
    pub fn new(frame: PhysFrame) -> (r: VmxRegion)
        ensures
            r.frame == frame,
    {
        VmxRegion { frame }
    }
}

/// Per-processor VMX state: the VMCS revision identifier and the VMXON
/// region.
#[derive(Debug, Clone, Copy, PartialEq, Eq)]
pub struct VmxPerState {
    pub vmcs_revision_id: u32,
    pub vmx_region: VmxRegion,
}

impl VmxPerState {
    /// The state for a processor whose IA32_VMX_BASIC reads `vmx_basic`.
    pub fn new(vmx_basic: u64, vmx_region: VmxRegion) -> (r: VmxPerState)
        ensures
            r.vmcs_revision_id == spec_revision_id(vmx_basic),
            r.vmx_region == vmx_region,
    {
        VmxPerState { vmcs_revision_id: revision_id(vmx_basic), vmx_region }
    }
}

/// VMX fixed bits: after the adjustment every bit that must be 1 is 1,
/// every bit that must be 0 is 0, and every bit left free keeps the value it
/// had; this holds whenever the must-be-1 bits are among the may-be-1 bits,
/// as the processor reports them.
pub proof fn lemma_fixed_bits_respected(value: u64, fixed0: u64, fixed1: u64)
    requires
        fixed0 & !fixed1 == 0,
    ensures
        spec_apply_fixed_bits(value, fixed0, fixed1) & fixed0 == fixed0,
        spec_apply_fixed_bits(value, fixed0, fixed1) & !fixed1 == 0,
        spec_apply_fixed_bits(value, fixed0, fixed1) & (fixed1 & !fixed0) == value & (fixed1
            & !fixed0),
{
    assert(((value & fixed1) | fixed0) & fixed0 == fixed0) by (bit_vector);
    assert(((value & fixed1) | fixed0) & !fixed1 == 0) by (bit_vector)
        requires
            fixed0 & !fixed1 == 0,
    ;
    assert(((value & fixed1) | fixed0) & (fixed1 & !fixed0) == value & (fixed1 & !fixed0))
        by (bit_vector);
}

/// The write into an unlocked IA32_FEATURE_CONTROL sets the lock bit and
/// the "VMXON outside SMX" bit, and leaves every other bit as it was.
pub proof fn lemma_feature_control_update(value: u64)
    ensures
        spec_feature_control_update(value) & FEATURE_CONTROL_LOCK == FEATURE_CONTROL_LOCK,
        spec_feature_control_update(value) & 0x4 == 0x4,
        spec_feature_control_update(value) & !FEATURE_CONTROL_ENABLE == value
            & !FEATURE_CONTROL_ENABLE,
{
    assert((value | 0x5u64) & 0x1u64 == 0x1u64) by (bit_vector);
    assert((value | 0x5u64) & 0x4u64 == 0x4u64) by (bit_vector);
    assert((value | 0x5u64) & !0x5u64 == value & !0x5u64) by (bit_vector);
}

/// Setting CR4.VMXE sets bit 13 and leaves every other bit as it was.
pub proof fn lemma_vmxe_set(cr4: u64)
    ensures
        (cr4 | CR4_VMXE) & CR4_VMXE == CR4_VMXE,
        (cr4 | CR4_VMXE) & !CR4_VMXE == cr4 & !CR4_VMXE,
{
    assert((cr4 | 0x2000u64) & 0x2000u64 == 0x2000u64) by (bit_vector);
    assert((cr4 | 0x2000u64) & !0x2000u64 == cr4 & !0x2000u64) by (bit_vector);
}

/// The revision identifier is the low 32 bits of IA32_VMX_BASIC.
pub proof fn lemma_revision_id_low_bits(vmx_basic: u64)
    ensures
        spec_revision_id(vmx_basic) as u64 == vmx_basic & 0xffff_ffff,
{
    assert((vmx_basic % 0x1_0000_0000) as u32 as u64 == vmx_basic & 0xffff_ffff) by (bit_vector);
}

/// The actions the enabler asks for when it is handed `events`, one after
/// the other, until the protocol is over or an event does not fit.
pub open spec fn spec_run(m: VmxEnabler, events: Seq<VmxEvent>) -> Seq<VmxAction>
    decreases events.len(),
{
    if events.len() == 0 || !m.expects(events[0]) {
        Seq::empty()
    } else {
        let (next, action) = m.spec_step(events[0]);
        seq![action] + spec_run(next, events.drop_first())
    }
}

/// All actions of the protocol on a processor with VMX support.
pub open spec fn protocol_actions(events: Seq<VmxEvent>) -> Seq<VmxAction> {
    let (m, first) = VmxEnabler::spec_start(true);
    seq![first] + spec_run(m, events)
}

/// The action writes the revision identifier into `region`.
pub open spec fn writes_revision_into(a: VmxAction, region: u64) -> bool {
    a matches VmxAction::WriteRevisionId { region: r, .. } && r == region
}

/// The action writes CR4 with VMXE set.
pub open spec fn sets_vmxe(a: VmxAction) -> bool {
    a matches VmxAction::WriteCr4(v) && v & CR4_VMXE == CR4_VMXE
}

/// The region of some earlier action was given its revision identifier.
pub open spec fn revision_written(acts: Seq<VmxAction>, before: int, region: u64) -> bool {
    exists|i: int|
        0 <= i < before && writes_revision_into(#[trigger] acts[i], region)
}

/// What VMXON needs before it: the action just before it set CR4.VMXE, and
/// an earlier one wrote the revision identifier into the same region.
pub open spec fn vmxon_prepared(acts: Seq<VmxAction>, k: int) -> bool {
    acts[k] matches VmxAction::Vmxon { region } ==> {
        &&& k >= 1
        &&& sets_vmxe(acts[k - 1])
        &&& revision_written(acts, k - 1, region)
    }
}

/// What the actions so far guarantee for the stage the enabler is in.
spec fn history_fits(m: VmxEnabler, past: Seq<VmxAction>) -> bool {
    &&& past.len() >= 1
    &&& (forall|k: int| 0 <= k < past.len() ==> #[trigger] vmxon_prepared(past, k))
    &&& (m.stage == VmxStage::WriteRevisionId ==> writes_revision_into(past.last(), m.region))
    &&& (m.stage == VmxStage::ReadCr4ForVmxe ==> revision_written(past, past.len() as int, m.region))
    &&& (m.stage == VmxStage::WriteCr4Vmxe ==> {
        &&& revision_written(past, past.len() - 1, m.region)
        &&& sets_vmxe(past.last())
    })
}

proof fn lemma_step_keeps_history(m: VmxEnabler, past: Seq<VmxAction>, event: VmxEvent)
    requires
        history_fits(m, past),
        m.expects(event),
    ensures
        history_fits(m.spec_step(event).0, past.push(m.spec_step(event).1)),
{
    let (next, action) = m.spec_step(event);
    let acts = past.push(action);
    assert forall|k: int| 0 <= k < past.len() implies acts[k] == past[k] by {}
    assert forall|i: int, region: u64|
        revision_written(past, i, region) && i <= past.len() implies revision_written(
        acts,
        i,
        region,
    ) by {
        let w = choose|w: int|
            0 <= w < i && writes_revision_into(#[trigger] past[w], region);
        assert(acts[w] == past[w]);
    }
    if m.stage == VmxStage::ReadCr4ForVmxe {
        if let VmxEvent::Value(cr4) = event {
            lemma_vmxe_set(cr4);
        }
    }
    if m.stage == VmxStage::WriteRevisionId {
        assert(acts[past.len() - 1] == past.last());
        assert(revision_written(acts, past.len() as int, m.region));
    }
    assert forall|k: int| 0 <= k < acts.len() implies #[trigger] vmxon_prepared(acts, k) by {
        if k < past.len() {
            assert(vmxon_prepared(past, k));
            if let VmxAction::Vmxon { region } = past[k] {
                assert(acts[k - 1] == past[k - 1]);
            }
        } else {
            if let VmxAction::Vmxon { region } = action {
                assert(m.stage == VmxStage::WriteCr4Vmxe);
                assert(acts[k - 1] == past.last());
            }
        }
    }
}

proof fn lemma_run_keeps_history(m: VmxEnabler, past: Seq<VmxAction>, events: Seq<VmxEvent>)
    requires
        history_fits(m, past),
    ensures
        forall|k: int|
            0 <= k < (past + spec_run(m, events)).len() ==> #[trigger] vmxon_prepared(
                past + spec_run(m, events),
                k,
            ),
    decreases events.len(),
{
    let acts = past + spec_run(m, events);
    if events.len() == 0 || !m.expects(events[0]) {
        assert(acts =~= past);
    } else {
        let (next, action) = m.spec_step(events[0]);
        lemma_step_keeps_history(m, past, events[0]);
        lemma_run_keeps_history(next, past.push(action), events.drop_first());
        assert(acts =~= past.push(action) + spec_run(next, events.drop_first()));
    }
}

/// VMXON is never asked for before its preconditions: in every run of the
/// protocol, the action just before VMXON sets CR4.VMXE, and an earlier
/// action wrote the revision identifier into the region VMXON is given.
pub proof fn lemma_vmxon_only_when_prepared(events: Seq<VmxEvent>)
    ensures
        forall|k: int|
            0 <= k < protocol_actions(events).len() ==> #[trigger] vmxon_prepared(
                protocol_actions(events),
                k,
            ),
{
    let (m, first) = VmxEnabler::spec_start(true);
    let past = seq![first];
    assert(vmxon_prepared(past, 0));
    assert(history_fits(m, past));
    lemma_run_keeps_history(m, past, events);
}


/// On a processor without VMX support the protocol asks for no hardware
/// access at all: it reports the error, and no later event is taken.
pub proof fn lemma_unsupported_touches_nothing(events: Seq<VmxEvent>)
    ensures
        VmxEnabler::spec_start(false).1 == VmxAction::Finished(Err(VmxError::NoVmxSupport)),
        spec_run(VmxEnabler::spec_start(false).0, events) == Seq::<VmxAction>::empty(),
{
}


/// The low 32 bits of a 64-bit value, as the revision identifier takes them.
proof fn lemma_revision_id_is_low_half(basic: u64)
    ensures
        spec_revision_id(basic) == ((basic & 0xffff_ffff) as u32),
{
    assert(((basic % 0x1_0000_0000) as u32) == ((basic & 0xffff_ffff) as u32)) by (bit_vector);
}

/// Checking an allocation request: with a power-of-two alignment the request
/// passes exactly when size and alignment form a valid layout (the size,
/// rounded up to a multiple of the alignment, is at most `isize::MAX`); any
/// other alignment is refused as not a power of two. In particular no size
/// needs to be a multiple of the alignment.
pub proof fn lemma_allocation_request_follows_layout(align: usize, size: usize)
    ensures
        is_pow2(align as int) ==> (spec_check_allocation_request(align, size) is Ok
            <==> valid_layout(size, align)),
        is_pow2(align as int) && !valid_layout(size, align) ==> spec_check_allocation_request(
            align,
            size,
        ) == Err::<(), VmxError>(VmxError::InvalidLayout),
        !is_pow2(align as int) ==> spec_check_allocation_request(align, size) == Err::<
            (),
            VmxError,
        >(VmxError::AlignmentNotPowerOfTwo),
{
}

/// After IA32_VMX_BASIC is read, the revision identifier written into the
/// region is the low 32 bits of the value read, and the region is the one
/// that was allocated.
pub proof fn lemma_revision_id_from_vmx_basic(m: VmxEnabler, basic: u64)
    requires
        m.stage == VmxStage::ReadVmxBasic,
    ensures
        m.spec_step(VmxEvent::Value(basic)).1 == (VmxAction::WriteRevisionId {
            region: m.region,
            revision_id: (basic & 0xffff_ffff) as u32,
        }),
        (basic & 0xffff_ffff) as u32 as u64 == basic & 0xffff_ffff,
{
    lemma_revision_id_is_low_half(basic);
    assert((basic & 0xffff_ffff) as u32 as u64 == basic & 0xffff_ffff) by (bit_vector);
}

/// In a run with actions `acts` for events `evs`, a revision identifier write
/// at position `k` comes right after the read of IA32_VMX_BASIC and carries
/// the low 32 bits of the value handed back for that read.
pub open spec fn revision_from_basic(acts: Seq<VmxAction>, evs: Seq<VmxEvent>, k: int) -> bool {
    acts[k] is WriteRevisionId ==> {
        &&& 1 <= k <= evs.len()
        &&& acts[k - 1] == VmxAction::ReadMsr(IA32_VMX_BASIC)
        &&& evs[k - 1] is Value
        &&& acts[k]->revision_id as u64 == evs[k - 1]->Value_0 & 0xffff_ffff
    }
}

proof fn lemma_run_revision_from_basic(m: VmxEnabler, past: Seq<VmxAction>, evs: Seq<VmxEvent>)
    requires
        past.len() >= 1,
        past.len() - 1 <= evs.len(),
        forall|k: int| 0 <= k < past.len() ==> #[trigger] revision_from_basic(past, evs, k),
        m.stage == VmxStage::ReadVmxBasic ==> past.last() == VmxAction::ReadMsr(IA32_VMX_BASIC),
    ensures
        forall|k: int|
            0 <= k < (past + spec_run(m, evs.skip(past.len() - 1))).len() ==> #[trigger] revision_from_basic(
                past + spec_run(m, evs.skip(past.len() - 1)),
                evs,
                k,
            ),
    decreases evs.len() + 1 - past.len(),
{
    let rest = evs.skip(past.len() - 1);
    let acts = past + spec_run(m, rest);
    if rest.len() == 0 || !m.expects(rest[0]) {
        assert(acts =~= past);
    } else {
        let (next, a) = m.spec_step(rest[0]);
        let past2 = past.push(a);
        assert(rest[0] == evs[past.len() - 1]);
        if a is WriteRevisionId {
            assert(m.stage == VmxStage::ReadVmxBasic);
            let basic = rest[0]->Value_0;
            lemma_revision_id_from_vmx_basic(m, basic);
            assert(past2[past.len() - 1] == past.last());
        }
        assert forall|k: int| 0 <= k < past2.len() implies #[trigger] revision_from_basic(
            past2,
            evs,
            k,
        ) by {
            if k < past.len() {
                assert(revision_from_basic(past, evs, k));
                assert(past2[k] == past[k]);
                if k >= 1 {
                    assert(past2[k - 1] == past[k - 1]);
                }
            }
        }
        lemma_run_revision_from_basic(next, past2, evs);
        assert(rest.drop_first() =~= evs.skip(past2.len() - 1));
        assert(acts =~= past2 + spec_run(next, evs.skip(past2.len() - 1)));
    }
}

/// In every run of the protocol, each write of the revision identifier
/// follows the read of IA32_VMX_BASIC directly and carries the low 32 bits
/// of the value read.
pub proof fn lemma_protocol_revision_from_basic(events: Seq<VmxEvent>)
    ensures
        forall|k: int|
            0 <= k < protocol_actions(events).len() ==> #[trigger] revision_from_basic(
                protocol_actions(events),
                events,
                k,
            ),
{
    let (m, first) = VmxEnabler::spec_start(true);
    let past = seq![first];
    assert(revision_from_basic(past, events, 0));
    assert(events.skip(0) =~= events);
    lemma_run_revision_from_basic(m, past, events);
    assert(past.len() - 1 == 0);
    assert(spec_run(m, events.skip(past.len() - 1)) == spec_run(m, events));
    assert(protocol_actions(events) == past + spec_run(m, events));
}


/// The protocol goes on to the feature-control MSR exactly when VMX is
/// supported; without support it ends at once with `NoVmxSupport`, in a
/// finished enabler that takes no further event.
pub proof fn lemma_start_follows_support(supported: bool, event: VmxEvent)
    ensures
        VmxEnabler::spec_start(supported).1 == VmxAction::Finished(Err(VmxError::NoVmxSupport))
            <==> !supported,
        supported ==> VmxEnabler::spec_start(supported).1 == VmxAction::ReadMsr(
            IA32_FEATURE_CONTROL,
        ),
        !supported ==> !VmxEnabler::spec_start(supported).0.expects(event),
{
}

} // verus!
