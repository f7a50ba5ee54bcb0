use ohyper::vmx::{
    apply_fixed_bits, check_allocation_request, finish_allocation, revision_id, VmxAction,
    VmxEnabler, VmxError, VmxEvent, VmxPerState, VmxRegion, VmxStage, CR4_VMXE,
    IA32_FEATURE_CONTROL, IA32_VMX_BASIC, IA32_VMX_CR0_FIXED0, IA32_VMX_CR0_FIXED1,
    IA32_VMX_CR4_FIXED0, IA32_VMX_CR4_FIXED1, VMXON_REGION_ALIGN,
};
use ohyper::memory::PhysFrame;

fn step(m: &mut VmxEnabler, e: VmxEvent) -> VmxAction {
    assert!(m.accepts(&e));
    m.step(e)
}

#[test]
fn unsupported_cpu_stops_at_once() {
    let (m, a) = VmxEnabler::start_with_support(false);
    assert_eq!(a, VmxAction::Finished(Err(VmxError::NoVmxSupport)));
    assert!(m.finished());
    assert!(!m.accepts(&VmxEvent::Done));
}

#[test]
fn full_protocol_with_unlocked_feature_control() {
    let (mut m, a) = VmxEnabler::start_with_support(true);
    assert_eq!(a, VmxAction::ReadMsr(IA32_FEATURE_CONTROL));
    assert!(!m.accepts(&VmxEvent::Done));
    assert_eq!(step(&mut m, VmxEvent::Value(0x0)), VmxAction::WriteMsr(IA32_FEATURE_CONTROL, 0x5));
    assert_eq!(step(&mut m, VmxEvent::Done), VmxAction::ReadMsr(IA32_VMX_CR0_FIXED0));
    assert_eq!(step(&mut m, VmxEvent::Value(0x8000_0021)), VmxAction::ReadMsr(IA32_VMX_CR0_FIXED1));
    assert_eq!(step(&mut m, VmxEvent::Value(0xffff_ffff)), VmxAction::ReadMsr(IA32_VMX_CR4_FIXED0));
    assert_eq!(step(&mut m, VmxEvent::Value(0x2000)), VmxAction::ReadMsr(IA32_VMX_CR4_FIXED1));
    assert_eq!(step(&mut m, VmxEvent::Value(0x0037_27ff)), VmxAction::ReadCr0);
    // CR0 = 0x8005_0013: PE and NE... adjusted to the fixed bits
    assert_eq!(step(&mut m, VmxEvent::Value(0x1_8005_0013)), VmxAction::WriteCr0(0x8005_0033));
    assert_eq!(step(&mut m, VmxEvent::Done), VmxAction::ReadCr4);
    assert_eq!(step(&mut m, VmxEvent::Value(0x0040_06a0)), VmxAction::WriteCr4(0x0000_26a0));
    assert_eq!(
        step(&mut m, VmxEvent::Done),
        VmxAction::AllocateRegion { align: VMXON_REGION_ALIGN, size: VMXON_REGION_ALIGN }
    );
    assert_eq!(step(&mut m, VmxEvent::Allocated(Ok(0x7000))), VmxAction::ReadMsr(IA32_VMX_BASIC));
    assert_eq!(
        step(&mut m, VmxEvent::Value(0x00da_0400_0000_0004)),
        VmxAction::WriteRevisionId { region: 0x7000, revision_id: 4 }
    );
    assert_eq!(step(&mut m, VmxEvent::Done), VmxAction::ReadCr4);
    assert_eq!(step(&mut m, VmxEvent::Value(0x26a0)), VmxAction::WriteCr4(0x26a0 | CR4_VMXE));
    assert_eq!(step(&mut m, VmxEvent::Done), VmxAction::Vmxon { region: 0x7000 });
    assert_eq!(step(&mut m, VmxEvent::Value(0)), VmxAction::Finished(Ok(())));
    assert!(m.finished());
    assert_eq!(m.stage, VmxStage::Finished);
}

#[test]
fn locked_feature_control_is_not_written() {
    let (mut m, _) = VmxEnabler::start_with_support(true);
    assert_eq!(step(&mut m, VmxEvent::Value(0x5)), VmxAction::ReadMsr(IA32_VMX_CR0_FIXED0));
    let (mut m2, _) = VmxEnabler::start_with_support(true);
    assert_eq!(step(&mut m2, VmxEvent::Value(0x1)), VmxAction::ReadMsr(IA32_VMX_CR0_FIXED0));
}

fn enabler_at_allocation() -> VmxEnabler {
    let (mut m, _) = VmxEnabler::start_with_support(true);
    for e in [
        VmxEvent::Value(0x5),
        VmxEvent::Value(0),
        VmxEvent::Value(u64::MAX),
        VmxEvent::Value(0),
        VmxEvent::Value(u64::MAX),
        VmxEvent::Value(0x11),
        VmxEvent::Done,
        VmxEvent::Value(0x20),
        VmxEvent::Done,
    ] {
        step(&mut m, e);
    }
    assert_eq!(m.stage, VmxStage::AllocateRegion);
    m
}

#[test]
fn allocation_failure_ends_the_protocol() {
    for err in [VmxError::AlignmentNotPowerOfTwo, VmxError::InvalidLayout, VmxError::AllocationFailed] {
        let mut m = enabler_at_allocation();
        assert!(!m.accepts(&VmxEvent::Value(0)));
        assert_eq!(step(&mut m, VmxEvent::Allocated(Err(err))), VmxAction::Finished(Err(err)));
        assert!(m.finished());
    }
}

#[test]
fn failed_vmxon_is_reported_and_still_finishes() {
    let mut m = enabler_at_allocation();
    step(&mut m, VmxEvent::Allocated(Ok(0x9000)));
    step(&mut m, VmxEvent::Value(0xffff_ffff_0000_0011));
    step(&mut m, VmxEvent::Done);
    step(&mut m, VmxEvent::Value(0));
    assert_eq!(step(&mut m, VmxEvent::Done), VmxAction::Vmxon { region: 0x9000 });
    assert_eq!(step(&mut m, VmxEvent::Value(3)), VmxAction::ReportVmxonFailure(3));
    assert_eq!(step(&mut m, VmxEvent::Done), VmxAction::Finished(Ok(())));
}

#[test]
fn vmxon_comes_right_after_setting_vmxe() {
    let mut m = enabler_at_allocation();
    let mut actions = vec![];
    for e in [
        VmxEvent::Allocated(Ok(0x4000)),
        VmxEvent::Value(0x1234_5678_0000_0007),
        VmxEvent::Done,
        VmxEvent::Value(0x20),
        VmxEvent::Done,
    ] {
        actions.push(step(&mut m, e));
    }
    assert_eq!(actions[1], VmxAction::WriteRevisionId { region: 0x4000, revision_id: 7 });
    assert_eq!(actions[3], VmxAction::WriteCr4(0x2020));
    assert_eq!(actions[4], VmxAction::Vmxon { region: 0x4000 });
}

#[test]
fn fixed_bits_are_applied() {
    assert_eq!(apply_fixed_bits(0x1234, 0x0100, 0xff0f), 0x1304);
    // must-be-1 bits set, must-be-0 bits cleared, free bits kept
    let v = apply_fixed_bits(0xf0f0, 0x0003, 0x0fff);
    assert_eq!(v & 0x0003, 0x0003);
    assert_eq!(v & !0x0fff, 0);
    assert_eq!(v & (0x0fff & !0x0003), 0xf0f0 & (0x0fff & !0x0003));
}

#[test]
fn revision_id_is_low_half() {
    assert_eq!(revision_id(0x00da_0400_0000_0004), 4);
    assert_eq!(revision_id(0xffff_ffff_1234_5678), 0x1234_5678);
    let s = VmxPerState::new(0x8000_0000_0000_0011, VmxRegion::new(PhysFrame { start_address: 0x1000 }));
    assert_eq!(s.vmcs_revision_id, 0x11);
    assert_eq!(s.vmx_region.frame.start_address, 0x1000);
}

#[test]
fn allocation_requests_are_checked() {
    assert_eq!(check_allocation_request(4096, 4096), Ok(()));
    assert_eq!(check_allocation_request(1, 0), Ok(()));
    assert_eq!(check_allocation_request(3, 4096), Err(VmxError::AlignmentNotPowerOfTwo));
    assert_eq!(check_allocation_request(0, 8), Err(VmxError::AlignmentNotPowerOfTwo));
    assert_eq!(check_allocation_request(4096, usize::MAX), Err(VmxError::InvalidLayout));
    assert_eq!(check_allocation_request(4096, isize::MAX as usize - 4095), Ok(()));
    assert_eq!(check_allocation_request(4096, isize::MAX as usize - 4094), Err(VmxError::InvalidLayout));
    assert_eq!(check_allocation_request(1 << 63, 0), Ok(()));
    assert_eq!(check_allocation_request(1 << 63, 1), Err(VmxError::InvalidLayout));
}

#[test]
fn null_allocation_is_an_error() {
    assert_eq!(finish_allocation(0), Err(VmxError::AllocationFailed));
    assert_eq!(finish_allocation(0x20_0000), Ok(0x20_0000));
}

#[test]
fn error_messages() {
    assert_eq!(VmxError::NoVmxSupport.message(), "CPU does not support VMX");
    assert_eq!(VmxError::AlignmentNotPowerOfTwo.message(), "Alignment must be a power of two");
    assert_eq!(VmxError::InvalidLayout.message(), "Invalid layout");
    assert_eq!(VmxError::AllocationFailed.message(), "Failed to allocate aligned memory");
}

#[test]
fn feature_control_write_keeps_other_bits() {
    let (mut m, _) = VmxEnabler::start_with_support(true);
    assert_eq!(
        step(&mut m, VmxEvent::Value(0x0004_0002)),
        VmxAction::WriteMsr(IA32_FEATURE_CONTROL, 0x0004_0007)
    );
}
