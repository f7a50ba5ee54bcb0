//! Detection of the virtual-machine extensions (VMX) through CPUID.

use vstd::prelude::*;

verus! {

/// Whether the ECX value of CPUID leaf 1 reports VMX support (bit 5 is
/// set).
pub open spec fn ecx_has_vmx(ecx: u32) -> bool {
    (ecx / 32) % 2 == 1
}

/// Reads ECX of CPUID leaf 1 on the running processor.
///
/// Calls `core::arch::x86_64::__cpuid`. Nothing is promised of the value:
/// it is whatever the processor reports.
#[verifier::external_body]
fn cpuid_leaf1_ecx() -> (ecx: u32) {
    core::arch::x86_64::__cpuid(1).ecx
}

/// Tests the VMX bit of a CPUID leaf 1 ECX value.
pub fn ecx_reports_vmx(ecx: u32) -> (r: bool)
    ensures
        r == ecx_has_vmx(ecx),
{
    let r = (ecx & 0x20u32) != 0;
    assert(r == ecx_has_vmx(ecx)) by (bit_vector)
        requires
            r == ((ecx & 0x20u32) != 0),
    ;
    r
}

/// The VMX test reads exactly bit 5 of ECX: support is reported when that
/// bit is set and denied when it is clear, whatever the other bits hold.
pub proof fn lemma_vmx_bit_is_bit5(ecx: u32)
    ensures
        ecx_has_vmx(ecx) <==> ecx & 0x20 != 0,
        ecx_has_vmx(ecx | 0x20),
        !ecx_has_vmx(ecx & !0x20u32),
{
    assert(((ecx / 32) % 2 == 1) <==> ecx & 0x20 != 0) by (bit_vector);
    assert(((ecx | 0x20) / 32) % 2 == 1) by (bit_vector);
    assert(!(((ecx & !0x20u32) / 32) % 2 == 1)) by (bit_vector);
}

} // verus!

verus! {

/// Whether the processor reports VMX support in CPUID leaf 1.
///
/// The value depends on the processor, so nothing pins it; what is
/// pinned is how the reported ECX is read (`ecx_reports_vmx`).
pub fn check_vmx_support() -> bool {
    ecx_reports_vmx(cpuid_leaf1_ecx())
}

#[verifier::external_type_specification]
#[verifier::external_body]
pub struct ExCpuId(raw_cpuid::CpuId);

#[verifier::external_type_specification]
#[verifier::external_body]
pub struct ExFeatureInfo(raw_cpuid::FeatureInfo);

/// Calls `raw_cpuid::CpuId::new`, which queries the running processor for
/// its vendor and supported leaves. Nothing is promised of the result.
#[verifier::external_body]
fn cpuid_new() -> raw_cpuid::CpuId {
    raw_cpuid::CpuId::new()
}

/// Calls `raw_cpuid::CpuId::get_feature_info`, which reads CPUID leaf 1 if
/// the processor supports that leaf. Nothing is promised of the result: it
/// is whatever the processor reports.
#[verifier::external_body]
fn cpuid_feature_info(cpuid: &raw_cpuid::CpuId) -> Option<raw_cpuid::FeatureInfo> {
    cpuid.get_feature_info()
}

/// Calls `raw_cpuid::FeatureInfo::has_vmx`, the VMX flag of leaf 1.
/// The flag is hidden inside the opaque feature record, so nothing is
/// promised of it here.
#[verifier::external_body]
fn feature_info_has_vmx(info: &raw_cpuid::FeatureInfo) -> bool {
    info.has_vmx()
}

/// How VMX support is decided from the feature leaf: `None` (leaf 1 not
/// available) means no support, otherwise the VMX flag decides.
pub fn vmx_support_from(feature_vmx: Option<bool>) -> (r: bool)
    ensures
        r == (feature_vmx == Some(true)),
{
    match feature_vmx {
        Some(vmx) => vmx,
        None => false,
    }
}

/// Whether the running processor supports VMX, according to the feature
/// information that `raw_cpuid` reads. Which value comes back depends on
/// the processor; `vmx_support_from` states how it is decided.
pub fn has_vmx_support() -> bool {
    let cpuid = cpuid_new();
    let info = cpuid_feature_info(&cpuid);
    let feature_vmx = match &info {
        Some(f) => Some(feature_info_has_vmx(f)),
        None => None,
    };
    vmx_support_from(feature_vmx)
}

} // verus!
