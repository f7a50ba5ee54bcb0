use ohyper::cpu::{check_vmx_support, ecx_reports_vmx, has_vmx_support, vmx_support_from};

#[test]
fn vmx_bit_of_ecx() {
    assert!(ecx_reports_vmx(0x20));
    assert!(ecx_reports_vmx(0xffff_ffff));
    assert!(!ecx_reports_vmx(0xffff_ffdf));
    assert!(!ecx_reports_vmx(0));
}

#[test]
fn vmx_support_from_feature_leaf() {
    assert!(!vmx_support_from(None));
    assert!(!vmx_support_from(Some(false)));
    assert!(vmx_support_from(Some(true)));
}

#[test]
fn both_cpuid_readings_agree() {
    assert_eq!(has_vmx_support(), check_vmx_support());
}
