use winrt_nostd::activation::{FactoryRegistry, E_CLASSNOTREGISTERED};
use winrt_nostd::driver::{activate_instance, get_type_info, init, is_class_available, stats, WinRtError, WinRtState};
use winrt_nostd::metadata::WinRtTypeKind;

#[test]
fn activate_before_init_fails() {
    let runtime: Option<WinRtState> = None;
    let mut registry: Option<FactoryRegistry> = None;
    let mut next: u64 = 1;
    let r = activate_instance(&runtime, &mut registry, &mut next, "Windows.Foundation.Uri");
    assert!(matches!(r, Err(WinRtError::NotInitialized)));
    assert!(registry.is_none());
    assert_eq!(next, 1);
    assert!(get_type_info(&runtime, "Windows.Foundation.Uri").is_none());
}

#[test]
fn init_then_activate() {
    let mut runtime: Option<WinRtState> = None;
    let mut registry: Option<FactoryRegistry> = None;
    init(&mut runtime, &mut registry);
    let mut next: u64 = 1;
    let h = activate_instance(&runtime, &mut registry, &mut next, "Windows.Storage.StorageFile");
    assert!(matches!(h, Ok(1)));
    let bad = activate_instance(&runtime, &mut registry, &mut next, "Windows.Nope");
    assert!(matches!(bad, Err(WinRtError::ActivationFailed(e)) if e == E_CLASSNOTREGISTERED));
    let reg = registry.as_ref().unwrap();
    assert!(is_class_available(reg, "Windows.UI.Colors"));
    assert!(!is_class_available(reg, "Windows.Nope"));
    let s = stats(reg, &runtime);
    assert_eq!(s.factory_count, 7);
    assert_eq!(s.object_count, 1);
    assert_eq!(s.type_count, 9);
}

#[test]
fn type_info_is_a_copy() {
    let mut runtime: Option<WinRtState> = None;
    let mut registry: Option<FactoryRegistry> = None;
    init(&mut runtime, &mut registry);
    let t = get_type_info(&runtime, "Windows.Networking.HostName").unwrap();
    assert_eq!(t.name, "HostName");
    assert_eq!(t.kind, WinRtTypeKind::RuntimeClass);
    assert_eq!(t.properties.len(), 3);
    assert_eq!(t.properties[2].property_type, "HostNameType");
    assert!(get_type_info(&runtime, "Windows.Networking.Nope").is_none());
}

#[test]
fn stats_without_runtime() {
    let reg = FactoryRegistry::new();
    let s = stats(&reg, &None);
    assert_eq!(s.factory_count, 0);
    assert_eq!(s.object_count, 0);
    assert_eq!(s.type_count, 0);
}

#[test]
fn error_variants() {
    let a = WinRtError::ClassNotFound(String::from("X"));
    let b = WinRtError::MetadataError(String::from("Y"));
    assert!(matches!(a, WinRtError::ClassNotFound(ref s) if s == "X"));
    assert!(matches!(b, WinRtError::MetadataError(ref s) if s == "Y"));
}
