use std::collections::BTreeMap;

use winrt_nostd::activation::{
    iid_iactivation_factory, iid_iinspectable, iid_iunknown, init, register_builtin_factories,
    ro_activate_instance, ro_has_factory, windows_create_string, windows_delete_string,
    windows_get_string_raw_buffer, FactoryRegistry, Guid, HString, IActivationFactory,
    WinRtObject, WinRtValue, E_CLASSNOTREGISTERED, E_FAIL, E_INVALIDARG, E_NOINTERFACE,
    RO_E_METADATA_NAME_NOT_FOUND, S_OK,
};

#[test]
fn hresult_constants() {
    assert_eq!(S_OK, 0);
    assert_eq!(E_FAIL as u32, 0x80004005);
    assert_eq!(E_INVALIDARG as u32, 0x80070057);
    assert_eq!(E_NOINTERFACE as u32, 0x80004002);
    assert_eq!(E_CLASSNOTREGISTERED as u32, 0x80040154);
    assert_eq!(RO_E_METADATA_NAME_NOT_FOUND as u32, 0x80000011);
}

#[test]
fn hstring_create_ascii() {
    let h = HString::create("Hello");
    assert_eq!(h.as_str(), "Hello");
    assert_eq!(h.as_wide(), &[0x48u16, 0x65, 0x6C, 0x6C, 0x6F][..]);
    assert_eq!(h.len(), 5);
    assert!(!h.is_empty());
    assert_eq!(h.to_string(), "Hello");
}

#[test]
fn hstring_utf16_matches_std() {
    for s in ["", "a", "héllo", "日本語", "emoji 😀 and 𝄞", "\u{FFFF}\u{10000}\u{10FFFF}"] {
        let h = HString::create(s);
        let expected: Vec<u16> = s.encode_utf16().collect();
        assert_eq!(h.as_wide(), &expected[..], "input {:?}", s);
        assert_eq!(h.len() as usize, expected.len());
        assert_eq!(h.as_str(), s);
    }
}

#[test]
fn hstring_surrogate_pair() {
    let h = HString::create("😀");
    assert_eq!(h.as_wide(), &[0xD83Du16, 0xDE00][..]);
    assert_eq!(h.len(), 2);
}

#[test]
fn hstring_empty_law() {
    let e = HString::empty();
    assert!(e.is_empty());
    assert_eq!(e.len(), 0);
    assert_eq!(e.as_str(), "");
    assert!(HString::create("").is_empty());
    assert!(!HString::create("x").is_empty());
}

#[test]
fn hstring_duplicate_is_equal() {
    let h = HString::create("Windows.Foundation.Uri");
    let d = h.duplicate();
    assert_eq!(h, d);
    assert_eq!(d.as_wide(), h.as_wide());
}

#[test]
fn windows_string_functions() {
    let h = windows_create_string("abc");
    assert_eq!(windows_get_string_raw_buffer(&h), &[0x61u16, 0x62, 0x63][..]);
    windows_delete_string(h);
}

#[test]
fn guid_display_form() {
    assert_eq!(iid_iunknown().to_string(), "{00000000-0000-0000-C000-000000000046}");
    assert_eq!(iid_iinspectable().to_string(), "{AF86E2E0-B12D-4C6A-9C5A-D7AA65101E90}");
    assert_eq!(
        iid_iactivation_factory().to_string(),
        "{00000035-0000-0000-C000-000000000046}"
    );
    assert_eq!(Guid::zero().to_string(), "{00000000-0000-0000-0000-000000000000}");
}

#[test]
fn guid_new_fields() {
    let g = Guid::new(0xDEADBEEF, 0x1234, 0xABCD, [1, 2, 3, 4, 5, 6, 7, 8]);
    assert_eq!(g.data1, 0xDEADBEEF);
    assert_eq!(g.data2, 0x1234);
    assert_eq!(g.data3, 0xABCD);
    assert_eq!(g.data4, [1, 2, 3, 4, 5, 6, 7, 8]);
    assert_eq!(g.to_string(), "{DEADBEEF-1234-ABCD-0102-030405060708}");
    assert_eq!(Guid::zero(), Guid::new(0, 0, 0, [0; 8]));
}

#[test]
fn registry_default_activation() {
    let mut reg = FactoryRegistry::new();
    let mut next: u64 = 1;
    reg.register_default("Windows.Foundation.Uri");
    assert_eq!(reg.factory_count(), 1);
    let h = reg.activate_instance("Windows.Foundation.Uri", &mut next).unwrap();
    assert_eq!(h, 1);
    assert_eq!(next, 2);
    let obj = reg.get_object(h).unwrap();
    assert_eq!(obj.class_name, "Windows.Foundation.Uri");
    assert_eq!(obj.handle, 1);
    assert!(obj.properties.is_empty());
    let h2 = reg.activate_instance("Windows.Foundation.Uri", &mut next).unwrap();
    assert_eq!(h2, 2);
    assert_eq!(reg.object_count(), 2);
}

#[test]
fn registry_unregistered_class() {
    let mut reg = FactoryRegistry::new();
    let mut next: u64 = 7;
    assert_eq!(reg.activate_instance("No.Such.Class", &mut next), Err(E_CLASSNOTREGISTERED));
    assert_eq!(next, 7);
    assert_eq!(reg.object_count(), 0);
    assert!(reg.get_factory("No.Such.Class").is_err());
}

#[test]
fn registry_release_object() {
    let mut reg = FactoryRegistry::new();
    let mut next: u64 = 1;
    reg.register_default("A.B");
    let h = reg.activate_instance("A.B", &mut next).unwrap();
    assert!(reg.release_object(h));
    assert!(reg.get_object(h).is_none());
    assert!(!reg.release_object(h));
    assert_eq!(reg.object_count(), 0);
}

#[test]
fn registry_reregister_keeps_count() {
    let mut reg = FactoryRegistry::new();
    reg.register_default("A.B");
    reg.register_default("A.B");
    reg.register_default("A.C");
    assert_eq!(reg.factory_count(), 2);
}

#[test]
fn registry_get_object_mut_changes_object() {
    let mut reg = FactoryRegistry::new();
    let mut next: u64 = 10;
    reg.register_default("A.B");
    let h = reg.activate_instance("A.B", &mut next).unwrap();
    {
        let obj = reg.get_object_mut(h).unwrap();
        obj.properties.insert(String::from("Answer"), WinRtValue::Int32(42));
    }
    match reg.get_object(h).unwrap().properties.get("Answer") {
        Some(WinRtValue::Int32(v)) => assert_eq!(*v, 42),
        _ => panic!("property missing"),
    }
    assert!(reg.get_object_mut(h + 1).is_none());
}

struct FailingFactory;

impl IActivationFactory for FailingFactory {
    fn class_name(&self) -> &str {
        "Test.Failing"
    }

    fn activate_instance(&self, _next_handle: &mut u64) -> Result<WinRtObject, i32> {
        Err(E_FAIL)
    }

    fn create_instance(
        &self,
        _args: &[WinRtValue],
        _next_handle: &mut u64,
    ) -> Result<WinRtObject, i32> {
        Err(E_INVALIDARG)
    }
}

struct FixedFactory;

impl IActivationFactory for FixedFactory {
    fn class_name(&self) -> &str {
        "Test.Fixed"
    }

    fn activate_instance(&self, _next_handle: &mut u64) -> Result<WinRtObject, i32> {
        Ok(WinRtObject {
            class_name: String::from("Test.Fixed"),
            handle: 1000,
            properties: BTreeMap::new(),
        })
    }

    fn create_instance(
        &self,
        _args: &[WinRtValue],
        next_handle: &mut u64,
    ) -> Result<WinRtObject, i32> {
        self.activate_instance(next_handle)
    }
}

#[test]
fn registry_custom_factories() {
    let mut reg = FactoryRegistry::new();
    let mut next: u64 = 1;
    reg.register_factory(String::from("Test.Failing"), Box::new(FailingFactory));
    reg.register_factory(String::from("Test.Fixed"), Box::new(FixedFactory));
    assert_eq!(reg.activate_instance("Test.Failing", &mut next), Err(E_FAIL));
    assert_eq!(reg.object_count(), 0);
    assert_eq!(reg.activate_instance("Test.Fixed", &mut next), Ok(1000));
    assert_eq!(reg.get_object(1000).unwrap().class_name, "Test.Fixed");
    assert_eq!(reg.get_factory("Test.Fixed").unwrap().class_name(), "Test.Fixed");
    assert_eq!(next, 1);
}

#[test]
fn registry_custom_replaces_default() {
    let mut reg = FactoryRegistry::new();
    let mut next: u64 = 1;
    reg.register_default("Test.Failing");
    reg.register_factory(String::from("Test.Failing"), Box::new(FailingFactory));
    assert_eq!(reg.factory_count(), 1);
    assert_eq!(reg.activate_instance("Test.Failing", &mut next), Err(E_FAIL));
}

#[test]
fn registry_record_activation() {
    let mut reg = FactoryRegistry::new();
    let obj = WinRtObject { class_name: String::from("X"), handle: 5, properties: BTreeMap::new() };
    assert_eq!(reg.record_activation(Ok(obj)), Ok(5));
    assert_eq!(reg.object_count(), 1);
    assert_eq!(reg.record_activation(Err(E_NOINTERFACE)), Err(E_NOINTERFACE));
    assert_eq!(reg.object_count(), 1);
}

#[test]
fn default_factory_through_get_factory() {
    let mut reg = FactoryRegistry::new();
    reg.register_default("Windows.UI.Colors");
    let f = reg.get_factory("Windows.UI.Colors").unwrap();
    assert_eq!(f.class_name(), "Windows.UI.Colors");
    let mut next: u64 = 3;
    let obj = f.activate_instance(&mut next).unwrap();
    assert_eq!(obj.handle, 3);
    assert_eq!(obj.class_name, "Windows.UI.Colors");
    let obj2 = f.create_instance(&[WinRtValue::Null], &mut next).unwrap();
    assert_eq!(obj2.handle, 4);
    assert_eq!(next, 5);
}

#[test]
fn init_and_builtin_factories() {
    let mut slot: Option<FactoryRegistry> = None;
    init(&mut slot);
    assert_eq!(slot.as_ref().unwrap().factory_count(), 0);
    register_builtin_factories(slot.as_mut().unwrap());
    let reg = slot.as_mut().unwrap();
    assert_eq!(reg.factory_count(), 7);
    for name in [
        "Windows.Foundation.Uri",
        "Windows.Foundation.PropertyValue",
        "Windows.Storage.StorageFile",
        "Windows.Storage.StorageFolder",
        "Windows.Storage.ApplicationData",
        "Windows.UI.Colors",
        "Windows.Networking.HostName",
    ] {
        assert!(ro_has_factory(reg, name), "{}", name);
    }
    assert!(!ro_has_factory(reg, "Windows.Foundation.Nope"));
    let mut next: u64 = 1;
    assert_eq!(ro_activate_instance(reg, &mut next, "Windows.Networking.HostName"), Ok(1));
    // A second init keeps the registry.
    init(&mut slot);
    assert_eq!(slot.as_ref().unwrap().factory_count(), 7);
    assert_eq!(slot.as_ref().unwrap().object_count(), 1);
}

#[test]
fn builtin_factories_twice_keeps_count() {
    let mut reg = FactoryRegistry::new();
    register_builtin_factories(&mut reg);
    register_builtin_factories(&mut reg);
    assert_eq!(reg.factory_count(), 7);
}

#[test]
fn winrt_value_float_bits() {
    let v = WinRtValue::Single(1.5f32.to_bits());
    match v {
        WinRtValue::Single(bits) => assert_eq!(f32::from_bits(bits), 1.5),
        _ => panic!(),
    }
    let d = WinRtValue::Double(2.25f64.to_bits());
    match d {
        WinRtValue::Double(bits) => assert_eq!(f64::from_bits(bits), 2.25),
        _ => panic!(),
    }
}

#[test]
fn builtin_factories_report_their_names() {
    let mut reg = FactoryRegistry::new();
    register_builtin_factories(&mut reg);
    for name in [
        "Windows.Foundation.Uri",
        "Windows.Foundation.PropertyValue",
        "Windows.Storage.StorageFile",
        "Windows.Storage.StorageFolder",
        "Windows.Storage.ApplicationData",
        "Windows.UI.Colors",
        "Windows.Networking.HostName",
    ] {
        let f = reg.get_factory(name).ok().unwrap();
        assert_eq!(f.class_name(), name);
    }
    assert_eq!(reg.get_factory("Windows.Foundation.Nope").err(), Some(E_CLASSNOTREGISTERED));
}

#[test]
fn handles_are_fresh_and_nonzero() {
    let mut reg = FactoryRegistry::new();
    register_builtin_factories(&mut reg);
    let mut next: u64 = 1;
    let a = ro_activate_instance(&mut reg, &mut next, "Windows.Foundation.Uri").unwrap();
    let b = ro_activate_instance(&mut reg, &mut next, "Windows.UI.Colors").unwrap();
    assert_eq!((a, b, next), (1, 2, 3));
    assert_eq!(reg.object_count(), 2);
    assert!(reg.release_object(a));
    let c = ro_activate_instance(&mut reg, &mut next, "Windows.Foundation.Uri").unwrap();
    assert_eq!(c, 3);
    assert_eq!(reg.object_count(), 2);
    assert_eq!(reg.get_object(c).unwrap().class_name, "Windows.Foundation.Uri");
    assert!(reg.get_object(a).is_none());
}
