use winrt_nostd::metadata::{
    builtin_metadata, parse_winmd, WinMdError, WinRtEventDef, WinRtMetadata, WinRtMethodDef,
    WinRtPropertyDef, WinRtTypeDef, WinRtTypeKind,
};

fn typedef(full: &str, ns: &str, name: &str, kind: WinRtTypeKind) -> WinRtTypeDef {
    WinRtTypeDef {
        full_name: String::from(full),
        namespace: String::from(ns),
        name: String::from(name),
        kind,
        base_type: None,
        interfaces: Vec::new(),
        methods: Vec::new(),
        properties: Vec::new(),
        events: Vec::new(),
        is_activatable: false,
        is_sealed: false,
        is_static: false,
        generic_params: Vec::new(),
    }
}

#[test]
fn new_metadata_is_empty() {
    let m = WinRtMetadata::new();
    assert!(m.types.is_empty());
    assert!(m.type_index.is_empty());
    assert!(m.namespaces.is_empty());
    assert!(m.get_type("A.B").is_none());
}

#[test]
fn add_then_get_type() {
    let mut m = WinRtMetadata::new();
    m.add_type(typedef("A.X", "A", "X", WinRtTypeKind::Interface));
    m.add_type(typedef("B.Y", "B", "Y", WinRtTypeKind::RuntimeClass));
    assert_eq!(m.get_type("A.X").unwrap().name, "X");
    assert_eq!(m.get_type("B.Y").unwrap().kind, WinRtTypeKind::RuntimeClass);
    assert!(m.get_type("C.Z").is_none());
    assert_eq!(m.namespaces, vec![String::from("A"), String::from("B")]);
    assert_eq!(m.type_index.len(), 2);
}

#[test]
fn add_same_name_twice_gives_latest() {
    let mut m = WinRtMetadata::new();
    m.add_type(typedef("A.X", "A", "X", WinRtTypeKind::Interface));
    m.add_type(typedef("A.X", "A", "X2", WinRtTypeKind::Struct));
    assert_eq!(m.types.len(), 2);
    assert_eq!(m.type_index.len(), 1);
    let t = m.get_type("A.X").unwrap();
    assert_eq!(t.name, "X2");
    assert_eq!(t.kind, WinRtTypeKind::Struct);
    assert_eq!(m.namespaces, vec![String::from("A")]);
}

#[test]
fn namespaces_each_once_in_order() {
    let mut m = WinRtMetadata::new();
    m.add_type(typedef("B.1", "B", "1", WinRtTypeKind::Enum));
    m.add_type(typedef("A.1", "A", "1", WinRtTypeKind::Enum));
    m.add_type(typedef("B.2", "B", "2", WinRtTypeKind::Enum));
    m.add_type(typedef("C.1", "C", "1", WinRtTypeKind::Enum));
    assert_eq!(m.namespaces, vec![String::from("B"), String::from("A"), String::from("C")]);
}

#[test]
fn filters_keep_order() {
    let mut m = WinRtMetadata::new();
    m.add_type(typedef("A.I1", "A", "I1", WinRtTypeKind::Interface));
    m.add_type(typedef("A.C1", "A", "C1", WinRtTypeKind::RuntimeClass));
    m.add_type(typedef("B.I2", "B", "I2", WinRtTypeKind::Interface));
    m.add_type(typedef("A.D1", "A", "D1", WinRtTypeKind::Delegate));
    let in_a: Vec<&str> = m.types_in_namespace("A").iter().map(|t| t.name.as_str()).collect();
    assert_eq!(in_a, vec!["I1", "C1", "D1"]);
    let ifaces: Vec<&str> = m.interfaces().iter().map(|t| t.name.as_str()).collect();
    assert_eq!(ifaces, vec!["I1", "I2"]);
    let classes: Vec<&str> = m.runtime_classes().iter().map(|t| t.name.as_str()).collect();
    assert_eq!(classes, vec!["C1"]);
    assert!(m.types_in_namespace("Z").is_empty());
}

#[test]
fn builtin_metadata_contents() {
    let m = builtin_metadata();
    assert_eq!(m.types.len(), 9);
    assert_eq!(m.type_index.len(), 9);
    for (k, t) in m.types.iter().enumerate() {
        assert_eq!(m.type_index[k], (t.full_name.clone(), k));
    }
    assert_eq!(m.type_index[2], (String::from("Windows.Foundation.Uri"), 2));
    assert_eq!(m.type_index[8], (String::from("Windows.Networking.HostName"), 8));
    assert_eq!(m.get_type("Windows.Storage.StorageFile").unwrap().name, "StorageFile");
    assert_eq!(
        m.namespaces,
        vec![
            String::from("Windows.Foundation"),
            String::from("Windows.Storage"),
            String::from("Windows.UI"),
            String::from("Windows.Networking"),
        ]
    );
    let uri = m.get_type("Windows.Foundation.Uri").unwrap();
    assert_eq!(uri.kind, WinRtTypeKind::RuntimeClass);
    assert_eq!(uri.base_type.as_deref(), Some("System.Object"));
    assert!(uri.is_activatable && uri.is_sealed && !uri.is_static);
    assert_eq!(uri.methods.len(), 2);
    assert_eq!(uri.methods[0].name, ".ctor");
    assert_eq!(uri.methods[0].parameters, vec![(String::from("uri"), String::from("String"))]);
    let props: Vec<&str> = uri.properties.iter().map(|p| p.name.as_str()).collect();
    assert_eq!(props, vec!["AbsoluteUri", "Host", "Path", "Port", "SchemeName"]);
    assert_eq!(uri.properties[3].property_type, "Int32");
    let colors = m.get_type("Windows.UI.Colors").unwrap();
    assert!(colors.is_static);
    let dt = m.get_type("Windows.Foundation.DateTime").unwrap();
    assert_eq!(dt.kind, WinRtTypeKind::Struct);
    assert!(dt.properties[0].has_setter);
    let file = m.get_type("Windows.Storage.StorageFile").unwrap();
    assert_eq!(file.interfaces.len(), 2);
    assert!(file.methods[0].is_static);
    assert_eq!(file.methods[0].return_type, "IAsyncOperation<StorageFile>");
    assert_eq!(m.runtime_classes().len(), 5);
    assert_eq!(m.interfaces().len(), 2);
    assert_eq!(m.types_in_namespace("Windows.Foundation").len(), 5);
    assert_eq!(m.types_in_namespace("Windows.Storage").len(), 2);
}

#[test]
fn parse_winmd_gives_empty_metadata() {
    let m = parse_winmd(&[0x4D, 0x5A, 0x90, 0x00]).unwrap();
    assert!(m.types.is_empty());
    assert!(m.namespaces.is_empty());
    let e = parse_winmd(&[]).unwrap();
    assert!(e.type_index.is_empty());
}

#[test]
fn copies_keep_contents() {
    let mut t = typedef("A.X", "A", "X", WinRtTypeKind::Attribute);
    t.interfaces.push(String::from("A.IFoo"));
    t.methods.push(WinRtMethodDef {
        name: String::from("M"),
        return_type: String::from("Void"),
        parameters: vec![(String::from("p"), String::from("Int32"))],
        is_static: true,
        is_overload: true,
        default_overload: Some(String::from("M2")),
    });
    t.properties.push(WinRtPropertyDef {
        name: String::from("P"),
        property_type: String::from("String"),
        has_getter: true,
        has_setter: false,
        is_static: true,
    });
    t.events.push(WinRtEventDef { name: String::from("E"), delegate_type: String::from("H") });
    t.generic_params.push(String::from("T"));
    let c = t.copy();
    assert_eq!(format!("{:?}", c), format!("{:?}", t));
}

#[test]
fn winmd_error_variants() {
    let a = WinMdError::InvalidFormat(String::from("bad"));
    let b = WinMdError::MissingMetadata(String::from("none"));
    assert!(matches!(a, WinMdError::InvalidFormat(ref s) if s == "bad"));
    assert!(matches!(b, WinMdError::MissingMetadata(ref s) if s == "none"));
}
