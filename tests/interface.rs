use xrizer::interface::{
    export_as, lookup_interface, ClientCoreVersion, Objects, INTERFACE_NOT_FOUND,
};

#[test]
fn supported_versions_resolve() {
    let names = ClientCoreVersion::supported_versions();
    assert_eq!(names, vec!["IVRClientCore_002", "IVRClientCore_003"]);
    assert_eq!(ClientCoreVersion::resolve("IVRClientCore_002"), Some(ClientCoreVersion::V2));
    assert_eq!(ClientCoreVersion::resolve("IVRClientCore_003"), Some(ClientCoreVersion::V3));
}

#[test]
fn unsupported_versions_do_not_resolve() {
    for name in ["", "IVRClientCore_001", "IVRClientCore_004", "ivrclientcore_002", "IVRClientCore_002 "] {
        assert_eq!(ClientCoreVersion::resolve(name), None);
        assert_eq!(lookup_interface(name), (None, INTERFACE_NOT_FOUND));
    }
}

#[test]
fn lookup_reports_success() {
    assert_eq!(lookup_interface("IVRClientCore_003"), (Some(ClientCoreVersion::V3), 0));
    assert_eq!(lookup_interface("IVRClientCore_002"), (Some(ClientCoreVersion::V2), 0));
}

#[test]
fn exported_vtable_dispatches_to_owner() {
    let mut objects: Objects<u32> = Objects::new();
    let owner = objects.insert(41);
    let v2 = export_as(ClientCoreVersion::V2, &owner);
    let v3 = export_as(ClientCoreVersion::V3, &owner);
    assert_eq!(v2.kind, ClientCoreVersion::V2);
    assert_eq!(v2.owner(&objects), Some(&41));
    assert_eq!(v3.owner(&objects), Some(&41));
}

#[test]
fn call_after_destruction_fails() {
    let mut objects: Objects<String> = Objects::new();
    let owner = objects.insert("core".to_string());
    let weak = owner.downgrade();
    let vtable = export_as(ClientCoreVersion::V3, &owner);
    objects.destroy(owner);
    assert_eq!(objects.upgrade(weak), None);
    assert_eq!(vtable.owner(&objects), None);
    let other = objects.insert("another".to_string());
    assert_eq!(vtable.owner(&objects), None);
    assert_eq!(objects.upgrade(other.downgrade()).map(|s| s.as_str()), Some("another"));
}
