use std::cell::{Cell, RefCell};

use xrizer::extensions::{
    CreateXDevListInfoMNDX, CreateXDevSpaceInfoMNDX, ExtraExtensionSet, ExtraExtensions,
    GetXDevInfoMNDX, SystemXDevSpacePropertiesMNDX, XDevIdMNDX, XDevList, XDevListMNDX,
    XDevPropertiesMNDX, XDevSpaceMNDX,
};
use xrizer::status::XrError;

const ERROR_FUNCTION_UNSUPPORTED: i32 = -7;
const ERROR_HANDLE_INVALID: i32 = -12;

fn resolve_all_ok(name: &'static str) -> Result<&'static str, XrError> {
    Ok(name)
}

fn loaded() -> XDevSpaceMNDX<&'static str> {
    XDevSpaceMNDX::load(&resolve_all_ok).unwrap()
}

#[test]
fn extension_name_is_fixed() {
    assert_eq!(XDevSpaceMNDX::<u8>::name(), "XR_MNDX_xdev_space");
}

#[test]
fn structure_types_are_tagged() {
    assert_eq!(SystemXDevSpacePropertiesMNDX::structure_type(), 1000444001);
    assert_eq!(CreateXDevListInfoMNDX::structure_type(), 1000444002);
    assert_eq!(GetXDevInfoMNDX::structure_type(), 1000444003);
    assert_eq!(XDevPropertiesMNDX::structure_type(), 1000444004);
    assert_eq!(CreateXDevSpaceInfoMNDX::structure_type(), 1000444005);
}

#[test]
fn null_handles_are_zero() {
    assert_eq!(XDevIdMNDX::null(), XDevIdMNDX(0));
    assert_eq!(XDevListMNDX::null(), XDevListMNDX(0));
}

#[test]
fn advertised_names_select_extensions() {
    let none = ExtraExtensionSet::from_advertised(&vec!["XR_KHR_vulkan_enable".to_string()]);
    assert!(!none.mnd_xdev_space);
    let empty = ExtraExtensionSet::from_advertised(&vec![]);
    assert!(!empty.mnd_xdev_space);
    let some = ExtraExtensionSet::from_advertised(&vec![
        "XR_EXT_hand_tracking".to_string(),
        "XR_MNDX_xdev_space".to_string(),
    ]);
    assert!(some.mnd_xdev_space);
    let case = ExtraExtensionSet::from_advertised(&vec!["xr_mndx_xdev_space".to_string()]);
    assert!(!case.mnd_xdev_space);
}

#[test]
fn set_to_vec_appends_names() {
    let mut names = vec!["XR_KHR_vulkan_enable".to_string()];
    ExtraExtensionSet { mnd_xdev_space: false }.to_vec(&mut names);
    assert_eq!(names, vec!["XR_KHR_vulkan_enable".to_string()]);
    ExtraExtensionSet { mnd_xdev_space: true }.to_vec(&mut names);
    assert_eq!(
        names,
        vec!["XR_KHR_vulkan_enable".to_string(), "XR_MNDX_xdev_space".to_string()]
    );
}

#[test]
fn load_resolves_each_name_in_order() {
    let asked = RefCell::new(Vec::new());
    let resolve = |name: &'static str| -> Result<usize, XrError> {
        asked.borrow_mut().push(name);
        Ok(asked.borrow().len())
    };
    let t = XDevSpaceMNDX::load(&resolve).unwrap();
    assert_eq!(
        *asked.borrow(),
        vec![
            "xrCreateXDevListMNDX",
            "xrGetXDevListGenerationNumberMNDX",
            "xrEnumerateXDevsMNDX",
            "xrGetXDevPropertiesMNDX",
            "xrDestroyXDevListMNDX",
            "xrCreateXDevSpaceMNDX",
        ]
    );
    assert_eq!(t.create_xdev_list, 1);
    assert_eq!(t.get_xdev_list_generation_number, 2);
    assert_eq!(t.enumerate_xdevs, 3);
    assert_eq!(t.get_xdev_properties, 4);
    assert_eq!(t.destroy_xdev_list, 5);
    assert_eq!(t.create_xdev_space, 6);
}

#[test]
fn load_fails_if_any_name_fails() {
    for failing in XDevSpaceMNDX::<u8>::function_names() {
        let resolve = |name: &'static str| -> Result<u8, XrError> {
            if name == failing {
                Err(XrError(ERROR_FUNCTION_UNSUPPORTED))
            } else {
                Ok(1)
            }
        };
        assert_eq!(
            XDevSpaceMNDX::load(&resolve).err(),
            Some(XrError(ERROR_FUNCTION_UNSUPPORTED))
        );
        let set = ExtraExtensionSet { mnd_xdev_space: true };
        assert_eq!(
            ExtraExtensions::load(&set, &resolve).err(),
            Some(XrError(ERROR_FUNCTION_UNSUPPORTED))
        );
    }
}

#[test]
fn load_stops_at_first_failure() {
    let calls = Cell::new(0);
    let resolve = |name: &'static str| -> Result<u8, XrError> {
        calls.set(calls.get() + 1);
        if name == "xrEnumerateXDevsMNDX" {
            Err(XrError(ERROR_FUNCTION_UNSUPPORTED))
        } else {
            Ok(0)
        }
    };
    assert!(XDevSpaceMNDX::load(&resolve).is_err());
    assert_eq!(calls.get(), 3);
}

#[test]
fn extras_skip_unrequested_extensions() {
    let calls = Cell::new(0);
    let resolve = |_: &'static str| -> Result<u8, XrError> {
        calls.set(calls.get() + 1);
        Err(XrError(ERROR_FUNCTION_UNSUPPORTED))
    };
    let set = ExtraExtensionSet { mnd_xdev_space: false };
    let extras = ExtraExtensions::load(&set, &resolve).unwrap();
    assert!(extras.mnd_xdev_space.is_none());
    assert_eq!(calls.get(), 0);
}

#[test]
fn list_creation_passes_record_and_keeps_handle() {
    let ext = loaded();
    let list = XDevList::try_new(&ext, |f, info| {
        assert_eq!(f, "xrCreateXDevListMNDX");
        assert_eq!(info.ty, 1000444002);
        (0, XDevListMNDX(77))
    })
    .unwrap();
    let h = Cell::new(XDevListMNDX(0));
    list.destroy(|f, handle| {
        assert_eq!(f, "xrDestroyXDevListMNDX");
        h.set(handle);
        0
    })
    .unwrap();
    assert_eq!(h.get(), XDevListMNDX(77));
}

#[test]
fn list_creation_failure_is_reported() {
    let ext = loaded();
    let r = XDevList::try_new(&ext, |_, _| (ERROR_HANDLE_INVALID, XDevListMNDX(0)));
    assert_eq!(r.err(), Some(XrError(ERROR_HANDLE_INVALID)));
}

#[test]
fn destroy_runs_once_after_error_elsewhere() {
    let destroyed = Cell::new(0u32);
    let chain = || -> Result<(), XrError> {
        let ext = loaded();
        let list = XDevList::try_new(&ext, |_, _| (0, XDevListMNDX(5)))?;
        let failed = list.get_generation_number(|_, _| (ERROR_HANDLE_INVALID, 0));
        let released = list.destroy(|_, _| {
            destroyed.set(destroyed.get() + 1);
            0
        });
        failed?;
        released
    };
    assert_eq!(chain(), Err(XrError(ERROR_HANDLE_INVALID)));
    assert_eq!(destroyed.get(), 1);
}

#[test]
fn two_call_enumeration() {
    let ext = loaded();
    let list = XDevList::try_new(&ext, |_, _| (0, XDevListMNDX(1))).unwrap();
    let devices = [XDevIdMNDX(11), XDevIdMNDX(12), XDevIdMNDX(13)];
    let runtime = |f: &'static str, _: XDevListMNDX, capacity: u32| {
        assert_eq!(f, "xrEnumerateXDevsMNDX");
        let n = (capacity as usize).min(devices.len());
        (0, devices.len() as u32, devices[..n].to_vec())
    };

    let mut empty = Vec::new();
    assert_eq!(list.enumerate(&mut empty, runtime), Ok(3));
    assert!(empty.is_empty());

    let mut full = vec![XDevIdMNDX(0); 3];
    assert_eq!(list.enumerate(&mut full, runtime), Ok(3));
    assert_eq!(full, devices.to_vec());

    let mut larger = vec![XDevIdMNDX(0); 5];
    assert_eq!(list.enumerate(&mut larger, runtime), Ok(3));
    assert_eq!(
        larger,
        vec![XDevIdMNDX(11), XDevIdMNDX(12), XDevIdMNDX(13), XDevIdMNDX(0), XDevIdMNDX(0)]
    );

    let mut small = vec![XDevIdMNDX(0); 2];
    assert_eq!(list.enumerate(&mut small, runtime), Ok(3));
    assert_eq!(small, vec![XDevIdMNDX(11), XDevIdMNDX(12)]);
    list.destroy(|_, _| 0).unwrap();
}

#[test]
fn enumeration_failure_leaves_buffer() {
    let ext = loaded();
    let list = XDevList::try_new(&ext, |_, _| (0, XDevListMNDX(1))).unwrap();
    let mut buf = vec![XDevIdMNDX(9); 2];
    let r = list.enumerate(&mut buf, |_, _, _| (ERROR_HANDLE_INVALID, 4, vec![XDevIdMNDX(1); 2]));
    assert_eq!(r, Err(XrError(ERROR_HANDLE_INVALID)));
    assert_eq!(buf, vec![XDevIdMNDX(9); 2]);
    list.destroy(|_, _| 0).unwrap();
}

#[test]
fn xdev_space_end_to_end() {
    // The runtime advertises the extension; the loader resolves it.
    let set = ExtraExtensionSet::from_advertised(&vec!["XR_MNDX_xdev_space".to_string()]);
    assert!(set.mnd_xdev_space);
    let extras = ExtraExtensions::load(&set, &resolve_all_ok).unwrap();
    let ext = extras.mnd_xdev_space.unwrap();

    // A mock runtime whose device set can change.
    let known: RefCell<Vec<XDevIdMNDX>> = RefCell::new(Vec::new());
    let generation = Cell::new(1u64);
    let destroyed = Cell::new(0u32);

    let list = XDevList::try_new(&ext, |_, _| (0, XDevListMNDX(3))).unwrap();
    let gen_call = |_: &'static str, _: XDevListMNDX| (0, generation.get());
    let enumerate_call = |_: &'static str, _: XDevListMNDX, capacity: u32| {
        let k = known.borrow();
        let n = (capacity as usize).min(k.len());
        (0, k.len() as u32, k[..n].to_vec())
    };

    let before = list.get_generation_number(gen_call).unwrap();
    let mut buf = Vec::new();
    assert_eq!(list.enumerate(&mut buf, enumerate_call), Ok(0));

    *known.borrow_mut() = vec![XDevIdMNDX(100), XDevIdMNDX(200)];
    generation.set(2);
    let after = list.get_generation_number(gen_call).unwrap();
    assert_ne!(before, after);

    let mut buf = Vec::new();
    let n = list.enumerate(&mut buf, enumerate_call).unwrap();
    assert_eq!(n, 2);
    let mut buf = vec![XDevIdMNDX::null(); n];
    assert_eq!(list.enumerate(&mut buf, enumerate_call), Ok(2));
    assert_eq!(buf, vec![XDevIdMNDX(100), XDevIdMNDX(200)]);

    let props_call = |_: &'static str, _: XDevListMNDX, info: GetXDevInfoMNDX, blank: XDevPropertiesMNDX| {
        assert_eq!(info.ty, 1000444003);
        assert_eq!(blank.ty, 1000444004);
        assert!(blank.name.iter().all(|b| *b == 0));
        if known.borrow().contains(&info.id) {
            let mut p = blank;
            p.name[..4].copy_from_slice(b"hmd0");
            p.serial[..3].copy_from_slice(b"S01");
            p.can_create_space = 1;
            (0, p)
        } else {
            (ERROR_HANDLE_INVALID, blank)
        }
    };
    let p = list.get_xdev_properties(XDevIdMNDX(100), props_call).unwrap();
    assert_eq!(&p.name[..5], b"hmd0\0");
    assert_eq!(&p.serial[..4], b"S01\0");
    assert_eq!(p.can_create_space, 1);
    assert_eq!(
        list.get_xdev_properties(XDevIdMNDX(999), props_call).err(),
        Some(XrError(ERROR_HANDLE_INVALID))
    );

    let space = list
        .create_xdev_space(XDevIdMNDX(200), |f, info| {
            assert_eq!(f, "xrCreateXDevSpaceMNDX");
            assert_eq!(info.ty, 1000444005);
            assert_eq!(info.xdev_list, XDevListMNDX(3));
            assert_eq!(info.id, XDevIdMNDX(200));
            (0, 4242u64)
        })
        .unwrap();
    assert_eq!(space, 4242);

    list.destroy(|_, _| {
        destroyed.set(destroyed.get() + 1);
        0
    })
    .unwrap();
    assert_eq!(destroyed.get(), 1);
}
