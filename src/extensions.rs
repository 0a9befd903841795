use vstd::prelude::*;

use vstd::array::spec_array_fill_for_copy_type;

use crate::status::{convert_result, status_of, XrError};

verus! {

/// Identifier of one device inside a device list; zero is no device.
#[derive(Debug, Copy, Clone, PartialEq, Eq, Hash, Structural)]
pub struct XDevIdMNDX(pub u64);

impl XDevIdMNDX {
    /// The null device.
    pub fn null() -> (r: XDevIdMNDX)
        ensures
            r.0 == 0,
    {
        XDevIdMNDX(0)
    }
}

/// Handle of a device list owned by the foreign runtime; zero is no handle.
#[derive(Debug, Copy, Clone, PartialEq, Eq, Hash, Structural)]
pub struct XDevListMNDX(pub u64);

impl XDevListMNDX {
    /// The null list handle.
    pub fn null() -> (r: XDevListMNDX)
        ensures
            r.0 == 0,
    {
        XDevListMNDX(0)
    }
}

/// The name under which the runtime advertises the device-space extension.
pub open spec fn xdev_space_name() -> Seq<char> {
    seq!['X', 'R', '_', 'M', 'N', 'D', 'X', '_', 'x', 'd', 'e', 'v', '_', 's', 'p', 'a', 'c', 'e']
}

/// The functions that the device-space extension provides, in load order.
pub open spec fn xdev_space_function_names() -> Seq<Seq<char>> {
    seq![
        "xrCreateXDevListMNDX"@,
        "xrGetXDevListGenerationNumberMNDX"@,
        "xrEnumerateXDevsMNDX"@,
        "xrGetXDevPropertiesMNDX"@,
        "xrDestroyXDevListMNDX"@,
        "xrCreateXDevSpaceMNDX"@,
    ]
}

/// Resolves every name in `names` through `resolve`, in order, stopping at the
/// first failure. Either every name resolved or the first failure comes back.
pub fn resolve_all<P: Copy, F: Fn(&'static str) -> Result<P, XrError>>(
    names: &Vec<&'static str>,
    resolve: &F,
) -> (r: Result<Vec<P>, XrError>)
    requires
        forall|i: int| 0 <= i < names.len() ==> resolve.requires((names[i],)),
    ensures
        r matches Ok(v) ==> v.len() == names.len() && forall|i: int|
            0 <= i < names.len() ==> resolve.ensures((names[i],), Ok::<P, XrError>(#[trigger] v[i])),
        r matches Err(e) ==> exists|k: int|
            0 <= k < names.len() && resolve.ensures((names[k],), Err::<P, XrError>(e)),
{
    let mut out: Vec<P> = Vec::new();
    let mut i: usize = 0;
    while i < names.len()
        invariant
            i <= names.len(),
            out.len() == i,
            forall|j: int| 0 <= j < names.len() ==> resolve.requires((names[j],)),
            forall|j: int|
                0 <= j < i ==> resolve.ensures((names[j],), Ok::<P, XrError>(#[trigger] out[j])),
        decreases names.len() - i,
    {
        let res = resolve(names[i]);
        match res {
            Ok(p) => {
                out.push(p);
            },
            Err(e) => {
                return Err(e);
            },
        }
        i = i + 1;
    }
    Ok(out)
}

/// There is a text `s` with `s@ == name` on which `resolve` may return `Ok(p)`.
pub open spec fn resolves_to<P, F: Fn(&'static str) -> Result<P, XrError>>(
    resolve: F,
    name: Seq<char>,
    p: P,
) -> bool {
    exists|s: &'static str| s@ == name && #[trigger] resolve.ensures((s,), Ok::<P, XrError>(p))
}

/// There is a text `s` with `s@ == name` on which `resolve` may return `Err(e)`.
pub open spec fn fails_with<P, F: Fn(&'static str) -> Result<P, XrError>>(
    resolve: F,
    name: Seq<char>,
    e: XrError,
) -> bool {
    exists|s: &'static str| s@ == name && #[trigger] resolve.ensures((s,), Err::<P, XrError>(e))
}

/// The dispatch table of the device-space extension: one resolved function per
/// name of `xdev_space_function_names`, in that order.
#[derive(Copy, Clone)]
pub struct XDevSpaceMNDX<P> {
    pub create_xdev_list: P,
    pub get_xdev_list_generation_number: P,
    pub enumerate_xdevs: P,
    pub get_xdev_properties: P,
    pub destroy_xdev_list: P,
    pub create_xdev_space: P,
}

impl<P> XDevSpaceMNDX<P> {
    /// The table's functions in load order.
    pub open spec fn functions(&self) -> Seq<P> {
        seq![
            self.create_xdev_list,
            self.get_xdev_list_generation_number,
            self.enumerate_xdevs,
            self.get_xdev_properties,
            self.destroy_xdev_list,
            self.create_xdev_space,
        ]
    }

    /// Every function of the table is what `resolve` gave for its name.
    pub open spec fn resolved_by<F: Fn(&'static str) -> Result<P, XrError>>(
        &self,
        resolve: F,
    ) -> bool {
        forall|i: int|
            0 <= i < 6 ==> #[trigger] resolves_to(
                resolve,
                xdev_space_function_names()[i],
                self.functions()[i],
            )
    }
}

/// A load through `resolve` can fail with `e`: some name of the extension
/// resolves to that failure.
pub open spec fn load_fails_with<P, F: Fn(&'static str) -> Result<P, XrError>>(
    resolve: F,
    e: XrError,
) -> bool {
    exists|k: int| 0 <= k < 6 && #[trigger] fails_with(resolve, xdev_space_function_names()[k], e)
}

impl<P: Copy> XDevSpaceMNDX<P> {
    /// The name under which the runtime advertises this extension.
    pub fn name() -> (r: &'static str)
        ensures
            r@ == xdev_space_name(),
    {
        proof {
            reveal_strlit("XR_MNDX_xdev_space");
        }
        "XR_MNDX_xdev_space"
    }

    /// The names of the extension's functions, in load order.
    pub fn function_names() -> (r: Vec<&'static str>)
        ensures
            r.len() == 6,
            forall|i: int| 0 <= i < 6 ==> #[trigger] r[i]@ == xdev_space_function_names()[i],
    {
        let r: Vec<&'static str> = vec![
            "xrCreateXDevListMNDX",
            "xrGetXDevListGenerationNumberMNDX",
            "xrEnumerateXDevsMNDX",
            "xrGetXDevPropertiesMNDX",
            "xrDestroyXDevListMNDX",
            "xrCreateXDevSpaceMNDX",
        ];
        assert(forall|i: int| 0 <= i < 6 ==> #[trigger] r[i]@ == xdev_space_function_names()[i]);
        r
    }

    /// Loads the extension's dispatch table, resolving each function by name
    /// through `resolve`. No table is built unless every name resolved.
    pub fn load<F: Fn(&'static str) -> Result<P, XrError>>(resolve: &F) -> (r: Result<Self, XrError>)
        requires
            forall|s: &'static str| resolve.requires((s,)),
        ensures
            r matches Ok(t) ==> t.resolved_by(*resolve),
            r matches Err(e) ==> load_fails_with(*resolve, e),
    {
        let names = Self::function_names();
        let res = resolve_all(&names, resolve);
        match res {
            Ok(v) => {
                let t = XDevSpaceMNDX {
                    create_xdev_list: v[0],
                    get_xdev_list_generation_number: v[1],
                    enumerate_xdevs: v[2],
                    get_xdev_properties: v[3],
                    destroy_xdev_list: v[4],
                    create_xdev_space: v[5],
                };
                assert forall|i: int| 0 <= i < 6 implies #[trigger] resolves_to(
                    *resolve,
                    xdev_space_function_names()[i],
                    t.functions()[i],
                ) by {
                    assert(t.functions()[i] == v[i]);
                    assert(resolve.ensures((names[i],), Ok::<P, XrError>(v[i])));
                }
                Ok(t)
            },
            Err(e) => {
                let ghost k = choose|k: int|
                    0 <= k < names.len() && resolve.ensures((names[k],), Err::<P, XrError>(e));
                assert(fails_with(*resolve, xdev_space_function_names()[k], e));
                Err(e)
            },
        }
    }
}

/// A load through a resolver that fails on one of the extension's names never
/// yields a table: the only tables are those that every name resolved.
pub proof fn lemma_load_all_or_nothing<P, F: Fn(&'static str) -> Result<P, XrError>>(
    resolve: F,
    k: int,
)
    requires
        0 <= k < 6,
        forall|s: &'static str, p: P|
            s@ == xdev_space_function_names()[k] ==> !#[trigger] resolve.ensures(
                (s,),
                Ok::<P, XrError>(p),
            ),
    ensures
        forall|t: XDevSpaceMNDX<P>| !#[trigger] t.resolved_by(resolve),
{
    assert forall|t: XDevSpaceMNDX<P>| !#[trigger] t.resolved_by(resolve) by {
        if t.resolved_by(resolve) {
            assert(resolves_to(resolve, xdev_space_function_names()[k], t.functions()[k]));
        }
    }
}

/// A load through a resolver that never fails always yields a table.
pub proof fn lemma_load_succeeds<P, F: Fn(&'static str) -> Result<P, XrError>>(
    resolve: F,
)
    requires
        forall|s: &'static str, e: XrError| !#[trigger] resolve.ensures((s,), Err::<P, XrError>(e)),
    ensures
        forall|e: XrError| !#[trigger] load_fails_with(resolve, e),
{
    assert forall|e: XrError| !#[trigger] load_fails_with(resolve, e) by {
        if load_fails_with(resolve, e) {
            let k = choose|k: int| 0 <= k < 6 && #[trigger] fails_with(resolve, xdev_space_function_names()[k], e);
            let s = choose|s: &'static str| s@ == xdev_space_function_names()[k] && #[trigger] resolve.ensures((s,), Err::<P, XrError>(e));
        }
    }
}

/// Some text of `names` is the name of the device-space extension.
pub open spec fn advertises_xdev_space(names: Seq<String>) -> bool {
    exists|i: int| 0 <= i < names.len() && #[trigger] names[i]@ == xdev_space_name()
}

/// The optional extensions that this library knows beyond the core API.
#[derive(Clone, Debug, Default)]
pub struct ExtraExtensionSet {
    pub mnd_xdev_space: bool,
}

impl ExtraExtensionSet {
    /// The known extensions among the names that a runtime advertises; names
    /// that are not known are passed over.
    pub fn from_advertised(names: &Vec<String>) -> (r: ExtraExtensionSet)
        ensures
            r.mnd_xdev_space == advertises_xdev_space(names@),
    {
        let wanted = XDevSpaceMNDX::<u8>::name().to_owned();
        let mut found = false;
        let mut i: usize = 0;
        while i < names.len()
            invariant
                i <= names.len(),
                wanted@ == xdev_space_name(),
                found == exists|j: int| 0 <= j < i && #[trigger] names@[j]@ == xdev_space_name(),
            decreases names.len() - i,
        {
            if names[i] == wanted {
                found = true;
            }
            i = i + 1;
        }
        ExtraExtensionSet { mnd_xdev_space: found }
    }

    /// Appends to `names` the name of each extension of the set.
    pub fn to_vec(&self, names: &mut Vec<String>)
        ensures
            self.mnd_xdev_space ==> final(names)@ =~= old(names)@.push(final(names)@.last())
                && final(names)@.last()@ == xdev_space_name(),
            !self.mnd_xdev_space ==> final(names)@ == old(names)@,
    {
        if self.mnd_xdev_space {
            names.push(XDevSpaceMNDX::<u8>::name().to_owned());
        }
    }
}

/// The dispatch tables of the optional extensions that were asked for.
#[derive(Default)]
pub struct ExtraExtensions<P> {
    pub mnd_xdev_space: Option<XDevSpaceMNDX<P>>,
}

impl<P: Copy> ExtraExtensions<P> {
    /// Loads the table of each extension of `set`, resolving functions through
    /// `resolve`; the first failure fails the whole load.
    pub fn load<F: Fn(&'static str) -> Result<P, XrError>>(
        set: &ExtraExtensionSet,
        resolve: &F,
    ) -> (r: Result<ExtraExtensions<P>, XrError>)
        requires
            forall|s: &'static str| resolve.requires((s,)),
        ensures
            !set.mnd_xdev_space ==> (r matches Ok(x) && x.mnd_xdev_space is None),
            set.mnd_xdev_space ==> (r matches Ok(x) ==> (x.mnd_xdev_space matches Some(t)
                && t.resolved_by(*resolve))),
            set.mnd_xdev_space ==> (r matches Err(e) ==> load_fails_with(*resolve, e)),
    {
        if set.mnd_xdev_space {
            match XDevSpaceMNDX::load(resolve) {
                Ok(t) => Ok(ExtraExtensions { mnd_xdev_space: Some(t) }),
                Err(e) => Err(e),
            }
        } else {
            Ok(ExtraExtensions { mnd_xdev_space: None })
        }
    }
}

/// Whether the system can create spaces for devices. The chain pointer of the
/// runtime's layout is always null and is not kept here.
#[derive(Copy, Clone, Debug)]
pub struct SystemXDevSpacePropertiesMNDX {
    pub ty: i32,
    pub supports_xdev_space: u32,
}

impl SystemXDevSpacePropertiesMNDX {
    pub fn structure_type() -> (r: i32)
        ensures
            r == 1000444001,
    {
        1000444001
    }
}

/// The creation record of a device list.
#[derive(Copy, Clone, Debug)]
pub struct CreateXDevListInfoMNDX {
    pub ty: i32,
}

impl CreateXDevListInfoMNDX {
    pub fn structure_type() -> (r: i32)
        ensures
            r == 1000444002,
    {
        1000444002
    }
}

/// The query record for the properties of one device.
#[derive(Copy, Clone, Debug)]
pub struct GetXDevInfoMNDX {
    pub ty: i32,
    pub id: XDevIdMNDX,
}

impl GetXDevInfoMNDX {
    pub fn structure_type() -> (r: i32)
        ensures
            r == 1000444003,
    {
        1000444003
    }
}

/// The properties of one device: its name and serial as null-padded text.
#[derive(Copy, Clone, Debug)]
pub struct XDevPropertiesMNDX {
    pub ty: i32,
    pub name: [u8; 256],
    pub serial: [u8; 256],
    pub can_create_space: u32,
}

impl XDevPropertiesMNDX {
    pub fn structure_type() -> (r: i32)
        ensures
            r == 1000444004,
    {
        1000444004
    }
}

/// The creation record of a space anchored to one device. The pose that
/// offsets the space is supplied beside it by whoever makes the call.
#[derive(Copy, Clone, Debug)]
pub struct CreateXDevSpaceInfoMNDX {
    pub ty: i32,
    pub xdev_list: XDevListMNDX,
    pub id: XDevIdMNDX,
}

impl CreateXDevSpaceInfoMNDX {
    pub fn structure_type() -> (r: i32)
        ensures
            r == 1000444005,
    {
        1000444005
    }
}

/// The outcome of a foreign call that reported `raw` and, on success, `v`.
pub open spec fn with_status<T>(raw: i32, v: T) -> Result<T, XrError> {
    if raw == 0 {
        Ok(v)
    } else {
        Err(XrError(raw))
    }
}

/// The creation record that a new device list is asked for with.
pub open spec fn create_list_info() -> CreateXDevListInfoMNDX {
    CreateXDevListInfoMNDX { ty: 1000444002 }
}

/// The query record for device `id`.
pub open spec fn get_info(id: XDevIdMNDX) -> GetXDevInfoMNDX {
    GetXDevInfoMNDX { ty: 1000444003, id }
}

/// The creation record for a space anchored to device `id` of list `list`.
pub open spec fn space_info(list: XDevListMNDX, id: XDevIdMNDX) -> CreateXDevSpaceInfoMNDX {
    CreateXDevSpaceInfoMNDX { ty: 1000444005, xdev_list: list, id }
}

/// The properties record handed to a query to be filled: tagged, all zero.
pub open spec fn blank_properties() -> XDevPropertiesMNDX {
    XDevPropertiesMNDX {
        ty: 1000444004,
        name: spec_array_fill_for_copy_type::<u8, 256>(0u8),
        serial: spec_array_fill_for_copy_type::<u8, 256>(0u8),
        can_create_space: 0,
    }
}

/// What an enumeration call reports: the raw status, the number of devices
/// that exist, and the ids that it wrote.
pub type Enumeration = (i32, u32, Vec<XDevIdMNDX>);

/// The capacity reported to the runtime for a buffer of `len` entries.
pub open spec fn capacity_of(len: nat) -> u32 {
    if len <= u32::MAX {
        len as u32
    } else {
        u32::MAX
    }
}

/// How many entries an enumeration copies: no more than the buffer holds,
/// than the runtime counted, or than it wrote.
pub open spec fn fill_count_spec(len: nat, count: u32, written: nat) -> nat {
    let a = if len <= count { len } else { count as nat };
    if a <= written { a } else { written }
}

/// The buffer `old` after an enumeration that reported `raw` and `count` and
/// wrote `written`.
pub open spec fn filled(old: Seq<XDevIdMNDX>, raw: i32, count: u32, written: Seq<XDevIdMNDX>) -> Seq<XDevIdMNDX> {
    if raw == 0 {
        let n = fill_count_spec(old.len(), count, written.len());
        Seq::new(old.len(), |j: int| if j < n { written[j] } else { old[j] })
    } else {
        old
    }
}

/// `r` and `after` are the result and the buffer of an enumeration into
/// `before` whose call reported `out`.
pub open spec fn enumerated(
    before: Seq<XDevIdMNDX>,
    out: Enumeration,
    r: Result<usize, XrError>,
    after: Seq<XDevIdMNDX>,
) -> bool {
    r == with_status(out.0, out.1 as usize) && after == filled(before, out.0, out.1, out.2@)
}

/// The two-call idiom: a successful count query on an empty buffer writes
/// nothing; a buffer that holds the whole count receives exactly that many
/// ids and keeps the rest; a smaller buffer is filled to its capacity, and
/// the count is reported as success either way.
pub proof fn lemma_two_call_enumeration(
    before: Seq<XDevIdMNDX>,
    count: u32,
    written: Seq<XDevIdMNDX>,
)
    ensures
        with_status(0, count as usize) == Ok::<usize, XrError>(count as usize),
        before.len() == 0 ==> filled(before, 0, count, written) == before,
        before.len() >= count && written.len() >= count ==> ({
            let after = filled(before, 0, count, written);
            &&& after.len() == before.len()
            &&& forall|j: int| 0 <= j < count ==> after[j] == written[j]
            &&& forall|j: int| count <= j < before.len() ==> after[j] == before[j]
        }),
        before.len() < count && written.len() >= before.len() ==> filled(before, 0, count, written)
            == written.subrange(0, before.len() as int),
{
    let after = filled(before, 0, count, written);
    if before.len() == 0 {
        assert(after =~= before);
    }
    if before.len() < count && written.len() >= before.len() {
        assert(after =~= written.subrange(0, before.len() as int));
    }
}

fn fill_count(len: usize, count: u32, written: usize) -> (n: usize)
    ensures
        n == fill_count_spec(len as nat, count, written as nat),
{
    let a: usize = if len <= count as usize { len } else { count as usize };
    if a <= written { a } else { written }
}

/// A device list of the runtime, owned by this value alone: it cannot be
/// copied, and `destroy` consumes it, so its handle is released at most once.
pub struct XDevList<P> {
    ext: XDevSpaceMNDX<P>,
    handle: XDevListMNDX,
}

impl<P: Copy> XDevList<P> {
    /// The handle that this list owns.
    pub closed spec fn handle(&self) -> XDevListMNDX {
        self.handle
    }

    /// The dispatch table that this list calls through.
    pub closed spec fn ext(&self) -> XDevSpaceMNDX<P> {
        self.ext
    }

    /// Creates a device list. `create` makes the foreign call: it is handed the
    /// table's creation function and the creation record, and returns the raw
    /// status and the new handle.
    pub fn try_new<F: FnOnce(P, CreateXDevListInfoMNDX) -> (i32, XDevListMNDX)>(
        ext: &XDevSpaceMNDX<P>,
        create: F,
    ) -> (r: Result<XDevList<P>, XrError>)
        requires
            create.requires((ext.create_xdev_list, create_list_info())),
        ensures
            exists|out: (i32, XDevListMNDX)|
                #[trigger] create.ensures((ext.create_xdev_list, create_list_info()), out) && (
                match r {
                    Ok(l) => out.0 == 0 && l.handle() == out.1 && l.ext() == *ext,
                    Err(e) => out.0 != 0 && e == XrError(out.0),
                }),
    {
        let info = CreateXDevListInfoMNDX { ty: CreateXDevListInfoMNDX::structure_type() };
        let (raw, handle) = create(ext.create_xdev_list, info);
        match convert_result(raw) {
            Ok(()) => Ok(XDevList { ext: *ext, handle }),
            Err(e) => Err(e),
        }
    }

    /// The list's generation number: it differs from the last one observed
    /// once the set of devices has changed. `call` makes the foreign call and
    /// returns the raw status and the number.
    pub fn get_generation_number<F: FnOnce(P, XDevListMNDX) -> (i32, u64)>(
        &self,
        call: F,
    ) -> (r: Result<u64, XrError>)
        requires
            call.requires((self.ext().get_xdev_list_generation_number, self.handle())),
        ensures
            exists|out: (i32, u64)|
                #[trigger] call.ensures((self.ext().get_xdev_list_generation_number, self.handle()), out)
                    && r == with_status(out.0, out.1),
    {
        let (raw, generation) = call(self.ext.get_xdev_list_generation_number, self.handle);
        match convert_result(raw) {
            Ok(()) => Ok(generation),
            Err(e) => Err(e),
        }
    }

    /// Fetches the properties of device `id`. `call` makes the foreign call:
    /// it is handed the query record and a blank properties record and returns
    /// the raw status and the filled record.
    pub fn get_xdev_properties<
        F: FnOnce(P, XDevListMNDX, GetXDevInfoMNDX, XDevPropertiesMNDX) -> (i32, XDevPropertiesMNDX),
    >(&self, id: XDevIdMNDX, call: F) -> (r: Result<XDevPropertiesMNDX, XrError>)
        requires
            call.requires(
                (self.ext().get_xdev_properties, self.handle(), get_info(id), blank_properties()),
            ),
        ensures
            exists|out: (i32, XDevPropertiesMNDX)|
                #[trigger] call.ensures(
                    (self.ext().get_xdev_properties, self.handle(), get_info(id), blank_properties()),
                    out,
                ) && r == with_status(out.0, out.1),
    {
        let info = GetXDevInfoMNDX { ty: GetXDevInfoMNDX::structure_type(), id };
        let properties = XDevPropertiesMNDX {
            ty: XDevPropertiesMNDX::structure_type(),
            name: [0u8; 256],
            serial: [0u8; 256],
            can_create_space: 0,
        };
        let (raw, filled) = call(self.ext.get_xdev_properties, self.handle, info, properties);
        match convert_result(raw) {
            Ok(()) => Ok(filled),
            Err(e) => Err(e),
        }
    }

    /// Creates a space anchored to device `id`. `call` makes the foreign call:
    /// it is handed the creation record and returns the raw status and the
    /// space, whose ownership passes to the caller.
    pub fn create_xdev_space<S, F: FnOnce(P, CreateXDevSpaceInfoMNDX) -> (i32, S)>(
        &self,
        id: XDevIdMNDX,
        call: F,
    ) -> (r: Result<S, XrError>)
        requires
            call.requires(
                (
                    self.ext().create_xdev_space,
                    space_info(self.handle(), id),
                ),
            ),
        ensures
            exists|out: (i32, S)|
                #[trigger] call.ensures(
                    (
                        self.ext().create_xdev_space,
                        space_info(self.handle(), id),
                    ),
                    out,
                ) && r == with_status(out.0, out.1),
    {
        let info = CreateXDevSpaceInfoMNDX {
            ty: CreateXDevSpaceInfoMNDX::structure_type(),
            xdev_list: self.handle,
            id,
        };
        let (raw, space) = call(self.ext.create_xdev_space, info);
        match convert_result(raw) {
            Ok(()) => Ok(space),
            Err(e) => Err(e),
        }
    }

    /// Lists the devices by the two-call idiom. `call` makes the foreign call:
    /// it is handed the capacity of `devices` (zero asks for the count alone)
    /// and returns the raw status, the number of devices that exist, and the
    /// ids it wrote. On success the first written ids, as many as fit and as
    /// the count allows, are copied into `devices`, the rest is left as it was,
    /// and the count is returned. On failure `devices` is left as it was.
    pub fn enumerate<F: FnOnce(P, XDevListMNDX, u32) -> Enumeration>(
        &self,
        devices: &mut Vec<XDevIdMNDX>,
        call: F,
    ) -> (r: Result<usize, XrError>)
        requires
            call.requires((self.ext().enumerate_xdevs, self.handle(), capacity_of(old(devices)@.len()))),
        ensures
            exists|out: Enumeration|
                #[trigger] call.ensures((self.ext().enumerate_xdevs, self.handle(), capacity_of(old(devices)@.len())), out)
                    && enumerated(old(devices)@, out, r, final(devices)@),
    {
        let capacity: u32 = if devices.len() <= 0xffff_ffffusize {
            devices.len() as u32
        } else {
            0xffff_ffffu32
        };
        let (raw, count, written) = call(self.ext.enumerate_xdevs, self.handle, capacity);
        match convert_result(raw) {
            Ok(()) => {
                let n: usize = fill_count(devices.len(), count, written.len());
                let mut i: usize = 0;
                while i < n
                    invariant
                        n == fill_count_spec(old(devices)@.len(), count, written@.len()),
                        i <= n,
                        n <= written.len(),
                        devices@.len() == old(devices)@.len(),
                        forall|j: int| 0 <= j < i ==> devices@[j] == written@[j],
                        forall|j: int| i <= j < devices@.len() ==> devices@[j] == old(devices)@[j],
                    decreases n - i,
                {
                    devices.set(i, written[i]);
                    i = i + 1;
                }
                assert(devices@ =~= filled(old(devices)@, raw, count, written@));
                Ok(count as usize)
            },
            Err(e) => Err(e),
        }
    }

    /// Releases the list: `call` is handed the table's destroy function and
    /// the handle, exactly once, and returns the raw status.
    pub fn destroy<F: FnOnce(P, XDevListMNDX) -> i32>(self, call: F) -> (r: Result<(), XrError>)
        requires
            call.requires((self.ext().destroy_xdev_list, self.handle())),
        ensures
            exists|raw: i32|
                #[trigger] call.ensures((self.ext().destroy_xdev_list, self.handle()), raw)
                    && r == status_of(raw),
    {
        let raw = call(self.ext.destroy_xdev_list, self.handle);
        convert_result(raw)
    }
}

} // verus!
