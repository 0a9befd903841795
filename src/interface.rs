use vstd::prelude::*;

verus! {

/// The status reported when a requested interface version is not served.
pub const INTERFACE_NOT_FOUND: i32 = 105;

/// The versions of the client-core interface that this library serves; each
/// has a table layout of its own.
#[derive(Clone, Copy, Debug, PartialEq, Eq, Structural)]
pub enum ClientCoreVersion {
    V2,
    V3,
}

/// The name under which a caller asks for a version.
pub open spec fn version_name(v: ClientCoreVersion) -> Seq<char> {
    match v {
        ClientCoreVersion::V2 => "IVRClientCore_002"@,
        ClientCoreVersion::V3 => "IVRClientCore_003"@,
    }
}

/// The served version named `name`, if any.
pub open spec fn version_of(name: Seq<char>) -> Option<ClientCoreVersion> {
    if name == "IVRClientCore_002"@ {
        Some(ClientCoreVersion::V2)
    } else if name == "IVRClientCore_003"@ {
        Some(ClientCoreVersion::V3)
    } else {
        None
    }
}

/// `name` is the name of a served version.
pub open spec fn is_supported(name: Seq<char>) -> bool {
    exists|v: ClientCoreVersion| #[trigger] version_name(v) == name
}

impl ClientCoreVersion {
    /// The names of all served versions.
    pub fn supported_versions() -> (r: Vec<&'static str>)
        ensures
            r.len() == 2,
            r[0]@ == version_name(ClientCoreVersion::V2),
            r[1]@ == version_name(ClientCoreVersion::V3),
    {
        vec!["IVRClientCore_002", "IVRClientCore_003"]
    }

    /// The version that `name` asks for, or `None` where no served version
    /// has that name.
    pub fn resolve(name: &str) -> (r: Option<ClientCoreVersion>)
        ensures
            r == version_of(name@),
            r matches Some(v) ==> version_name(v) == name@,
            r is None <==> !is_supported(name@),
    {
        let asked = name.to_owned();
        let v2 = "IVRClientCore_002".to_owned();
        let v3 = "IVRClientCore_003".to_owned();
        proof {
            reveal_strlit("IVRClientCore_002");
            reveal_strlit("IVRClientCore_003");
        }
        if asked == v2 {
            Some(ClientCoreVersion::V2)
        } else if asked == v3 {
            Some(ClientCoreVersion::V3)
        } else {
            assert forall|v: ClientCoreVersion| version_name(v) != name@ by {
                match v {
                    ClientCoreVersion::V2 => {},
                    ClientCoreVersion::V3 => {},
                }
            }
            None
        }
    }
}

/// The status that the factory reports for a lookup: success where a version
/// was found, not-found otherwise.
pub open spec fn factory_status_spec(found: Option<ClientCoreVersion>) -> i32 {
    if found is Some {
        0
    } else {
        INTERFACE_NOT_FOUND
    }
}

/// Looks up the version that `name` asks for and the status to report.
pub fn lookup_interface(name: &str) -> (r: (Option<ClientCoreVersion>, i32))
    ensures
        r.0 == version_of(name@),
        r.0 matches Some(v) ==> version_name(v) == name@,
        r.0 is None <==> !is_supported(name@),
        r.1 == factory_status_spec(r.0),
{
    let found = ClientCoreVersion::resolve(name);
    let status: i32 = if found.is_some() {
        0
    } else {
        INTERFACE_NOT_FOUND
    };
    (found, status)
}

/// The sole strong reference to an object of an `Objects` table. It cannot be
/// copied; giving it back to the table destroys the object.
pub struct Owner {
    slot: usize,
}

/// A reference that does not keep its object alive: it must be upgraded
/// through the table on every use, and fails once the object is destroyed.
#[derive(Clone, Copy, Debug, PartialEq, Eq, Structural)]
pub struct WeakRef {
    slot: usize,
}

impl Owner {
    /// The slot of the object owned.
    pub closed spec fn slot(&self) -> nat {
        self.slot as nat
    }

    /// A weak reference to the object owned.
    pub fn downgrade(&self) -> (w: WeakRef)
        ensures
            w.slot() == self.slot(),
    {
        WeakRef { slot: self.slot }
    }
}

impl WeakRef {
    /// The slot of the object referred to.
    pub closed spec fn slot(&self) -> nat {
        self.slot as nat
    }
}

/// A table of shared objects. Each slot holds a live object or `None` once its
/// object is destroyed; slots are never reused, so a weak reference to a
/// destroyed object can never reach another one.
pub struct Objects<T> {
    slots: Vec<Option<T>>,
}

impl<T> View for Objects<T> {
    type V = Seq<Option<T>>;

    closed spec fn view(&self) -> Seq<Option<T>> {
        self.slots@
    }
}

/// What upgrading a reference to `slot` yields in a table whose slots are `s`.
pub open spec fn upgraded<T>(s: Seq<Option<T>>, slot: nat) -> Option<T> {
    if slot < s.len() {
        s[slot as int]
    } else {
        None
    }
}

impl<T> Objects<T> {
    /// An empty table.
    pub fn new() -> (r: Objects<T>)
        ensures
            r@ == Seq::<Option<T>>::empty(),
    {
        Objects { slots: Vec::new() }
    }

    /// Adds `t` to the table in a fresh slot and returns its owner.
    pub fn insert(&mut self, t: T) -> (o: Owner)
        ensures
            final(self)@ == old(self)@.push(Some(t)),
            o.slot() == old(self)@.len(),
    {
        let slot = self.slots.len();
        self.slots.push(Some(t));
        Owner { slot }
    }

    /// Destroys the object of `owner`; weak references to it fail from now on.
    pub fn destroy(&mut self, owner: Owner)
        requires
            owner.slot() < old(self)@.len(),
        ensures
            final(self)@ == old(self)@.update(owner.slot() as int, None),
    {
        self.slots.set(owner.slot, None);
    }

    /// The object that `w` refers to, where it is still alive.
    pub fn upgrade(&self, w: WeakRef) -> (r: Option<&T>)
        ensures
            r is Some <==> upgraded(self@, w.slot()) is Some,
            r matches Some(t) ==> upgraded(self@, w.slot()) == Some(*t),
    {
        if w.slot < self.slots.len() {
            match &self.slots[w.slot] {
                Some(t) => Some(t),
                None => None,
            }
        } else {
            None
        }
    }
}

/// Once a slot is emptied, no later insertion or destruction refills it: a
/// weak reference to a destroyed object fails for good.
pub proof fn lemma_destroyed_stays_gone<T>(s: Seq<Option<T>>, slot: nat, t: T, other: int)
    requires
        slot < s.len(),
        upgraded(s, slot) is None,
        0 <= other < s.len(),
    ensures
        upgraded(s.push(Some(t)), slot) is None,
        upgraded(s.update(other, None), slot) is None,
{
}

/// Upgrading a weak reference after its owner destroyed the object fails.
pub proof fn lemma_upgrade_after_destroy<T>(s: Seq<Option<T>>, slot: nat)
    requires
        slot < s.len(),
    ensures
        upgraded(s.update(slot as int, None), slot) is None,
{
}

/// The record exported for one interface kind `K`: which table layout it
/// presents, and a weak reference back to the object that serves it.
#[derive(Clone, Copy, Debug)]
pub struct ExportedVtable<K> {
    pub kind: K,
    pub backref: WeakRef,
}

/// Exports the object of `owner` as interface kind `kind`. The record refers
/// to the object weakly and does not keep it alive.
pub fn export_as<K>(kind: K, owner: &Owner) -> (r: ExportedVtable<K>)
    ensures
        r.kind == kind,
        r.backref.slot() == owner.slot(),
{
    ExportedVtable { kind, backref: owner.downgrade() }
}

impl<K> ExportedVtable<K> {
    /// The object that a call arriving through this record is served by,
    /// resolved afresh; `None` once the object is gone.
    pub fn owner<'a, T>(&self, objects: &'a Objects<T>) -> (r: Option<&'a T>)
        ensures
            r is Some <==> upgraded(objects@, self.backref.slot()) is Some,
            r matches Some(t) ==> upgraded(objects@, self.backref.slot()) == Some(*t),
    {
        objects.upgrade(self.backref)
    }
}

} // verus!
