use vstd::prelude::*;

verus! {

/// The operations a backend supports natively.
#[derive(Clone, Copy, PartialEq, Eq, Structural, Debug)]
pub struct Capability {
    pub stat: bool,
    pub read: bool,
    pub write: bool,
    pub write_can_empty: bool,
    pub create_dir: bool,
    pub delete: bool,
    pub list: bool,
    pub list_with_recursive: bool,
    pub presign: bool,
}

impl Capability {
    /// A capability set with nothing supported.
    pub fn none() -> (c: Capability)
        ensures
            c == (Capability {
                stat: false,
                read: false,
                write: false,
                write_can_empty: false,
                create_dir: false,
                delete: false,
                list: false,
                list_with_recursive: false,
                presign: false,
            }),
    {
        Capability {
            stat: false,
            read: false,
            write: false,
            write_can_empty: false,
            create_dir: false,
            delete: false,
            list: false,
            list_with_recursive: false,
            presign: false,
        }
    }
}

/// The full capability view advertised above the layer: directory creation
/// can be simulated wherever listing and empty writes are both available.
pub open spec fn promoted(c: Capability) -> Capability {
    Capability { create_dir: c.create_dir || (c.list && c.write_can_empty), ..c }
}

pub fn complete_capability(c: Capability) -> (r: Capability)
    ensures
        r == promoted(c),
{
    let mut r = c;
    if c.list && c.write_can_empty {
        r.create_dir = true;
    }
    r
}

/// Capability promotion: where the backend can list and accept empty writes,
/// the full view reports `create_dir`; every other flag, and anything already
/// supported, is carried over unchanged.
pub proof fn lemma_capability_promotion(c: Capability)
    ensures
        c.list && c.write_can_empty ==> promoted(c).create_dir,
        c.create_dir ==> promoted(c).create_dir,
        promoted(c).stat == c.stat,
        promoted(c).read == c.read,
        promoted(c).write == c.write,
        promoted(c).write_can_empty == c.write_can_empty,
        promoted(c).delete == c.delete,
        promoted(c).list == c.list,
        promoted(c).list_with_recursive == c.list_with_recursive,
        promoted(c).presign == c.presign,
{
}

/// Both capability views of a layered accessor: the backend's own flags and
/// the promoted set shown to callers above the layer.
#[derive(Clone, Copy, PartialEq, Eq, Structural, Debug)]
pub struct AccessorInfo {
    pub native: Capability,
    pub full: Capability,
}

impl AccessorInfo {
    pub fn new(native: Capability) -> (i: AccessorInfo)
        ensures
            i.native == native,
            i.full == native,
    {
        AccessorInfo { native, full: native }
    }

    pub fn native_capability(&self) -> (c: Capability)
        ensures
            c == self.native,
    {
        self.native
    }

    pub fn full_capability(&self) -> (c: Capability)
        ensures
            c == self.full,
    {
        self.full
    }
}

} // verus!
