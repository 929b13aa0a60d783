use vstd::prelude::*;

use std::sync::Arc;

use crate::access::Access;
use crate::access::List;
use crate::access::OpCreateDir;
use crate::access::OpList;
use crate::access::OpPresign;
use crate::access::OpRead;
use crate::access::OpStat;
use crate::access::OpWrite;
use crate::access::PresignedRequest;
use crate::access::Write;
use crate::access::take_limit;
use crate::capability::complete_capability;
use crate::capability::promoted;
use crate::capability::AccessorInfo;
use crate::capability::Capability;
use crate::flat::flat_listing;
use crate::flat::wf_entries;
use crate::flat::FlatLister;
use crate::lister::prefix_pred;
use crate::lister::FourWays;
use crate::lister::PrefixLister;
use crate::path_util::ends_with_slash;
use crate::path_util::get_parent;
use crate::path_util::is_root;
use crate::path_util::spec_ends_with_slash;
use crate::path_util::spec_parent;
use crate::path_util::spec_root;
use crate::reader::CompleteReader;
use crate::types::dir_metadata;
use crate::types::Entry;
use crate::types::Error;
use crate::types::ErrorKind;
use crate::types::Metadata;
use crate::types::MSG_DIR_NOT_FOUND;
use crate::types::MSG_STAT_FILE_AS_DIR;
use crate::writer::CompleteWriter;

verus! {

/// The lister a completed `list` hands back: the inner lister untouched, a
/// flat walker, a prefix filter over the inner lister, or a prefix filter
/// over a flat walker.
pub type CompleteLister<A> = FourWays<
    <A as Access>::Lister,
    FlatLister<A>,
    PrefixLister<<A as Access>::Lister>,
    PrefixLister<FlatLister<A>>,
>;

/// Completes underlying backends' features so that callers can use every
/// backend in the same way.
pub struct CompleteLayer;

impl CompleteLayer {
    /// Wraps a backend, promoting the full capability view once: directory
    /// creation is advertised wherever listing and empty writes allow it to
    /// be simulated; the native view is kept unchanged for dispatch.
    pub fn layer<A: Access>(&self, inner: A) -> (acc: CompleteAccessor<A>)
        ensures
            acc.wf(),
            *acc.inner == inner,
    {
        let info = inner.info();
        let full = complete_capability(info.native_capability());
        CompleteAccessor {
            info: AccessorInfo { native: info.native, full },
            inner: Arc::new(inner),
        }
    }
}

/// For any layered backend that can list and accept empty writes, the full
/// capability view reports `create_dir`; the native view stays the
/// backend's own, untouched by the promotion.
pub proof fn lemma_layer_promotes<A: Access>(acc: CompleteAccessor<A>)
    requires
        acc.wf(),
    ensures
        acc.cap().list && acc.cap().write_can_empty ==> acc.info.full.create_dir,
        acc.info.native == acc.cap(),
{
}

/// Which way `create_dir` is completed for a given capability set.
#[derive(Clone, Copy, PartialEq, Eq, Structural, Debug)]
pub enum CreateDirStrategy {
    /// The backend creates directories natively: delegate.
    Native,
    /// No native support, but listing and empty writes exist: write an empty
    /// object at the directory key.
    SimulatedWrite,
    /// Nothing applies: delegate anyway and let the backend answer.
    Fallback,
}

pub open spec fn spec_create_dir_strategy(c: Capability) -> CreateDirStrategy {
    if c.create_dir {
        CreateDirStrategy::Native
    } else if c.write_can_empty && c.list {
        CreateDirStrategy::SimulatedWrite
    } else {
        CreateDirStrategy::Fallback
    }
}

pub fn create_dir_strategy(c: &Capability) -> (s: CreateDirStrategy)
    ensures
        s == spec_create_dir_strategy(*c),
{
    if c.create_dir {
        CreateDirStrategy::Native
    } else if c.write_can_empty && c.list {
        CreateDirStrategy::SimulatedWrite
    } else {
        CreateDirStrategy::Fallback
    }
}

/// Resolves a directory stat answered by the backend itself: metadata that
/// names a file is remapped to not-found, anything else passes.
pub fn resolve_dir_stat(m: Metadata) -> (r: Result<Metadata, Error>)
    ensures
        m.mode.spec_is_file() ==> (r matches Err(e) && e.kind == ErrorKind::NotFound && e.message
            == MSG_STAT_FILE_AS_DIR),
        !m.mode.spec_is_file() ==> r == Ok::<Metadata, Error>(m),
{
    if m.is_file() {
        Err(Error::new(ErrorKind::NotFound, MSG_STAT_FILE_AS_DIR))
    } else {
        Ok(m)
    }
}

/// Resolves a directory stat probed through a recursive list: any entry at
/// all means the directory exists; none means it is not found.
pub fn resolve_stat_probe(found: bool) -> (r: Result<Metadata, Error>)
    ensures
        found ==> r == Ok::<Metadata, Error>(dir_metadata()),
        !found ==> (r matches Err(e) && e.kind == ErrorKind::NotFound && e.message
            == MSG_DIR_NOT_FOUND),
{
    if found {
        Ok(Metadata::new(crate::types::EntryMode::DIR))
    } else {
        Err(Error::new(ErrorKind::NotFound, MSG_DIR_NOT_FOUND))
    }
}

/// Where a flat walk starts for a `list` at `path`: the path itself when it
/// names a directory, else its parent.
pub open spec fn flat_root(path: Seq<char>) -> Seq<char> {
    if spec_ends_with_slash(path) {
        path
    } else {
        spec_parent(path)
    }
}

/// The completion wrapper around a backend: dispatches each operation over
/// the backend's native capability and synthesizes what is missing.
pub struct CompleteAccessor<A: Access> {
    pub info: AccessorInfo,
    pub inner: Arc<A>,
}

impl<A: Access> CompleteAccessor<A> {
    /// The layering invariant: the native view is the backend's own, and the
    /// full view is its promotion.
    pub open spec fn wf(&self) -> bool {
        &&& self.info.native == (*self.inner).capability()
        &&& self.info.full == promoted(self.info.native)
    }

    /// The native capability dispatch reads.
    pub open spec fn cap(&self) -> Capability {
        (*self.inner).capability()
    }

    /// What the backend's own unlimited listing at `path` yields.
    pub open spec fn inner_listing(&self, path: Seq<char>, recursive: bool) -> Seq<Entry> {
        (*self.inner).listing(path, recursive)
    }

    pub fn inner(&self) -> (r: &A)
        ensures
            *r == *self.inner,
    {
        &self.inner
    }

    /// Both capability views: dispatch reads the native one, callers above
    /// the layer see the promoted full one.
    pub fn info(&self) -> (i: AccessorInfo)
        ensures
            i == self.info,
    {
        self.info
    }

    /// Completes `create_dir`: delegate natively where possible, otherwise
    /// simulate by writing and closing an empty object at the directory key,
    /// otherwise delegate and let the backend answer.
    pub fn create_dir(&self, path: &str, args: OpCreateDir) -> (r: Result<(), Error>)
        requires
            self.wf(),
    {
        let cap = self.info.native_capability();
        match create_dir_strategy(&cap) {
            CreateDirStrategy::Native => self.inner.create_dir(path, args),
            CreateDirStrategy::SimulatedWrite => {
                let mut w = match self.inner.write(path, OpWrite::new()) {
                    Err(e) => {
                        return Err(e);
                    },
                    Ok(w) => w,
                };
                match w.close() {
                    Err(e) => Err(e),
                    Ok(_) => Ok(()),
                }
            },
            CreateDirStrategy::Fallback => self.inner.create_dir(path, args),
        }
    }

    /// Completes `stat`: the root is answered synthetically without touching
    /// the backend; a directory path is delegated where the backend knows
    /// directories, probed through a recursive list where it can only list,
    /// and delegated otherwise.
    pub fn stat(&self, path: &str, args: OpStat) -> (r: Result<Metadata, Error>)
        requires
            self.wf(),
        ensures
            path@ == spec_root() ==> r == Ok::<Metadata, Error>(dir_metadata()),
            (path@ != spec_root() && spec_ends_with_slash(path@) && self.cap().create_dir) ==> (
            r matches Ok(m) ==> !m.mode.spec_is_file()),
            (path@ != spec_root() && spec_ends_with_slash(path@) && !self.cap().create_dir
                && self.cap().list_with_recursive) ==> {
                &&& r matches Ok(m) ==> (m == dir_metadata() && self.inner_listing(path@, true).len()
                    > 0)
                &&& self.inner_listing(path@, true).len() == 0 ==> r is Err
            },
    {
        let cap = self.info.native_capability();
        if is_root(path) {
            return Ok(Metadata::new(crate::types::EntryMode::DIR));
        }
        if ends_with_slash(path) && cap.create_dir {
            let m = match self.inner.stat(path, args) {
                Err(e) => {
                    return Err(e);
                },
                Ok(m) => m,
            };
            return resolve_dir_stat(m);
        }
        if ends_with_slash(path) && cap.list_with_recursive {
            let mut l = match self.inner.list(
                path,
                OpList::new().with_recursive(true).with_limit(1),
            ) {
                Err(e) => {
                    return Err(e);
                },
                Ok(l) => l,
            };
            return match l.next() {
                Err(e) => Err(e),
                Ok(found) => resolve_stat_probe(found.is_some()),
            };
        }
        self.inner.stat(path, args)
    }

    /// Completes `list` over the selection table: a backend that lists
    /// recursively answers every request itself; otherwise a recursive
    /// request is emulated by a flat walk, a file-prefix request by listing
    /// the parent and filtering, and both together by filtering a flat walk
    /// of the parent.
    pub fn list(&self, path: &str, args: OpList) -> (r: Result<CompleteLister<A>, Error>)
        requires
            self.wf(),
            (args.recursive && !self.cap().list_with_recursive) ==> exists|fuel: nat|
                #[trigger] wf_entries(
                    *self.inner,
                    (*self.inner).listing(flat_root(path@), false),
                    fuel,
                ),
        ensures
            match r {
                Ok(l) => l.wf() && (if self.cap().list_with_recursive {
                    l matches FourWays::One(p) && p.remaining() == take_limit(
                        self.inner_listing(path@, args.recursive),
                        args.limit,
                    )
                } else if args.recursive {
                    if spec_ends_with_slash(path@) {
                        l matches FourWays::Two(p) && p.remaining() == flat_listing(
                            *self.inner,
                            path@,
                        )
                    } else {
                        l matches FourWays::Four(p) && p.remaining() == flat_listing(
                            *self.inner,
                            spec_parent(path@),
                        ).filter(prefix_pred(path@))
                    }
                } else {
                    if spec_ends_with_slash(path@) {
                        l matches FourWays::One(p) && p.remaining() == take_limit(
                            self.inner_listing(path@, false),
                            args.limit,
                        )
                    } else {
                        l matches FourWays::Three(p) && p.remaining() == take_limit(
                            self.inner_listing(spec_parent(path@), false),
                            args.limit,
                        ).filter(prefix_pred(path@))
                    }
                }),
                Err(_) => !(args.recursive && !self.cap().list_with_recursive),
            },
    {
        let cap = self.info.native_capability();
        if cap.list_with_recursive {
            return match self.inner.list(path, args) {
                Err(e) => Err(e),
                Ok(p) => Ok(FourWays::One(p)),
            };
        }
        if args.recursive {
            if ends_with_slash(path) {
                let p = FlatLister::new(self.inner.clone(), path);
                return Ok(FourWays::Two(p));
            }
            let parent = get_parent(path);
            let p = FlatLister::new(self.inner.clone(), parent);
            let p = PrefixLister::new(p, path);
            return Ok(FourWays::Four(p));
        }
        if ends_with_slash(path) {
            return match self.inner.list(path, args) {
                Err(e) => Err(e),
                Ok(p) => Ok(FourWays::One(p)),
            };
        }
        let parent = get_parent(path);
        match self.inner.list(parent, args) {
            Err(e) => Err(e),
            Ok(p) => Ok(FourWays::Three(PrefixLister::new(p, path))),
        }
    }

    /// Delegates `read`, records the requested range size, and wraps the
    /// stream in a completing reader that will verify the byte count.
    pub fn read(&self, path: &str, args: OpRead) -> (r: Result<CompleteReader<A::Reader>, Error>)
        requires
            self.wf(),
        ensures
            r matches Ok(cr) ==> cr.wf() && cr.size == args.size && cr.read == 0,
    {
        match self.inner.read(path, args) {
            Err(e) => Err(e),
            Ok(rd) => Ok(CompleteReader::new(rd, args.size)),
        }
    }

    /// Delegates `write` and wraps the sink in a completing writer
    /// parameterized by whether the operation appends.
    pub fn write(&self, path: &str, args: OpWrite) -> (r: Result<CompleteWriter<A::Writer>, Error>)
        requires
            self.wf(),
        ensures
            r matches Ok(w) ==> w.is_open() && w.append == args.append && w.size == 0,
    {
        match self.inner.write(path, args) {
            Err(e) => Err(e),
            Ok(w) => Ok(CompleteWriter::new(w, args.append)),
        }
    }

    /// Delegates `delete` unchanged.
    pub fn delete(&self) -> (r: Result<A::Deleter, Error>)
        requires
            self.wf(),
    {
        self.inner.delete()
    }

    /// Delegates `presign` unchanged.
    pub fn presign(&self, path: &str, args: OpPresign) -> (r: Result<PresignedRequest, Error>)
        requires
            self.wf(),
    {
        self.inner.presign(path, args)
    }
}

} // verus!
