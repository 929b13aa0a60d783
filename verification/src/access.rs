use vstd::prelude::*;

use crate::capability::AccessorInfo;
use crate::capability::Capability;
use crate::types::Entry;
use crate::types::Error;
use crate::types::Metadata;

verus! {

/// A lazy, finite, single-consumer cursor over directory entries.
///
/// `remaining()` models the entries a fault-free consumer will still see, in
/// order. An error aborts the traversal: nothing more is owed afterwards.
pub trait List: Sized {
    spec fn wf(&self) -> bool;

    spec fn remaining(&self) -> Seq<Entry>;

    fn next(&mut self) -> (r: Result<Option<Entry>, Error>)
        requires
            old(self).wf(),
        ensures
            final(self).wf(),
            match r {
                Ok(Some(e)) => old(self).remaining() == seq![e] + final(self).remaining(),
                Ok(None) => old(self).remaining().len() == 0 && final(self).remaining().len()
                    == 0,
                Err(_) => final(self).remaining().len() == 0,
            },
    ;
}

/// The total byte count of a sequence of chunks.
pub open spec fn total_len(chunks: Seq<Seq<u8>>) -> int
    decreases chunks.len(),
{
    if chunks.len() == 0 {
        0
    } else {
        chunks[0].len() + total_len(chunks.drop_first())
    }
}

pub proof fn lemma_total_len_nonneg(chunks: Seq<Seq<u8>>)
    ensures
        total_len(chunks) >= 0,
    decreases chunks.len(),
{
    if chunks.len() > 0 {
        lemma_total_len_nonneg(chunks.drop_first());
    }
}

pub proof fn lemma_total_len_push(chunks: Seq<Seq<u8>>, c: Seq<u8>)
    ensures
        total_len(chunks.push(c)) == total_len(chunks) + c.len(),
    decreases chunks.len(),
{
    if chunks.len() == 0 {
        assert(chunks.push(c)[0] == c);
        assert(chunks.push(c).drop_first() =~= Seq::<Seq<u8>>::empty());
        assert(total_len(Seq::<Seq<u8>>::empty()) == 0);
        assert(total_len(chunks.push(c)) == c.len() + total_len(chunks.push(c).drop_first()));
    } else {
        assert(chunks.push(c)[0] == chunks[0]);
        assert(chunks.push(c).drop_first() =~= chunks.drop_first().push(c));
        lemma_total_len_push(chunks.drop_first(), c);
        assert(total_len(chunks.push(c)) == chunks[0].len() + total_len(
            chunks.push(c).drop_first(),
        ));
        assert(total_len(chunks) == chunks[0].len() + total_len(chunks.drop_first()));
    }
}

/// A streaming source of byte chunks. An empty chunk signals end-of-stream.
///
/// `chunks()` models the non-empty chunks still to come; reading past the
/// end keeps returning empty chunks.
pub trait Read: Sized {
    spec fn wf(&self) -> bool;

    spec fn chunks(&self) -> Seq<Seq<u8>>;

    fn read(&mut self) -> (r: Result<Vec<u8>, Error>)
        requires
            old(self).wf(),
        ensures
            final(self).wf(),
            old(self).chunks().len() == 0 ==> (r matches Ok(b) && b@.len() == 0
                && final(self).chunks().len() == 0),
            old(self).chunks().len() > 0 ==> (r matches Ok(b) ==> (b@ == old(self).chunks()[0]
                && b@.len() > 0 && final(self).chunks() == old(self).chunks().drop_first())),
            r matches Err(_) ==> final(self).chunks() == old(self).chunks(),
    ;
}

/// A streaming sink of byte chunks, terminated by `close` or `abort`.
/// Nothing is promised of the backend's behaviour: callers state what holds
/// of every outcome.
pub trait Write: Sized {
    fn write(&mut self, bs: Vec<u8>) -> Result<(), Error>;

    fn close(&mut self) -> Result<Metadata, Error>;

    fn abort(&mut self) -> Result<(), Error>;
}

/// `listing(path, recursive)` truncated to `limit` entries.
pub open spec fn take_limit(s: Seq<Entry>, limit: Option<usize>) -> Seq<Entry> {
    match limit {
        Some(n) => if s.len() <= n {
            s
        } else {
            s.take(n as int)
        },
        None => s,
    }
}

/// Listing arguments: hierarchical or recursive, with an optional cap on the
/// number of entries returned.
#[derive(Clone, Copy, PartialEq, Eq, Structural, Debug)]
pub struct OpList {
    pub recursive: bool,
    pub limit: Option<usize>,
}

impl OpList {
    pub fn new() -> (a: OpList)
        ensures
            a.recursive == false,
            a.limit is None,
    {
        OpList { recursive: false, limit: None }
    }

    pub fn with_recursive(self, recursive: bool) -> (a: OpList)
        ensures
            a.recursive == recursive,
            a.limit == self.limit,
    {
        OpList { recursive, ..self }
    }

    pub fn with_limit(self, limit: usize) -> (a: OpList)
        ensures
            a.recursive == self.recursive,
            a.limit == Some(limit),
    {
        OpList { limit: Some(limit), ..self }
    }
}

/// Read arguments: the optional expected byte count of the requested range.
#[derive(Clone, Copy, PartialEq, Eq, Structural, Debug)]
pub struct OpRead {
    pub size: Option<u64>,
}

impl OpRead {
    pub fn new(size: Option<u64>) -> (a: OpRead)
        ensures
            a.size == size,
    {
        OpRead { size }
    }
}

/// Write arguments: whether the operation appends.
#[derive(Clone, Copy, PartialEq, Eq, Structural, Debug)]
pub struct OpWrite {
    pub append: bool,
}

impl OpWrite {
    pub fn new() -> (a: OpWrite)
        ensures
            a.append == false,
    {
        OpWrite { append: false }
    }

    pub fn with_append(self, append: bool) -> (a: OpWrite)
        ensures
            a.append == append,
    {
        OpWrite { append }
    }
}

/// Stat arguments. Nothing of them matters to this layer.
#[derive(Clone, Copy, PartialEq, Eq, Structural, Debug)]
pub struct OpStat {}

impl OpStat {
    pub fn new() -> (a: OpStat) {
        OpStat {}
    }
}

/// Directory-creation arguments. Nothing of them matters to this layer.
#[derive(Clone, Copy, PartialEq, Eq, Structural, Debug)]
pub struct OpCreateDir {}

impl OpCreateDir {
    pub fn new() -> (a: OpCreateDir) {
        OpCreateDir {}
    }
}

/// Presign arguments. Nothing of them matters to this layer.
#[derive(Clone, Copy, PartialEq, Eq, Structural, Debug)]
pub struct OpPresign {}

impl OpPresign {
    pub fn new() -> (a: OpPresign) {
        OpPresign {}
    }
}

/// A signed request descriptor handed back by `presign`, carried through
/// unchanged by this layer.
#[derive(Debug)]
pub struct PresignedRequest {
    pub uri: String,
}

/// A storage backend: the abstract operation set this layer completes.
///
/// `capability()` models the flags `info` reports natively; `listing(path,
/// recursive)` models the full entry sequence a fault-free unlimited `list`
/// at `path` yields.
pub trait Access: Sized {
    type Lister: List;

    type Reader: Read;

    type Writer: Write;

    type Deleter;

    spec fn capability(&self) -> Capability;

    spec fn listing(&self, path: Seq<char>, recursive: bool) -> Seq<Entry>;

    fn info(&self) -> (i: AccessorInfo)
        ensures
            i.native == self.capability(),
    ;

    fn create_dir(&self, path: &str, args: OpCreateDir) -> Result<(), Error>;

    fn stat(&self, path: &str, args: OpStat) -> Result<Metadata, Error>;

    fn list(&self, path: &str, args: OpList) -> (r: Result<Self::Lister, Error>)
        ensures
            r matches Ok(l) ==> l.wf() && l.remaining() == take_limit(
                self.listing(path@, args.recursive),
                args.limit,
            ),
    ;

    fn read(&self, path: &str, args: OpRead) -> (r: Result<Self::Reader, Error>)
        ensures
            r matches Ok(rd) ==> rd.wf() && total_len(rd.chunks()) <= u64::MAX,
    ;

    fn write(&self, path: &str, args: OpWrite) -> Result<Self::Writer, Error>;

    fn delete(&self) -> Result<Self::Deleter, Error>;

    fn presign(&self, path: &str, args: OpPresign) -> Result<PresignedRequest, Error>;
}

} // verus!
