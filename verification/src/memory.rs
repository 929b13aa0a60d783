use vstd::prelude::*;
use vstd::slice::slice_to_vec;

use crate::access::lemma_total_len_push;
use crate::access::take_limit;
use crate::access::total_len;
use crate::access::Access;
use crate::access::OpCreateDir;
use crate::access::OpList;
use crate::access::OpPresign;
use crate::access::OpRead;
use crate::access::OpStat;
use crate::access::OpWrite;
use crate::access::PresignedRequest;
use crate::access::Read;
use crate::access::Write;
use crate::capability::AccessorInfo;
use crate::capability::Capability;
use crate::lister::EntryLister;
use crate::path_util::str_eq;
use crate::reader::ChunkReader;
use crate::types::Entry;
use crate::types::Error;
use crate::types::ErrorKind;
use crate::types::Metadata;

verus! {

/// A sink whose outcomes are fixed up front: every write succeeds, and close
/// answers with the configured metadata or the configured failure.
pub struct MemoryWriter {
    pub meta: Metadata,
    pub fail_close: Option<Error>,
}

impl Write for MemoryWriter {
    fn write(&mut self, bs: Vec<u8>) -> Result<(), Error> {
        Ok(())
    }

    fn close(&mut self) -> Result<Metadata, Error> {
        match self.fail_close {
            Some(e) => Err(e),
            None => Ok(self.meta),
        }
    }

    fn abort(&mut self) -> Result<(), Error> {
        Ok(())
    }
}

/// What listing a given path of an in-memory backend yields: the entries
/// stored under the first matching key, or nothing.
pub open spec fn spec_lookup(dirs: Seq<(String, Vec<Entry>)>, path: Seq<char>) -> Seq<Entry>
    decreases dirs.len(),
{
    if dirs.len() == 0 {
        Seq::empty()
    } else if dirs[0].0@ == path {
        dirs[0].1@
    } else {
        spec_lookup(dirs.drop_first(), path)
    }
}

/// An in-memory backend: a fixed table of listings, fixed read chunks, and
/// writers with preset outcomes. It answers every request from its own data
/// and serves as the concrete backend the completion layer is exercised on.
pub struct MemoryAccessor {
    pub cap: Capability,
    pub dirs: Vec<(String, Vec<Entry>)>,
    pub chunks: Vec<Vec<u8>>,
    pub stat_meta: Option<Metadata>,
    pub writer_meta: Metadata,
    pub writer_fail: Option<Error>,
}

impl Access for MemoryAccessor {
    type Lister = EntryLister;

    type Reader = ChunkReader;

    type Writer = MemoryWriter;

    type Deleter = ();

    open spec fn capability(&self) -> Capability {
        self.cap
    }

    open spec fn listing(&self, path: Seq<char>, recursive: bool) -> Seq<Entry> {
        spec_lookup(self.dirs@, path)
    }

    fn info(&self) -> (i: AccessorInfo) {
        AccessorInfo::new(self.cap)
    }

    fn create_dir(&self, path: &str, args: OpCreateDir) -> Result<(), Error> {
        if self.cap.create_dir {
            Ok(())
        } else {
            Err(Error::new(ErrorKind::Unsupported, "create_dir is not supported"))
        }
    }

    fn stat(&self, path: &str, args: OpStat) -> Result<Metadata, Error> {
        match self.stat_meta {
            Some(m) => Ok(m),
            None => Err(Error::new(ErrorKind::NotFound, "path is not found")),
        }
    }

    fn list(&self, path: &str, args: OpList) -> (r: Result<EntryLister, Error>) {
        let n = self.dirs.len();
        let mut idx: usize = 0;
        proof {
            assert(self.dirs@.skip(0) =~= self.dirs@);
        }
        while idx < n
            invariant
                idx <= n,
                n == self.dirs@.len(),
                spec_lookup(self.dirs@, path@) == spec_lookup(
                    self.dirs@.skip(idx as int),
                    path@,
                ),
            decreases n - idx,
        {
            proof {
                assert(self.dirs@.skip(idx as int)[0] == self.dirs@[idx as int]);
                assert(self.dirs@.skip(idx as int).drop_first() =~= self.dirs@.skip(
                    idx as int + 1,
                ));
            }
            if str_eq(self.dirs[idx].0.as_str(), path) {
                let es = &self.dirs[idx].1;
                let cnt: usize = match args.limit {
                    Some(nl) => if nl < es.len() {
                        nl
                    } else {
                        es.len()
                    },
                    None => es.len(),
                };
                let mut v: Vec<Entry> = Vec::new();
                let mut j: usize = 0;
                while j < cnt
                    invariant
                        j <= cnt,
                        cnt <= es@.len(),
                        v@ == es@.take(j as int),
                    decreases cnt - j,
                {
                    v.push(es[j].clone());
                    proof {
                        assert(es@.take(j + 1 as int) =~= es@.take(j as int).push(es@[j as int]));
                    }
                    j = j + 1;
                }
                proof {
                    match args.limit {
                        Some(nl) => {
                            if es@.len() <= nl {
                                assert(v@ =~= es@);
                            }
                        },
                        None => {
                            assert(v@ =~= es@);
                        },
                    }
                }
                return Ok(EntryLister::new(v));
            }
            idx = idx + 1;
        }
        proof {
            assert(self.dirs@.skip(n as int) =~= Seq::<(String, Vec<Entry>)>::empty());
        }
        Ok(EntryLister::new(Vec::new()))
    }

    fn read(&self, path: &str, args: OpRead) -> (r: Result<ChunkReader, Error>) {
        let n = self.chunks.len();
        let mut v: Vec<Vec<u8>> = Vec::new();
        let mut total: u64 = 0;
        let mut i: usize = 0;
        while i < n
            invariant
                i <= n,
                n == self.chunks@.len(),
                v@.len() == i,
                forall|j: int| 0 <= j < i ==> (#[trigger] v@[j])@ == self.chunks@[j]@,
                forall|j: int| 0 <= j < i ==> (#[trigger] v@[j])@.len() > 0,
                total == total_len(v@.map_values(|c: Vec<u8>| c@)),
            decreases n - i,
        {
            let c = &self.chunks[i];
            let clen = c.len();
            if clen == 0 {
                return Err(Error::new(ErrorKind::Unexpected, "an empty chunk is stored"));
            }
            if clen as u64 > u64::MAX - total {
                return Err(Error::new(ErrorKind::Unexpected, "stored chunks are too large"));
            }
            let copied = slice_to_vec(c.as_slice());
            let ghost pre = v@.map_values(|c: Vec<u8>| c@);
            v.push(copied);
            total = total + clen as u64;
            proof {
                assert(v@.map_values(|c: Vec<u8>| c@) =~= pre.push(self.chunks@[i as int]@));
                lemma_total_len_push(pre, self.chunks@[i as int]@);
            }
            i = i + 1;
        }
        let r = ChunkReader::new(v);
        proof {
            assert(total_len(r.chunks()) == total);
        }
        Ok(r)
    }

    fn write(&self, path: &str, args: OpWrite) -> Result<MemoryWriter, Error> {
        if self.cap.write || self.cap.write_can_empty {
            Ok(MemoryWriter { meta: self.writer_meta, fail_close: self.writer_fail })
        } else {
            Err(Error::new(ErrorKind::Unsupported, "write is not supported"))
        }
    }

    fn delete(&self) -> Result<(), Error> {
        Ok(())
    }

    fn presign(&self, path: &str, args: OpPresign) -> Result<PresignedRequest, Error> {
        if self.cap.presign {
            Ok(PresignedRequest { uri: String::new() })
        } else {
            Err(Error::new(ErrorKind::Unsupported, "presign is not supported"))
        }
    }
}

} // verus!
