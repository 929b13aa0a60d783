use vstd::prelude::*;
use vstd::slice::slice_to_vec;

use crate::access::lemma_total_len_nonneg;
use crate::access::total_len;
use crate::access::Read;
use crate::types::Error;
use crate::types::ErrorKind;
use crate::types::MSG_READER_TOO_LITTLE;
use crate::types::MSG_READER_TOO_MUCH;

verus! {

/// An in-memory chunk source: yields a fixed sequence of non-empty chunks,
/// then empty chunks, and never fails.
pub struct ChunkReader {
    pub data: Vec<Vec<u8>>,
    pub pos: usize,
}

impl ChunkReader {
    pub fn new(data: Vec<Vec<u8>>) -> (r: ChunkReader)
        requires
            forall|i: int| 0 <= i < data@.len() ==> data@[i]@.len() > 0,
        ensures
            r.wf(),
            r.chunks() == data@.map_values(|c: Vec<u8>| c@),
    {
        let r = ChunkReader { data, pos: 0 };
        proof {
            assert(r.chunks() =~= r.data@.map_values(|c: Vec<u8>| c@));
        }
        r
    }
}

impl Read for ChunkReader {
    open spec fn wf(&self) -> bool {
        &&& self.pos <= self.data@.len()
        &&& forall|i: int| self.pos <= i < self.data@.len() ==> self.data@[i]@.len() > 0
    }

    open spec fn chunks(&self) -> Seq<Seq<u8>> {
        self.data@.skip(self.pos as int).map_values(|c: Vec<u8>| c@)
    }

    fn read(&mut self) -> (r: Result<Vec<u8>, Error>) {
        if self.pos < self.data.len() {
            let c = slice_to_vec(self.data[self.pos].as_slice());
            self.pos = self.pos + 1;
            proof {
                assert(old(self).chunks()[0] == c@);
                assert(self.chunks() =~= old(self).chunks().drop_first());
            }
            Ok(c)
        } else {
            Ok(Vec::new())
        }
    }
}

/// Streaming read wrapper: forwards chunks, accumulates the byte count, and
/// on the terminal empty read verifies it equals the requested range size.
pub struct CompleteReader<R> {
    pub inner: R,
    pub size: Option<u64>,
    pub read: u64,
}

impl<R: Read> CompleteReader<R> {
    pub open spec fn wf(&self) -> bool {
        &&& self.inner.wf()
        &&& self.read + total_len(self.inner.chunks()) <= u64::MAX
    }

    /// The chunks the inner stream still holds.
    pub open spec fn inner_chunks(&self) -> Seq<Seq<u8>> {
        self.inner.chunks()
    }

    pub fn new(inner: R, size: Option<u64>) -> (r: CompleteReader<R>)
        requires
            inner.wf(),
            total_len(inner.chunks()) <= u64::MAX,
        ensures
            r.wf(),
            r.size == size,
            r.read == 0,
            r.inner_chunks() == inner.chunks(),
    {
        CompleteReader { inner, size, read: 0 }
    }

    /// The byte-accounting rule: with no expected size nothing is checked;
    /// otherwise the bytes read so far must equal the expected size exactly,
    /// and a mismatch is an `Unexpected` error carrying both counts.
    pub fn check(&self) -> (r: Result<(), Error>)
        ensures
            match r {
                Ok(_) => self.size is None || self.size == Some(self.read),
                Err(e) => self.size matches Some(n) && n != self.read && (self.read < n
                    ==> e.is_size_mismatch(MSG_READER_TOO_LITTLE, n, self.read)) && (self.read > n
                    ==> e.is_size_mismatch(MSG_READER_TOO_MUCH, n, self.read)),
            },
    {
        let size = match self.size {
            None => {
                return Ok(());
            },
            Some(s) => s,
        };
        if self.read == size {
            Ok(())
        } else if self.read < size {
            Err(Error::new(ErrorKind::Unexpected, MSG_READER_TOO_LITTLE).with_sizes(size, self.read))
        } else {
            Err(Error::new(ErrorKind::Unexpected, MSG_READER_TOO_MUCH).with_sizes(size, self.read))
        }
    }

    /// Pulls one chunk. Non-empty chunks are forwarded and counted; the
    /// terminal empty chunk triggers the byte-count check, so a mismatch
    /// fails only there and every earlier read succeeds untouched.
    pub fn read(&mut self) -> (r: Result<Vec<u8>, Error>)
        requires
            old(self).wf(),
        ensures
            final(self).wf(),
            final(self).size == old(self).size,
            match r {
                Ok(b) => {
                    &&& b@.len() > 0 ==> {
                        &&& old(self).inner_chunks().len() > 0
                        &&& b@ == old(self).inner_chunks()[0]
                        &&& final(self).inner_chunks() == old(self).inner_chunks().drop_first()
                        &&& final(self).read == old(self).read + b@.len()
                    }
                    &&& b@.len() == 0 ==> {
                        &&& old(self).inner_chunks().len() == 0
                        &&& (old(self).size matches Some(n) ==> old(self).read == n)
                        &&& final(self).read == old(self).read
                        &&& final(self).inner_chunks() == old(self).inner_chunks()
                    }
                },
                Err(e) => {
                    &&& final(self).read == old(self).read
                    &&& final(self).inner_chunks() == old(self).inner_chunks()
                    &&& old(self).inner_chunks().len() == 0 ==> (old(self).size matches Some(n)
                        && n != old(self).read && (old(self).read < n ==> e.is_size_mismatch(
                        MSG_READER_TOO_LITTLE,
                        n,
                        old(self).read,
                    )) && (old(self).read > n ==> e.is_size_mismatch(
                        MSG_READER_TOO_MUCH,
                        n,
                        old(self).read,
                    )))
                },
            },
    {
        proof {
            lemma_total_len_nonneg(self.inner.chunks().drop_first());
            lemma_total_len_nonneg(self.inner.chunks());
        }
        let buf = match self.inner.read() {
            Ok(b) => b,
            Err(e) => {
                return Err(e);
            },
        };
        if buf.len() == 0 {
            match self.check() {
                Ok(_) => Ok(buf),
                Err(e) => Err(e),
            }
        } else {
            self.read = self.read + buf.len() as u64;
            Ok(buf)
        }
    }
}

} // verus!
