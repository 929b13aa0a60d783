use vstd::prelude::*;

use crate::access::Write;
use crate::types::Error;
use crate::types::ErrorKind;
use crate::types::Metadata;
use crate::types::MSG_WRITER_CLOSED;
use crate::types::MSG_WRITER_TOO_LITTLE;
use crate::types::MSG_WRITER_TOO_MUCH;

verus! {

/// What a successful close hands back: the inner metadata, with an unknown
/// (zero) content length replaced by the bytes this writer counted.
pub open spec fn closed_metadata(m: Metadata, written: u64) -> Metadata {
    if m.content_length == 0 {
        Metadata { content_length: written, ..m }
    } else {
        m
    }
}

/// Streaming write wrapper: forwards chunks, accumulates the byte count, and
/// on close verifies it equals the declared content length. The inner sink is
/// held only while the writer is open; once a close or abort has succeeded,
/// every further operation fails without touching the sink.
pub struct CompleteWriter<W> {
    pub inner: Option<W>,
    pub append: bool,
    pub size: u64,
}

impl<W: Write> CompleteWriter<W> {
    /// Open means: neither a close nor an abort has succeeded yet.
    pub open spec fn is_open(&self) -> bool {
        self.inner is Some
    }

    pub fn new(inner: W, append: bool) -> (w: CompleteWriter<W>)
        ensures
            w.is_open(),
            w.append == append,
            w.size == 0,
    {
        CompleteWriter { inner: Some(inner), append, size: 0 }
    }

    /// The byte-accounting rule: skipped for append writers and for an
    /// unknown (zero) declared length; otherwise the bytes written must
    /// equal the declared length exactly, and a mismatch is an `Unexpected`
    /// error carrying both counts.
    pub fn check(&self, content_length: u64) -> (r: Result<(), Error>)
        ensures
            match r {
                Ok(_) => self.append || content_length == 0 || self.size == content_length,
                Err(e) => {
                    &&& !self.append
                    &&& content_length != 0
                    &&& self.size != content_length
                    &&& (self.size < content_length ==> e.is_size_mismatch(
                        MSG_WRITER_TOO_LITTLE,
                        content_length,
                        self.size,
                    ))
                    &&& (self.size > content_length ==> e.is_size_mismatch(
                        MSG_WRITER_TOO_MUCH,
                        content_length,
                        self.size,
                    ))
                },
            },
    {
        if self.append || content_length == 0 {
            return Ok(());
        }
        if self.size == content_length {
            Ok(())
        } else if self.size < content_length {
            Err(Error::new(ErrorKind::Unexpected, MSG_WRITER_TOO_LITTLE).with_sizes(
                content_length,
                self.size,
            ))
        } else {
            Err(Error::new(ErrorKind::Unexpected, MSG_WRITER_TOO_MUCH).with_sizes(
                content_length,
                self.size,
            ))
        }
    }

    /// Forwards one chunk to the open inner sink and counts its bytes; on a
    /// writer that is no longer open it fails without touching anything.
    pub fn write(&mut self, bs: Vec<u8>) -> (r: Result<(), Error>)
        requires
            old(self).size + bs@.len() <= u64::MAX,
        ensures
            final(self).append == old(self).append,
            !old(self).is_open() ==> (r matches Err(e) && e.is_closed_writer() && *final(self)
                == *old(self)),
            old(self).is_open() ==> final(self).is_open() && match r {
                Ok(_) => final(self).size == old(self).size + bs@.len(),
                Err(_) => final(self).size == old(self).size,
            },
    {
        match &mut self.inner {
            None => Err(Error::new(ErrorKind::Unexpected, MSG_WRITER_CLOSED)),
            Some(w) => {
                let len = bs.len();
                match w.write(bs) {
                    Ok(_) => {
                        self.size = self.size + len as u64;
                        Ok(())
                    },
                    Err(e) => Err(e),
                }
            },
        }
    }

    /// Finishes a close from whatever the inner sink's close returned: any
    /// failure, the inner one or the length check, leaves the writer open so
    /// that a retry may close again; only the success path marks it closed.
    /// An append writer never runs the length check.
    pub fn finish_close(&mut self, inner_result: Result<Metadata, Error>) -> (r: Result<
        Metadata,
        Error,
    >)
        requires
            old(self).is_open(),
        ensures
            final(self).append == old(self).append,
            final(self).size == old(self).size,
            match inner_result {
                Err(e) => r == Err::<Metadata, Error>(e) && final(self).is_open(),
                Ok(m) => {
                    if old(self).append || m.content_length == 0 || m.content_length == old(
                        self,
                    ).size {
                        &&& !final(self).is_open()
                        &&& r == Ok::<Metadata, Error>(closed_metadata(m, old(self).size))
                    } else {
                        &&& final(self).is_open()
                        &&& r matches Err(e) && (old(self).size < m.content_length
                            ==> e.is_size_mismatch(
                            MSG_WRITER_TOO_LITTLE,
                            m.content_length,
                            old(self).size,
                        )) && (old(self).size > m.content_length ==> e.is_size_mismatch(
                            MSG_WRITER_TOO_MUCH,
                            m.content_length,
                            old(self).size,
                        ))
                    }
                },
            },
    {
        let mut ret = match inner_result {
            Err(e) => {
                return Err(e);
            },
            Ok(m) => m,
        };
        match self.check(ret.content_length) {
            Err(e) => {
                return Err(e);
            },
            Ok(_) => {},
        }
        if ret.content_length == 0 {
            ret = ret.with_content_length(self.size);
        }
        self.inner = None;
        Ok(ret)
    }

    /// Closes the inner sink and completes with the length check; the sink
    /// is dropped only after everything has succeeded, so a failed close
    /// leaves the writer open for a retry.
    pub fn close(&mut self) -> (r: Result<Metadata, Error>)
        ensures
            final(self).append == old(self).append,
            final(self).size == old(self).size,
            !old(self).is_open() ==> (r matches Err(e) && e.is_closed_writer() && *final(self)
                == *old(self)),
            old(self).is_open() ==> match r {
                Ok(m) => !final(self).is_open() && (!old(self).append ==> m.content_length == old(
                    self,
                ).size),
                Err(_) => final(self).is_open(),
            },
    {
        let inner_result = match &mut self.inner {
            None => {
                return Err(Error::new(ErrorKind::Unexpected, MSG_WRITER_CLOSED));
            },
            Some(w) => w.close(),
        };
        self.finish_close(inner_result)
    }

    /// Aborts the open inner sink; only a successful abort marks the writer
    /// aborted.
    pub fn abort(&mut self) -> (r: Result<(), Error>)
        ensures
            final(self).append == old(self).append,
            final(self).size == old(self).size,
            !old(self).is_open() ==> (r matches Err(e) && e.is_closed_writer() && *final(self)
                == *old(self)),
            old(self).is_open() ==> match r {
                Ok(_) => !final(self).is_open(),
                Err(_) => final(self).is_open(),
            },
    {
        let res = match &mut self.inner {
            None => {
                return Err(Error::new(ErrorKind::Unexpected, MSG_WRITER_CLOSED));
            },
            Some(w) => w.abort(),
        };
        match res {
            Ok(_) => {
                self.inner = None;
                Ok(())
            },
            Err(e) => Err(e),
        }
    }
}

} // verus!
