use vstd::prelude::*;

verus! {

/// What a path names: a regular file, a directory, or something the backend
/// could not classify.
#[derive(Clone, Copy, PartialEq, Eq, Structural, Debug)]
pub enum EntryMode {
    FILE,
    DIR,
    Unknown,
}

impl EntryMode {
    pub open spec fn spec_is_file(self) -> bool {
        self == EntryMode::FILE
    }

    pub open spec fn spec_is_dir(self) -> bool {
        self == EntryMode::DIR
    }
}

/// Metadata of an entry. A `content_length` of 0 means the length is unknown
/// and no byte accounting is asked for.
#[derive(Clone, Copy, PartialEq, Eq, Structural, Debug)]
pub struct Metadata {
    pub mode: EntryMode,
    pub content_length: u64,
}

impl Metadata {
    pub fn new(mode: EntryMode) -> (m: Metadata)
        ensures
            m.mode == mode,
            m.content_length == 0,
    {
        Metadata { mode, content_length: 0 }
    }

    pub fn is_file(&self) -> (b: bool)
        ensures
            b == self.mode.spec_is_file(),
    {
        matches!(self.mode, EntryMode::FILE)
    }

    pub fn is_dir(&self) -> (b: bool)
        ensures
            b == self.mode.spec_is_dir(),
    {
        matches!(self.mode, EntryMode::DIR)
    }

    pub fn with_content_length(self, n: u64) -> (m: Metadata)
        ensures
            m.mode == self.mode,
            m.content_length == n,
    {
        Metadata { content_length: n, ..self }
    }
}

/// The metadata of a synthetic directory: mode alone, nothing else.
pub open spec fn dir_metadata() -> Metadata {
    Metadata { mode: EntryMode::DIR, content_length: 0 }
}

/// A directory entry: a path together with its metadata. A trailing '/' in
/// the path denotes a directory.
#[derive(Debug)]
pub struct Entry {
    pub path: String,
    pub metadata: Metadata,
}

impl Entry {
    pub fn new(path: String, metadata: Metadata) -> (e: Entry)
        ensures
            e.path == path,
            e.metadata == metadata,
    {
        Entry { path, metadata }
    }
}

impl Clone for Entry {
    fn clone(&self) -> (e: Entry)
        ensures
            e == *self,
    {
        Entry { path: self.path.clone(), metadata: self.metadata }
    }
}

/// The error kinds this layer itself produces. Everything else from the
/// inner backend passes through unchanged.
#[derive(Clone, Copy, PartialEq, Eq, Structural, Debug)]
pub enum ErrorKind {
    NotFound,
    Unexpected,
    Unsupported,
}

pub const MSG_READER_TOO_LITTLE: &'static str = "reader got too little data";

pub const MSG_READER_TOO_MUCH: &'static str = "reader got too much data";

pub const MSG_WRITER_TOO_LITTLE: &'static str = "writer got too little data";

pub const MSG_WRITER_TOO_MUCH: &'static str = "writer got too much data";

pub const MSG_WRITER_CLOSED: &'static str = "writer has been closed or aborted";

pub const MSG_STAT_FILE_AS_DIR: &'static str = "stat expected a directory, but found a file";

pub const MSG_DIR_NOT_FOUND: &'static str = "the directory is not found";

/// An error with its kind, a fixed message, and the optional `expect`/`actual`
/// byte counts attached to length-mismatch errors.
#[derive(Clone, Copy, Debug)]
pub struct Error {
    pub kind: ErrorKind,
    pub message: &'static str,
    pub expect: Option<u64>,
    pub actual: Option<u64>,
}

impl Error {
    pub fn new(kind: ErrorKind, message: &'static str) -> (e: Error)
        ensures
            e.kind == kind,
            e.message == message,
            e.expect is None,
            e.actual is None,
    {
        Error { kind, message, expect: None, actual: None }
    }

    pub fn with_sizes(self, expect: u64, actual: u64) -> (e: Error)
        ensures
            e.kind == self.kind,
            e.message == self.message,
            e.expect == Some(expect),
            e.actual == Some(actual),
    {
        Error { expect: Some(expect), actual: Some(actual), ..self }
    }

    /// The shape of a byte-count mismatch error.
    pub open spec fn is_size_mismatch(self, message: &'static str, expect: u64, actual: u64) -> bool {
        &&& self.kind == ErrorKind::Unexpected
        &&& self.message == message
        &&& self.expect == Some(expect)
        &&& self.actual == Some(actual)
    }

    /// The shape of the error for touching a writer that is no longer open.
    pub open spec fn is_closed_writer(self) -> bool {
        &&& self.kind == ErrorKind::Unexpected
        &&& self.message == MSG_WRITER_CLOSED
    }
}

} // verus!
