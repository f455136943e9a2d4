//! The failures an archive can raise while it is read.  Header, index and
//! directory failures abort the whole load; a failure while resolving one
//! entry's payload aborts the load too, since the format defines no
//! ignorable corruption.

use vstd::prelude::*;

verus! {

/// The part of an archive a read was working through when it failed.
#[derive(Debug, Clone, Copy, PartialEq, Eq, Structural)]
pub enum Section {
    /// The fixed-layout preamble.
    Header,
    /// The table of key records the header points at.
    IndexTable,
    /// The compression directory resource.
    Directory,
    /// One index entry's stored payload.
    Entry,
}

/// Why an archive failed to load.
#[derive(Debug, Clone, Copy, PartialEq, Eq, Structural)]
pub enum DbpfError {
    /// The stream does not begin with the magic `DBPF`, or its major
    /// version or index major version is not the supported one.
    NotSims2Format,
    /// The stream ended before a declared-length read completed, in the
    /// named section at the named byte offset.
    Truncated { section: Section, offset: usize },
    /// The directory lists an entry as compressed, but its stored bytes do
    /// not carry a compressed blob.
    NotCompressed,
    /// The directory lists its own key, claiming the directory itself is
    /// compressed; a well-formed archive never does, since the directory
    /// must be readable before any entry can be decompressed.
    CompressedDirectory,
    /// A back-reference in a compressed entry reached before the start of
    /// its output.
    DecompressionBounds,
    /// A decompressed entry did not come to the length the directory or the
    /// blob header declared for it.
    SizeMismatch,
}

impl DbpfError {
    /// A short description of the failure.
    pub fn message(&self) -> (r: &'static str)
        ensures
            r@.len() > 0,
    {
        let r = match self {
            DbpfError::NotSims2Format => "file is not in Sims 2 DBPF format",
            DbpfError::Truncated { .. } => "stream ended inside a declared-length read",
            DbpfError::NotCompressed => "entry is listed as compressed but carries no compressed blob",
            DbpfError::CompressedDirectory => "the directory lists itself as compressed",
            DbpfError::DecompressionBounds => "back-reference reaches before the start of the output",
            DbpfError::SizeMismatch => "decompressed length differs from the declared length",
        };
        proof {
            reveal_strlit("file is not in Sims 2 DBPF format");
            reveal_strlit("stream ended inside a declared-length read");
            reveal_strlit("entry is listed as compressed but carries no compressed blob");
            reveal_strlit("the directory lists itself as compressed");
            reveal_strlit("back-reference reaches before the start of the output");
            reveal_strlit("decompressed length differs from the declared length");
        }
        r
    }
}

} // verus!
