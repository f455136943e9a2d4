//! The fixed-layout preamble of an archive: the magic `DBPF`, the format
//! versions, and where the index table lives.  The twenty bytes of legacy
//! flag and timestamp fields, the twelve bytes of the hole registry and the
//! thirty-two bytes of trailing padding are skipped and not retained.  The
//! index minor version is stored only when the minor version is at least 1,
//! and its absence is distinct from the value 0: it decides, through
//! [`Header::has_resource_id`], whether every key of the archive carries a
//! resource id.

use vstd::prelude::*;

use crate::bytes::Position;
use crate::bytes::Size;
use crate::bytes::read_u32_le;
use crate::bytes::spec_u32_le;
use crate::error::DbpfError;
use crate::error::Section;

verus! {

/// The retained fields of an archive's preamble.
#[derive(Debug, Clone, Copy, PartialEq, Eq, Structural)]
pub struct Header {
    pub major_version: u32,
    pub minor_version: u32,
    pub index_major_version: u32,
    pub index_entry_count: u32,
    pub index_position: Position,
    pub index_size: Size,
    pub index_minor_version: Option<u32>,
}

impl Default for Header {
    /// An empty archive's header: the supported versions and no entries.
    fn default() -> (r: Header)
        ensures
            r == (Header {
                major_version: 1,
                minor_version: 0,
                index_major_version: 7,
                index_entry_count: 0,
                index_position: Position(0),
                index_size: Size(0),
                index_minor_version: None,
            }),
    {
        Header {
            major_version: 1,
            minor_version: 0,
            index_major_version: 7,
            index_entry_count: 0,
            index_position: Position(0),
            index_size: Size(0),
            index_minor_version: None,
        }
    }
}

impl Header {
    /// Whether every key of the archive carries a resource id: the index
    /// minor version is present and at least 2.
    pub open spec fn spec_has_resource_id(self) -> bool {
        match self.index_minor_version {
            Some(v) => v >= 2,
            None => false,
        }
    }

    /// Whether every key of the archive carries a resource id.
    pub fn has_resource_id(&self) -> (r: bool)
        ensures
            r == self.spec_has_resource_id(),
    {
        match self.index_minor_version {
            Some(v) => v >= 2,
            None => false,
        }
    }
}

/// How many bytes the preamble occupies: 92, or 96 when the minor version
/// stores the index minor version field.
pub open spec fn spec_header_width(minor_version: int) -> int {
    if minor_version >= 1 {
        96
    } else {
        92
    }
}

/// Whether the four magic bytes `DBPF` sit at byte offset `pos` of `s`.
pub open spec fn spec_header_magic_ok(s: Seq<u8>, pos: int) -> bool {
    s[pos] == 0x44u8 && s[pos + 1] == 0x42u8 && s[pos + 2] == 0x50u8 && s[pos + 3] == 0x46u8
}

/// The header whose fields sit at byte offset `pos` of `s`.
pub open spec fn spec_header_of(s: Seq<u8>, pos: int) -> Header {
    let minor = spec_u32_le(s, pos + 8);
    Header {
        major_version: spec_u32_le(s, pos + 4) as u32,
        minor_version: minor as u32,
        index_major_version: spec_u32_le(s, pos + 32) as u32,
        index_entry_count: spec_u32_le(s, pos + 36) as u32,
        index_position: Position(spec_u32_le(s, pos + 40) as u32),
        index_size: Size(spec_u32_le(s, pos + 44) as u32),
        index_minor_version: if minor >= 1 {
            Some(spec_u32_le(s, pos + 60) as u32)
        } else {
            None
        },
    }
}

/// The outcome of reading the preamble at byte offset `pos` of `s`: the
/// header, or why the stream is not a supported archive.
pub open spec fn spec_header_result(s: Seq<u8>, pos: int) -> Result<Header, DbpfError> {
    if pos + 4 > s.len() {
        Err(DbpfError::Truncated { section: Section::Header, offset: pos as usize })
    } else if !spec_header_magic_ok(s, pos) {
        Err(DbpfError::NotSims2Format)
    } else if pos + 48 > s.len() {
        Err(DbpfError::Truncated { section: Section::Header, offset: pos as usize })
    } else {
        let h = spec_header_of(s, pos);
        if h.major_version != 1 || h.index_major_version != 7 {
            Err(DbpfError::NotSims2Format)
        } else if pos + spec_header_width(h.minor_version as int) > s.len() {
            Err(DbpfError::Truncated { section: Section::Header, offset: pos as usize })
        } else {
            Ok(h)
        }
    }
}

/// Reads and validates the preamble at byte offset `pos` of `data`.  A
/// stream that does not carry the magic, or whose major version is not 1,
/// or whose index major version is not 7, is not a supported archive; one
/// that ends inside the preamble is truncated.  On success the returned
/// offset is the first byte after the preamble's trailing padding.
pub fn read_header(data: &Vec<u8>, pos: usize) -> (r: Result<(Header, usize), DbpfError>)
    ensures
        match r {
            Ok((h, end)) => {
                &&& spec_header_result(data@, pos as int) == Ok::<Header, DbpfError>(h)
                &&& h == spec_header_of(data@, pos as int)
                &&& end == pos + spec_header_width(h.minor_version as int)
                &&& end <= data.len()
            },
            Err(e) => spec_header_result(data@, pos as int) == Err::<Header, DbpfError>(e),
        },
{
    let n = data.len();
    if n < 4 || pos > n - 4 {
        return Err(DbpfError::Truncated { section: Section::Header, offset: pos });
    }
    if !(data[pos] == 0x44 && data[pos + 1] == 0x42 && data[pos + 2] == 0x50 && data[pos + 3]
        == 0x46) {
        return Err(DbpfError::NotSims2Format);
    }
    if n < 48 || pos > n - 48 {
        return Err(DbpfError::Truncated { section: Section::Header, offset: pos });
    }
    let major_version = read_u32_le(data, pos + 4);
    let minor_version = read_u32_le(data, pos + 8);
    let index_major_version = read_u32_le(data, pos + 32);
    if major_version != 1 || index_major_version != 7 {
        return Err(DbpfError::NotSims2Format);
    }
    let width: usize = if minor_version >= 1 {
        96
    } else {
        92
    };
    if n < width || pos > n - width {
        return Err(DbpfError::Truncated { section: Section::Header, offset: pos });
    }
    let header = Header {
        major_version,
        minor_version,
        index_major_version,
        index_entry_count: read_u32_le(data, pos + 36),
        index_position: Position(read_u32_le(data, pos + 40)),
        index_size: Size(read_u32_le(data, pos + 44)),
        index_minor_version: if minor_version >= 1 {
            Some(read_u32_le(data, pos + 60))
        } else {
            None
        },
    };
    Ok((header, pos + width))
}

} // verus!
