//! The flat table of index records the header points at: `index_entry_count`
//! fixed-layout records, each a key followed by the entry's byte offset in
//! the archive and the byte size of its stored — possibly still-compressed —
//! payload.  Whether each key carries a resource id is decided once by the
//! header and governs every record alike.

use vstd::prelude::*;

use crate::bytes::Position;
use crate::bytes::Size;
use crate::bytes::read_u32_le;
use crate::bytes::spec_u32_le;
use crate::bytes::spec_u32_le_bytes;
use crate::bytes::write_u32_le;
use crate::error::DbpfError;
use crate::error::Section;
use crate::key::Key;
use crate::key::read_key;
use crate::key::spec_key_bytes;
use crate::key::spec_key_width;
use crate::key::spec_read_key;
use crate::key::write_key;

verus! {

/// Where one resource's stored payload lives: its byte offset in the
/// archive and its stored byte size.
#[derive(Debug, Clone, Copy, PartialEq, Eq, Structural, Hash)]
pub struct Entry {
    pub location: Position,
    pub size: Size,
}

/// The archive's index: its records in file order.  Keys are unique in a
/// well-formed archive; on duplicates the last record wins, which
/// [`spec_lookup`] mirrors by scanning from the end.
#[derive(Debug, Clone, PartialEq, Eq)]
pub struct IndexTable {
    pub table: Vec<(Key, Entry)>,
}

/// How many bytes one index record occupies under the given resource-id
/// flag.
pub open spec fn spec_index_record_width(has_resource: bool) -> int {
    spec_key_width(has_resource) + 8
}

/// The index record at byte offset `pos` of `s`.
pub open spec fn spec_index_record(s: Seq<u8>, pos: int, has_resource: bool) -> (Key, Entry) {
    let kw = spec_key_width(has_resource);
    (
        spec_read_key(s, pos, has_resource),
        Entry {
            location: Position(spec_u32_le(s, pos + kw) as u32),
            size: Size(spec_u32_le(s, pos + kw + 4) as u32),
        },
    )
}

/// The entry recorded for `key`, scanning from the last record, so that on
/// duplicate keys the last record wins.
pub open spec fn spec_lookup(entries: Seq<(Key, Entry)>, key: Key) -> Option<Entry>
    decreases entries.len(),
{
    if entries.len() == 0 {
        None
    } else if entries.last().0 == key {
        Some(entries.last().1)
    } else {
        spec_lookup(entries.drop_last(), key)
    }
}

impl IndexTable {
    /// The entry recorded for `key`; with duplicate keys the last record
    /// wins.
    pub fn get(&self, key: &Key) -> (r: Option<Entry>)
        ensures
            r == spec_lookup(self.table@, *key),
    {
        let n = self.table.len();
        let mut i: usize = n;
        proof {
            assert(self.table@.take(n as int) =~= self.table@);
        }
        while i > 0
            invariant
                i <= n,
                n == self.table.len(),
                spec_lookup(self.table@, *key) == spec_lookup(self.table@.take(i as int), *key),
            decreases i,
        {
            let (k, e) = self.table[i - 1];
            proof {
                assert(self.table@.take(i as int).drop_last() =~= self.table@.take(i - 1));
                assert(self.table@.take(i as int).last() == self.table@[i - 1]);
            }
            if k == *key {
                return Some(e);
            }
            i = i - 1;
        }
        proof {
            assert(self.table@.take(0) =~= Seq::<(Key, Entry)>::empty());
        }
        None
    }
}

/// Reads `entry_count` index records starting at byte offset `pos` of
/// `data`; fails exactly when the stream ends before the whole table.
pub fn read_index_table(
    data: &Vec<u8>,
    pos: usize,
    has_resource: bool,
    entry_count: u32,
) -> (r: Result<IndexTable, DbpfError>)
    ensures
        r is Ok <==> pos + entry_count * spec_index_record_width(has_resource) <= data.len(),
        match r {
            Ok(t) => {
                &&& t.table@.len() == entry_count
                &&& forall|i: int|
                    0 <= i < entry_count ==> t.table@[i] == spec_index_record(
                        data@,
                        pos + i * spec_index_record_width(has_resource),
                        has_resource,
                    )
            },
            Err(e) => e == (DbpfError::Truncated { section: Section::IndexTable, offset: pos }),
        },
{
    let ghost w = spec_index_record_width(has_resource);
    let kw: usize = if has_resource {
        16
    } else {
        12
    };
    let count = entry_count as usize;
    let n = data.len();
    if pos > n {
        proof {
            assert(entry_count * w >= 0) by (nonlinear_arith)
                requires
                    entry_count >= 0,
                    w > 0,
            ;
        }
        return Err(DbpfError::Truncated { section: Section::IndexTable, offset: pos });
    }
    let mut table: Vec<(Key, Entry)> = Vec::new();
    let mut cur = pos;
    let mut i: usize = 0;
    while i < count
        invariant
            i <= count,
            count == entry_count,
            n == data.len(),
            kw + 8 == w,
            kw == spec_key_width(has_resource),
            cur == pos + i * w,
            cur <= n,
            table@.len() == i,
            forall|j: int| 0 <= j < i ==> table@[j] == spec_index_record(data@, pos + j * w, has_resource),
        decreases count - i,
    {
        if n - cur < kw + 8 {
            proof {
                assert((i + 1) * w <= entry_count * w) by (nonlinear_arith)
                    requires
                        i + 1 <= entry_count,
                        w > 0,
                ;
                assert((i + 1) * w == i * w + w) by (nonlinear_arith);
            }
            return Err(DbpfError::Truncated { section: Section::IndexTable, offset: pos });
        }
        let (key, after_key) = match read_key(data, cur, has_resource) {
            Some(kp) => kp,
            None => {
                return Err(DbpfError::Truncated { section: Section::IndexTable, offset: pos });
            },
        };
        let location = Position(read_u32_le(data, after_key));
        let size = Size(read_u32_le(data, after_key + 4));
        table.push((key, Entry { location, size }));
        proof {
            assert((i + 1) * w == i * w + w) by (nonlinear_arith);
        }
        cur = cur + kw + 8;
        i = i + 1;
    }
    proof {
        assert(entry_count * w == i * w);
    }
    Ok(IndexTable { table })
}

/// One index record's encoded bytes: the key, then the location, then the
/// size, each field little-endian.
pub open spec fn spec_index_record_bytes(rec: (Key, Entry)) -> Seq<u8> {
    spec_key_bytes(rec.0) + spec_u32_le_bytes(rec.1.location.0) + spec_u32_le_bytes(rec.1.size.0)
}

/// Writes the table's records in order, every key under the given
/// resource-id flag — the same flag a reader of the archive will derive
/// from its header.
#[verifier::rlimit(60)]
pub fn write_index_table(t: &IndexTable, has_resource: bool, out: &mut Vec<u8>)
    requires
        forall|i: int|
            0 <= i < t.table@.len() ==> (#[trigger] t.table@[i]).0.matches_flag(has_resource),
    ensures
        final(out)@.len() == old(out)@.len() + t.table@.len() * spec_index_record_width(
            has_resource,
        ),
        final(out)@.subrange(0, old(out)@.len() as int) == old(out)@,
        forall|i: int|
            0 <= i < t.table@.len() ==> final(out)@.subrange(
                old(out)@.len() + i * spec_index_record_width(has_resource),
                old(out)@.len() + (i + 1) * spec_index_record_width(has_resource),
            ) == spec_index_record_bytes(#[trigger] t.table@[i]),
{
    let ghost w = spec_index_record_width(has_resource);
    let ghost base = old(out)@.len() as int;
    let n = t.table.len();
    let mut i: usize = 0;
    while i < n
        invariant
            i <= n,
            n == t.table@.len(),
            w == spec_index_record_width(has_resource),
            base == old(out)@.len(),
            forall|j: int|
                0 <= j < n ==> (#[trigger] t.table@[j]).0.matches_flag(has_resource),
            out@.len() == base + i * w,
            out@.subrange(0, base) == old(out)@,
            forall|j: int|
                0 <= j < i ==> out@.subrange(base + j * w, base + (j + 1) * w)
                    == spec_index_record_bytes(#[trigger] t.table@[j]),
        decreases n - i,
    {
        let ghost before = out@;
        let (key, entry) = t.table[i];
        write_key(&key, out);
        write_u32_le(out, entry.location.0);
        write_u32_le(out, entry.size.0);
        proof {
            assert((i + 1) * w == i * w + w) by (nonlinear_arith);
            assert(spec_key_bytes(key).len() == spec_key_width(has_resource));
            assert(out@ =~= before + spec_index_record_bytes(t.table@[i as int]));
            assert(forall|k: int| 0 <= k < before.len() ==> out@[k] == #[trigger] before[k]);
            assert(out@.subrange(0, base) =~= old(out)@);
            assert(out@.subrange(base + i * w, base + i * w + w) =~= spec_index_record_bytes(
                t.table@[i as int],
            ));
            assert forall|j: int| 0 <= j < i implies out@.subrange(
                base + j * w,
                base + (j + 1) * w,
            ) == spec_index_record_bytes(#[trigger] t.table@[j]) by {
                assert((j + 1) * w <= i * w && 0 <= j * w && (j + 1) * w == j * w + w)
                    by (nonlinear_arith)
                    requires
                        0 <= j,
                        j + 1 <= i,
                        w > 0,
                ;
                assert(out@.subrange(base + j * w, base + (j + 1) * w) =~= before.subrange(
                    base + j * w,
                    base + (j + 1) * w,
                ));
            }
        }
        i = i + 1;
    }
}

/// Encoding an index record and decoding it under the same resource-id
/// flag yields the record again, wherever in a stream its bytes sit.
pub proof fn lemma_index_record_round_trip(
    rec: (Key, Entry),
    s: Seq<u8>,
    pos: int,
    has_resource: bool,
)
    requires
        rec.0.matches_flag(has_resource),
        0 <= pos,
        pos + spec_index_record_width(has_resource) <= s.len(),
        s.subrange(pos, pos + spec_index_record_width(has_resource)) == spec_index_record_bytes(
            rec,
        ),
    ensures
        spec_index_record(s, pos, has_resource) == rec,
{
    let kw = spec_key_width(has_resource);
    let w = spec_index_record_width(has_resource);
    let rb = spec_index_record_bytes(rec);
    assert(spec_key_bytes(rec.0).len() == kw);
    assert(forall|j: int| 0 <= j < w ==> s[pos + j] == #[trigger] rb[j]) by {
        assert(forall|j: int| 0 <= j < w ==> s.subrange(pos, pos + w)[j] == #[trigger] rb[j]);
    }
    assert(s.subrange(pos, pos + kw) =~= spec_key_bytes(rec.0)) by {
        assert forall|j: int| 0 <= j < kw implies s.subrange(pos, pos + kw)[j] == spec_key_bytes(
            rec.0,
        )[j] by {
            assert(s[pos + j] == rb[j]);
        }
    }
    crate::key::lemma_key_round_trip(rec.0, s, pos, has_resource);
    assert(s.subrange(pos + kw, pos + kw + 4) =~= spec_u32_le_bytes(rec.1.location.0)) by {
        assert forall|j: int| 0 <= j < 4 implies s.subrange(pos + kw, pos + kw + 4)[j]
            == spec_u32_le_bytes(rec.1.location.0)[j] by {
            assert(s[pos + (kw + j)] == rb[kw + j]);
        }
    }
    crate::bytes::lemma_u32_le_bytes_value(s, pos + kw, rec.1.location.0);
    assert(s.subrange(pos + kw + 4, pos + kw + 8) =~= spec_u32_le_bytes(rec.1.size.0)) by {
        assert forall|j: int| 0 <= j < 4 implies s.subrange(pos + kw + 4, pos + kw + 8)[j]
            == spec_u32_le_bytes(rec.1.size.0)[j] by {
            assert(s[pos + (kw + 4 + j)] == rb[kw + 4 + j]);
        }
    }
    crate::bytes::lemma_u32_le_bytes_value(s, pos + kw + 4, rec.1.size.0);
}

} // verus!
