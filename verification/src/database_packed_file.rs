//! The archive reader: one pass over a whole byte stream that validates the
//! header, reads the index table it points at, locates and reads the
//! compression directory if the index lists one, and then resolves every
//! index entry to its payload bytes — decompressing entries the directory
//! declares a size for, and keeping every other entry's bytes raw.  Header,
//! index and directory failures abort the load, and so does a failure in
//! any one entry: the format defines no ignorable corruption.
//!
//! An entry whose type code no decoder claims is not an error: it stays in
//! the archive with its raw bytes, for the caller's decoder registry — an
//! external collaborator of this crate — to interpret or retain.

use vstd::prelude::*;

use crate::bytes::Size;
use crate::bytes::spec_u24_be;
use crate::bytes::spec_u32_le;
use crate::compression::CompressedFile;
use crate::compression::CompressionError;
use crate::compression::DecompressionError;
use crate::compression::has_qfs_magic;
use crate::compression::spec_decompress;
use crate::data_kinds::DbpfId;
use crate::directory;
use crate::directory::Dir;
use crate::directory::read_directory;
use crate::directory::spec_dir_lookup;
use crate::directory::spec_dir_record;
use crate::directory::spec_dir_record_width;
use crate::error::DbpfError;
use crate::error::Section;
use crate::header::Header;
use crate::header::read_header;
use crate::header::spec_header_result;
use crate::index_table;
use crate::index_table::read_index_table;
use crate::index_table::spec_index_record;
use crate::index_table::spec_index_record_width;
use crate::key::Key;

verus! {

/// One resolved resource: whether its stored bytes were compressed, and
/// its payload bytes after decompression, raw and unmodified for every
/// entry the directory does not list.
#[derive(Debug, Clone, PartialEq, Eq)]
pub struct Entry {
    pub compressed: bool,
    pub data: Vec<u8>,
}

/// A loaded archive: its header and every index entry's key with its
/// resolved payload, in index order.  Built once from a byte stream and
/// read-only afterwards.
#[derive(Debug, Clone, PartialEq, Eq)]
pub struct Dbpf {
    pub header: Header,
    pub entries: Vec<(Key, Entry)>,
}

/// The index position of the first record whose key's type code names the
/// Directory kind, scanning forward from record `i`.
pub open spec fn spec_find_directory(idx: Seq<(Key, index_table::Entry)>, i: int) -> Option<int>
    decreases idx.len() - i,
{
    if i < 0 || i >= idx.len() {
        None
    } else if DbpfId::spec_from_id(idx[i].0.kind.0) is Directory {
        Some(i)
    } else {
        spec_find_directory(idx, i + 1)
    }
}

/// The index records of an archive whose header is `h`, as the index table
/// codec reads them.
pub open spec fn spec_index_records(s: Seq<u8>, h: Header) -> Seq<(Key, index_table::Entry)> {
    Seq::new(
        h.index_entry_count as nat,
        |i: int|
            spec_index_record(
                s,
                h.index_position.0 + i * spec_index_record_width(h.spec_has_resource_id()),
                h.spec_has_resource_id(),
            ),
    )
}

/// The outcome of decompressing one entry's raw stored bytes against the
/// size the directory declares: the bytes must carry a compressed blob,
/// the blob must decode against its own header's length, and the result
/// must come to exactly the declared size.
pub open spec fn spec_resolve_compressed(raw: Seq<u8>, declared: int, offset: usize) -> Result<
    Seq<u8>,
    DbpfError,
> {
    if raw.len() < 6 || !has_qfs_magic(raw) {
        Err(DbpfError::NotCompressed)
    } else if raw.len() < 9 || spec_u32_le(raw, 0) < 9 || spec_u32_le(raw, 0) > raw.len() {
        Err(DbpfError::Truncated { section: Section::Entry, offset })
    } else {
        match spec_decompress(raw.subrange(9, spec_u32_le(raw, 0)), spec_u24_be(raw, 6)) {
            Ok(v) => if v.len() == declared {
                Ok(v)
            } else {
                Err(DbpfError::SizeMismatch)
            },
            Err(DecompressionError::OutOfBounds) => Err(DbpfError::DecompressionBounds),
            Err(DecompressionError::Truncated) => Err(
                DbpfError::Truncated { section: Section::Entry, offset },
            ),
            Err(DecompressionError::SizeMismatch) => Err(DbpfError::SizeMismatch),
        }
    }
}

/// The outcome of resolving one index record: its raw stored bytes when
/// the directory does not list its key, and its decompressed bytes — of
/// exactly the declared size — when it does.
pub open spec fn spec_resolve_entry(
    s: Seq<u8>,
    dir: Option<Seq<(Key, directory::Entry)>>,
    rec: (Key, index_table::Entry),
) -> Result<(bool, Seq<u8>), DbpfError> {
    let loc = rec.1.location.0 as int;
    let size = rec.1.size.0 as int;
    if loc + size > s.len() {
        Err(DbpfError::Truncated { section: Section::Entry, offset: rec.1.location.0 as usize })
    } else {
        let raw = s.subrange(loc, loc + size);
        let declared = match dir {
            Some(d) => spec_dir_lookup(d, rec.0),
            None => None,
        };
        match declared {
            None => Ok((false, raw)),
            Some(sz) => match spec_resolve_compressed(
                raw,
                sz.0 as int,
                rec.1.location.0 as usize,
            ) {
                Ok(v) => Ok((true, v)),
                Err(e) => Err(e),
            },
        }
    }
}

/// The outcome of resolving the records of `idx` from position `i` on:
/// every record's key with its payload, or the first record's failure.
pub open spec fn spec_resolve_entries(
    s: Seq<u8>,
    dir: Option<Seq<(Key, directory::Entry)>>,
    idx: Seq<(Key, index_table::Entry)>,
    i: int,
) -> Result<Seq<(Key, bool, Seq<u8>)>, DbpfError>
    decreases idx.len() - i,
{
    if i < 0 || i >= idx.len() {
        Ok(Seq::empty())
    } else {
        match spec_resolve_entry(s, dir, idx[i]) {
            Err(e) => Err(e),
            Ok(ent) => match spec_resolve_entries(s, dir, idx, i + 1) {
                Err(e) => Err(e),
                Ok(rest) => Ok(seq![(idx[i].0, ent.0, ent.1)] + rest),
            },
        }
    }
}

/// The record count a directory's index entry implies: its stored size
/// divided by the record width.
pub open spec fn spec_dir_entry_count(de: index_table::Entry, has_resource: bool) -> int {
    de.size.0 as int / spec_dir_record_width(has_resource)
}

/// The outcome of the directory stage: no directory when the index lists
/// none, its records when it parses, and a truncation failure otherwise.
/// Its record count is its index entry's stored size divided by the
/// record width.  A directory that lists its own key — claiming that the
/// directory itself is compressed — is rejected: it must be readable
/// before any entry can be decompressed.
pub open spec fn spec_archive_directory(s: Seq<u8>, h: Header) -> Result<
    Option<Seq<(Key, directory::Entry)>>,
    DbpfError,
> {
    let idx = spec_index_records(s, h);
    let flag = h.spec_has_resource_id();
    match spec_find_directory(idx, 0) {
        None => Ok(None),
        Some(di) => {
            let de = idx[di].1;
            let dw = spec_dir_record_width(flag);
            let dcount = spec_dir_entry_count(de, flag);
            let dpos = de.location.0 as int;
            if dpos > s.len() || dpos + dcount * dw > s.len() {
                Err(DbpfError::Truncated { section: Section::Directory, offset: de.location.0 as usize })
            } else {
                let records = Seq::new(dcount as nat, |j: int| spec_dir_record(s, dpos + j * dw, flag));
                if spec_dir_lookup(records, idx[di].0) is Some {
                    Err(DbpfError::CompressedDirectory)
                } else {
                    Ok(Some(records))
                }
            }
        },
    }
}

/// The outcome of loading a whole archive from `s`: its header and every
/// index entry's key with its compressed flag and payload bytes, or the
/// first stage's failure.
pub open spec fn spec_read_archive(s: Seq<u8>) -> Result<
    (Header, Seq<(Key, bool, Seq<u8>)>),
    DbpfError,
> {
    match spec_header_result(s, 0) {
        Err(e) => Err(e),
        Ok(h) => {
            let flag = h.spec_has_resource_id();
            let w = spec_index_record_width(flag);
            let pos0 = h.index_position.0 as int;
            if pos0 + h.index_entry_count * w > s.len() {
                Err(
                    DbpfError::Truncated {
                        section: Section::IndexTable,
                        offset: h.index_position.0 as usize,
                    },
                )
            } else {
                let idx = spec_index_records(s, h);
                match spec_archive_directory(s, h) {
                    Err(e) => Err(e),
                    Ok(dir) => match spec_resolve_entries(s, dir, idx, 0) {
                        Err(e) => Err(e),
                        Ok(ents) => Ok((h, ents)),
                    },
                }
            }
        },
    }
}

/// The key and payload of record `j`, once it is known to resolve.
pub open spec fn spec_entry_triple(
    s: Seq<u8>,
    dir: Option<Seq<(Key, directory::Entry)>>,
    idx: Seq<(Key, index_table::Entry)>,
    j: int,
) -> (Key, bool, Seq<u8>) {
    let r = spec_resolve_entry(s, dir, idx[j])->Ok_0;
    (idx[j].0, r.0, r.1)
}

/// Resolving all records splits at any position `i` whose predecessors all
/// resolve: the whole outcome is the first `i` records' payloads followed
/// by whatever resolving from `i` on yields.
proof fn lemma_resolve_entries_prefix(
    s: Seq<u8>,
    dir: Option<Seq<(Key, directory::Entry)>>,
    idx: Seq<(Key, index_table::Entry)>,
    i: int,
)
    requires
        0 <= i <= idx.len(),
        forall|j: int| 0 <= j < i ==> spec_resolve_entry(s, dir, #[trigger] idx[j]) is Ok,
    ensures
        spec_resolve_entries(s, dir, idx, 0) == (match spec_resolve_entries(s, dir, idx, i) {
            Ok(rest) => Ok::<Seq<(Key, bool, Seq<u8>)>, DbpfError>(
                Seq::new(i as nat, |j: int| spec_entry_triple(s, dir, idx, j)) + rest,
            ),
            Err(e) => Err(e),
        }),
    decreases i,
{
    let prefix = |k: int| Seq::new(k as nat, |j: int| spec_entry_triple(s, dir, idx, j));
    if i == 0 {
        match spec_resolve_entries(s, dir, idx, 0) {
            Ok(rest) => {
                assert(prefix(0) + rest =~= rest);
            },
            Err(_) => {},
        }
    } else {
        lemma_resolve_entries_prefix(s, dir, idx, i - 1);
        assert(spec_resolve_entry(s, dir, idx[i - 1]) is Ok);
        match spec_resolve_entries(s, dir, idx, i) {
            Ok(rest) => {
                assert(spec_resolve_entries(s, dir, idx, i - 1)
                    == Ok::<Seq<(Key, bool, Seq<u8>)>, DbpfError>(
                    seq![spec_entry_triple(s, dir, idx, i - 1)] + rest,
                ));
                assert(prefix(i - 1) + (seq![spec_entry_triple(s, dir, idx, i - 1)] + rest)
                    =~= prefix(i) + rest);
            },
            Err(e) => {
                assert(spec_resolve_entries(s, dir, idx, i - 1) == Err::<
                    Seq<(Key, bool, Seq<u8>)>,
                    DbpfError,
                >(e));
            },
        }
    }
}

/// The payload recorded for `key`, scanning from the last entry, so that
/// on duplicate keys the last entry wins.
pub open spec fn spec_entry_lookup(entries: Seq<(Key, Entry)>, key: Key) -> Option<Entry>
    decreases entries.len(),
{
    if entries.len() == 0 {
        None
    } else if entries.last().0 == key {
        Some(entries.last().1)
    } else {
        spec_entry_lookup(entries.drop_last(), key)
    }
}

impl Dbpf {
    /// The resolved payload for `key`; with duplicate keys the last index
    /// entry wins.
    pub fn get(&self, key: &Key) -> (r: Option<&Entry>)
        ensures
            match r {
                Some(e) => spec_entry_lookup(self.entries@, *key) == Some(*e),
                None => spec_entry_lookup(self.entries@, *key) is None,
            },
    {
        let n = self.entries.len();
        let mut i: usize = n;
        proof {
            assert(self.entries@.take(n as int) =~= self.entries@);
        }
        while i > 0
            invariant
                i <= n,
                n == self.entries.len(),
                spec_entry_lookup(self.entries@, *key) == spec_entry_lookup(
                    self.entries@.take(i as int),
                    *key,
                ),
            decreases i,
        {
            proof {
                assert(self.entries@.take(i as int).drop_last() =~= self.entries@.take(i - 1));
                assert(self.entries@.take(i as int).last() == self.entries@[i - 1]);
            }
            if self.entries[i - 1].0 == *key {
                return Some(&self.entries[i - 1].1);
            }
            i = i - 1;
        }
        proof {
            assert(self.entries@.take(0) =~= Seq::<(Key, Entry)>::empty());
        }
        None
    }

    /// Loads a whole archive from `data`: header, index table, compression
    /// directory, then every entry's payload, decompressed exactly when the
    /// directory declares a size for its key.  Returns the first stage's
    /// failure otherwise.
    #[verifier::rlimit(60)]
    pub fn read(data: &Vec<u8>) -> (r: Result<Dbpf, DbpfError>)
        ensures
            match r {
                Ok(d) => {
                    &&& spec_read_archive(data@) is Ok
                    &&& d.header == spec_read_archive(data@)->Ok_0.0
                    &&& d.entries@.len() == spec_read_archive(data@)->Ok_0.1.len()
                    &&& forall|i: int|
                        0 <= i < d.entries@.len() ==> {
                            let t = spec_read_archive(data@)->Ok_0.1[i];
                            (#[trigger] d.entries@[i]).0 == t.0 && d.entries@[i].1.compressed
                                == t.1 && d.entries@[i].1.data@ == t.2
                        }
                },
                Err(e) => spec_read_archive(data@) == Err::<
                    (Header, Seq<(Key, bool, Seq<u8>)>),
                    DbpfError,
                >(e),
            },
    {
        let n = data.len();
        let (header, _header_end) = match read_header(data, 0) {
            Ok(h) => h,
            Err(e) => {
                return Err(e);
            },
        };
        let flag = header.has_resource_id();
        let count = header.index_entry_count;
        let pos0 = header.index_position.0 as usize;
        let itab = match read_index_table(data, pos0, flag, count) {
            Ok(t) => t,
            Err(e) => {
                return Err(e);
            },
        };
        let ghost idx = spec_index_records(data@, header);
        proof {
            assert(itab.table@ =~= idx);
        }
        let mut dir_index: Option<usize> = None;
        let mut i: usize = 0;
        while i < itab.table.len() && dir_index.is_none()
            invariant
                i <= itab.table@.len(),
                idx == itab.table@,
                match dir_index {
                    None => spec_find_directory(idx, 0) == spec_find_directory(idx, i as int),
                    Some(di) => di < idx.len() && spec_find_directory(idx, 0) == Some(di as int),
                },
            decreases itab.table@.len() - i, (if dir_index is None { 1int } else { 0int }),
        {
            let code = itab.table[i].0.kind.0;
            let kind = DbpfId::from_id(code);
            if matches!(kind, DbpfId::Directory) {
                dir_index = Some(i);
            } else {
                i = i + 1;
            }
        }
        let dir_opt: Option<Dir> = match dir_index {
            None => None,
            Some(di) => {
                let dir_key = itab.table[di].0;
                let de = itab.table[di].1;
                let dw: u32 = if flag {
                    20
                } else {
                    16
                };
                let dcount = de.size.0 / dw;
                let dpos = de.location.0 as usize;
                match read_directory(data, dpos, flag, dcount) {
                    Ok(d) => {
                        proof {
                            assert(spec_dir_entry_count(de, flag) * spec_dir_record_width(flag)
                                >= 0) by (nonlinear_arith)
                                requires
                                    spec_dir_entry_count(de, flag) >= 0,
                                    spec_dir_record_width(flag) > 0,
                            ;
                            assert(d.table@ =~= Seq::new(
                                spec_dir_entry_count(de, flag) as nat,
                                |j: int| spec_dir_record(
                                    data@,
                                    de.location.0 + j * spec_dir_record_width(flag),
                                    flag,
                                ),
                            ));
                        }
                        if d.get(&dir_key).is_some() {
                            return Err(DbpfError::CompressedDirectory);
                        }
                        Some(d)
                    },
                    Err(e) => {
                        proof {
                            assert(dcount * spec_dir_record_width(flag) >= 0) by (nonlinear_arith)
                                requires
                                    dcount >= 0,
                                    spec_dir_record_width(flag) > 0,
                            ;
                        }
                        return Err(e);
                    },
                }
            },
        };
        let ghost dirspec: Option<Seq<(Key, directory::Entry)>> = match &dir_opt {
            None => None,
            Some(d) => Some(d.table@),
        };
        proof {
            if dir_index is Some {
                let d = dir_opt->Some_0;
                let de = idx[dir_index->Some_0 as int].1;
                let dw = spec_dir_record_width(flag);
                assert(spec_dir_entry_count(de, flag) * dw >= 0) by (nonlinear_arith)
                    requires
                        spec_dir_entry_count(de, flag) >= 0,
                        dw > 0,
                ;
                assert(d.table@ =~= Seq::new(
                    spec_dir_entry_count(de, flag) as nat,
                    |j: int| spec_dir_record(data@, de.location.0 + j * dw, flag),
                ));
            }
            assert(spec_archive_directory(data@, header) == Ok::<
                Option<Seq<(Key, directory::Entry)>>,
                DbpfError,
            >(dirspec));
        }
        let mut entries: Vec<(Key, Entry)> = Vec::new();
        let mut t: usize = 0;
        let table_len = itab.table.len();
        while t < table_len
            invariant
                t <= table_len,
                table_len == itab.table@.len(),
                n == data.len(),
                idx == itab.table@,
                spec_header_result(data@, 0) == Ok::<Header, DbpfError>(header),
                flag == header.spec_has_resource_id(),
                count == header.index_entry_count,
                pos0 == header.index_position.0,
                pos0 + count * spec_index_record_width(flag) <= data@.len(),
                idx == spec_index_records(data@, header),
                spec_archive_directory(data@, header) == Ok::<
                    Option<Seq<(Key, directory::Entry)>>,
                    DbpfError,
                >(dirspec),
                dirspec == (match dir_opt {
                    None => None::<Seq<(Key, directory::Entry)>>,
                    Some(d) => Some(d.table@),
                }),
                entries@.len() == t,
                forall|j: int|
                    0 <= j < t ==> spec_resolve_entry(data@, dirspec, #[trigger] idx[j]) is Ok,
                forall|j: int|
                    0 <= j < t ==> {
                        let rr = spec_resolve_entry(data@, dirspec, idx[j]);
                        &&& (#[trigger] entries@[j]).0 == idx[j].0
                        &&& entries@[j].1.compressed == rr->Ok_0.0
                        &&& entries@[j].1.data@ == rr->Ok_0.1
                    },
            decreases table_len - t,
        {
            let (key, ie) = itab.table[t];
            let loc = ie.location.0 as usize;
            let size = ie.size.0 as usize;
            if loc > n || n - loc < size {
                proof {
                    assert((key, ie) == idx[t as int]);
                    assert(spec_resolve_entry(data@, dirspec, idx[t as int]) == Err::<
                        (bool, Seq<u8>),
                        DbpfError,
                    >(DbpfError::Truncated { section: Section::Entry, offset: loc }));
                    lemma_resolve_entries_prefix(data@, dirspec, idx, t as int);
                }
                return Err(
                    DbpfError::Truncated { section: Section::Entry, offset: loc },
                );
            }
            let mut raw: Vec<u8> = Vec::with_capacity(size);
            let mut b: usize = 0;
            while b < size
                invariant
                    b <= size,
                    loc + size <= data@.len(),
                    n == data.len(),
                    raw@ == data@.subrange(loc as int, loc + b),
                decreases size - b,
            {
                raw.push(data[loc + b]);
                proof {
                    assert(raw@ =~= data@.subrange(loc as int, loc + b + 1));
                }
                b = b + 1;
            }
            let declared: Option<Size> = match &dir_opt {
                None => None,
                Some(d) => d.get(&key),
            };
            let ghost rawspec = data@.subrange(loc as int, loc + size);
            proof {
                assert((key, ie) == idx[t as int]);
                assert(raw@ == rawspec);
            }
            match declared {
                None => {
                    proof {
                        assert(spec_resolve_entry(data@, dirspec, idx[t as int]) == Ok::<
                            (bool, Seq<u8>),
                            DbpfError,
                        >((false, rawspec)));
                    }
                    entries.push((key, Entry { compressed: false, data: raw }));
                },
                Some(declared_size) => {
                    let ghost want = spec_resolve_compressed(
                        rawspec,
                        declared_size.0 as int,
                        loc,
                    );
                    let blob = match CompressedFile::try_from_bytes(&raw) {
                        Ok(bl) => bl,
                        Err(CompressionError::Truncated) => {
                            proof {
                                assert(spec_resolve_entry(data@, dirspec, idx[t as int]) == Err::<
                                    (bool, Seq<u8>),
                                    DbpfError,
                                >(DbpfError::Truncated { section: Section::Entry, offset: loc }));
                                lemma_resolve_entries_prefix(data@, dirspec, idx, t as int);
                            }
                            return Err(
                                DbpfError::Truncated { section: Section::Entry, offset: loc },
                            );
                        },
                        Err(_) => {
                            proof {
                                assert(spec_resolve_entry(data@, dirspec, idx[t as int]) == Err::<
                                    (bool, Seq<u8>),
                                    DbpfError,
                                >(DbpfError::NotCompressed));
                                lemma_resolve_entries_prefix(data@, dirspec, idx, t as int);
                            }
                            return Err(DbpfError::NotCompressed);
                        },
                    };
                    proof {
                        assert(blob.data@ == rawspec.subrange(9, spec_u32_le(rawspec, 0)));
                    }
                    let payload = match blob.decompress() {
                        Ok(v) => v,
                        Err(DecompressionError::OutOfBounds) => {
                            proof {
                                assert(spec_resolve_entry(data@, dirspec, idx[t as int]) == Err::<
                                    (bool, Seq<u8>),
                                    DbpfError,
                                >(DbpfError::DecompressionBounds));
                                lemma_resolve_entries_prefix(data@, dirspec, idx, t as int);
                            }
                            return Err(DbpfError::DecompressionBounds);
                        },
                        Err(DecompressionError::Truncated) => {
                            proof {
                                assert(spec_resolve_entry(data@, dirspec, idx[t as int]) == Err::<
                                    (bool, Seq<u8>),
                                    DbpfError,
                                >(DbpfError::Truncated { section: Section::Entry, offset: loc }));
                                lemma_resolve_entries_prefix(data@, dirspec, idx, t as int);
                            }
                            return Err(
                                DbpfError::Truncated { section: Section::Entry, offset: loc },
                            );
                        },
                        Err(DecompressionError::SizeMismatch) => {
                            proof {
                                assert(spec_resolve_entry(data@, dirspec, idx[t as int]) == Err::<
                                    (bool, Seq<u8>),
                                    DbpfError,
                                >(DbpfError::SizeMismatch));
                                lemma_resolve_entries_prefix(data@, dirspec, idx, t as int);
                            }
                            return Err(DbpfError::SizeMismatch);
                        },
                    };
                    if payload.len() != declared_size.0 as usize {
                        proof {
                            assert(spec_resolve_entry(data@, dirspec, idx[t as int]) == Err::<
                                (bool, Seq<u8>),
                                DbpfError,
                            >(DbpfError::SizeMismatch));
                            lemma_resolve_entries_prefix(data@, dirspec, idx, t as int);
                        }
                        return Err(DbpfError::SizeMismatch);
                    }
                    proof {
                        assert(spec_resolve_entry(data@, dirspec, idx[t as int]) == Ok::<
                            (bool, Seq<u8>),
                            DbpfError,
                        >((true, payload@)));
                    }
                    entries.push((key, Entry { compressed: true, data: payload }));
                },
            }
            t = t + 1;
        }
        proof {
            lemma_resolve_entries_prefix(data@, dirspec, idx, idx.len() as int);
            let triples = Seq::new(
                idx.len(),
                |j: int| spec_entry_triple(data@, dirspec, idx, j),
            );
            assert(spec_resolve_entries(data@, dirspec, idx, 0) == Ok::<
                Seq<(Key, bool, Seq<u8>)>,
                DbpfError,
            >(triples + Seq::empty()));
            assert(triples + Seq::<(Key, bool, Seq<u8>)>::empty() =~= triples);
        }
        Ok(Dbpf { header, entries })
    }
}

/// When resolving from position `i` succeeds, every later record resolved,
/// and the outcome lists their payloads in order.
pub proof fn lemma_resolve_entries_ok(
    s: Seq<u8>,
    dir: Option<Seq<(Key, directory::Entry)>>,
    idx: Seq<(Key, index_table::Entry)>,
    i: int,
)
    requires
        0 <= i <= idx.len(),
        spec_resolve_entries(s, dir, idx, i) is Ok,
    ensures
        spec_resolve_entries(s, dir, idx, i)->Ok_0.len() == idx.len() - i,
        forall|j: int|
            i <= j < idx.len() ==> spec_resolve_entry(s, dir, #[trigger] idx[j]) is Ok,
        forall|j: int|
            i <= j < idx.len() ==> spec_resolve_entries(s, dir, idx, i)->Ok_0[j - i]
                == spec_entry_triple(s, dir, idx, j),
    decreases idx.len() - i,
{
    if i < idx.len() {
        lemma_resolve_entries_ok(s, dir, idx, i + 1);
    }
}

/// Directory consistency: when an archive's directory declares a
/// decompressed size for a record's key and the record resolves, the
/// resolved payload is marked compressed and is exactly that many bytes.
pub proof fn lemma_directory_consistency(
    s: Seq<u8>,
    dir: Option<Seq<(Key, directory::Entry)>>,
    rec: (Key, index_table::Entry),
    sz: Size,
)
    requires
        (match dir {
            Some(d) => spec_dir_lookup(d, rec.0),
            None => None,
        }) == Some(sz),
        spec_resolve_entry(s, dir, rec) is Ok,
    ensures
        spec_resolve_entry(s, dir, rec)->Ok_0.0 == true,
        spec_resolve_entry(s, dir, rec)->Ok_0.1.len() == sz.0,
{
}

/// Unknown-kind fallback: every index record of a loaded archive appears
/// in its entries under its own key, whatever its type code; and a record
/// whose key the directory does not list keeps its raw stored bytes,
/// unmodified and unflagged.
pub proof fn lemma_entry_retained(s: Seq<u8>, i: int)
    requires
        spec_read_archive(s) is Ok,
        0 <= i < spec_read_archive(s)->Ok_0.1.len(),
    ensures
        ({
            let h = spec_read_archive(s)->Ok_0.0;
            let ents = spec_read_archive(s)->Ok_0.1;
            let idx = spec_index_records(s, h);
            let dir = spec_archive_directory(s, h)->Ok_0;
            &&& ents.len() == h.index_entry_count
            &&& ents[i].0 == idx[i].0
            &&& ((match dir {
                Some(d) => spec_dir_lookup(d, idx[i].0),
                None => None,
            }) is None ==> ents[i].1 == false && ents[i].2 == s.subrange(
                idx[i].1.location.0 as int,
                idx[i].1.location.0 + idx[i].1.size.0,
            ))
        }),
{
    let h = spec_read_archive(s)->Ok_0.0;
    let ents = spec_read_archive(s)->Ok_0.1;
    let idx = spec_index_records(s, h);
    let dir = spec_archive_directory(s, h)->Ok_0;
    assert(spec_resolve_entries(s, dir, idx, 0) == Ok::<Seq<(Key, bool, Seq<u8>)>, DbpfError>(
        ents,
    ));
    lemma_resolve_entries_ok(s, dir, idx, 0);
    assert(ents[i] == spec_entry_triple(s, dir, idx, i));
    assert(spec_resolve_entry(s, dir, idx[i]) is Ok);
    if (match dir {
        Some(d) => spec_dir_lookup(d, idx[i].0),
        None => None::<Size>,
    }) is None {
        assert(spec_resolve_entry(s, dir, idx[i]) == Ok::<(bool, Seq<u8>), DbpfError>(
            (
                false,
                s.subrange(
                    idx[i].1.location.0 as int,
                    idx[i].1.location.0 + idx[i].1.size.0,
                ),
            ),
        ));
    }
}

} // verus!
