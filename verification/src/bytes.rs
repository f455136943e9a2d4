//! Small byte- and integer-level helpers shared by every codec in the crate:
//! byte-count newtypes, little-endian field readers and writers, the 24-bit
//! big-endian integer used by the compression header, and an in-place
//! slice-to-slice copy.

use vstd::prelude::*;

verus! {

/// A byte count inside an archive (an index size, a stored or decompressed
/// payload size).
#[derive(Debug, Clone, Copy, PartialEq, Eq, Structural, Hash)]
pub struct Size(pub u32);

impl Size {
    /// The size of `number` 16-bit words, in bytes.
    pub fn word(number: u32) -> (r: Size)
        requires
            number * 2 <= u32::MAX,
        ensures
            r.0 == number * 2,
    {
        Size(number * 2)
    }

    /// The size of `number` 32-bit double words, in bytes.
    pub fn dword(number: u32) -> (r: Size)
        requires
            number * 4 <= u32::MAX,
        ensures
            r.0 == number * 4,
    {
        Size(number * 4)
    }
}

/// A byte offset from the start of an archive.
#[derive(Debug, Clone, Copy, PartialEq, Eq, Structural, Hash)]
pub struct Position(pub u32);

/// An unsigned 24-bit integer, stored widened to `u32`; the compression
/// header keeps the uncompressed length in this width.
#[derive(Debug, Clone, Copy, PartialEq, Eq, Structural, Hash)]
pub struct U24(pub u32);

impl U24 {
    /// The stored value stays within 24 bits.
    pub open spec fn wf(self) -> bool {
        self.0 < 0x100_0000
    }
}

/// The value of the little-endian 16-bit field at byte offset `pos` of `s`.
pub open spec fn spec_u16_le(s: Seq<u8>, pos: int) -> int {
    s[pos] + s[pos + 1] * 0x100
}

/// The value of the little-endian 32-bit field at byte offset `pos` of `s`.
pub open spec fn spec_u32_le(s: Seq<u8>, pos: int) -> int {
    s[pos] + s[pos + 1] * 0x100 + s[pos + 2] * 0x1_0000 + s[pos + 3] * 0x100_0000
}

/// The value of the big-endian 16-bit field at byte offset `pos` of `s`.
pub open spec fn spec_u16_be(s: Seq<u8>, pos: int) -> int {
    s[pos] * 0x100 + s[pos + 1]
}

/// The value of the big-endian 24-bit field at byte offset `pos` of `s`.
pub open spec fn spec_u24_be(s: Seq<u8>, pos: int) -> int {
    s[pos] * 0x1_0000 + s[pos + 1] * 0x100 + s[pos + 2]
}

/// Reads the little-endian 32-bit field at byte offset `pos` of `data`.
pub fn read_u32_le(data: &Vec<u8>, pos: usize) -> (r: u32)
    requires
        pos + 4 <= data.len(),
    ensures
        r == spec_u32_le(data@, pos as int),
{
    let b0 = data[pos] as u32;
    let b1 = data[pos + 1] as u32;
    let b2 = data[pos + 2] as u32;
    let b3 = data[pos + 3] as u32;
    b0 + b1 * 0x100 + b2 * 0x1_0000 + b3 * 0x100_0000
}

/// Reads the big-endian 16-bit field at byte offset `pos` of `data`.
pub fn read_u16_be(data: &Vec<u8>, pos: usize) -> (r: u16)
    requires
        pos + 2 <= data.len(),
    ensures
        r == spec_u16_be(data@, pos as int),
{
    let b0 = data[pos] as u16;
    let b1 = data[pos + 1] as u16;
    b0 * 0x100 + b1
}

/// Reads the big-endian 24-bit field at byte offset `pos` of `data`.
pub fn read_u24_be(data: &Vec<u8>, pos: usize) -> (r: U24)
    requires
        pos + 3 <= data.len(),
    ensures
        r.0 == spec_u24_be(data@, pos as int),
        r.wf(),
{
    let b0 = data[pos] as u32;
    let b1 = data[pos + 1] as u32;
    let b2 = data[pos + 2] as u32;
    U24(b0 * 0x1_0000 + b1 * 0x100 + b2)
}

/// The four bytes of `v` in little-endian order.
pub open spec fn spec_u32_le_bytes(v: u32) -> Seq<u8> {
    seq![
        (v % 0x100) as u8,
        (v / 0x100 % 0x100) as u8,
        (v / 0x1_0000 % 0x100) as u8,
        (v / 0x100_0000 % 0x100) as u8,
    ]
}

/// Reading a little-endian 32-bit field over the bytes of `v` gives `v`
/// back, wherever in a stream those bytes sit.
pub proof fn lemma_u32_le_bytes_value(s: Seq<u8>, pos: int, v: u32)
    requires
        0 <= pos,
        pos + 4 <= s.len(),
        s.subrange(pos, pos + 4) == spec_u32_le_bytes(v),
    ensures
        spec_u32_le(s, pos) == v,
{
    let b = spec_u32_le_bytes(v);
    assert(s[pos] == s.subrange(pos, pos + 4)[0]);
    assert(s[pos + 1] == s.subrange(pos, pos + 4)[1]);
    assert(s[pos + 2] == s.subrange(pos, pos + 4)[2]);
    assert(s[pos + 3] == s.subrange(pos, pos + 4)[3]);
    assert(v == b[0] + b[1] * 0x100 + b[2] * 0x1_0000 + b[3] * 0x100_0000);
}

/// Appends the four little-endian bytes of `v` to `out`.
pub fn write_u32_le(out: &mut Vec<u8>, v: u32)
    ensures
        final(out)@ == old(out)@ + spec_u32_le_bytes(v),
{
    let b0 = (v % 0x100) as u8;
    let b1 = ((v / 0x100) % 0x100) as u8;
    let b2 = ((v / 0x1_0000) % 0x100) as u8;
    let b3 = ((v / 0x100_0000) % 0x100) as u8;
    out.push(b0);
    out.push(b1);
    out.push(b2);
    out.push(b3);
    proof {
        assert(final(out)@ =~= old(out)@ + spec_u32_le_bytes(v));
    }
}

/// Copies `v[from .. from + len]` over `v[to .. to + len]`; the two ranges
/// must not overlap.
pub fn copy_within_slice<T: Copy>(v: &mut Vec<T>, from: usize, to: usize, len: usize)
    requires
        from + len <= old(v).len(),
        to + len <= old(v).len(),
        from + len <= to || to + len <= from,
    ensures
        final(v)@.len() == old(v)@.len(),
        forall|i: int|
            0 <= i < old(v)@.len() ==> final(v)@[i] == if to <= i < to + len {
                old(v)@[i - to + from]
            } else {
                old(v)@[i]
            },
{
    let mut i: usize = 0;
    while i < len
        invariant
            i <= len,
            from + len <= v.len(),
            to + len <= v.len(),
            from + len <= to || to + len <= from,
            v@.len() == old(v)@.len(),
            forall|j: int|
                0 <= j < v@.len() ==> v@[j] == if to <= j < to + i {
                    old(v)@[j - to + from]
                } else {
                    old(v)@[j]
                },
        decreases len - i,
    {
        let value = v[from + i];
        v.set(to + i, value);
        i = i + 1;
    }
}

} // verus!
