//! The behavior-constant resource: a 64-byte name field holding a
//! NUL-terminated name, a one-byte constant count, a one-byte flags field,
//! and then that many 16-bit signed constants, little-endian.  The name is
//! kept as its raw bytes before the first NUL; the padding after it is
//! not retained.

use vstd::prelude::*;

use crate::bytes::spec_u16_le;

verus! {

/// One behavior-constant resource.
#[derive(Debug, Clone, PartialEq, Eq)]
pub struct Bcon {
    pub file_name: Vec<u8>,
    pub flags: u8,
    pub constants: Vec<i16>,
}

/// The length of the name stored at byte offset `pos`: the index of the
/// first NUL within the 64-byte field, or 64 when none occurs, counted
/// from field position `i`.
pub open spec fn spec_name_len(s: Seq<u8>, pos: int, i: int) -> int
    decreases 64 - i,
{
    if i < 0 || i >= 64 {
        64
    } else if s[pos + i] == 0 {
        i
    } else {
        spec_name_len(s, pos, i + 1)
    }
}

/// The constant at position `i` of the table starting at byte offset
/// `pos`: a little-endian 16-bit value read as signed.
pub open spec fn spec_bcon_constant(s: Seq<u8>, pos: int, i: int) -> i16 {
    spec_u16_le(s, pos + 66 + 2 * i) as u16 as i16
}

impl Bcon {
    /// The resource's fields fit their stored widths: the name fits the
    /// 64-byte field with its terminator and holds no NUL itself, and the
    /// constant count fits its single byte.
    pub open spec fn wf(self) -> bool {
        &&& self.file_name@.len() <= 63
        &&& forall|i: int| 0 <= i < self.file_name@.len() ==> self.file_name@[i] != 0
        &&& self.constants@.len() <= 255
    }
}

/// Reads the resource starting at byte offset `pos` of `data`; `None` when
/// the stream ends inside the name field, the two fixed bytes, or the
/// constant table.
pub fn read_bcon(data: &Vec<u8>, pos: usize) -> (r: Option<(Bcon, usize)>)
    ensures
        r is Some <==> pos + 66 + 2 * (data@[pos + 64] as int) <= data.len() && pos + 66
            <= data.len(),
        r is Some ==> ({
            let b = r->Some_0.0;
            let nl = spec_name_len(data@, pos as int, 0);
            &&& b.file_name@ == data@.subrange(pos as int, pos + nl)
            &&& b.flags == data@[pos + 65]
            &&& b.constants@.len() == data@[pos + 64] as int
            &&& (forall|i: int|
                0 <= i < b.constants@.len() ==> b.constants@[i] == spec_bcon_constant(
                    data@,
                    pos as int,
                    i,
                ))
            &&& r->Some_0.1 == pos + 66 + 2 * (data@[pos + 64] as int)
        }),
{
    let n = data.len();
    if n < 66 || pos > n - 66 {
        return None;
    }
    let count = data[pos + 64] as usize;
    if (n - pos - 66) / 2 < count {
        return None;
    }
    let mut file_name: Vec<u8> = Vec::new();
    let mut i: usize = 0;
    while i < 64 && data[pos + i] != 0
        invariant
            i <= 64,
            pos + 66 <= data.len(),
            spec_name_len(data@, pos as int, 0) == spec_name_len(data@, pos as int, i as int),
            file_name@ == data@.subrange(pos as int, pos + i),
        decreases 64 - i,
    {
        file_name.push(data[pos + i]);
        proof {
            assert(file_name@ =~= data@.subrange(pos as int, pos + i + 1));
        }
        i = i + 1;
    }
    proof {
        assert(spec_name_len(data@, pos as int, i as int) == i);
    }
    let flags = data[pos + 65];
    let mut constants: Vec<i16> = Vec::new();
    let mut k: usize = 0;
    while k < count
        invariant
            k <= count,
            pos + 66 + 2 * count <= data.len(),
            constants@.len() == k,
            forall|j: int|
                0 <= j < k ==> constants@[j] == spec_bcon_constant(data@, pos as int, j),
        decreases count - k,
    {
        let lo = data[pos + 66 + 2 * k] as u16;
        let hi = data[pos + 66 + 2 * k + 1] as u16;
        constants.push((lo + hi * 0x100) as i16);
        k = k + 1;
    }
    Some((Bcon { file_name, flags, constants }, pos + 66 + 2 * count))
}

/// Appends the resource's encoded bytes to `out`: the name padded with
/// NULs to 64 bytes, the constant count, the flags byte, and each constant
/// little-endian.
pub fn write_bcon(b: &Bcon, out: &mut Vec<u8>)
    requires
        b.wf(),
    ensures
        final(out)@.len() == old(out)@.len() + 66 + 2 * b.constants@.len(),
        final(out)@.subrange(0, old(out)@.len() as int) == old(out)@,
        ({
            let base = old(out)@.len() as int;
            &&& final(out)@.subrange(base, base + b.file_name@.len() as int) == b.file_name@
            &&& (forall|i: int|
                b.file_name@.len() <= i < 64 ==> #[trigger] final(out)@[base + i] == 0u8)
            &&& final(out)@[base + 64] == b.constants@.len() as u8
            &&& final(out)@[base + 65] == b.flags
            &&& (forall|i: int|
                0 <= i < b.constants@.len() ==> spec_u16_le(final(out)@, base + 66 + 2 * i)
                    == b.constants@[i] as u16)
        }),
{
    let ghost base = old(out)@.len() as int;
    let name_len = b.file_name.len();
    let mut i: usize = 0;
    while i < name_len
        invariant
            i <= name_len,
            name_len == b.file_name@.len(),
            out@ == old(out)@ + b.file_name@.subrange(0, i as int),
        decreases name_len - i,
    {
        out.push(b.file_name[i]);
        proof {
            assert(out@ =~= old(out)@ + b.file_name@.subrange(0, i + 1));
        }
        i = i + 1;
    }
    proof {
        assert(b.file_name@.subrange(0, name_len as int) =~= b.file_name@);
        assert(out@.subrange(0, base) =~= old(out)@);
        assert(out@.subrange(base, base + name_len as int) =~= b.file_name@);
    }
    while i < 64
        invariant
            name_len <= i <= 64,
            name_len == b.file_name@.len(),
            base == old(out)@.len(),
            out@.len() == base + i,
            out@.subrange(0, base) == old(out)@,
            out@.subrange(base, base + name_len as int) == b.file_name@,
            forall|j: int| name_len <= j < i ==> #[trigger] out@[base + j] == 0u8,
        decreases 64 - i,
    {
        let ghost before = out@;
        out.push(0);
        proof {
            assert(forall|q: int| 0 <= q < before.len() ==> out@[q] == #[trigger] before[q]);
            assert(out@.subrange(0, base) =~= before.subrange(0, base));
            assert(out@.subrange(base, base + name_len as int) =~= before.subrange(
                base,
                base + name_len as int,
            ));
        }
        i = i + 1;
    }
    let count = b.constants.len();
    let ghost before_fixed = out@;
    out.push(count as u8);
    out.push(b.flags);
    proof {
        assert(forall|q: int|
            0 <= q < before_fixed.len() ==> out@[q] == #[trigger] before_fixed[q]);
        assert(out@.subrange(0, base) =~= old(out)@);
        assert(out@.subrange(base, base + name_len as int) =~= b.file_name@);
        assert(out@[base + 64] == count as u8 && out@[base + 65] == b.flags);
    }
    let mut k: usize = 0;
    while k < count
        invariant
            k <= count,
            count == b.constants@.len(),
            count <= 255,
            name_len == b.file_name@.len(),
            name_len <= 64,
            base == old(out)@.len(),
            out@.len() == base + 66 + 2 * k,
            out@.subrange(0, base) == old(out)@,
            out@.subrange(base, base + name_len as int) == b.file_name@,
            forall|j: int| name_len <= j < 64 ==> #[trigger] out@[base + j] == 0u8,
            out@[base + 64] == count as u8,
            out@[base + 65] == b.flags,
            forall|j: int|
                0 <= j < k ==> spec_u16_le(out@, base + 66 + 2 * j) == b.constants@[j] as u16,
        decreases count - k,
    {
        let v = b.constants[k] as u16;
        let lo = (v % 0x100) as u8;
        let hi = (v / 0x100) as u8;
        let ghost before = out@;
        out.push(lo);
        out.push(hi);
        proof {
            assert(forall|q: int| 0 <= q < before.len() ==> out@[q] == #[trigger] before[q]);
            assert(out@.subrange(0, base) =~= before.subrange(0, base));
            assert(out@.subrange(base, base + name_len as int) =~= before.subrange(
                base,
                base + name_len as int,
            ));
            assert(out@[base + 66 + 2 * k] == lo && out@[base + 66 + 2 * k + 1] == hi);
            assert(v == lo + hi * 0x100);
            assert forall|j: int| 0 <= j < k implies spec_u16_le(out@, base + 66 + 2 * j)
                == b.constants@[j] as u16 by {
                assert(out@[base + 66 + 2 * j] == before[base + 66 + 2 * j]);
                assert(out@[base + 66 + 2 * j + 1] == before[base + 66 + 2 * j + 1]);
            }
        }
        k = k + 1;
    }
}

/// The stored name length is `want` when the bytes before field position
/// `want` are non-NUL and the byte there is NUL.
proof fn lemma_name_len_of(s: Seq<u8>, pos: int, i: int, want: int)
    requires
        0 <= i <= want < 64,
        forall|j: int| i <= j < want ==> #[trigger] s[pos + j] != 0,
        s[pos + want] == 0,
    ensures
        spec_name_len(s, pos, i) == want,
    decreases want - i,
{
    if i < want {
        lemma_name_len_of(s, pos, i + 1, want);
    }
}

/// Encoding a well-formed resource and decoding it yields the resource
/// again.
pub proof fn lemma_bcon_round_trip(b: Bcon, s: Seq<u8>, pos: int)
    requires
        b.wf(),
        0 <= pos,
        pos + 66 + 2 * b.constants@.len() <= s.len(),
        s.subrange(pos, pos + b.file_name@.len() as int) == b.file_name@,
        forall|i: int| b.file_name@.len() <= i < 64 ==> #[trigger] s[pos + i] == 0u8,
        s[pos + 64] == b.constants@.len() as u8,
        s[pos + 65] == b.flags,
        forall|i: int|
            0 <= i < b.constants@.len() ==> spec_u16_le(s, pos + 66 + 2 * i) == b.constants@[i]
                as u16,
    ensures
        spec_name_len(s, pos, 0) == b.file_name@.len(),
        s.subrange(pos, pos + spec_name_len(s, pos, 0)) == b.file_name@,
        s[pos + 64] as int == b.constants@.len(),
        forall|i: int|
            0 <= i < b.constants@.len() ==> spec_bcon_constant(s, pos, i) == b.constants@[i],
{
    let nl = b.file_name@.len() as int;
    assert(forall|j: int| 0 <= j < nl ==> s[pos + j] == #[trigger] b.file_name@[j]) by {
        assert(forall|j: int|
            0 <= j < nl ==> s.subrange(pos, pos + nl)[j] == #[trigger] b.file_name@[j]);
    }
    assert forall|j: int| 0 <= j < nl implies #[trigger] s[pos + j] != 0 by {
        assert(s[pos + j] == b.file_name@[j]);
        assert(b.file_name@[j] != 0);
    }
    lemma_name_len_of(s, pos, 0, nl);
    assert forall|i: int| 0 <= i < b.constants@.len() implies spec_bcon_constant(s, pos, i)
        == b.constants@[i] by {
        let v = b.constants@[i];
        assert(spec_u16_le(s, pos + 66 + 2 * i) == v as u16);
        assert((v as u16) as i16 == v) by (bit_vector);
    }
}

} // verus!
