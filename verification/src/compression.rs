//! The QFS/RefPack compression scheme used for individual resource blobs.
//!
//! A compressed blob is a 9-byte header (4-byte little-endian total length,
//! the big-endian magic `0x10FB`, a big-endian 24-bit uncompressed length)
//! followed by a stream of control codes.  Each control code names how many
//! literal bytes follow it and, for three of the five code ranges, a
//! back-reference (offset, length) into the bytes already produced.
//! Back-references may overlap the bytes they are producing: the copy runs
//! byte by byte in increasing order, so a small offset repeats a pattern.

use vstd::prelude::*;

use crate::bytes::U24;
use crate::bytes::lemma_u32_le_bytes_value;
use crate::bytes::read_u16_be;
use crate::bytes::read_u24_be;
use crate::bytes::read_u32_le;
use crate::bytes::spec_u16_be;
use crate::bytes::spec_u24_be;
use crate::bytes::spec_u32_le;
use crate::bytes::spec_u32_le_bytes;
use crate::bytes::write_u32_le;

verus! {

/// Why a blob failed to decompress.
#[derive(Debug, Clone, Copy, PartialEq, Eq, Structural)]
pub enum DecompressionError {
    /// A back-reference offset reached before the start of the output.
    OutOfBounds,
    /// The control stream ended in the middle of a control code or of its
    /// literal bytes.
    Truncated,
    /// The output did not come to exactly the declared length.
    SizeMismatch,
}

/// The five control-code ranges, told apart by the leading bits of the first
/// control byte.
#[derive(Debug, Clone, Copy, PartialEq, Eq, Structural)]
pub enum ControlRange {
    /// `0xxxxxxx`: 2 bytes; up to 3 literals; back-reference.
    First,
    /// `10xxxxxx`: 3 bytes; up to 3 literals; back-reference.
    Second,
    /// `110xxxxx`: 4 bytes; up to 3 literals; back-reference.
    Third,
    /// `111xxxxx` below `0xFC`: 1 byte; 4 to 112 literals in steps of 4.
    Fourth,
    /// `111111xx`: 1 byte; up to 3 literals; ends a stream.
    Fifth,
}

/// One decoded control code: which range it came from, its back-reference
/// (offset, length) if the range carries one, and its literal count.
#[derive(Debug, Clone, Copy, PartialEq, Eq)]
pub struct Control {
    pub range: ControlRange,
    pub offset_copy: Option<(usize, usize)>,
    pub plaintext_copy: Option<usize>,
}

/// How many bytes the control code starting with byte `b0` occupies.
pub open spec fn ctrl_width(b0: u8) -> int {
    if b0 < 0x80 {
        2
    } else if b0 < 0xC0 {
        3
    } else if b0 < 0xE0 {
        4
    } else {
        1
    }
}

/// The control code starting at byte offset `pos` of `s`, with every
/// bit-packed field extracted and its magic adjustment applied.
pub open spec fn control_of(s: Seq<u8>, pos: int) -> Control {
    let b0 = s[pos] as int;
    if b0 < 0x80 {
        let b1 = s[pos + 1] as int;
        Control {
            range: ControlRange::First,
            offset_copy: Some((((b0 / 32) * 256 + b1 + 1) as usize, (b0 / 4 % 8 + 3) as usize)),
            plaintext_copy: Some((b0 % 4) as usize),
        }
    } else if b0 < 0xC0 {
        let b1 = s[pos + 1] as int;
        let b2 = s[pos + 2] as int;
        Control {
            range: ControlRange::Second,
            offset_copy: Some(((b1 % 64 * 256 + b2 + 1) as usize, (b0 % 64 + 4) as usize)),
            plaintext_copy: Some((b1 / 64) as usize),
        }
    } else if b0 < 0xE0 {
        let b1 = s[pos + 1] as int;
        let b2 = s[pos + 2] as int;
        let b3 = s[pos + 3] as int;
        Control {
            range: ControlRange::Third,
            offset_copy: Some(
                (
                    (b0 / 16 % 2 * 65536 + b1 * 256 + b2 + 1) as usize,
                    (b0 / 4 % 4 * 256 + b3 + 5) as usize,
                ),
            ),
            plaintext_copy: Some((b0 % 4) as usize),
        }
    } else if b0 < 0xFC {
        Control {
            range: ControlRange::Fourth,
            offset_copy: None,
            plaintext_copy: Some((b0 % 32 * 4 + 4) as usize),
        }
    } else {
        Control {
            range: ControlRange::Fifth,
            offset_copy: None,
            plaintext_copy: Some((b0 % 4) as usize),
        }
    }
}

impl Control {
    /// The number of literal bytes the control asks to copy.
    pub open spec fn lit_count(self) -> int {
        match self.plaintext_copy {
            Some(p) => p as int,
            None => 0,
        }
    }

    /// The control with its literal count made explicit: an absent count
    /// becomes zero.  The encoded bytes are the same either way, and this
    /// is the form the decoder hands back.
    pub open spec fn normalized(self) -> Control {
        Control {
            range: self.range,
            offset_copy: self.offset_copy,
            plaintext_copy: Some(self.lit_count() as usize),
        }
    }

    /// The control's fields fit the range it claims: the back-reference is
    /// present exactly for the first three ranges and within their encodable
    /// offsets and lengths, and the literal count fits its bit field.
    pub open spec fn wf(self) -> bool {
        match self.range {
            ControlRange::First => {
                &&& self.lit_count() <= 3
                &&& match self.offset_copy {
                    Some(oc) => 1 <= oc.0 <= 1024 && 3 <= oc.1 <= 10,
                    None => false,
                }
            },
            ControlRange::Second => {
                &&& self.lit_count() <= 3
                &&& match self.offset_copy {
                    Some(oc) => 1 <= oc.0 <= 16384 && 4 <= oc.1 <= 67,
                    None => false,
                }
            },
            ControlRange::Third => {
                &&& self.lit_count() <= 3
                &&& match self.offset_copy {
                    Some(oc) => 1 <= oc.0 <= 131072 && 5 <= oc.1 <= 1028,
                    None => false,
                }
            },
            ControlRange::Fourth => {
                &&& self.offset_copy is None
                &&& 4 <= self.lit_count() <= 112 && self.lit_count() % 4 == 0
            },
            ControlRange::Fifth => {
                &&& self.offset_copy is None
                &&& self.lit_count() <= 3
            },
        }
    }

    /// Builds a control from a wanted back-reference and literal count,
    /// both stored unchanged, choosing the narrowest range that encodes
    /// them; the thresholds are on the `requires` side, so every built
    /// control is well formed.
    pub fn new(offset_copy: Option<(usize, usize)>, plaintext_copy: Option<usize>) -> (r: Control)
        requires
            control_args_wf(offset_copy, plaintext_copy),
        ensures
            r.wf(),
            r.offset_copy == offset_copy,
            r.plaintext_copy == plaintext_copy,
            r.range == (match offset_copy {
                Some(oc) => if oc.0 > 16383 || oc.1 > 67 {
                    ControlRange::Third
                } else if oc.0 > 1023 || oc.1 > 10 {
                    ControlRange::Second
                } else {
                    ControlRange::First
                },
                None => if plaintext_copy->Some_0 > 3 {
                    ControlRange::Fourth
                } else {
                    ControlRange::Fifth
                },
            }),
    {
        let plain = match plaintext_copy {
            Some(p) => p,
            None => 0,
        };
        let range = match offset_copy {
            Some((offset, length)) => {
                if offset > 16383 || length > 67 {
                    ControlRange::Third
                } else if offset > 1023 || length > 10 {
                    ControlRange::Second
                } else {
                    ControlRange::First
                }
            },
            None => {
                if plain > 3 {
                    ControlRange::Fourth
                } else {
                    ControlRange::Fifth
                }
            },
        };
        Control { range, offset_copy, plaintext_copy }
    }
}

/// The arguments [`Control::new`] accepts: a back-reference within the
/// widest range's reach and long enough for the narrowest range that can
/// hold its offset, at most three literals beside a back-reference, and a
/// literal-only count the one-byte ranges can represent.
pub open spec fn control_args_wf(
    offset_copy: Option<(usize, usize)>,
    plaintext_copy: Option<usize>,
) -> bool {
    match offset_copy {
        Some(oc) => {
            &&& 1 <= oc.0 <= 131072
            &&& 3 <= oc.1 <= 1028
            &&& (oc.0 > 1023 || oc.1 > 10 ==> oc.1 >= 4)
            &&& (oc.0 > 16383 || oc.1 > 67 ==> oc.1 >= 5)
            &&& match plaintext_copy {
                Some(p) => p <= 3,
                None => true,
            }
        },
        None => match plaintext_copy {
            Some(p) => p <= 112 && (p > 3 ==> p % 4 == 0),
            None => false,
        },
    }
}

/// The encoded bytes of a well-formed control: each field has its magic
/// adjustment removed and is packed into the range's bit layout.
pub open spec fn control_bytes(c: Control) -> Seq<u8> {
    let p = c.lit_count();
    match c.range {
        ControlRange::First => {
            let om = c.offset_copy->Some_0.0 - 1;
            let lm = c.offset_copy->Some_0.1 - 3;
            seq![(om / 256 * 32 + lm * 4 + p) as u8, (om % 256) as u8]
        },
        ControlRange::Second => {
            let om = c.offset_copy->Some_0.0 - 1;
            let lm = c.offset_copy->Some_0.1 - 4;
            seq![(128 + lm) as u8, (p * 64 + om / 256) as u8, (om % 256) as u8]
        },
        ControlRange::Third => {
            let om = c.offset_copy->Some_0.0 - 1;
            let lm = c.offset_copy->Some_0.1 - 5;
            seq![
                (192 + om / 65536 * 16 + lm / 256 * 4 + p) as u8,
                (om / 256 % 256) as u8,
                (om % 256) as u8,
                (lm % 256) as u8,
            ]
        },
        ControlRange::Fourth => seq![(224 + (p - 4) / 4) as u8],
        ControlRange::Fifth => seq![(252 + p) as u8],
    }
}

/// Appends the encoded bytes of a well-formed control to `out`.
pub fn write_control(c: &Control, out: &mut Vec<u8>)
    requires
        c.wf(),
    ensures
        final(out)@ == old(out)@ + control_bytes(*c),
{
    let p = match c.plaintext_copy {
        Some(n) => n,
        None => 0,
    };
    match c.range {
        ControlRange::First => {
            let (offset, length) = match c.offset_copy {
                Some(oc) => oc,
                None => (1, 3),
            };
            let om = offset - 1;
            let lm = length - 3;
            out.push((om / 256 * 32 + lm * 4 + p) as u8);
            out.push((om % 256) as u8);
        },
        ControlRange::Second => {
            let (offset, length) = match c.offset_copy {
                Some(oc) => oc,
                None => (1, 4),
            };
            let om = offset - 1;
            let lm = length - 4;
            out.push((128 + lm) as u8);
            out.push((p * 64 + om / 256) as u8);
            out.push((om % 256) as u8);
        },
        ControlRange::Third => {
            let (offset, length) = match c.offset_copy {
                Some(oc) => oc,
                None => (1, 5),
            };
            let om = offset - 1;
            let lm = length - 5;
            out.push((192 + om / 65536 * 16 + lm / 256 * 4 + p) as u8);
            out.push((om / 256 % 256) as u8);
            out.push((om % 256) as u8);
            out.push((lm % 256) as u8);
        },
        ControlRange::Fourth => {
            out.push((224 + (p - 4) / 4) as u8);
        },
        ControlRange::Fifth => {
            out.push((252 + p) as u8);
        },
    }
    proof {
        assert(final(out)@ =~= old(out)@ + control_bytes(*c));
    }
}

/// Writing a well-formed control and reading it back yields the same
/// control with its literal count made explicit: wherever its encoded
/// bytes sit in a stream, the decoder sees a code of exactly that width
/// carrying the same back-reference and the same number of literals (an
/// absent count reads back as zero, which the bytes cannot distinguish).
pub proof fn lemma_control_round_trip(c: Control, s: Seq<u8>, pos: int)
    requires
        c.wf(),
        0 <= pos,
        pos + control_bytes(c).len() <= s.len(),
        s.subrange(pos, pos + control_bytes(c).len()) == control_bytes(c),
    ensures
        ctrl_width(s[pos]) == control_bytes(c).len(),
        control_of(s, pos) == c.normalized(),
{
    let cb = control_bytes(c);
    assert(forall|k: int| 0 <= k < cb.len() ==> s[pos + k] == #[trigger] cb[k]) by {
        assert(forall|k: int|
            0 <= k < cb.len() ==> s.subrange(pos, pos + cb.len())[k] == #[trigger] cb[k]);
    }
    let p = (c.lit_count()) as u64;
    match c.range {
        ControlRange::First => {
            let om = (c.offset_copy->Some_0.0 - 1) as u64;
            let lm = (c.offset_copy->Some_0.1 - 3) as u64;
            let b0 = (om / 256 * 32 + lm * 4 + p) as u64;
            let b1 = (om % 256) as u64;
            assert(b0 % 4 == p && b0 / 4 % 8 == lm && b0 / 32 * 256 + b1 + 1 == om + 1 && b0
                < 128) by (bit_vector)
                requires
                    b0 == om / 256 * 32 + lm * 4 + p,
                    b1 == om % 256,
                    om <= 1023,
                    lm <= 7,
                    p <= 3,
            ;
            assert(s[pos] == cb[0] && s[pos + 1] == cb[1]);
            assert(cb[0] == b0 as u8 && cb[1] == b1 as u8);
        },
        ControlRange::Second => {
            let om = (c.offset_copy->Some_0.0 - 1) as u64;
            let lm = (c.offset_copy->Some_0.1 - 4) as u64;
            let b0 = (128 + lm) as u64;
            let b1 = (p * 64 + om / 256) as u64;
            let b2 = (om % 256) as u64;
            assert(b1 / 64 == p && b1 % 64 * 256 + b2 + 1 == om + 1 && b0 % 64 + 4 == lm + 4 && 128
                <= b0 < 192 && b1 < 256) by (bit_vector)
                requires
                    b0 == 128 + lm,
                    b1 == p * 64 + om / 256,
                    b2 == om % 256,
                    om <= 16383,
                    lm <= 63,
                    p <= 3,
            ;
            assert(s[pos] == cb[0] && s[pos + 1] == cb[1] && s[pos + 2] == cb[2]);
            assert(cb[0] == b0 as u8 && cb[1] == b1 as u8 && cb[2] == b2 as u8);
        },
        ControlRange::Third => {
            let om = (c.offset_copy->Some_0.0 - 1) as u64;
            let lm = (c.offset_copy->Some_0.1 - 5) as u64;
            let b0 = (192 + om / 65536 * 16 + lm / 256 * 4 + p) as u64;
            let b1 = (om / 256 % 256) as u64;
            let b2 = (om % 256) as u64;
            let b3 = (lm % 256) as u64;
            assert(b0 % 4 == p && b0 / 16 % 2 * 65536 + b1 * 256 + b2 + 1 == om + 1 && b0 / 4 % 4
                * 256 + b3 + 5 == lm + 5 && 192 <= b0 < 224) by (bit_vector)
                requires
                    b0 == 192 + om / 65536 * 16 + lm / 256 * 4 + p,
                    b1 == om / 256 % 256,
                    b2 == om % 256,
                    b3 == lm % 256,
                    om <= 131071,
                    lm <= 1023,
                    p <= 3,
            ;
            assert(s[pos] == cb[0] && s[pos + 1] == cb[1] && s[pos + 2] == cb[2] && s[pos + 3]
                == cb[3]);
            assert(cb[0] == b0 as u8 && cb[1] == b1 as u8 && cb[2] == b2 as u8 && cb[3] == b3
                as u8);
        },
        ControlRange::Fourth => {
            let pm = (p - 4) as u64;
            let b0 = (224 + pm / 4) as u64;
            assert(224 <= b0 < 252 && b0 % 32 * 4 + 4 == pm + 4) by (bit_vector)
                requires
                    b0 == 224 + pm / 4,
                    pm <= 108,
                    pm % 4 == 0,
            ;
            assert(s[pos] == cb[0]);
            assert(cb[0] == b0 as u8);
        },
        ControlRange::Fifth => {
            let b0 = (252 + p) as u64;
            assert(b0 >= 252 && b0 % 4 == p) by (bit_vector)
                requires
                    b0 == 252 + p,
                    p <= 3,
            ;
            assert(s[pos] == cb[0]);
            assert(cb[0] == b0 as u8);
        },
    }
}

/// The bytes produced by a back-reference of the given offset and length:
/// `count` times over, the byte `offset` places before the end of the output
/// is appended to it.  Each appended byte is available as a source for the
/// ones after it, so an offset smaller than the length repeats a pattern.
pub open spec fn backref_append(out: Seq<u8>, offset: int, count: int) -> Seq<u8>
    decreases count,
{
    if count <= 0 {
        out
    } else {
        backref_append(out.push(out[out.len() - offset]), offset, count - 1)
    }
}

/// What an overlapping self-copy produces: a back-reference leaves the bytes
/// before it unchanged, appends exactly `count` bytes, and every appended
/// byte equals the byte `offset` places before it in the result itself.
/// With `offset` smaller than `count` the source range overlaps the bytes
/// being written, and this is what makes the copy repeat a pattern.
pub proof fn lemma_backref_append_overlap(out: Seq<u8>, offset: int, count: int)
    requires
        1 <= offset <= out.len(),
        0 <= count,
    ensures
        backref_append(out, offset, count).len() == out.len() + count,
        backref_append(out, offset, count).subrange(0, out.len() as int) == out,
        forall|j: int|
            out.len() <= j < out.len() + count ==> #[trigger] backref_append(out, offset, count)[j]
                == backref_append(out, offset, count)[j - offset],
    decreases count,
{
    if count > 0 {
        let b = out[out.len() - offset];
        let pushed = out.push(b);
        lemma_backref_append_overlap(pushed, offset, count - 1);
        let r = backref_append(out, offset, count);
        assert(r == backref_append(pushed, offset, count - 1));
        assert(backref_append(pushed, offset, count - 1).subrange(0, pushed.len() as int)
            == pushed);
        assert(r.subrange(0, out.len() as int) =~= out);
        assert(forall|j: int| 0 <= j < pushed.len() ==> #[trigger] r[j] == pushed[j]) by {
            assert(forall|j: int|
                0 <= j < pushed.len() ==> r.subrange(0, pushed.len() as int)[j]
                    == #[trigger] r[j]);
        }
        assert(r[out.len() as int] == b && b == out[out.len() - offset] && out[out.len() - offset]
            == r[out.len() - offset]);
    } else {
        assert(backref_append(out, offset, count).subrange(0, out.len() as int) =~= out);
    }
}

/// The outcome of running the control stream `comp` from byte offset `pos`
/// onward, with `out` already produced, against an output buffer of `cap`
/// bytes.  Each step reads one control code, appends its literal bytes from
/// the stream, then appends its back-reference bytes from the output itself;
/// the stream fails if it ends inside a code or its literals, names an offset
/// reaching before the start of the output, or overruns the buffer.
#[verifier::opaque]
pub open spec fn qfs_decode(comp: Seq<u8>, pos: int, out: Seq<u8>, cap: int) -> Result<
    Seq<u8>,
    DecompressionError,
>
    decreases comp.len() - pos,
{
    if pos >= comp.len() {
        Ok(out)
    } else {
        let w = ctrl_width(comp[pos]);
        if pos + w > comp.len() {
            Err(DecompressionError::Truncated)
        } else {
            let c = control_of(comp, pos);
            let lit = c.plaintext_copy->Some_0 as int;
            if pos + w + lit > comp.len() {
                Err(DecompressionError::Truncated)
            } else if out.len() + lit > cap {
                Err(DecompressionError::SizeMismatch)
            } else {
                let out1 = out + comp.subrange(pos + w, pos + w + lit);
                match c.offset_copy {
                    None => qfs_decode(comp, pos + w + lit, out1, cap),
                    Some(oc) => {
                        let offset = oc.0 as int;
                        let count = oc.1 as int;
                        if offset > out1.len() {
                            Err(DecompressionError::OutOfBounds)
                        } else if out1.len() + count > cap {
                            Err(DecompressionError::SizeMismatch)
                        } else {
                            qfs_decode(comp, pos + w + lit, backref_append(out1, offset, count), cap)
                        }
                    },
                }
            }
        }
    }
}

/// The outcome of decompressing the whole control stream `comp` against a
/// declared output length: the decoded bytes when the stream decodes cleanly
/// to exactly `declared` bytes, and the first failure otherwise.
pub open spec fn spec_decompress(comp: Seq<u8>, declared: int) -> Result<
    Seq<u8>,
    DecompressionError,
> {
    match qfs_decode(comp, 0, Seq::empty(), declared) {
        Ok(s) => if s.len() == declared {
            Ok(s)
        } else {
            Err(DecompressionError::SizeMismatch)
        },
        Err(e) => Err(e),
    }
}


/// Spends the literals from `lit_start` up to `bound` as literal-only
/// control blocks, four at a time, leaving at most three for the next
/// block to carry; returns the new start of the unspent literals.
fn flush_literal_chunks(in_vec: &Vec<u8>, payload: &mut Vec<u8>, lit_start: usize, bound: usize) -> (r: usize)
    requires
        lit_start <= bound <= in_vec.len(),
        in_vec.len() < 0x100_0000,
        old(payload).len() <= 3 * lit_start,
        qfs_decode(old(payload)@, 0, Seq::empty(), in_vec.len() as int) == Ok::<
            Seq<u8>,
            DecompressionError,
        >(in_vec@.subrange(0, lit_start as int)),
    ensures
        lit_start <= r <= bound,
        bound - r <= 3,
        final(payload).len() <= 3 * r,
        qfs_decode(final(payload)@, 0, Seq::empty(), in_vec.len() as int) == Ok::<
            Seq<u8>,
            DecompressionError,
        >(in_vec@.subrange(0, r as int)),
{
    let n = in_vec.len();
    let ghost cap = n as int;
    let mut cur = lit_start;
    while bound - cur >= 4
        invariant
            lit_start <= cur <= bound,
            bound <= n,
            n == in_vec.len(),
            n < 0x100_0000,
            cap == n as int,
            payload.len() <= 3 * cur,
            qfs_decode(payload@, 0, Seq::empty(), cap) == Ok::<Seq<u8>, DecompressionError>(
                in_vec@.subrange(0, cur as int),
            ),
        decreases bound - cur,
    {
        let remaining = bound - cur;
        let q = if remaining / 4 >= 28 {
            28
        } else {
            remaining / 4
        };
        let chunk = q * 4;
        proof {
            assert(remaining / 4 * 4 <= remaining && remaining / 4 >= 1) by (bit_vector)
                requires
                    remaining >= 4,
            ;
            assert(chunk <= remaining && 4 <= chunk <= 112);
        }
        let ctrl = (223 + q) as u8;
        let ghost prev = payload@;
        payload.push(ctrl);
        let mut k: usize = 0;
        while k < chunk
            invariant
                k <= chunk,
                cur + chunk <= n,
                n == in_vec.len(),
                payload@ == prev + seq![ctrl] + in_vec@.subrange(cur as int, cur + k),
            decreases chunk - k,
        {
            payload.push(in_vec[cur + k]);
            proof {
                assert(payload@ =~= prev + seq![ctrl] + in_vec@.subrange(cur as int, cur + k + 1));
            }
            k = k + 1;
        }
        proof {
            let lits = in_vec@.subrange(cur as int, cur + chunk);
            assert(payload@ =~= prev + (seq![ctrl] + lits));
            assert((223 + q) % 32 == q - 1) by (bit_vector)
                requires
                    1 <= q <= 28,
            ;
            lemma_append_literal_block(prev, in_vec@.subrange(0, cur as int), cap, ctrl, lits);
            assert(in_vec@.subrange(0, cur as int) + lits =~= in_vec@.subrange(0, cur + chunk));
        }
        cur = cur + chunk;
    }
    cur
}

/// Reads the control code starting at byte offset `pos` of `data`, returning
/// it with the offset of the first byte after it; `None` when the stream ends
/// inside the code.
pub fn read_control(data: &Vec<u8>, pos: usize) -> (r: Option<(Control, usize)>)
    requires
        pos < data.len(),
    ensures
        r is Some <==> pos + ctrl_width(data@[pos as int]) <= data.len(),
        r is Some ==> r->Some_0 == (
            control_of(data@, pos as int),
            (pos + ctrl_width(data@[pos as int])) as usize,
        ),
{
    let avail = data.len() - pos;
    let b0 = data[pos] as usize;
    if b0 < 0x80 {
        if avail < 2 {
            return None;
        }
        let b1 = data[pos + 1] as usize;
        Some(
            (
                Control {
                    range: ControlRange::First,
                    offset_copy: Some(((b0 / 32) * 256 + b1 + 1, b0 / 4 % 8 + 3)),
                    plaintext_copy: Some(b0 % 4),
                },
                pos + 2,
            ),
        )
    } else if b0 < 0xC0 {
        if avail < 3 {
            return None;
        }
        let b1 = data[pos + 1] as usize;
        let b2 = data[pos + 2] as usize;
        Some(
            (
                Control {
                    range: ControlRange::Second,
                    offset_copy: Some((b1 % 64 * 256 + b2 + 1, b0 % 64 + 4)),
                    plaintext_copy: Some(b1 / 64),
                },
                pos + 3,
            ),
        )
    } else if b0 < 0xE0 {
        if avail < 4 {
            return None;
        }
        let b1 = data[pos + 1] as usize;
        let b2 = data[pos + 2] as usize;
        let b3 = data[pos + 3] as usize;
        Some(
            (
                Control {
                    range: ControlRange::Third,
                    offset_copy: Some(
                        (b0 / 16 % 2 * 65536 + b1 * 256 + b2 + 1, b0 / 4 % 4 * 256 + b3 + 5),
                    ),
                    plaintext_copy: Some(b0 % 4),
                },
                pos + 4,
            ),
        )
    } else if b0 < 0xFC {
        Some(
            (
                Control {
                    range: ControlRange::Fourth,
                    offset_copy: None,
                    plaintext_copy: Some(b0 % 32 * 4 + 4),
                },
                pos + 1,
            ),
        )
    } else {
        Some(
            (
                Control { range: ControlRange::Fifth, offset_copy: None, plaintext_copy: Some(b0 % 4) },
                pos + 1,
            ),
        )
    }
}

/// One unfolding of [`qfs_decode`]: what the decoder's next step yields, for
/// every way the control code at `pos` can turn out.
proof fn lemma_qfs_step(comp: Seq<u8>, pos: int, out: Seq<u8>, cap: int)
    requires
        0 <= pos < comp.len(),
    ensures
        ({
            let w = ctrl_width(comp[pos]);
            let c = control_of(comp, pos);
            let lit = c.plaintext_copy->Some_0 as int;
            let out1 = out + comp.subrange(pos + w, pos + w + lit);
            &&& (pos + w > comp.len() ==> qfs_decode(comp, pos, out, cap) == Err::<
                Seq<u8>,
                DecompressionError,
            >(DecompressionError::Truncated))
            &&& (pos + w <= comp.len() && pos + w + lit > comp.len() ==> qfs_decode(
                comp,
                pos,
                out,
                cap,
            ) == Err::<Seq<u8>, DecompressionError>(DecompressionError::Truncated))
            &&& (pos + w + lit <= comp.len() && out.len() + lit > cap ==> qfs_decode(
                comp,
                pos,
                out,
                cap,
            ) == Err::<Seq<u8>, DecompressionError>(DecompressionError::SizeMismatch))
            &&& (pos + w + lit <= comp.len() && out.len() + lit <= cap && c.offset_copy is None
                ==> qfs_decode(comp, pos, out, cap) == qfs_decode(comp, pos + w + lit, out1, cap))
            &&& (pos + w + lit <= comp.len() && out.len() + lit <= cap && c.offset_copy is Some
                ==> {
                let offset = c.offset_copy->Some_0.0 as int;
                let count = c.offset_copy->Some_0.1 as int;
                &&& (offset > out1.len() ==> qfs_decode(comp, pos, out, cap) == Err::<
                    Seq<u8>,
                    DecompressionError,
                >(DecompressionError::OutOfBounds))
                &&& (offset <= out1.len() && out1.len() + count > cap ==> qfs_decode(
                    comp,
                    pos,
                    out,
                    cap,
                ) == Err::<Seq<u8>, DecompressionError>(DecompressionError::SizeMismatch))
                &&& (offset <= out1.len() && out1.len() + count <= cap ==> qfs_decode(
                    comp,
                    pos,
                    out,
                    cap,
                ) == qfs_decode(comp, pos + w + lit, backref_append(out1, offset, count), cap))
            })
        }),
{
    reveal_with_fuel(qfs_decode, 1);
}

/// Appending bytes to a control stream does not disturb the decoding of the
/// part already there: a stream that decodes cleanly keeps decoding the same
/// way, and the appended bytes take over where it ended.
proof fn lemma_qfs_extend(comp: Seq<u8>, pos: int, out: Seq<u8>, cap: int, ext: Seq<u8>)
    requires
        0 <= pos <= comp.len(),
        qfs_decode(comp, pos, out, cap) is Ok,
    ensures
        qfs_decode(comp + ext, pos, out, cap) == qfs_decode(
            comp + ext,
            comp.len() as int,
            qfs_decode(comp, pos, out, cap)->Ok_0,
            cap,
        ),
    decreases comp.len() - pos,
{
    reveal_with_fuel(qfs_decode, 1);
    if pos == comp.len() {
        assert(qfs_decode(comp, pos, out, cap) == Ok::<Seq<u8>, DecompressionError>(out));
    } else {
        let w = ctrl_width(comp[pos]);
        let c = control_of(comp, pos);
        let lit = c.plaintext_copy->Some_0 as int;
        assert(pos + w <= comp.len() && pos + w + lit <= comp.len());
        assert((comp + ext)[pos] == comp[pos]);
        assert(ctrl_width((comp + ext)[pos]) == w);
        assert(control_of(comp + ext, pos) == c) by {
            if w >= 2 {
                assert((comp + ext)[pos + 1] == comp[pos + 1]);
            }
            if w >= 3 {
                assert((comp + ext)[pos + 2] == comp[pos + 2]);
            }
            if w >= 4 {
                assert((comp + ext)[pos + 3] == comp[pos + 3]);
            }
        }
        assert((comp + ext).subrange(pos + w, pos + w + lit) =~= comp.subrange(
            pos + w,
            pos + w + lit,
        ));
        let out1 = out + comp.subrange(pos + w, pos + w + lit);
        match c.offset_copy {
            None => {
                lemma_qfs_extend(comp, pos + w + lit, out1, cap, ext);
            },
            Some(oc) => {
                lemma_qfs_extend(
                    comp,
                    pos + w + lit,
                    backref_append(out1, oc.0 as int, oc.1 as int),
                    cap,
                    ext,
                );
            },
        }
    }
}

/// Appending one literal-only control code and its literal bytes to a stream
/// that decodes cleanly extends the decoded output by exactly those bytes.
proof fn lemma_append_literal_block(comp: Seq<u8>, out: Seq<u8>, cap: int, b0: u8, lits: Seq<u8>)
    requires
        qfs_decode(comp, 0, Seq::empty(), cap) == Ok::<Seq<u8>, DecompressionError>(out),
        b0 >= 0xE0,
        b0 < 0xFC ==> (b0 % 32) * 4 + 4 == lits.len(),
        b0 >= 0xFC ==> b0 % 4 == lits.len(),
        out.len() + lits.len() <= cap,
    ensures
        qfs_decode(comp + (seq![b0] + lits), 0, Seq::empty(), cap) == Ok::<
            Seq<u8>,
            DecompressionError,
        >(out + lits),
{
    let ext = seq![b0] + lits;
    let s = comp + ext;
    let pos = comp.len() as int;
    lemma_qfs_extend(comp, 0, Seq::empty(), cap, ext);
    reveal_with_fuel(qfs_decode, 2);
    assert(s[pos] == b0);
    assert(ctrl_width(b0) == 1);
    assert(control_of(s, pos).plaintext_copy == Some(lits.len() as usize));
    assert(control_of(s, pos).offset_copy is None);
    assert(s.subrange(pos + 1, pos + 1 + lits.len()) =~= lits);
    assert(pos + 1 + lits.len() == s.len());
}


/// Appending any well-formed control code and its literal bytes to a
/// stream that decodes cleanly extends the decoded output by the literals
/// and then by the control's back-reference, when it carries one.
proof fn lemma_append_block(comp: Seq<u8>, out: Seq<u8>, cap: int, c: Control, lits: Seq<u8>)
    requires
        qfs_decode(comp, 0, Seq::empty(), cap) == Ok::<Seq<u8>, DecompressionError>(out),
        c.wf(),
        c.lit_count() == lits.len(),
        match c.offset_copy {
            Some(oc) => oc.0 <= out.len() + lits.len() && out.len() + lits.len() + oc.1 <= cap,
            None => out.len() + lits.len() <= cap,
        },
    ensures
        qfs_decode(comp + (control_bytes(c) + lits), 0, Seq::empty(), cap) == Ok::<
            Seq<u8>,
            DecompressionError,
        >(
            match c.offset_copy {
                Some(oc) => backref_append(out + lits, oc.0 as int, oc.1 as int),
                None => out + lits,
            },
        ),
{
    let cb = control_bytes(c);
    let ext = cb + lits;
    let s = comp + ext;
    let pos = comp.len() as int;
    lemma_qfs_extend(comp, 0, Seq::empty(), cap, ext);
    assert(s.subrange(pos, pos + cb.len()) =~= cb);
    lemma_control_round_trip(c, s, pos);
    reveal_with_fuel(qfs_decode, 2);
    assert(s.subrange(pos + cb.len(), pos + cb.len() + lits.len()) =~= lits);
    assert(pos + cb.len() + lits.len() == s.len());
}

/// A back-reference whose source text equals the text at the scan head
/// reproduces exactly that text: copying `count` bytes from `offset`
/// places back extends the decoded prefix of `s` by the next `count`
/// bytes of `s`.
proof fn lemma_backref_matches_text(s: Seq<u8>, i: int, offset: int, count: int)
    requires
        1 <= offset <= i,
        0 <= count,
        i + count <= s.len(),
        forall|k: int| 0 <= k < count ==> #[trigger] s[i + k] == s[i - offset + k],
    ensures
        backref_append(s.subrange(0, i), offset, count) == s.subrange(0, i + count),
    decreases count,
{
    if count == 0 {
        assert(s.subrange(0, i) =~= s.subrange(0, i + 0));
    } else {
        let pre = s.subrange(0, i);
        assert(pre[i - offset] == s[i - offset]);
        assert(s[i + 0] == s[i - offset + 0]);
        assert(s[i] == s[i - offset]);
        assert(pre.push(s[i]) =~= s.subrange(0, i + 1));
        assert(backref_append(pre, offset, count) == backref_append(
            s.subrange(0, i + 1),
            offset,
            count - 1,
        ));
        assert forall|k: int| 0 <= k < count - 1 implies #[trigger] s[(i + 1) + k] == s[(i + 1)
            - offset + k] by {
            assert(s[i + (k + 1)] == s[i - offset + (k + 1)]);
        }
        lemma_backref_matches_text(s, i + 1, offset, count - 1);
    }
}


/// Searches the window behind the scan head `i` for the longest run of at
/// least three bytes that repeats the text starting at `i`.  The window is
/// kept within the two smallest control ranges' reach, so any offset and
/// length found are encodable; which match is chosen only shortens the
/// stream, never changes what it decodes to.
fn find_match(data: &Vec<u8>, i: usize) -> (r: Option<(usize, usize)>)
    requires
        i < data.len(),
    ensures
        match r {
            Some(m) => {
                &&& 1 <= m.0 <= 1023 && m.0 <= i
                &&& 3 <= m.1 <= 1028
                &&& i + m.1 <= data.len()
                &&& forall|k: int| 0 <= k < m.1 ==> #[trigger] data@[i + k] == data@[i - m.0 + k]
            },
            None => true,
        },
{
    let n = data.len();
    let max_ml: usize = if n - i < 1028 {
        n - i
    } else {
        1028
    };
    let win: usize = if i < 1023 {
        i
    } else {
        1023
    };
    let mut best_off: usize = 0;
    let mut best_ml: usize = 0;
    let mut off: usize = 1;
    while off <= win && best_ml < 128
        invariant
            n == data.len(),
            i < n,
            max_ml <= n - i,
            max_ml <= 1028,
            win <= i,
            win <= 1023,
            1 <= off,
            best_ml == 0 || (1 <= best_off <= win && 3 <= best_ml <= max_ml && forall|k: int|
                0 <= k < best_ml ==> #[trigger] data@[i + k] == data@[i - best_off + k]),
        decreases win + 1 - off,
    {
        let mut ml: usize = 0;
        while ml < max_ml && data[i + ml] == data[i - off + ml]
            invariant
                n == data.len(),
                off <= i,
                1 <= off,
                i + max_ml <= n,
                ml <= max_ml,
                forall|k: int| 0 <= k < ml ==> #[trigger] data@[i + k] == data@[i - off + k],
            decreases max_ml - ml,
        {
            ml = ml + 1;
        }
        if ml >= 3 && ml > best_ml {
            best_off = off;
            best_ml = ml;
        }
        off = off + 1;
    }
    if best_ml >= 3 {
        Some((best_off, best_ml))
    } else {
        None
    }
}

/// Runs the control stream `comp` against an output of exactly `declared`
/// bytes, its buffer reserved once up front; returns the decompressed
/// bytes, or the stream's first failure.  No read ever reaches before the
/// bytes written so far, and the stream must fill the output exactly.
pub fn decompress_stream(comp: &Vec<u8>, declared: usize) -> (r: Result<Vec<u8>, DecompressionError>)
    ensures
        match r {
            Ok(v) => spec_decompress(comp@, declared as int) == Ok::<Seq<u8>, DecompressionError>(
                v@,
            ),
            Err(e) => spec_decompress(comp@, declared as int) == Err::<
                Seq<u8>,
                DecompressionError,
            >(e),
        },
{
    let ghost cap = declared as int;
    let mut out: Vec<u8> = Vec::with_capacity(declared);
    let mut pos: usize = 0;
    while pos < comp.len()
        invariant
            cap == declared as int,
            pos <= comp.len(),
            out.len() <= declared,
            qfs_decode(comp@, pos as int, out@, cap) == qfs_decode(comp@, 0, Seq::empty(), cap),
        decreases comp.len() - pos,
    {
        let ghost pos0 = pos as int;
        let ghost out_before = out@;
        let ghost w = ctrl_width(comp@[pos0]);
        let ghost c = control_of(comp@, pos0);
        proof {
            lemma_qfs_step(comp@, pos0, out_before, cap);
        }
        let (control, next) = match read_control(comp, pos) {
            Some(cn) => cn,
            None => {
                return Err(DecompressionError::Truncated);
            },
        };
        let lit = match control.plaintext_copy {
            Some(n) => n,
            None => 0,
        };
        proof {
            assert(control == c && next == pos0 + w);
            assert(c.plaintext_copy == Some(lit));
        }
        if comp.len() - next < lit {
            return Err(DecompressionError::Truncated);
        }
        if declared - out.len() < lit {
            return Err(DecompressionError::SizeMismatch);
        }
        let mut i: usize = 0;
        while i < lit
            invariant
                i <= lit,
                next + lit <= comp.len(),
                out@ == out_before + comp@.subrange(next as int, next + i),
            decreases lit - i,
        {
            out.push(comp[next + i]);
            proof {
                assert(out@ =~= out_before + comp@.subrange(next as int, next + i + 1));
            }
            i = i + 1;
        }
        let ghost out1 = out@;
        proof {
            assert(out1 =~= out_before + comp@.subrange(pos0 + w, pos0 + w + lit));
        }
        if let Some((offset, count)) = control.offset_copy {
            if offset > out.len() {
                return Err(DecompressionError::OutOfBounds);
            }
            if declared - out.len() < count {
                return Err(DecompressionError::SizeMismatch);
            }
            proof {
                assert(1 <= offset);
            }
            let mut j: usize = 0;
            while j < count
                invariant
                    j <= count,
                    1 <= offset <= out1.len(),
                    out.len() == out1.len() + j,
                    out.len() + (count - j) <= declared,
                    backref_append(out1, offset as int, count as int) == backref_append(
                        out@,
                        offset as int,
                        count - j,
                    ),
                decreases count - j,
            {
                let b = out[out.len() - offset];
                out.push(b);
                j = j + 1;
            }
        }
        pos = next + lit;
    }
    proof {
        reveal_with_fuel(qfs_decode, 1);
        assert(qfs_decode(comp@, pos as int, out@, cap) == Ok::<Seq<u8>, DecompressionError>(out@));
    }
    if out.len() == declared {
        Ok(out)
    } else {
        Err(DecompressionError::SizeMismatch)
    }
}

/// Why a blob could not be built by [`CompressedFile::compress`] or read back
/// by [`CompressedFile::try_from_bytes`].
#[derive(Debug, Clone, Copy, PartialEq, Eq, Structural)]
pub enum CompressionError {
    /// The input already carries the compression magic, so it is taken to be
    /// compressed.
    AlreadyCompressed,
    /// The input is shorter than the six bytes needed to look for the magic.
    TooShort(usize),
    /// The input's length does not fit the 24-bit uncompressed-size field.
    TooLarge(usize),
    /// The bytes do not carry the compression magic.
    NotCompressed,
    /// The bytes end before the header, or before the length the header
    /// declares.
    Truncated,
}

impl CompressionError {
    /// A short description of the failure.
    pub fn message(&self) -> (r: &'static str)
        ensures
            r@.len() > 0,
    {
        let r = match self {
            CompressionError::AlreadyCompressed => "already compressed",
            CompressionError::TooShort(_) => "input is too short; six bytes are the minimum",
            CompressionError::TooLarge(_) => "input does not fit the 24-bit uncompressed-size field",
            CompressionError::NotCompressed => "bytes do not carry the compression magic",
            CompressionError::Truncated => "bytes end before the length the header declares",
        };
        proof {
            reveal_strlit("already compressed");
            reveal_strlit("input is too short; six bytes are the minimum");
            reveal_strlit("input does not fit the 24-bit uncompressed-size field");
            reveal_strlit("bytes do not carry the compression magic");
            reveal_strlit("bytes end before the length the header declares");
        }
        r
    }
}

/// The 9-byte header of a compressed blob: its total stored length (header
/// included, little-endian), then after the big-endian magic `0x10FB` the
/// uncompressed length (24-bit big-endian).
#[derive(Debug, Clone, Copy, PartialEq, Eq, Structural)]
pub struct CompressionHeader {
    pub compressed_size: u32,
    pub uncompressed_size: U24,
}

/// A compressed blob: its header and the control stream that follows it.
#[derive(Debug, Clone, PartialEq, Eq)]
pub struct CompressedFile {
    pub header: CompressionHeader,
    pub data: Vec<u8>,
}

/// Whether `s` carries the compression magic `0x10FB` at byte offset 4.
pub open spec fn has_qfs_magic(s: Seq<u8>) -> bool {
    s.len() >= 6 && spec_u16_be(s, 4) == 0x10FB
}

impl CompressedFile {
    /// The header's sizes agree with the stored stream: the total length is
    /// the stream plus the 9 header bytes, and the uncompressed length fits
    /// its 24-bit field.
    pub open spec fn wf(self) -> bool {
        &&& self.header.compressed_size == self.data@.len() + 9
        &&& self.header.uncompressed_size.wf()
    }

    /// The control stream of the blob.
    pub open spec fn spec_data(self) -> Seq<u8> {
        self.data@
    }

    /// The uncompressed length the blob declares for itself.
    pub fn uncompressed_size(&self) -> (r: u32)
        ensures
            r == self.header.uncompressed_size.0,
    {
        self.header.uncompressed_size.0
    }

    /// Reads an already-compressed blob: the total length, the magic, the
    /// uncompressed length, then exactly `total length - 9` stream bytes.
    /// Bytes past the declared total length are ignored.
    pub fn try_from_bytes(in_vec: &Vec<u8>) -> (r: Result<CompressedFile, CompressionError>)
        ensures
            match r {
                Ok(f) => {
                    &&& f.wf()
                    &&& has_qfs_magic(in_vec@)
                    &&& f.header.compressed_size == spec_u32_le(in_vec@, 0)
                    &&& f.header.uncompressed_size.0 == spec_u24_be(in_vec@, 6)
                    &&& 9 <= f.header.compressed_size <= in_vec.len()
                    &&& f.spec_data() == in_vec@.subrange(9, spec_u32_le(in_vec@, 0))
                },
                Err(CompressionError::TooShort(n)) => n == in_vec.len() && in_vec.len() < 6,
                Err(CompressionError::NotCompressed) => in_vec.len() >= 6 && !has_qfs_magic(
                    in_vec@,
                ),
                Err(CompressionError::Truncated) => {
                    &&& has_qfs_magic(in_vec@)
                    &&& (in_vec.len() < 9 || spec_u32_le(in_vec@, 0) < 9 || spec_u32_le(in_vec@, 0)
                        > in_vec.len())
                },
                _ => false,
            },
{
        let n = in_vec.len();
        if n < 6 {
            return Err(CompressionError::TooShort(n));
        }
        let magic = read_u16_be(in_vec, 4);
        if magic != 0x10FB {
            return Err(CompressionError::NotCompressed);
        }
        if n < 9 {
            return Err(CompressionError::Truncated);
        }
        let compressed_size = read_u32_le(in_vec, 0);
        if compressed_size < 9 || compressed_size as usize > n {
            return Err(CompressionError::Truncated);
        }
        let uncompressed_size = read_u24_be(in_vec, 6);
        let count = compressed_size as usize - 9;
        let mut data: Vec<u8> = Vec::with_capacity(count);
        let mut i: usize = 0;
        while i < count
            invariant
                i <= count,
                count + 9 <= in_vec.len(),
                data@ == in_vec@.subrange(9, 9 + i),
            decreases count - i,
        {
            data.push(in_vec[9 + i]);
            proof {
                assert(data@ =~= in_vec@.subrange(9, 9 + i + 1));
            }
            i = i + 1;
        }
        Ok(CompressedFile { header: CompressionHeader { compressed_size, uncompressed_size }, data })
    }

    /// Compresses `in_vec` into a blob whose decompression provably yields
    /// `in_vec` again.  A bounded window is searched for back-references;
    /// stretches without a usable match are spent as literal runs.  Which
    /// matches are found only shortens the stream: correctness rests on
    /// every emitted block extending the decode by the text it stands for.
    #[verifier::rlimit(60)]
    pub fn compress(in_vec: &Vec<u8>) -> (r: Result<CompressedFile, CompressionError>)
        ensures
            match r {
                Ok(f) => {
                    &&& in_vec.len() >= 6
                    &&& !has_qfs_magic(in_vec@)
                    &&& in_vec.len() < 0x100_0000
                    &&& f.wf()
                    &&& f.header.uncompressed_size.0 == in_vec.len()
                    &&& spec_decompress(f.data@, in_vec.len() as int) == Ok::<
                        Seq<u8>,
                        DecompressionError,
                    >(in_vec@)
                },
                Err(CompressionError::TooShort(n)) => n == in_vec.len() && in_vec.len() < 6,
                Err(CompressionError::AlreadyCompressed) => in_vec.len() >= 6 && has_qfs_magic(
                    in_vec@,
                ),
                Err(CompressionError::TooLarge(n)) => {
                    &&& n == in_vec.len()
                    &&& in_vec.len() >= 0x100_0000
                    &&& !has_qfs_magic(in_vec@)
                },
                _ => false,
            },
    {
        let n = in_vec.len();
        if n < 6 {
            return Err(CompressionError::TooShort(n));
        }
        if read_u16_be(in_vec, 4) == 0x10FB {
            return Err(CompressionError::AlreadyCompressed);
        }
        if n >= 0x100_0000 {
            return Err(CompressionError::TooLarge(n));
        }
        let ghost cap = n as int;
        let mut payload: Vec<u8> = Vec::new();
        let mut lit_start: usize = 0;
        let mut i: usize = 0;
        proof {
            reveal_with_fuel(qfs_decode, 1);
            assert(in_vec@.subrange(0, 0) =~= Seq::<u8>::empty());
        }
        while i < n
            invariant
                lit_start <= i <= n,
                n == in_vec.len(),
                n < 0x100_0000,
                cap == n as int,
                payload.len() <= 3 * lit_start,
                qfs_decode(payload@, 0, Seq::empty(), cap) == Ok::<Seq<u8>, DecompressionError>(
                    in_vec@.subrange(0, lit_start as int),
                ),
            decreases n - i,
        {
            let found = find_match(in_vec, i);
            match found {
                None => {
                    i = i + 1;
                },
                Some((offset, length)) => {
                    lit_start = flush_literal_chunks(in_vec, &mut payload, lit_start, i);
                    let pending = i - lit_start;
                    let control = Control::new(Some((offset, length)), Some(pending));
                    let ghost prev = payload@;
                    write_control(&control, &mut payload);
                    let mut k: usize = 0;
                    while k < pending
                        invariant
                            k <= pending,
                            lit_start + pending <= n,
                            n == in_vec.len(),
                            payload@ == prev + control_bytes(control) + in_vec@.subrange(
                                lit_start as int,
                                lit_start + k,
                            ),
                        decreases pending - k,
                    {
                        payload.push(in_vec[lit_start + k]);
                        proof {
                            assert(payload@ =~= prev + control_bytes(control) + in_vec@.subrange(
                                lit_start as int,
                                lit_start + k + 1,
                            ));
                        }
                        k = k + 1;
                    }
                    proof {
                        let lits = in_vec@.subrange(lit_start as int, i as int);
                        assert(payload@ =~= prev + (control_bytes(control) + lits));
                        lemma_append_block(
                            prev,
                            in_vec@.subrange(0, lit_start as int),
                            cap,
                            control,
                            lits,
                        );
                        assert(in_vec@.subrange(0, lit_start as int) + lits =~= in_vec@.subrange(
                            0,
                            i as int,
                        ));
                        lemma_backref_matches_text(in_vec@, i as int, offset as int, length as int);
                        assert(control_bytes(control).len() <= 4);
                    }
                    i = i + length;
                    lit_start = i;
                },
            }
        }
        lit_start = flush_literal_chunks(in_vec, &mut payload, lit_start, n);
        if lit_start < n {
            let rest = n - lit_start;
            let ctrl = (252 + rest) as u8;
            let ghost prev = payload@;
            payload.push(ctrl);
            let mut k: usize = 0;
            while k < rest
                invariant
                    k <= rest,
                    lit_start + rest == n,
                    n == in_vec.len(),
                    payload@ == prev + seq![ctrl] + in_vec@.subrange(lit_start as int, lit_start
                        + k),
                decreases rest - k,
            {
                payload.push(in_vec[lit_start + k]);
                proof {
                    assert(payload@ =~= prev + seq![ctrl] + in_vec@.subrange(
                        lit_start as int,
                        lit_start + k + 1,
                    ));
                }
                k = k + 1;
            }
            proof {
                let lits = in_vec@.subrange(lit_start as int, n as int);
                assert(payload@ =~= prev + (seq![ctrl] + lits));
                assert((252 + rest) % 4 == rest && 252 + rest >= 252) by (bit_vector)
                    requires
                        1 <= rest <= 3,
                ;
                lemma_append_literal_block(
                    prev,
                    in_vec@.subrange(0, lit_start as int),
                    cap,
                    ctrl,
                    lits,
                );
                assert(in_vec@.subrange(0, lit_start as int) + lits =~= in_vec@.subrange(
                    0,
                    n as int,
                ));
            }
        }
        proof {
            assert(in_vec@.subrange(0, n as int) =~= in_vec@);
        }
        let compressed_size = (payload.len() + 9) as u32;
        Ok(
            CompressedFile {
                header: CompressionHeader { compressed_size, uncompressed_size: U24(n as u32) },
                data: payload,
            },
        )
    }

    /// The blob's encoded bytes: total length little-endian, the magic,
    /// the uncompressed length big-endian, then the control stream.
    pub fn to_bytes(&self) -> (r: Vec<u8>)
        requires
            self.wf(),
        ensures
            r@.len() == self.header.compressed_size,
            spec_u32_le(r@, 0) == self.header.compressed_size,
            spec_u16_be(r@, 4) == 0x10FB,
            spec_u24_be(r@, 6) == self.header.uncompressed_size.0,
            r@.subrange(9, r@.len() as int) == self.data@,
            has_qfs_magic(r@),
    {
        let mut out: Vec<u8> = Vec::new();
        write_u32_le(&mut out, self.header.compressed_size);
        out.push(0x10);
        out.push(0xFB);
        let v = self.header.uncompressed_size.0;
        out.push((v / 0x1_0000 % 0x100) as u8);
        out.push((v / 0x100 % 0x100) as u8);
        out.push((v % 0x100) as u8);
        let mut i: usize = 0;
        let n = self.data.len();
        while i < n
            invariant
                i <= n,
                n == self.data@.len(),
                out@.len() == 9 + i,
                out@.subrange(0, 9) == spec_u32_le_bytes(self.header.compressed_size) + seq![
                    0x10u8,
                    0xFBu8,
                    (self.header.uncompressed_size.0 / 0x1_0000 % 0x100) as u8,
                    (self.header.uncompressed_size.0 / 0x100 % 0x100) as u8,
                    (self.header.uncompressed_size.0 % 0x100) as u8,
                ],
                out@.subrange(9, out@.len() as int) == self.data@.subrange(0, i as int),
            decreases n - i,
        {
            let ghost before = out@;
            out.push(self.data[i]);
            proof {
                assert(forall|q: int| 0 <= q < before.len() ==> out@[q] == #[trigger] before[q]);
                assert(out@.subrange(0, 9) =~= before.subrange(0, 9));
                assert(out@.subrange(9, out@.len() as int) =~= self.data@.subrange(0, i + 1));
            }
            i = i + 1;
        }
        proof {
            assert(self.data@.subrange(0, n as int) =~= self.data@);
            assert(out@.subrange(9, out@.len() as int) =~= self.data@);
            let hdr9 = spec_u32_le_bytes(self.header.compressed_size) + seq![
                0x10u8,
                0xFBu8,
                (self.header.uncompressed_size.0 / 0x1_0000 % 0x100) as u8,
                (self.header.uncompressed_size.0 / 0x100 % 0x100) as u8,
                (self.header.uncompressed_size.0 % 0x100) as u8,
            ];
            assert(out@.subrange(0, 9) == hdr9);
            assert forall|q: int| 0 <= q < 9 implies out@[q] == hdr9[q] by {
                assert(out@.subrange(0, 9)[q] == out@[q]);
            }
            assert(out@.subrange(0, 4) =~= spec_u32_le_bytes(self.header.compressed_size)) by {
                assert forall|q: int| 0 <= q < 4 implies out@.subrange(0, 4)[q]
                    == spec_u32_le_bytes(self.header.compressed_size)[q] by {
                    assert(out@[q] == hdr9[q]);
                }
            }
            lemma_u32_le_bytes_value(out@, 0, self.header.compressed_size);
            assert(out@[4] == hdr9[4] && out@[5] == hdr9[5]);
            assert(out@[6] == hdr9[6] && out@[7] == hdr9[7] && out@[8] == hdr9[8]);
            assert(spec_u24_be(out@, 6) == self.header.uncompressed_size.0);
        }
        out
    }

    /// Decompresses the blob's control stream against the uncompressed
    /// length its own header declares.
    pub fn decompress(&self) -> (r: Result<Vec<u8>, DecompressionError>)
        ensures
            match r {
                Ok(v) => spec_decompress(
                    self.spec_data(),
                    self.header.uncompressed_size.0 as int,
                ) == Ok::<Seq<u8>, DecompressionError>(v@),
                Err(e) => spec_decompress(
                    self.spec_data(),
                    self.header.uncompressed_size.0 as int,
                ) == Err::<Seq<u8>, DecompressionError>(e),
            },
    {
        decompress_stream(&self.data, self.header.uncompressed_size.0 as usize)
    }
}

} // verus!
