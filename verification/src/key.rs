//! The composite key that addresses one resource inside an archive: type
//! code, group id, instance id, and — only in archives whose header enables
//! it — a resource id.  The flag that tells whether the resource id is
//! present comes from the header and governs every key of the archive alike,
//! so it is a parameter of the codec, not of the key.

use vstd::prelude::*;

use crate::bytes::lemma_u32_le_bytes_value;
use crate::bytes::read_u32_le;
use crate::bytes::spec_u32_le;
use crate::bytes::spec_u32_le_bytes;
use crate::bytes::write_u32_le;

verus! {

/// The 32-bit code naming a resource's kind.
#[derive(Debug, Clone, Copy, PartialEq, Eq, Structural, Hash, PartialOrd, Ord)]
pub struct TypeCode(pub u32);

/// The 32-bit group a resource belongs to.
#[derive(Debug, Clone, Copy, PartialEq, Eq, Structural, Hash, PartialOrd, Ord)]
pub struct GroupId(pub u32);

/// The 32-bit instance id of a resource.
#[derive(Debug, Clone, Copy, PartialEq, Eq, Structural, Hash, PartialOrd, Ord)]
pub struct InstanceId(pub u32);

/// The optional high 32 bits of a resource's identity.
#[derive(Debug, Clone, Copy, PartialEq, Eq, Structural, Hash, PartialOrd, Ord)]
pub struct ResourceId(pub u32);

/// One resource's identity.  Two keys are equal only if all present fields
/// agree; a key without a resource id differs from one whose resource id
/// is zero.
#[derive(Debug, Clone, Copy, PartialEq, Eq, Structural, Hash)]
pub struct Key {
    pub kind: TypeCode,
    pub group_id: GroupId,
    pub instance_id: InstanceId,
    pub resource_id: Option<ResourceId>,
}

/// How many bytes one key occupies under the given resource-id flag.
pub open spec fn spec_key_width(has_resource: bool) -> int {
    if has_resource {
        16
    } else {
        12
    }
}

/// The key whose fields sit at byte offset `pos` of `s` under the given
/// resource-id flag.
pub open spec fn spec_read_key(s: Seq<u8>, pos: int, has_resource: bool) -> Key {
    Key {
        kind: TypeCode(spec_u32_le(s, pos) as u32),
        group_id: GroupId(spec_u32_le(s, pos + 4) as u32),
        instance_id: InstanceId(spec_u32_le(s, pos + 8) as u32),
        resource_id: if has_resource {
            Some(ResourceId(spec_u32_le(s, pos + 12) as u32))
        } else {
            None
        },
    }
}

/// The encoded bytes of a key: each present field in order, little-endian.
pub open spec fn spec_key_bytes(k: Key) -> Seq<u8> {
    spec_u32_le_bytes(k.kind.0) + spec_u32_le_bytes(k.group_id.0) + spec_u32_le_bytes(
        k.instance_id.0,
    ) + (match k.resource_id {
        Some(r) => spec_u32_le_bytes(r.0),
        None => Seq::empty(),
    })
}

impl Key {
    /// Builds a key from its fields.
    pub fn new(
        kind: TypeCode,
        group_id: GroupId,
        instance_id: InstanceId,
        resource_id: Option<ResourceId>,
    ) -> (r: Key)
        ensures
            r == (Key { kind, group_id, instance_id, resource_id }),
    {
        Key { kind, group_id, instance_id, resource_id }
    }

    /// The key's field layout agrees with the archive-wide resource-id flag.
    pub open spec fn matches_flag(self, has_resource: bool) -> bool {
        self.resource_id is Some <==> has_resource
    }
}

/// Reads the key at byte offset `pos` of `data` under the given resource-id
/// flag, returning it with the offset of the first byte after it; `None`
/// when the stream ends inside the key.
pub fn read_key(data: &Vec<u8>, pos: usize, has_resource: bool) -> (r: Option<(Key, usize)>)
    ensures
        r is Some <==> pos + spec_key_width(has_resource) <= data.len(),
        r is Some ==> r->Some_0 == (
            spec_read_key(data@, pos as int, has_resource),
            (pos + spec_key_width(has_resource)) as usize,
        ),
{
    let width: usize = if has_resource {
        16
    } else {
        12
    };
    if data.len() < width || pos > data.len() - width {
        return None;
    }
    let kind = TypeCode(read_u32_le(data, pos));
    let group_id = GroupId(read_u32_le(data, pos + 4));
    let instance_id = InstanceId(read_u32_le(data, pos + 8));
    let resource_id = if has_resource {
        Some(ResourceId(read_u32_le(data, pos + 12)))
    } else {
        None
    };
    Some((Key { kind, group_id, instance_id, resource_id }, pos + width))
}

/// Appends the encoded bytes of `key` to `out`; the resource id is written
/// exactly when the key carries one.
pub fn write_key(key: &Key, out: &mut Vec<u8>)
    ensures
        final(out)@ == old(out)@ + spec_key_bytes(*key),
{
    write_u32_le(out, key.kind.0);
    write_u32_le(out, key.group_id.0);
    write_u32_le(out, key.instance_id.0);
    if let Some(r) = key.resource_id {
        write_u32_le(out, r.0);
    }
    proof {
        assert(final(out)@ =~= old(out)@ + spec_key_bytes(*key));
    }
}

/// Encoding a key and decoding it under the same resource-id flag yields the
/// key again, wherever in a stream its bytes sit.  This holds for every type
/// code, group id, instance id and optional resource id, and for both values
/// of the flag.
pub proof fn lemma_key_round_trip(k: Key, s: Seq<u8>, pos: int, has_resource: bool)
    requires
        k.matches_flag(has_resource),
        0 <= pos,
        pos + spec_key_width(has_resource) <= s.len(),
        s.subrange(pos, pos + spec_key_width(has_resource)) == spec_key_bytes(k),
    ensures
        spec_read_key(s, pos, has_resource) == k,
{
    let w = spec_key_width(has_resource);
    let kb = spec_key_bytes(k);
    assert(forall|j: int| 0 <= j < w ==> s[pos + j] == #[trigger] kb[j]) by {
        assert(forall|j: int| 0 <= j < w ==> s.subrange(pos, pos + w)[j] == #[trigger] kb[j]);
    }
    assert(s.subrange(pos, pos + 4) =~= spec_u32_le_bytes(k.kind.0)) by {
        assert forall|j: int| 0 <= j < 4 implies s.subrange(pos, pos + 4)[j] == spec_u32_le_bytes(
            k.kind.0,
        )[j] by {
            assert(kb[j] == spec_u32_le_bytes(k.kind.0)[j]);
        }
    }
    lemma_u32_le_bytes_value(s, pos, k.kind.0);
    assert(s.subrange(pos + 4, pos + 8) =~= spec_u32_le_bytes(k.group_id.0)) by {
        assert forall|j: int| 0 <= j < 4 implies s.subrange(pos + 4, pos + 8)[j]
            == spec_u32_le_bytes(k.group_id.0)[j] by {
            assert(kb[4 + j] == spec_u32_le_bytes(k.group_id.0)[j]);
            assert(s[pos + (4 + j)] == kb[4 + j]);
        }
    }
    lemma_u32_le_bytes_value(s, pos + 4, k.group_id.0);
    assert(s.subrange(pos + 8, pos + 12) =~= spec_u32_le_bytes(k.instance_id.0)) by {
        assert forall|j: int| 0 <= j < 4 implies s.subrange(pos + 8, pos + 12)[j]
            == spec_u32_le_bytes(k.instance_id.0)[j] by {
            assert(kb[8 + j] == spec_u32_le_bytes(k.instance_id.0)[j]);
            assert(s[pos + (8 + j)] == kb[8 + j]);
        }
    }
    lemma_u32_le_bytes_value(s, pos + 8, k.instance_id.0);
    if has_resource {
        let r = k.resource_id->Some_0.0;
        assert(s.subrange(pos + 12, pos + 16) =~= spec_u32_le_bytes(r)) by {
            assert forall|j: int| 0 <= j < 4 implies s.subrange(pos + 12, pos + 16)[j]
                == spec_u32_le_bytes(r)[j] by {
                assert(kb[12 + j] == spec_u32_le_bytes(r)[j]);
                assert(s[pos + (12 + j)] == kb[12 + j]);
            }
        }
        lemma_u32_le_bytes_value(s, pos + 12, r);
    }
}

} // verus!
