//! Properties of the store that relate several operations.
use vstd::prelude::*;

use crate::assoc::{assoc_map, lemma_assoc_dom, lemma_assoc_len, lemma_assoc_value, unique_keys};
use crate::payload::payload_map;
use crate::contract::{
    add_device_step, create_registry_step, data_param_reply, delete_device_step,
    delete_registry_step, has_device, may_modify, metadata_param_reply, set_data_param_step,
    set_data_step, set_metadata_param_step, set_metadata_step, StoreModel,
};
use crate::storage_key::{
    data_partition_material, data_tag, device_partition_material, metadata_partition_material,
    metadata_tag, registry_partition_material, separator,
};
use vstd::utf8::{encode_scalar, encode_utf8, encode_utf8_decode_utf8};

verus! {

/// Creating a free registry name succeeds, and creating it again, by anyone,
/// fails and changes nothing: the registry keeps its first owner.
pub proof fn create_registry_twice(
    s: StoreModel,
    first: Seq<char>,
    second: Seq<char>,
    name: Seq<char>,
)
    requires
        !s.contains_key(name),
    ensures
        create_registry_step(s, first, name).1,
        create_registry_step(s, first, name).0[name].owner == first,
        create_registry_step(create_registry_step(s, first, name).0, second, name) == (
            create_registry_step(s, first, name).0,
            false,
        ),
{
}

/// Every mutating operation on a registry by an account that does not own it
/// fails and leaves the store as it was.
pub proof fn non_owner_changes_nothing(
    s: StoreModel,
    caller: Seq<char>,
    reg: Seq<char>,
    dev: Seq<char>,
    desc: Seq<char>,
    key: Seq<char>,
    value: Seq<char>,
    pairs: Map<Seq<char>, Seq<char>>,
)
    requires
        s.contains_key(reg),
        s[reg].owner != caller,
    ensures
        create_registry_step(s, caller, reg) == (s, false),
        delete_registry_step(s, caller, reg) == (s, false),
        add_device_step(s, caller, reg, dev, desc) == (s, false),
        delete_device_step(s, caller, reg, dev) == (s, false),
        set_data_step(s, caller, reg, dev, pairs) == (s, false),
        set_metadata_step(s, caller, reg, dev, pairs) == (s, false),
        set_data_param_step(s, caller, reg, dev, key, value) == (s, false),
        set_metadata_param_step(s, caller, reg, dev, key, value) == (s, false),
{
}

/// Once the owner sets a data value of an existing device, reading that
/// value gives back exactly what was set.
pub proof fn data_param_round_trip(
    s: StoreModel,
    caller: Seq<char>,
    reg: Seq<char>,
    dev: Seq<char>,
    key: Seq<char>,
    value: Seq<char>,
)
    requires
        may_modify(s, caller, reg),
        has_device(s, reg, dev),
    ensures
        set_data_param_step(s, caller, reg, dev, key, value).1,
        has_device(set_data_param_step(s, caller, reg, dev, key, value).0, reg, dev),
        set_data_param_step(s, caller, reg, dev, key, value).0[reg].devices[dev].data.contains_key(
            key,
        ),
        data_param_reply(set_data_param_step(s, caller, reg, dev, key, value).0, reg, dev, key)
            == value,
{
}

/// Once the owner sets a metadata value of an existing device, reading that
/// value gives back exactly what was set.
pub proof fn metadata_param_round_trip(
    s: StoreModel,
    caller: Seq<char>,
    reg: Seq<char>,
    dev: Seq<char>,
    key: Seq<char>,
    value: Seq<char>,
)
    requires
        may_modify(s, caller, reg),
        has_device(s, reg, dev),
    ensures
        set_metadata_param_step(s, caller, reg, dev, key, value).1,
        has_device(set_metadata_param_step(s, caller, reg, dev, key, value).0, reg, dev),
        set_metadata_param_step(
            s,
            caller,
            reg,
            dev,
            key,
            value,
        ).0[reg].devices[dev].metadata.contains_key(key),
        metadata_param_reply(
            set_metadata_param_step(s, caller, reg, dev, key, value).0,
            reg,
            dev,
            key,
        ) == value,
{
}

/// Two bulk data updates by the owner merge: keys set by the first and not by
/// the second keep the first's values, keys set by the second take its
/// values, and all other keys keep theirs.
pub proof fn data_updates_merge(
    s: StoreModel,
    caller: Seq<char>,
    reg: Seq<char>,
    dev: Seq<char>,
    first: Map<Seq<char>, Seq<char>>,
    second: Map<Seq<char>, Seq<char>>,
)
    requires
        may_modify(s, caller, reg),
        has_device(s, reg, dev),
    ensures
        ({
            let s2 = set_data_step(set_data_step(s, caller, reg, dev, first).0, caller, reg, dev, second).0;
            &&& has_device(s2, reg, dev)
            &&& s2[reg].devices[dev].data == s[reg].devices[dev].data.union_prefer_right(
                first,
            ).union_prefer_right(second)
            &&& forall|k: Seq<char>|
                first.contains_key(k) && !second.contains_key(k) ==> #[trigger] s2[reg].devices[dev].data.contains_key(k)
                    && s2[reg].devices[dev].data[k] == first[k]
            &&& forall|k: Seq<char>|
                second.contains_key(k) ==> #[trigger] s2[reg].devices[dev].data.contains_key(k)
                    && s2[reg].devices[dev].data[k] == second[k]
        }),
{
}

/// Two bulk data writes with JSON payloads merge: a key that only the first
/// payload names keeps the first payload's value, and a key that the second
/// names takes the second's value.
pub proof fn payload_updates_merge(
    s: StoreModel,
    caller: Seq<char>,
    reg: Seq<char>,
    dev: Seq<char>,
    first: Seq<char>,
    second: Seq<char>,
)
    requires
        may_modify(s, caller, reg),
        has_device(s, reg, dev),
    ensures
        ({
            let s2 = set_data_step(
                set_data_step(s, caller, reg, dev, payload_map(first)).0,
                caller,
                reg,
                dev,
                payload_map(second),
            ).0;
            &&& forall|k: Seq<char>|
                payload_map(first).contains_key(k) && !payload_map(second).contains_key(k)
                    ==> #[trigger] s2[reg].devices[dev].data.contains_key(k)
                    && s2[reg].devices[dev].data[k] == payload_map(first)[k]
            &&& forall|k: Seq<char>|
                payload_map(second).contains_key(k) ==> #[trigger] s2[reg].devices[dev].data.contains_key(k)
                    && s2[reg].devices[dev].data[k] == payload_map(second)[k]
        }),
{
    data_updates_merge(s, caller, reg, dev, payload_map(first), payload_map(second));
}

/// A write to a device of one registry leaves the device of the same name in
/// another registry exactly as it was, whatever the write returns.
pub proof fn namesake_device_untouched(
    s: StoreModel,
    caller: Seq<char>,
    reg: Seq<char>,
    other: Seq<char>,
    dev: Seq<char>,
    desc: Seq<char>,
    key: Seq<char>,
    value: Seq<char>,
    payload: Seq<char>,
)
    requires
        reg != other,
        has_device(s, other, dev),
    ensures
        ({
            let d = s[other].devices[dev];
            &&& has_device(set_data_step(s, caller, reg, dev, payload_map(payload)).0, other, dev)
            &&& set_data_step(s, caller, reg, dev, payload_map(payload)).0[other].devices[dev] == d
            &&& has_device(set_metadata_step(s, caller, reg, dev, payload_map(payload)).0, other, dev)
            &&& set_metadata_step(s, caller, reg, dev, payload_map(payload)).0[other].devices[dev]
                == d
            &&& has_device(set_data_param_step(s, caller, reg, dev, key, value).0, other, dev)
            &&& set_data_param_step(s, caller, reg, dev, key, value).0[other].devices[dev] == d
            &&& has_device(set_metadata_param_step(s, caller, reg, dev, key, value).0, other, dev)
            &&& set_metadata_param_step(s, caller, reg, dev, key, value).0[other].devices[dev] == d
            &&& has_device(add_device_step(s, caller, reg, dev, desc).0, other, dev)
            &&& add_device_step(s, caller, reg, dev, desc).0[other].devices[dev] == d
            &&& has_device(delete_device_step(s, caller, reg, dev).0, other, dev)
            &&& delete_device_step(s, caller, reg, dev).0[other].devices[dev] == d
        }),
{
}

/// Two reads that return pairs with unique keys denoting the same map list
/// the same pairs, each once: one is a reordering of the other.
pub proof fn same_map_reads_list_same_pairs(
    a: Seq<(Seq<char>, Seq<char>)>,
    b: Seq<(Seq<char>, Seq<char>)>,
)
    requires
        unique_keys(a),
        unique_keys(b),
        assoc_map(a) == assoc_map(b),
    ensures
        a.len() == b.len(),
        forall|p: (Seq<char>, Seq<char>)| a.contains(p) <==> b.contains(p),
{
    lemma_assoc_len(a);
    lemma_assoc_len(b);
    assert forall|p: (Seq<char>, Seq<char>)| a.contains(p) implies b.contains(p) by {
        lemma_contains_pair(a, b, p);
    }
    assert forall|p: (Seq<char>, Seq<char>)| b.contains(p) implies a.contains(p) by {
        lemma_contains_pair(b, a, p);
    }
}

/// A pair of `a` is a pair of `b` where both have unique keys and denote the
/// same map.
proof fn lemma_contains_pair<K, V>(a: Seq<(K, V)>, b: Seq<(K, V)>, p: (K, V))
    requires
        unique_keys(a),
        unique_keys(b),
        assoc_map(a) == assoc_map(b),
        a.contains(p),
    ensures
        b.contains(p),
{
    let i = choose|i: int| 0 <= i < a.len() && a[i] == p;
    lemma_assoc_value(a, i);
    lemma_assoc_dom(b, p.0);
    let j = choose|j: int| 0 <= j < b.len() && #[trigger] b[j].0 == p.0;
    lemma_assoc_value(b, j);
    assert(b[j] == p);
}

/// Writes to a device of one registry leave every other registry, and so
/// every device of the same name elsewhere, exactly as it was.
pub proof fn writes_stay_in_their_registry(
    s: StoreModel,
    caller: Seq<char>,
    reg: Seq<char>,
    dev: Seq<char>,
    desc: Seq<char>,
    key: Seq<char>,
    value: Seq<char>,
    pairs: Map<Seq<char>, Seq<char>>,
)
    ensures
        add_device_step(s, caller, reg, dev, desc).0.remove(reg) == s.remove(reg),
        delete_device_step(s, caller, reg, dev).0.remove(reg) == s.remove(reg),
        set_data_step(s, caller, reg, dev, pairs).0.remove(reg) == s.remove(reg),
        set_metadata_step(s, caller, reg, dev, pairs).0.remove(reg) == s.remove(reg),
        set_data_param_step(s, caller, reg, dev, key, value).0.remove(reg) == s.remove(reg),
        set_metadata_param_step(s, caller, reg, dev, key, value).0.remove(reg) == s.remove(reg),
{
    assert(add_device_step(s, caller, reg, dev, desc).0.remove(reg) =~= s.remove(reg));
    assert(delete_device_step(s, caller, reg, dev).0.remove(reg) =~= s.remove(reg));
    assert(set_data_step(s, caller, reg, dev, pairs).0.remove(reg) =~= s.remove(reg));
    assert(set_metadata_step(s, caller, reg, dev, pairs).0.remove(reg) =~= s.remove(reg));
    assert(set_data_param_step(s, caller, reg, dev, key, value).0.remove(reg) =~= s.remove(reg));
    assert(set_metadata_param_step(s, caller, reg, dev, key, value).0.remove(reg) =~= s.remove(
        reg,
    ));
}

/// Partition key material never repeats: two device partitions of one kind
/// share their material only for the same registry and device, partitions of
/// different kinds never share it, and a registry's device partition is its
/// own.
pub proof fn partition_material_is_unique(
    reg: Seq<char>,
    dev: Seq<char>,
    other_reg: Seq<char>,
    other_dev: Seq<char>,
)
    ensures
        metadata_partition_material(reg, dev) == metadata_partition_material(other_reg, other_dev)
            ==> reg == other_reg && dev == other_dev,
        data_partition_material(reg, dev) == data_partition_material(other_reg, other_dev) ==> reg
            == other_reg && dev == other_dev,
        registry_partition_material(reg) == registry_partition_material(other_reg) ==> reg
            == other_reg,
        metadata_partition_material(reg, dev) != data_partition_material(other_reg, other_dev),
        metadata_partition_material(reg, dev) != registry_partition_material(other_reg),
        data_partition_material(reg, dev) != registry_partition_material(other_reg),
{
    if metadata_partition_material(reg, dev) == metadata_partition_material(other_reg, other_dev) {
        lemma_device_material_injective(metadata_tag(), reg, dev, other_reg, other_dev);
    }
    if data_partition_material(reg, dev) == data_partition_material(other_reg, other_dev) {
        lemma_device_material_injective(data_tag(), reg, dev, other_reg, other_dev);
    }
    if registry_partition_material(reg) == registry_partition_material(other_reg) {
        let a = encode_utf8(reg);
        let b = encode_utf8(other_reg);
        let m = registry_partition_material(reg);
        assert(a =~= m.subrange(3, m.len() as int));
        assert(b =~= m.subrange(3, m.len() as int));
        encode_utf8_decode_utf8(reg);
        encode_utf8_decode_utf8(other_reg);
    }
    assert(metadata_partition_material(reg, dev)[0] == 0x6du8);
    assert(data_partition_material(other_reg, other_dev)[0] == 0x64u8);
    assert(data_partition_material(reg, dev)[0] == 0x64u8);
    assert(registry_partition_material(other_reg)[0] == 0x72u8);
}

/// Device key material under one tag determines both names.
proof fn lemma_device_material_injective(
    tag: Seq<u8>,
    reg: Seq<char>,
    dev: Seq<char>,
    other_reg: Seq<char>,
    other_dev: Seq<char>,
)
    requires
        device_partition_material(tag, reg, dev) == device_partition_material(
            tag,
            other_reg,
            other_dev,
        ),
    ensures
        reg == other_reg,
        dev == other_dev,
{
    let x = device_partition_material(tag, reg, dev);
    let y = device_partition_material(tag, other_reg, other_dev);
    let (e1, e2) = (encode_utf8(reg), encode_utf8(other_reg));
    let (f1, f2) = (encode_utf8(dev), encode_utf8(other_dev));
    let t = tag.len() as int;
    lemma_utf8_avoids_separator(reg);
    lemma_utf8_avoids_separator(other_reg);
    if e1.len() < e2.len() {
        assert(x[t + e1.len()] == separator());
        assert(y[t + e1.len()] == e2[e1.len() as int]);
    }
    if e2.len() < e1.len() {
        assert(y[t + e2.len()] == separator());
        assert(x[t + e2.len()] == e1[e2.len() as int]);
    }
    assert(e1.len() == e2.len());
    assert(e1 =~= x.subrange(t, t + e1.len()));
    assert(e2 =~= y.subrange(t, t + e2.len()));
    assert(f1 =~= x.subrange(t + e1.len() + 1, x.len() as int));
    assert(f2 =~= y.subrange(t + e2.len() + 1, y.len() as int));
    encode_utf8_decode_utf8(reg);
    encode_utf8_decode_utf8(other_reg);
    encode_utf8_decode_utf8(dev);
    encode_utf8_decode_utf8(other_dev);
}

/// No byte of a UTF-8 encoding is the separator.
pub proof fn lemma_utf8_avoids_separator(chars: Seq<char>)
    ensures
        forall|i: int|
            0 <= i < encode_utf8(chars).len() ==> #[trigger] encode_utf8(chars)[i] != separator(),
    decreases chars.len(),
{
    if chars.len() > 0 {
        let head = encode_scalar(chars[0] as u32);
        let rest = encode_utf8(chars.drop_first());
        lemma_utf8_avoids_separator(chars.drop_first());
        lemma_scalar_bytes(chars[0] as u32);
        assert(encode_utf8(chars) == head + rest);
        assert forall|i: int| 0 <= i < head.len() implies #[trigger] head[i] != separator() by {}
        assert forall|i: int| 0 <= i < encode_utf8(chars).len() implies #[trigger] encode_utf8(
            chars,
        )[i] != separator() by {
            if i < head.len() {
                assert(encode_utf8(chars)[i] == head[i]);
            } else {
                assert(encode_utf8(chars)[i] == rest[i - head.len()]);
            }
        }
    }
}

/// Every byte that UTF-8 writes for a scalar lies below the separator.
proof fn lemma_scalar_bytes(s: u32)
    ensures
        ((s & 0x7F) as u8) != 0xffu8,
        (0xC0u8 | ((s >> 6u32) & 0x1F) as u8) != 0xffu8,
        (0xE0u8 | ((s >> 12u32) & 0x0F) as u8) != 0xffu8,
        (0xF0u8 | ((s >> 18u32) & 0x7) as u8) != 0xffu8,
        (0x80u8 | (s & 0x3F) as u8) != 0xffu8,
        (0x80u8 | ((s >> 6u32) & 0x3F) as u8) != 0xffu8,
        (0x80u8 | ((s >> 12u32) & 0x3F) as u8) != 0xffu8,
{
    assert(((s & 0x7F) as u8) != 0xffu8) by (bit_vector);
    assert((0xC0u8 | ((s >> 6u32) & 0x1F) as u8) != 0xffu8) by (bit_vector);
    assert((0xE0u8 | ((s >> 12u32) & 0x0F) as u8) != 0xffu8) by (bit_vector);
    assert((0xF0u8 | ((s >> 18u32) & 0x7) as u8) != 0xffu8) by (bit_vector);
    assert((0x80u8 | (s & 0x3F) as u8) != 0xffu8) by (bit_vector);
    assert((0x80u8 | ((s >> 6u32) & 0x3F) as u8) != 0xffu8) by (bit_vector);
    assert((0x80u8 | ((s >> 12u32) & 0x3F) as u8) != 0xffu8) by (bit_vector);
}

} // verus!
