//! The decoder's global guarantees, stated and proved once: referential
//! integrity of a well-formed decode, and the two encoding round trips.

use vstd::prelude::*;
use vstd::arithmetic::power2::pow2;
use vstd::utf8::decode_utf8;
use crate::error::DecodeError;
use crate::heap::spec_string_heap;
use crate::metadata::Metadata;
use crate::reader::{find_nul, spec_compressed, spec_compressed_encode, CompressedUint};
use crate::stream::{spec_count, TableId};
use crate::tables::{custom_attribute_type_wf, guid_ok, has_custom_attribute_wf, heap_ok, idx_ok,
    member_ref_parent_wf, resolution_scope_wf, type_def_or_ref_wf};

verus! {

/// Entries of a string-heap scan survive the rest of the scan: the keys
/// added later are the offsets still to be consumed, all larger.
proof fn lemma_string_heap_preserves(
    d: Seq<u8>,
    pos: int,
    consumed: int,
    size: int,
    acc: Map<u32, Seq<char>>,
    k: u32,
)
    requires
        acc.contains_key(k),
        k < consumed,
        size <= u32::MAX,
        spec_string_heap(d, pos, consumed, size, acc) is Ok,
    ensures
        spec_string_heap(d, pos, consumed, size, acc)->Ok_0.contains_key(k),
        spec_string_heap(d, pos, consumed, size, acc)->Ok_0[k] == acc[k],
    decreases crate::heap::heap_remaining(size, consumed),
{
    if consumed >= size {
    } else {
        let e = find_nul(d, pos);
        let b = d.subrange(pos, e);
        lemma_string_heap_preserves(
            d,
            e + 1,
            consumed + (e - pos) + 1,
            size,
            acc.insert(consumed as u32, decode_utf8(b)),
            k,
        );
    }
}

/// A non-empty `#Strings` heap always defines offset zero, and offset
/// zero holds the empty string whenever the scan starts on the NUL byte
/// the format requires there.
pub proof fn lemma_string_heap_offset_zero(d: Seq<u8>, pos: int, size: int)
    requires
        0 <= pos < d.len(),
        0 < size <= u32::MAX,
        spec_string_heap(d, pos, 0, size, Map::empty()) is Ok,
    ensures
        spec_string_heap(d, pos, 0, size, Map::empty())->Ok_0.contains_key(0),
        d[pos] == 0 ==> spec_string_heap(d, pos, 0, size, Map::empty())->Ok_0[0] == Seq::<
            char,
        >::empty(),
{
    let e = find_nul(d, pos);
    let b = d.subrange(pos, e);
    let acc1 = Map::<u32, Seq<char>>::empty().insert(0, decode_utf8(b));
    lemma_string_heap_preserves(d, e + 1, (e - pos) + 1, size, acc1, 0);
    if d[pos] == 0 {
        assert(e == pos);
        assert(b =~= Seq::<u8>::empty());
        assert(decode_utf8(b) =~= Seq::<char>::empty());
    }
}

/// Every simple table index stored in any decoded row is null or at most
/// the row count of its target table; for the tables held here that count
/// is exactly the number of rows.
pub proof fn lemma_simple_indices_in_range(m: Metadata)
    requires
        m.wf(),
    ensures
        forall|i: int|
            0 <= i < m.tables@.type_defs.len() ==> idx_ok(
                (#[trigger] m.tables@.type_defs[i]).fields.0,
                spec_count(m.row_counts@, TableId::Field),
            ),
        forall|i: int|
            0 <= i < m.tables@.type_defs.len() ==> idx_ok(
                (#[trigger] m.tables@.type_defs[i]).methods.0,
                m.tables@.method_defs.len() as u32,
            ),
        forall|i: int|
            0 <= i < m.tables@.method_defs.len() ==> idx_ok(
                (#[trigger] m.tables@.method_defs[i]).param_list.0,
                m.tables@.params.len() as u32,
            ),
{
}

/// Every heap index stored in any decoded row is null or strictly inside
/// the target heap extent (for the GUID heap: its sixteen bytes fit).
pub proof fn lemma_heap_indices_in_range(m: Metadata)
    requires
        m.wf(),
    ensures
        forall|i: int|
            0 <= i < m.tables@.modules.len() ==> {
                let row = #[trigger] m.tables@.modules[i];
                &&& heap_ok(row.name.0, m.extents().string_size)
                &&& guid_ok(row.mv_id.0, m.extents().guid_size)
                &&& guid_ok(row.enc_id.0, m.extents().guid_size)
                &&& guid_ok(row.enc_base_id.0, m.extents().guid_size)
                &&& row.mv_id.0 == 0 || row.mv_id.0 < m.extents().guid_size
            },
        forall|i: int|
            0 <= i < m.tables@.type_refs.len() ==> {
                let row = #[trigger] m.tables@.type_refs[i];
                &&& heap_ok(row.name.0, m.extents().string_size)
                &&& heap_ok(row.namespace.0, m.extents().string_size)
            },
        forall|i: int|
            0 <= i < m.tables@.type_defs.len() ==> {
                let row = #[trigger] m.tables@.type_defs[i];
                &&& heap_ok(row.name.0, m.extents().string_size)
                &&& heap_ok(row.namespace.0, m.extents().string_size)
            },
        forall|i: int|
            0 <= i < m.tables@.method_defs.len() ==> {
                let row = #[trigger] m.tables@.method_defs[i];
                &&& heap_ok(row.name.0, m.extents().string_size)
                &&& heap_ok(row.signature.0, m.extents().blob_size)
            },
        forall|i: int|
            0 <= i < m.tables@.params.len() ==> heap_ok(
                (#[trigger] m.tables@.params[i]).name.0,
                m.extents().string_size,
            ),
        forall|i: int|
            0 <= i < m.tables@.member_refs.len() ==> {
                let row = #[trigger] m.tables@.member_refs[i];
                &&& heap_ok(row.name.0, m.extents().string_size)
                &&& heap_ok(row.signature.0, m.extents().blob_size)
            },
        forall|i: int|
            0 <= i < m.tables@.custom_attributes.len() ==> heap_ok(
                (#[trigger] m.tables@.custom_attributes[i]).value.0,
                m.extents().blob_size,
            ),
        forall|i: int|
            0 <= i < m.tables@.type_specs.len() ==> heap_ok(
                (#[trigger] m.tables@.type_specs[i]).signature.0,
                m.extents().blob_size,
            ),
        forall|i: int|
            0 <= i < m.tables@.assemblies.len() ==> {
                let row = #[trigger] m.tables@.assemblies[i];
                &&& heap_ok(row.public_key.0, m.extents().blob_size)
                &&& heap_ok(row.name.0, m.extents().string_size)
                &&& heap_ok(row.culture.0, m.extents().string_size)
            },
        forall|i: int|
            0 <= i < m.tables@.assembly_refs.len() ==> {
                let row = #[trigger] m.tables@.assembly_refs[i];
                &&& heap_ok(row.public_key_or_token.0, m.extents().blob_size)
                &&& heap_ok(row.name.0, m.extents().string_size)
                &&& heap_ok(row.culture.0, m.extents().string_size)
                &&& heap_ok(row.hash_value.0, m.extents().blob_size)
            },
{
}

/// Every composite index stored in any decoded row carries a defined
/// target, and its row number is valid for that target table.
pub proof fn lemma_composite_indices_valid(m: Metadata)
    requires
        m.wf(),
    ensures
        forall|i: int|
            0 <= i < m.tables@.type_refs.len() ==> resolution_scope_wf(
                (#[trigger] m.tables@.type_refs[i]).resolution_scope,
                m.row_counts@,
            ),
        forall|i: int|
            0 <= i < m.tables@.type_defs.len() ==> type_def_or_ref_wf(
                (#[trigger] m.tables@.type_defs[i]).extends,
                m.row_counts@,
            ),
        forall|i: int|
            0 <= i < m.tables@.member_refs.len() ==> member_ref_parent_wf(
                (#[trigger] m.tables@.member_refs[i]).class,
                m.row_counts@,
            ),
        forall|i: int|
            0 <= i < m.tables@.custom_attributes.len() ==> {
                let row = #[trigger] m.tables@.custom_attributes[i];
                &&& has_custom_attribute_wf(row.parent, m.row_counts@)
                &&& custom_attribute_type_wf(row.constructor, m.row_counts@)
            },
{
}

/// Width selection for composite indices: a tagged index occupies four
/// bytes exactly when the largest target row count exceeds what a word
/// can carry beside the tag bits, and two bytes otherwise.
pub proof fn lemma_composite_width(d: Seq<u8>, pos: int, bits: int, row_count: u32)
    requires
        1 <= bits <= 8,
    ensures
        crate::tables::spec_tagged(d, pos, bits, row_count) matches Ok((ti, p)) ==> {
            &&& (p - pos == 4 <==> row_count > pow2((16 - bits) as nat) - 1)
            &&& (p - pos == 2 || p - pos == 4)
        },
{
}

/// Round trip of the composite encoding: packing a row number above a tag
/// and splitting the raw value by the tagged-index rule yields the pair
/// back, for every tag width the format uses.
pub proof fn lemma_composite_round_trip(tag: u32, index: u32, bits: u32)
    requires
        1 <= bits <= 8,
        tag < (1u32 << bits),
        index <= (u32::MAX >> bits),
    ensures
        ((index << bits) | tag) % (1u32 << bits) == tag,
        ((index << bits) | tag) / (1u32 << bits) == index,
        ((index << bits) | tag) as int % pow2(bits as nat) as int == tag,
        ((index << bits) | tag) as int / pow2(bits as nat) as int == index,
{
    assert(((index << bits) | tag) % (1u32 << bits) == tag && ((index << bits) | tag) / (1u32
        << bits) == index) by (bit_vector)
        requires
            1 <= bits <= 8,
            tag < (1u32 << bits),
            index <= (u32::MAX >> bits),
    ;
    vstd::bits::lemma_u32_pow2_no_overflow(bits as nat);
    vstd::bits::lemma_u32_shl_is_mul(1u32, bits);
    vstd::arithmetic::power2::lemma_pow2_pos(bits as nat);
}

/// Round trip of the compressed unsigned encoding: decoding the canonical
/// encoding of any value below `2^29` yields the value back, and the
/// encoded size switches from one to two bytes above 127 and from two to
/// four above 16383.
pub proof fn lemma_compressed_round_trip(v: u32)
    requires
        v < 0x20000000,
    ensures
        spec_compressed(spec_compressed_encode(v), 0) == Ok::<(CompressedUint, int), DecodeError>(
            (
                CompressedUint {
                    value: v,
                    compressed_size: if v <= 127 {
                        1
                    } else if v <= 16383 {
                        2
                    } else {
                        4
                    },
                },
                if v <= 127 {
                    1int
                } else if v <= 16383 {
                    2
                } else {
                    4
                },
            ),
        ),
{
    let e = spec_compressed_encode(v);
    if v < 0x80 {
    } else if v < 0x4000 {
        vstd::arithmetic::div_mod::lemma_fundamental_div_mod(v as int, 0x100);
        assert(e[0] == (0x80 + v / 0x100) as u8);
        assert(e[1] == (v % 0x100) as u8);
    } else {
        let q1 = v as int / 0x100;
        let q2 = v as int / 0x10000;
        let q3 = v as int / 0x1000000;
        vstd::arithmetic::div_mod::lemma_fundamental_div_mod(v as int, 0x100);
        vstd::arithmetic::div_mod::lemma_fundamental_div_mod(q1, 0x100);
        vstd::arithmetic::div_mod::lemma_fundamental_div_mod(q2, 0x100);
        vstd::arithmetic::div_mod::lemma_div_denominator(v as int, 0x100, 0x100);
        vstd::arithmetic::div_mod::lemma_div_denominator(v as int, 0x10000, 0x100);
        assert(q1 / 0x100 == q2);
        assert(q2 / 0x100 == q3);
        assert(e[0] == (0xC0 + v / 0x1000000) as u8);
        assert(e[1] == ((v / 0x10000) % 0x100) as u8);
        assert(e[2] == ((v / 0x100) % 0x100) as u8);
        assert(e[3] == (v % 0x100) as u8);
    }
}

} // verus!
