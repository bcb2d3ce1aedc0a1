//! Row types of the metadata tables and the tagged composite indices.
//!
//! Every row holds only scalars, typed indices into heaps or other
//! tables, and composite indices. Decoders consume exactly the bytes the
//! sizing parameters dictate; a specification function mirrors each one.

use core::marker::PhantomData;
use vstd::prelude::*;
use vstd::arithmetic::power2::{pow2, lemma2_to64};
use crate::error::{CompositeKind, DecodeError, IndexKind};
use crate::reader;
use crate::reader::res_pos_eq;
use crate::stream::{spec_count, FieldSizes, HeapExtents, HeapOffsetSizes, IndexSize, RowCounts,
    TableId};

verus! {

/// A typed index: a row number in table `T` (one-based) or an offset in
/// heap `T`. Zero is the null index everywhere.
#[derive(Debug)]
pub struct Index<T>(pub u32, pub PhantomData<T>);

/// The index with value `v`.
pub open spec fn mk_idx<T>(v: u32) -> Index<T> {
    Index(v, PhantomData)
}

impl<T> Clone for Index<T> {
    fn clone(&self) -> (r: Self)
        ensures
            r == *self,
    {
        Index(self.0, PhantomData)
    }
}

impl<T> Copy for Index<T> {

}

impl<T> Index<T> {
    /// Wrap a raw index value.
    pub fn new(index: u32) -> (r: Index<T>)
        ensures
            r == mk_idx::<T>(index),
    {
        Index(index, PhantomData)
    }

    /// The raw index value.
    pub fn to_u32(self) -> (r: u32)
        ensures
            r == self.0,
    {
        self.0
    }
}

/// Marker for an index into the `#Strings` heap.
#[derive(Debug)]
pub struct StringHeap;

/// Marker for an index into the `#GUID` heap.
#[derive(Debug)]
pub struct GuidHeap;

/// Marker for an index into the `#Blob` heap.
#[derive(Debug)]
pub struct BlobHeap;

/// A simple index value is null or at most the target table's row count.
pub open spec fn idx_ok(v: u32, count: u32) -> bool {
    v == 0 || v <= count
}

/// A string or blob heap offset is null or inside the heap extent.
pub open spec fn heap_ok(v: u32, size: u32) -> bool {
    v == 0 || v < size
}

/// A GUID index is null or selects sixteen bytes inside the extent.
pub open spec fn guid_ok(v: u32, size: u32) -> bool {
    v == 0 || 16 * v <= size
}

/// The exact verdict on a simple table index: the error names the
/// target table, the offending value and the bound.
pub open spec fn spec_validate_table_idx(v: u32, t: TableId, rc: Seq<u32>) -> Result<
    (),
    DecodeError,
> {
    if idx_ok(v, spec_count(rc, t)) {
        Ok(())
    } else {
        Err(DecodeError::IndexOutOfRange(IndexKind::Table(t), v, spec_count(rc, t)))
    }
}

/// The exact verdict on a `#Strings` offset.
pub open spec fn spec_validate_string_idx(v: u32, ext: HeapExtents) -> Result<(), DecodeError> {
    if heap_ok(v, ext.string_size) {
        Ok(())
    } else {
        Err(DecodeError::IndexOutOfRange(IndexKind::StringHeap, v, ext.string_size))
    }
}

/// The exact verdict on a `#Blob` offset.
pub open spec fn spec_validate_blob_idx(v: u32, ext: HeapExtents) -> Result<(), DecodeError> {
    if heap_ok(v, ext.blob_size) {
        Ok(())
    } else {
        Err(DecodeError::IndexOutOfRange(IndexKind::BlobHeap, v, ext.blob_size))
    }
}

/// The exact verdict on a `#GUID` entry number.
pub open spec fn spec_validate_guid_idx(v: u32, ext: HeapExtents) -> Result<(), DecodeError> {
    if guid_ok(v, ext.guid_size) {
        Ok(())
    } else {
        Err(DecodeError::IndexOutOfRange(IndexKind::GuidHeap, v, ext.guid_size))
    }
}

/// Check a simple table index, reporting the offending value and bound.
pub fn validate_table_idx(v: u32, t: TableId, rc: &RowCounts) -> (r: Result<(), DecodeError>)
    ensures
        r == spec_validate_table_idx(v, t, rc@),
        r is Ok <==> idx_ok(v, spec_count(rc@, t)),
        r is Err ==> r->Err_0 is IndexOutOfRange,
{
    let count = rc.get(t);
    if v == 0 || v <= count {
        Ok(())
    } else {
        Err(DecodeError::IndexOutOfRange(IndexKind::Table(t), v, count))
    }
}

/// Check a `#Strings` offset, reporting the offending value and bound.
pub fn validate_string_idx(v: u32, ext: &HeapExtents) -> (r: Result<(), DecodeError>)
    ensures
        r == spec_validate_string_idx(v, *ext),
        r is Ok <==> heap_ok(v, ext.string_size),
        r is Err ==> r->Err_0 is IndexOutOfRange,
{
    if v == 0 || v < ext.string_size {
        Ok(())
    } else {
        Err(DecodeError::IndexOutOfRange(IndexKind::StringHeap, v, ext.string_size))
    }
}

/// Check a `#Blob` offset, reporting the offending value and bound.
pub fn validate_blob_idx(v: u32, ext: &HeapExtents) -> (r: Result<(), DecodeError>)
    ensures
        r == spec_validate_blob_idx(v, *ext),
        r is Ok <==> heap_ok(v, ext.blob_size),
        r is Err ==> r->Err_0 is IndexOutOfRange,
{
    if v == 0 || v < ext.blob_size {
        Ok(())
    } else {
        Err(DecodeError::IndexOutOfRange(IndexKind::BlobHeap, v, ext.blob_size))
    }
}

/// Check a `#GUID` entry number, reporting the offending value and bound.
pub fn validate_guid_idx(v: u32, ext: &HeapExtents) -> (r: Result<(), DecodeError>)
    ensures
        r == spec_validate_guid_idx(v, *ext),
        r is Ok <==> guid_ok(v, ext.guid_size),
        r is Err ==> r->Err_0 is IndexOutOfRange,
{
    if v == 0 || (16u64 * (v as u64)) <= ext.guid_size as u64 {
        Ok(())
    } else {
        Err(DecodeError::IndexOutOfRange(IndexKind::GuidHeap, v, ext.guid_size))
    }
}

/// Read an index of the given width, zero-extended.
pub open spec fn spec_read_index(d: Seq<u8>, pos: int, size: IndexSize) -> Result<
    (u32, int),
    DecodeError,
> {
    match size {
        IndexSize::Word => match reader::spec_read_u16(d, pos) {
            Err(e) => Err(e),
            Ok((v, p)) => Ok((v as u32, p)),
        },
        IndexSize::Dword => reader::spec_read_u32(d, pos),
    }
}

/// Read an `Index<T>` of the given width.
pub fn read_index<T>(d: &Vec<u8>, pos: usize, size: IndexSize) -> (r: Result<
    (Index<T>, usize),
    DecodeError,
>)
    ensures
        match (r, spec_read_index(d@, pos as int, size)) {
            (Ok((ix, p)), Ok((v, sp))) => ix == mk_idx::<T>(v) && p as int == sp,
            (Err(e), Err(se)) => e == se,
            _ => false,
        },
{
    match size {
        IndexSize::Word => {
            let (v, p) = reader::read_u16(d, pos)?;
            Ok((Index::new(v as u32), p))
        },
        IndexSize::Dword => {
            let (v, p) = reader::read_u32(d, pos)?;
            Ok((Index::new(v), p))
        },
    }
}

/// Read an index into the rows of `table_id`, at that table's width.
pub fn read_table_index<T>(d: &Vec<u8>, pos: usize, sizes: &FieldSizes, table_id: TableId) -> (r:
    Result<(Index<T>, usize), DecodeError>)
    ensures
        match (r, spec_read_index(
            d@,
            pos as int,
            crate::stream::spec_index_size(sizes.row_counts@, table_id),
        )) {
            (Ok((ix, p)), Ok((v, sp))) => ix == mk_idx::<T>(v) && p as int == sp,
            (Err(e), Err(se)) => e == se,
            _ => false,
        },
{
    let size = sizes.index_size(table_id);
    read_index(d, pos, size)
}

/// Read an index into the `#GUID` heap.
pub fn read_guid(d: &Vec<u8>, pos: usize, sizes: &FieldSizes) -> (r: Result<
    (Index<GuidHeap>, usize),
    DecodeError,
>)
    ensures
        match (r, spec_read_index(d@, pos as int, sizes.heap_sizes.guid_index)) {
            (Ok((ix, p)), Ok((v, sp))) => ix == mk_idx::<GuidHeap>(v) && p as int == sp,
            (Err(e), Err(se)) => e == se,
            _ => false,
        },
{
    read_index(d, pos, sizes.heap_sizes.guid_index)
}

/// Read an index into the `#Strings` heap.
pub fn read_string(d: &Vec<u8>, pos: usize, sizes: &FieldSizes) -> (r: Result<
    (Index<StringHeap>, usize),
    DecodeError,
>)
    ensures
        match (r, spec_read_index(d@, pos as int, sizes.heap_sizes.string_index)) {
            (Ok((ix, p)), Ok((v, sp))) => ix == mk_idx::<StringHeap>(v) && p as int == sp,
            (Err(e), Err(se)) => e == se,
            _ => false,
        },
{
    read_index(d, pos, sizes.heap_sizes.string_index)
}

/// Read an index into the `#Blob` heap.
pub fn read_blob(d: &Vec<u8>, pos: usize, sizes: &FieldSizes) -> (r: Result<
    (Index<BlobHeap>, usize),
    DecodeError,
>)
    ensures
        match (r, spec_read_index(d@, pos as int, sizes.heap_sizes.blob_index)) {
            (Ok((ix, p)), Ok((v, sp))) => ix == mk_idx::<BlobHeap>(v) && p as int == sp,
            (Err(e), Err(se)) => e == se,
            _ => false,
        },
{
    read_index(d, pos, sizes.heap_sizes.blob_index)
}

/// A raw tagged index: the tag bits and the row number above them.
#[derive(Debug, Clone, Copy, PartialEq, Eq, Structural)]
pub struct TaggedIndex {
    pub tag: u8,
    pub index: u32,
}

/// A tagged index is four bytes wide exactly when `row_count` exceeds
/// the largest row number a word can still carry beside the tag.
pub open spec fn spec_tagged(d: Seq<u8>, pos: int, bits: int, row_count: u32) -> Result<
    (TaggedIndex, int),
    DecodeError,
>
    recommends
        1 <= bits <= 8,
{
    let max_word = pow2((16 - bits) as nat) - 1;
    if row_count > max_word {
        match reader::spec_read_u32(d, pos) {
            Err(e) => Err(e),
            Ok((raw, p)) => Ok(
                (
                    TaggedIndex {
                        tag: (raw as int % pow2(bits as nat) as int) as u8,
                        index: (raw as int / pow2(bits as nat) as int) as u32,
                    },
                    p,
                ),
            ),
        }
    } else {
        match reader::spec_read_u16(d, pos) {
            Err(e) => Err(e),
            Ok((raw, p)) => Ok(
                (
                    TaggedIndex {
                        tag: (raw as int % pow2(bits as nat) as int) as u8,
                        index: (raw as int / pow2(bits as nat) as int) as u32,
                    },
                    p,
                ),
            ),
        }
    }
}

impl TaggedIndex {
    /// The mask that selects `length` low tag bits.
    pub fn tag_mask_from_len(length: u8) -> (r: u8)
        requires
            length <= 8,
        ensures
            r as int == pow2(length as nat) - 1,
    {
        proof {
            lemma2_to64();
        }
        match length {
            0 => 0b0000_0000,
            1 => 0b0000_0001,
            2 => 0b0000_0011,
            3 => 0b0000_0111,
            4 => 0b0000_1111,
            5 => 0b0001_1111,
            6 => 0b0011_1111,
            7 => 0b0111_1111,
            _ => 0b1111_1111,
        }
    }

    /// Read a tagged index: the width follows from `row_count`, then the
    /// low `tag_bits_length` bits are the tag and the rest the row.
    pub fn read_from(d: &Vec<u8>, pos: usize, tag_bits_length: u8, row_count: u32) -> (r: Result<
        (TaggedIndex, usize),
        DecodeError,
    >)
        requires
            1 <= tag_bits_length <= 8,
        ensures
            res_pos_eq(r, spec_tagged(d@, pos as int, tag_bits_length as int, row_count)),
    {
        let bits: u32 = tag_bits_length as u32;
        proof {
            vstd::bits::lemma_u32_pow2_no_overflow((16 - bits) as nat);
            vstd::bits::lemma_u32_shl_is_mul(1u32, (16 - bits) as u32);
            vstd::arithmetic::power2::lemma_pow2_pos((16 - bits) as nat);
            lemma2_to64();
        }
        let max_length_for_word_index: u32 = (1u32 << (16 - bits)) - 1;
        let tag_mask = TaggedIndex::tag_mask_from_len(tag_bits_length);
        let tagged_index: u32;
        let after: usize;
        if row_count > max_length_for_word_index {
            let (raw, p) = reader::read_u32(d, pos)?;
            tagged_index = raw;
            after = p;
        } else {
            let (raw, p) = reader::read_u16(d, pos)?;
            tagged_index = raw as u32;
            after = p;
        }
        let masked: u32 = tagged_index & (tag_mask as u32);
        proof {
            vstd::bits::lemma_low_bits_mask_values();
            assert(tag_mask as u32 == vstd::bits::low_bits_mask(bits as nat) as u32);
            vstd::bits::lemma_u32_low_bits_mask_is_mod(tagged_index, bits as nat);
            vstd::bits::lemma_u32_shr_is_div(tagged_index, bits);
            vstd::arithmetic::power2::lemma_pow2_pos(bits as nat);
        }
        let tag: u8 = masked as u8;
        let index: u32 = tagged_index >> bits;
        Ok((TaggedIndex { tag, index }, after))
    }
}

/// Row of the Module table.
#[derive(Debug, Clone, Copy)]
pub struct ModuleEntry {
    pub generation: u16,
    pub name: Index<StringHeap>,
    pub mv_id: Index<GuidHeap>,
    pub enc_id: Index<GuidHeap>,
    pub enc_base_id: Index<GuidHeap>,
}

/// Row of the ModuleRef table; its layout is not decoded here.
#[derive(Debug, Clone, Copy)]
pub struct ModuleRefEntry {}

/// Row of the Field table; its layout is not decoded here.
#[derive(Debug, Clone, Copy)]
pub struct FieldEntry {}

/// Row of the Param table.
#[derive(Debug, Clone, Copy)]
pub struct ParamEntry {
    pub flags: u16,
    pub sequence: u16,
    pub name: Index<StringHeap>,
}

/// Row of the Property table; its layout is not decoded here.
#[derive(Debug, Clone, Copy)]
pub struct PropertyEntry {}

/// Row of the Assembly table.
#[derive(Debug, Clone, Copy)]
pub struct AssemblyEntry {
    pub hash_algorithm: u32,
    pub major_version: u16,
    pub minor_version: u16,
    pub build_number: u16,
    pub revision_number: u16,
    pub flags: u32,
    pub public_key: Index<BlobHeap>,
    pub name: Index<StringHeap>,
    pub culture: Index<StringHeap>,
}

/// Row of the AssemblyRef table.
#[derive(Debug, Clone, Copy)]
pub struct AssemblyRefEntry {
    pub major_version: u16,
    pub minor_version: u16,
    pub build_number: u16,
    pub revision_number: u16,
    pub flags: u32,
    pub public_key_or_token: Index<BlobHeap>,
    pub name: Index<StringHeap>,
    pub culture: Index<StringHeap>,
    pub hash_value: Index<BlobHeap>,
}

/// Row of the InterfaceImpl table; its layout is not decoded here.
#[derive(Debug, Clone, Copy)]
pub struct InterfaceImplEntry {}

/// Row of the MethodDef table.
#[derive(Debug, Clone, Copy)]
pub struct MethodDefEntry {
    pub rva: u32,
    pub impl_flags: u16,
    pub flags: u16,
    pub name: Index<StringHeap>,
    pub signature: Index<BlobHeap>,
    pub param_list: Index<ParamEntry>,
}

/// Row of the MemberRef table.
#[derive(Debug, Clone, Copy)]
pub struct MemberRefEntry {
    pub class: MemberRefParent,
    pub name: Index<StringHeap>,
    pub signature: Index<BlobHeap>,
}

/// Row of the StandAloneSig table; its layout is not decoded here.
#[derive(Debug, Clone, Copy)]
pub struct StandAloneSigEntry {}

/// Row of the Event table; its layout is not decoded here.
#[derive(Debug, Clone, Copy)]
pub struct EventEntry {}

/// Row of the DeclSecurity (permission) table; its layout is not decoded
/// here.
#[derive(Debug, Clone, Copy)]
pub struct PermissionEntry {}

/// Row of the File table; its layout is not decoded here.
#[derive(Debug, Clone, Copy)]
pub struct FileEntry {}

/// Row of the ExportedType table; its layout is not decoded here.
#[derive(Debug, Clone, Copy)]
pub struct ExportedTypeEntry {}

/// Row of the ManifestResource table; its layout is not decoded here.
#[derive(Debug, Clone, Copy)]
pub struct ManifestResourceEntry {}

/// Row of the TypeRef table.
#[derive(Debug, Clone, Copy)]
pub struct TypeRefEntry {
    pub resolution_scope: ResolutionScope,
    pub name: Index<StringHeap>,
    pub namespace: Index<StringHeap>,
}

/// Row of the TypeDef table; the flags word is kept raw, unknown bits
/// included.
#[derive(Debug, Clone, Copy)]
pub struct TypeDefEntry {
    pub flags: u32,
    pub name: Index<StringHeap>,
    pub namespace: Index<StringHeap>,
    pub extends: TypeDefOrRef,
    pub fields: Index<FieldEntry>,
    pub methods: Index<MethodDefEntry>,
}

/// Row of the TypeSpec table.
#[derive(Debug, Clone, Copy)]
pub struct TypeSpecEntry {
    pub signature: Index<BlobHeap>,
}

/// Row of the CustomAttribute table.
#[derive(Debug, Clone, Copy)]
pub struct CustomAttributeEntry {
    pub parent: HasCustomAttribute,
    pub constructor: CustomAttributeType,
    pub value: Index<BlobHeap>,
}

/// The larger of two row counts.
pub open spec fn spec_max2(a: u32, b: u32) -> u32 {
    if a >= b {
        a
    } else {
        b
    }
}

/// The larger of two row counts.
pub fn max2(a: u32, b: u32) -> (r: u32)
    ensures
        r == spec_max2(a, b),
{
    if a >= b {
        a
    } else {
        b
    }
}

/// A composite index into TypeDef, TypeRef or TypeSpec (two tag bits).
#[derive(Debug, Clone, Copy)]
pub enum TypeDefOrRef {
    TypeDef(Index<TypeDefEntry>),
    TypeRef(Index<TypeRefEntry>),
    TypeSpec(Index<TypeSpecEntry>),
}

impl TypeDefOrRef {
    /// The largest row count among this composite's target tables.
    pub open spec fn spec_max_rows(rc: Seq<u32>) -> u32 {
        spec_max2(
            spec_count(rc, TableId::TypeDef),
            spec_max2(spec_count(rc, TableId::TypeRef), spec_count(rc, TableId::TypeSpec)),
        )
    }

    pub open spec fn spec_read(d: Seq<u8>, pos: int, rc: Seq<u32>) -> Result<
        (TypeDefOrRef, int),
        DecodeError,
    > {
        match spec_tagged(d, pos, 2, Self::spec_max_rows(rc)) {
            Err(e) => Err(e),
            Ok((ti, p)) => if ti.tag == 0 {
                Ok((TypeDefOrRef::TypeDef(mk_idx(ti.index)), p))
            } else if ti.tag == 1 {
                Ok((TypeDefOrRef::TypeRef(mk_idx(ti.index)), p))
            } else if ti.tag == 2 {
                Ok((TypeDefOrRef::TypeSpec(mk_idx(ti.index)), p))
            } else {
                Err(DecodeError::ReservedTag(CompositeKind::TypeDefOrRef, ti.tag))
            },
        }
    }

    /// Decode a TypeDefOrRef composite index.
    pub fn read_from(d: &Vec<u8>, pos: usize, row_counts: &RowCounts) -> (r: Result<
        (TypeDefOrRef, usize),
        DecodeError,
    >)
        ensures
            res_pos_eq(r, Self::spec_read(d@, pos as int, row_counts@)),
    {
        let max_size = max2(
            row_counts.get(TableId::TypeDef),
            max2(row_counts.get(TableId::TypeRef), row_counts.get(TableId::TypeSpec)),
        );
        let (ti, p) = TaggedIndex::read_from(d, pos, 2, max_size)?;
        match ti.tag {
            0 => Ok((TypeDefOrRef::TypeDef(Index::new(ti.index)), p)),
            1 => Ok((TypeDefOrRef::TypeRef(Index::new(ti.index)), p)),
            2 => Ok((TypeDefOrRef::TypeSpec(Index::new(ti.index)), p)),
            t => Err(DecodeError::ReservedTag(CompositeKind::TypeDefOrRef, t)),
        }
    }
}

/// A stored TypeDefOrRef is valid when its row number fits its target.
pub open spec fn type_def_or_ref_wf(v: TypeDefOrRef, rc: Seq<u32>) -> bool {
    match v {
        TypeDefOrRef::TypeDef(i) => idx_ok(i.0, spec_count(rc, TableId::TypeDef)),
        TypeDefOrRef::TypeRef(i) => idx_ok(i.0, spec_count(rc, TableId::TypeRef)),
        TypeDefOrRef::TypeSpec(i) => idx_ok(i.0, spec_count(rc, TableId::TypeSpec)),
    }
}

/// The exact verdict on a stored TypeDefOrRef.
pub open spec fn spec_check_type_def_or_ref(v: TypeDefOrRef, rc: Seq<u32>) -> Result<
    (),
    DecodeError,
> {
    match v {
        TypeDefOrRef::TypeDef(i) => spec_validate_table_idx(i.0, TableId::TypeDef, rc),
        TypeDefOrRef::TypeRef(i) => spec_validate_table_idx(i.0, TableId::TypeRef, rc),
        TypeDefOrRef::TypeSpec(i) => spec_validate_table_idx(i.0, TableId::TypeSpec, rc),
    }
}

/// Check a stored TypeDefOrRef against the row counts.
pub fn check_type_def_or_ref(v: &TypeDefOrRef, rc: &RowCounts) -> (r: Result<(), DecodeError>)
    ensures
        r == spec_check_type_def_or_ref(*v, rc@),
        r is Ok <==> type_def_or_ref_wf(*v, rc@),
        r is Err ==> r->Err_0 is IndexOutOfRange,
{
    match v {
        TypeDefOrRef::TypeDef(i) => validate_table_idx(i.0, TableId::TypeDef, rc),
        TypeDefOrRef::TypeRef(i) => validate_table_idx(i.0, TableId::TypeRef, rc),
        TypeDefOrRef::TypeSpec(i) => validate_table_idx(i.0, TableId::TypeSpec, rc),
    }
}

/// A composite index into Field, Param or Property (two tag bits).
#[derive(Debug, Clone, Copy)]
pub enum HasConstant {
    Field(Index<FieldEntry>),
    Param(Index<ParamEntry>),
    Property(Index<PropertyEntry>),
}

impl HasConstant {
    /// The largest row count among this composite's target tables.
    pub open spec fn spec_max_rows(rc: Seq<u32>) -> u32 {
        spec_max2(
            spec_count(rc, TableId::Field),
            spec_max2(spec_count(rc, TableId::Param), spec_count(rc, TableId::Property)),
        )
    }

    pub open spec fn spec_read(d: Seq<u8>, pos: int, rc: Seq<u32>) -> Result<
        (HasConstant, int),
        DecodeError,
    > {
        match spec_tagged(d, pos, 2, Self::spec_max_rows(rc)) {
            Err(e) => Err(e),
            Ok((ti, p)) => if ti.tag == 0 {
                Ok((HasConstant::Field(mk_idx(ti.index)), p))
            } else if ti.tag == 1 {
                Ok((HasConstant::Param(mk_idx(ti.index)), p))
            } else if ti.tag == 2 {
                Ok((HasConstant::Property(mk_idx(ti.index)), p))
            } else {
                Err(DecodeError::ReservedTag(CompositeKind::HasConstant, ti.tag))
            },
        }
    }

    /// Decode a HasConstant composite index.
    pub fn read_from(d: &Vec<u8>, pos: usize, row_counts: &RowCounts) -> (r: Result<
        (HasConstant, usize),
        DecodeError,
    >)
        ensures
            res_pos_eq(r, Self::spec_read(d@, pos as int, row_counts@)),
    {
        let max_size = max2(
            row_counts.get(TableId::Field),
            max2(row_counts.get(TableId::Param), row_counts.get(TableId::Property)),
        );
        let (ti, p) = TaggedIndex::read_from(d, pos, 2, max_size)?;
        match ti.tag {
            0 => Ok((HasConstant::Field(Index::new(ti.index)), p)),
            1 => Ok((HasConstant::Param(Index::new(ti.index)), p)),
            2 => Ok((HasConstant::Property(Index::new(ti.index)), p)),
            t => Err(DecodeError::ReservedTag(CompositeKind::HasConstant, t)),
        }
    }
}

/// A composite index into one of eighteen attribute owners (five tag
/// bits); tag eight is reserved for the retired Permission target.
#[derive(Debug, Clone, Copy)]
pub enum HasCustomAttribute {
    MethodDef(Index<MethodDefEntry>),
    Field(Index<FieldEntry>),
    TypeRef(Index<TypeRefEntry>),
    TypeDef(Index<TypeDefEntry>),
    Param(Index<ParamEntry>),
    InterfaceImpl(Index<InterfaceImplEntry>),
    MemberRef(Index<MemberRefEntry>),
    Module(Index<ModuleEntry>),
    Property(Index<PropertyEntry>),
    Event(Index<EventEntry>),
    StandAloneSig(Index<StandAloneSigEntry>),
    ModuleRef(Index<ModuleRefEntry>),
    TypeSpec(Index<TypeSpecEntry>),
    Assembly(Index<AssemblyEntry>),
    AssemblyRef(Index<AssemblyRefEntry>),
    File(Index<FileEntry>),
    ExportedType(Index<ExportedTypeEntry>),
    ManifestResource(Index<ManifestResourceEntry>),
}

impl HasCustomAttribute {
    /// The largest row count among this composite's target tables.
    pub open spec fn spec_max_rows(rc: Seq<u32>) -> u32 {
        spec_max2(
            spec_count(rc, TableId::MethodDef),
            spec_max2(
                spec_count(rc, TableId::Field),
                spec_max2(
                    spec_count(rc, TableId::TypeRef),
                    spec_max2(
                        spec_count(rc, TableId::TypeDef),
                        spec_max2(
                            spec_count(rc, TableId::Param),
                            spec_max2(
                                spec_count(rc, TableId::InterfaceImpl),
                                spec_max2(
                                    spec_count(rc, TableId::MemberRef),
                                    spec_max2(
                                        spec_count(rc, TableId::Module),
                                        spec_max2(
                                            spec_count(rc, TableId::Property),
                                            spec_max2(
                                                spec_count(rc, TableId::Event),
                                                spec_max2(
                                                    spec_count(rc, TableId::StandAloneSig),
                                                    spec_max2(
                                                        spec_count(rc, TableId::ModuleRef),
                                                        spec_max2(
                                                            spec_count(rc, TableId::TypeSpec),
                                                            spec_max2(
                                                                spec_count(rc, TableId::Assembly),
                                                                spec_max2(
                                                                    spec_count(
                                                                        rc,
                                                                        TableId::AssemblyRef,
                                                                    ),
                                                                    spec_max2(
                                                                        spec_count(
                                                                            rc,
                                                                            TableId::File,
                                                                        ),
                                                                        spec_max2(
                                                                            spec_count(
                                                                                rc,
                                                                                TableId::ExportedType,
                                                                            ),
                                                                            spec_count(
                                                                                rc,
                                                                                TableId::ManifestResource,
                                                                            ),
                                                                        ),
                                                                    ),
                                                                ),
                                                            ),
                                                        ),
                                                    ),
                                                ),
                                            ),
                                        ),
                                    ),
                                ),
                            ),
                        ),
                    ),
                ),
            ),
        )
    }

    pub open spec fn spec_read(d: Seq<u8>, pos: int, rc: Seq<u32>) -> Result<
        (HasCustomAttribute, int),
        DecodeError,
    > {
        match spec_tagged(d, pos, 5, Self::spec_max_rows(rc)) {
            Err(e) => Err(e),
            Ok((ti, p)) => if ti.tag == 0 {
                Ok((HasCustomAttribute::MethodDef(mk_idx(ti.index)), p))
            } else if ti.tag == 1 {
                Ok((HasCustomAttribute::Field(mk_idx(ti.index)), p))
            } else if ti.tag == 2 {
                Ok((HasCustomAttribute::TypeRef(mk_idx(ti.index)), p))
            } else if ti.tag == 3 {
                Ok((HasCustomAttribute::TypeDef(mk_idx(ti.index)), p))
            } else if ti.tag == 4 {
                Ok((HasCustomAttribute::Param(mk_idx(ti.index)), p))
            } else if ti.tag == 5 {
                Ok((HasCustomAttribute::InterfaceImpl(mk_idx(ti.index)), p))
            } else if ti.tag == 6 {
                Ok((HasCustomAttribute::MemberRef(mk_idx(ti.index)), p))
            } else if ti.tag == 7 {
                Ok((HasCustomAttribute::Module(mk_idx(ti.index)), p))
            } else if ti.tag == 9 {
                Ok((HasCustomAttribute::Property(mk_idx(ti.index)), p))
            } else if ti.tag == 10 {
                Ok((HasCustomAttribute::Event(mk_idx(ti.index)), p))
            } else if ti.tag == 11 {
                Ok((HasCustomAttribute::StandAloneSig(mk_idx(ti.index)), p))
            } else if ti.tag == 12 {
                Ok((HasCustomAttribute::ModuleRef(mk_idx(ti.index)), p))
            } else if ti.tag == 13 {
                Ok((HasCustomAttribute::TypeSpec(mk_idx(ti.index)), p))
            } else if ti.tag == 14 {
                Ok((HasCustomAttribute::Assembly(mk_idx(ti.index)), p))
            } else if ti.tag == 15 {
                Ok((HasCustomAttribute::AssemblyRef(mk_idx(ti.index)), p))
            } else if ti.tag == 16 {
                Ok((HasCustomAttribute::File(mk_idx(ti.index)), p))
            } else if ti.tag == 17 {
                Ok((HasCustomAttribute::ExportedType(mk_idx(ti.index)), p))
            } else if ti.tag == 18 {
                Ok((HasCustomAttribute::ManifestResource(mk_idx(ti.index)), p))
            } else {
                Err(DecodeError::ReservedTag(CompositeKind::HasCustomAttribute, ti.tag))
            },
        }
    }

    /// Decode a HasCustomAttribute composite index; the reserved tag for
    /// the Permission target is surfaced as an error, never remapped.
    pub fn read_from(d: &Vec<u8>, pos: usize, row_counts: &RowCounts) -> (r: Result<
        (HasCustomAttribute, usize),
        DecodeError,
    >)
        ensures
            res_pos_eq(r, Self::spec_read(d@, pos as int, row_counts@)),
    {
        let max_size = max2(
            row_counts.get(TableId::MethodDef),
            max2(
                row_counts.get(TableId::Field),
                max2(
                    row_counts.get(TableId::TypeRef),
                    max2(
                        row_counts.get(TableId::TypeDef),
                        max2(
                            row_counts.get(TableId::Param),
                            max2(
                                row_counts.get(TableId::InterfaceImpl),
                                max2(
                                    row_counts.get(TableId::MemberRef),
                                    max2(
                                        row_counts.get(TableId::Module),
                                        max2(
                                            row_counts.get(TableId::Property),
                                            max2(
                                                row_counts.get(TableId::Event),
                                                max2(
                                                    row_counts.get(TableId::StandAloneSig),
                                                    max2(
                                                        row_counts.get(TableId::ModuleRef),
                                                        max2(
                                                            row_counts.get(TableId::TypeSpec),
                                                            max2(
                                                                row_counts.get(TableId::Assembly),
                                                                max2(
                                                                    row_counts.get(
                                                                        TableId::AssemblyRef,
                                                                    ),
                                                                    max2(
                                                                        row_counts.get(
                                                                            TableId::File,
                                                                        ),
                                                                        max2(
                                                                            row_counts.get(
                                                                                TableId::ExportedType,
                                                                            ),
                                                                            row_counts.get(
                                                                                TableId::ManifestResource,
                                                                            ),
                                                                        ),
                                                                    ),
                                                                ),
                                                            ),
                                                        ),
                                                    ),
                                                ),
                                            ),
                                        ),
                                    ),
                                ),
                            ),
                        ),
                    ),
                ),
            ),
        );
        let (ti, p) = TaggedIndex::read_from(d, pos, 5, max_size)?;
        match ti.tag {
            0 => Ok((HasCustomAttribute::MethodDef(Index::new(ti.index)), p)),
            1 => Ok((HasCustomAttribute::Field(Index::new(ti.index)), p)),
            2 => Ok((HasCustomAttribute::TypeRef(Index::new(ti.index)), p)),
            3 => Ok((HasCustomAttribute::TypeDef(Index::new(ti.index)), p)),
            4 => Ok((HasCustomAttribute::Param(Index::new(ti.index)), p)),
            5 => Ok((HasCustomAttribute::InterfaceImpl(Index::new(ti.index)), p)),
            6 => Ok((HasCustomAttribute::MemberRef(Index::new(ti.index)), p)),
            7 => Ok((HasCustomAttribute::Module(Index::new(ti.index)), p)),
            9 => Ok((HasCustomAttribute::Property(Index::new(ti.index)), p)),
            10 => Ok((HasCustomAttribute::Event(Index::new(ti.index)), p)),
            11 => Ok((HasCustomAttribute::StandAloneSig(Index::new(ti.index)), p)),
            12 => Ok((HasCustomAttribute::ModuleRef(Index::new(ti.index)), p)),
            13 => Ok((HasCustomAttribute::TypeSpec(Index::new(ti.index)), p)),
            14 => Ok((HasCustomAttribute::Assembly(Index::new(ti.index)), p)),
            15 => Ok((HasCustomAttribute::AssemblyRef(Index::new(ti.index)), p)),
            16 => Ok((HasCustomAttribute::File(Index::new(ti.index)), p)),
            17 => Ok((HasCustomAttribute::ExportedType(Index::new(ti.index)), p)),
            18 => Ok((HasCustomAttribute::ManifestResource(Index::new(ti.index)), p)),
            t => Err(DecodeError::ReservedTag(CompositeKind::HasCustomAttribute, t)),
        }
    }
}

/// A stored HasCustomAttribute is valid when its row number fits its
/// target table.
pub open spec fn has_custom_attribute_wf(v: HasCustomAttribute, rc: Seq<u32>) -> bool {
    match v {
        HasCustomAttribute::MethodDef(i) => idx_ok(i.0, spec_count(rc, TableId::MethodDef)),
        HasCustomAttribute::Field(i) => idx_ok(i.0, spec_count(rc, TableId::Field)),
        HasCustomAttribute::TypeRef(i) => idx_ok(i.0, spec_count(rc, TableId::TypeRef)),
        HasCustomAttribute::TypeDef(i) => idx_ok(i.0, spec_count(rc, TableId::TypeDef)),
        HasCustomAttribute::Param(i) => idx_ok(i.0, spec_count(rc, TableId::Param)),
        HasCustomAttribute::InterfaceImpl(i) => idx_ok(i.0, spec_count(rc, TableId::InterfaceImpl)),
        HasCustomAttribute::MemberRef(i) => idx_ok(i.0, spec_count(rc, TableId::MemberRef)),
        HasCustomAttribute::Module(i) => idx_ok(i.0, spec_count(rc, TableId::Module)),
        HasCustomAttribute::Property(i) => idx_ok(i.0, spec_count(rc, TableId::Property)),
        HasCustomAttribute::Event(i) => idx_ok(i.0, spec_count(rc, TableId::Event)),
        HasCustomAttribute::StandAloneSig(i) => idx_ok(i.0, spec_count(rc, TableId::StandAloneSig)),
        HasCustomAttribute::ModuleRef(i) => idx_ok(i.0, spec_count(rc, TableId::ModuleRef)),
        HasCustomAttribute::TypeSpec(i) => idx_ok(i.0, spec_count(rc, TableId::TypeSpec)),
        HasCustomAttribute::Assembly(i) => idx_ok(i.0, spec_count(rc, TableId::Assembly)),
        HasCustomAttribute::AssemblyRef(i) => idx_ok(i.0, spec_count(rc, TableId::AssemblyRef)),
        HasCustomAttribute::File(i) => idx_ok(i.0, spec_count(rc, TableId::File)),
        HasCustomAttribute::ExportedType(i) => idx_ok(i.0, spec_count(rc, TableId::ExportedType)),
        HasCustomAttribute::ManifestResource(i) => idx_ok(
            i.0,
            spec_count(rc, TableId::ManifestResource),
        ),
    }
}

/// The target table of a stored HasCustomAttribute.
pub open spec fn hca_target(v: HasCustomAttribute) -> TableId {
    match v {
        HasCustomAttribute::MethodDef(_) => TableId::MethodDef,
        HasCustomAttribute::Field(_) => TableId::Field,
        HasCustomAttribute::TypeRef(_) => TableId::TypeRef,
        HasCustomAttribute::TypeDef(_) => TableId::TypeDef,
        HasCustomAttribute::Param(_) => TableId::Param,
        HasCustomAttribute::InterfaceImpl(_) => TableId::InterfaceImpl,
        HasCustomAttribute::MemberRef(_) => TableId::MemberRef,
        HasCustomAttribute::Module(_) => TableId::Module,
        HasCustomAttribute::Property(_) => TableId::Property,
        HasCustomAttribute::Event(_) => TableId::Event,
        HasCustomAttribute::StandAloneSig(_) => TableId::StandAloneSig,
        HasCustomAttribute::ModuleRef(_) => TableId::ModuleRef,
        HasCustomAttribute::TypeSpec(_) => TableId::TypeSpec,
        HasCustomAttribute::Assembly(_) => TableId::Assembly,
        HasCustomAttribute::AssemblyRef(_) => TableId::AssemblyRef,
        HasCustomAttribute::File(_) => TableId::File,
        HasCustomAttribute::ExportedType(_) => TableId::ExportedType,
        HasCustomAttribute::ManifestResource(_) => TableId::ManifestResource,
    }
}

/// The row number a stored HasCustomAttribute carries.
pub open spec fn hca_index(v: HasCustomAttribute) -> u32 {
    match v {
        HasCustomAttribute::MethodDef(i) => i.0,
        HasCustomAttribute::Field(i) => i.0,
        HasCustomAttribute::TypeRef(i) => i.0,
        HasCustomAttribute::TypeDef(i) => i.0,
        HasCustomAttribute::Param(i) => i.0,
        HasCustomAttribute::InterfaceImpl(i) => i.0,
        HasCustomAttribute::MemberRef(i) => i.0,
        HasCustomAttribute::Module(i) => i.0,
        HasCustomAttribute::Property(i) => i.0,
        HasCustomAttribute::Event(i) => i.0,
        HasCustomAttribute::StandAloneSig(i) => i.0,
        HasCustomAttribute::ModuleRef(i) => i.0,
        HasCustomAttribute::TypeSpec(i) => i.0,
        HasCustomAttribute::Assembly(i) => i.0,
        HasCustomAttribute::AssemblyRef(i) => i.0,
        HasCustomAttribute::File(i) => i.0,
        HasCustomAttribute::ExportedType(i) => i.0,
        HasCustomAttribute::ManifestResource(i) => i.0,
    }
}

/// The target table of a stored HasCustomAttribute.
fn hca_target_exec(v: &HasCustomAttribute) -> (t: TableId)
    ensures
        t == hca_target(*v),
{
    match v {
        HasCustomAttribute::MethodDef(_) => TableId::MethodDef,
        HasCustomAttribute::Field(_) => TableId::Field,
        HasCustomAttribute::TypeRef(_) => TableId::TypeRef,
        HasCustomAttribute::TypeDef(_) => TableId::TypeDef,
        HasCustomAttribute::Param(_) => TableId::Param,
        HasCustomAttribute::InterfaceImpl(_) => TableId::InterfaceImpl,
        HasCustomAttribute::MemberRef(_) => TableId::MemberRef,
        HasCustomAttribute::Module(_) => TableId::Module,
        HasCustomAttribute::Property(_) => TableId::Property,
        HasCustomAttribute::Event(_) => TableId::Event,
        HasCustomAttribute::StandAloneSig(_) => TableId::StandAloneSig,
        HasCustomAttribute::ModuleRef(_) => TableId::ModuleRef,
        HasCustomAttribute::TypeSpec(_) => TableId::TypeSpec,
        HasCustomAttribute::Assembly(_) => TableId::Assembly,
        HasCustomAttribute::AssemblyRef(_) => TableId::AssemblyRef,
        HasCustomAttribute::File(_) => TableId::File,
        HasCustomAttribute::ExportedType(_) => TableId::ExportedType,
        HasCustomAttribute::ManifestResource(_) => TableId::ManifestResource,
    }
}

/// The row number a stored HasCustomAttribute carries.
fn hca_index_exec(v: &HasCustomAttribute) -> (r: u32)
    ensures
        r == hca_index(*v),
{
    match v {
        HasCustomAttribute::MethodDef(i) => i.0,
        HasCustomAttribute::Field(i) => i.0,
        HasCustomAttribute::TypeRef(i) => i.0,
        HasCustomAttribute::TypeDef(i) => i.0,
        HasCustomAttribute::Param(i) => i.0,
        HasCustomAttribute::InterfaceImpl(i) => i.0,
        HasCustomAttribute::MemberRef(i) => i.0,
        HasCustomAttribute::Module(i) => i.0,
        HasCustomAttribute::Property(i) => i.0,
        HasCustomAttribute::Event(i) => i.0,
        HasCustomAttribute::StandAloneSig(i) => i.0,
        HasCustomAttribute::ModuleRef(i) => i.0,
        HasCustomAttribute::TypeSpec(i) => i.0,
        HasCustomAttribute::Assembly(i) => i.0,
        HasCustomAttribute::AssemblyRef(i) => i.0,
        HasCustomAttribute::File(i) => i.0,
        HasCustomAttribute::ExportedType(i) => i.0,
        HasCustomAttribute::ManifestResource(i) => i.0,
    }
}

/// The exact verdict on a stored HasCustomAttribute.
pub open spec fn spec_check_has_custom_attribute(v: HasCustomAttribute, rc: Seq<u32>) -> Result<
    (),
    DecodeError,
> {
    spec_validate_table_idx(hca_index(v), hca_target(v), rc)
}

/// Check a stored HasCustomAttribute against the row counts.
pub fn check_has_custom_attribute(v: &HasCustomAttribute, rc: &RowCounts) -> (r: Result<
    (),
    DecodeError,
>)
    ensures
        r == spec_check_has_custom_attribute(*v, rc@),
        r is Ok <==> has_custom_attribute_wf(*v, rc@),
        r is Err ==> r->Err_0 is IndexOutOfRange,
{
    let ix = hca_index_exec(v);
    let target = hca_target_exec(v);
    proof {
        assert(has_custom_attribute_wf(*v, rc@) == idx_ok(hca_index(*v), spec_count(rc@,
            hca_target(*v))));
    }
    validate_table_idx(ix, target, rc)
}

/// A composite index into Field or Param (one tag bit).
#[derive(Debug, Clone, Copy)]
pub enum HasFieldMarshall {
    Field(Index<FieldEntry>),
    Param(Index<ParamEntry>),
}

impl HasFieldMarshall {
    /// The largest row count among this composite's target tables.
    pub open spec fn spec_max_rows(rc: Seq<u32>) -> u32 {
        spec_max2(spec_count(rc, TableId::Field), spec_count(rc, TableId::Param))
    }

    pub open spec fn spec_read(d: Seq<u8>, pos: int, rc: Seq<u32>) -> Result<
        (HasFieldMarshall, int),
        DecodeError,
    > {
        match spec_tagged(d, pos, 1, Self::spec_max_rows(rc)) {
            Err(e) => Err(e),
            Ok((ti, p)) => if ti.tag == 0 {
                Ok((HasFieldMarshall::Field(mk_idx(ti.index)), p))
            } else {
                Ok((HasFieldMarshall::Param(mk_idx(ti.index)), p))
            },
        }
    }

    /// Decode a HasFieldMarshall composite index.
    pub fn read_from(d: &Vec<u8>, pos: usize, row_counts: &RowCounts) -> (r: Result<
        (HasFieldMarshall, usize),
        DecodeError,
    >)
        ensures
            res_pos_eq(r, Self::spec_read(d@, pos as int, row_counts@)),
    {
        let max_size = max2(row_counts.get(TableId::Field), row_counts.get(TableId::Param));
        let (ti, p) = TaggedIndex::read_from(d, pos, 1, max_size)?;
        if ti.tag == 0 {
            Ok((HasFieldMarshall::Field(Index::new(ti.index)), p))
        } else {
            Ok((HasFieldMarshall::Param(Index::new(ti.index)), p))
        }
    }
}

/// A composite index into TypeDef, MethodDef or Assembly (two tag bits).
#[derive(Debug, Clone, Copy)]
pub enum HasDeclSecurity {
    TypeDef(Index<TypeDefEntry>),
    MethodDef(Index<MethodDefEntry>),
    Assembly(Index<AssemblyEntry>),
}

impl HasDeclSecurity {
    /// The largest row count among this composite's target tables.
    pub open spec fn spec_max_rows(rc: Seq<u32>) -> u32 {
        spec_max2(
            spec_count(rc, TableId::TypeDef),
            spec_max2(spec_count(rc, TableId::MethodDef), spec_count(rc, TableId::Assembly)),
        )
    }

    pub open spec fn spec_read(d: Seq<u8>, pos: int, rc: Seq<u32>) -> Result<
        (HasDeclSecurity, int),
        DecodeError,
    > {
        match spec_tagged(d, pos, 2, Self::spec_max_rows(rc)) {
            Err(e) => Err(e),
            Ok((ti, p)) => if ti.tag == 0 {
                Ok((HasDeclSecurity::TypeDef(mk_idx(ti.index)), p))
            } else if ti.tag == 1 {
                Ok((HasDeclSecurity::MethodDef(mk_idx(ti.index)), p))
            } else if ti.tag == 2 {
                Ok((HasDeclSecurity::Assembly(mk_idx(ti.index)), p))
            } else {
                Err(DecodeError::ReservedTag(CompositeKind::HasDeclSecurity, ti.tag))
            },
        }
    }

    /// Decode a HasDeclSecurity composite index.
    pub fn read_from(d: &Vec<u8>, pos: usize, row_counts: &RowCounts) -> (r: Result<
        (HasDeclSecurity, usize),
        DecodeError,
    >)
        ensures
            res_pos_eq(r, Self::spec_read(d@, pos as int, row_counts@)),
    {
        let max_size = max2(
            row_counts.get(TableId::TypeDef),
            max2(row_counts.get(TableId::MethodDef), row_counts.get(TableId::Assembly)),
        );
        let (ti, p) = TaggedIndex::read_from(d, pos, 2, max_size)?;
        match ti.tag {
            0 => Ok((HasDeclSecurity::TypeDef(Index::new(ti.index)), p)),
            1 => Ok((HasDeclSecurity::MethodDef(Index::new(ti.index)), p)),
            2 => Ok((HasDeclSecurity::Assembly(Index::new(ti.index)), p)),
            t => Err(DecodeError::ReservedTag(CompositeKind::HasDeclSecurity, t)),
        }
    }
}

/// A composite index into TypeDef, TypeRef, ModuleRef, MethodDef or
/// TypeSpec (three tag bits).
#[derive(Debug, Clone, Copy)]
pub enum MemberRefParent {
    TypeDef(Index<TypeDefEntry>),
    TypeRef(Index<TypeRefEntry>),
    ModuleRef(Index<ModuleRefEntry>),
    MethodDef(Index<MethodDefEntry>),
    TypeSpec(Index<TypeSpecEntry>),
}

impl MemberRefParent {
    /// The largest row count among this composite's target tables.
    pub open spec fn spec_max_rows(rc: Seq<u32>) -> u32 {
        spec_max2(
            spec_count(rc, TableId::TypeDef),
            spec_max2(
                spec_count(rc, TableId::TypeRef),
                spec_max2(
                    spec_count(rc, TableId::ModuleRef),
                    spec_max2(
                        spec_count(rc, TableId::MethodDef),
                        spec_count(rc, TableId::TypeSpec),
                    ),
                ),
            ),
        )
    }

    pub open spec fn spec_read(d: Seq<u8>, pos: int, rc: Seq<u32>) -> Result<
        (MemberRefParent, int),
        DecodeError,
    > {
        match spec_tagged(d, pos, 3, Self::spec_max_rows(rc)) {
            Err(e) => Err(e),
            Ok((ti, p)) => if ti.tag == 0 {
                Ok((MemberRefParent::TypeDef(mk_idx(ti.index)), p))
            } else if ti.tag == 1 {
                Ok((MemberRefParent::TypeRef(mk_idx(ti.index)), p))
            } else if ti.tag == 2 {
                Ok((MemberRefParent::ModuleRef(mk_idx(ti.index)), p))
            } else if ti.tag == 3 {
                Ok((MemberRefParent::MethodDef(mk_idx(ti.index)), p))
            } else if ti.tag == 4 {
                Ok((MemberRefParent::TypeSpec(mk_idx(ti.index)), p))
            } else {
                Err(DecodeError::ReservedTag(CompositeKind::MemberRefParent, ti.tag))
            },
        }
    }

    /// Decode a MemberRefParent composite index.
    pub fn read_from(d: &Vec<u8>, pos: usize, row_counts: &RowCounts) -> (r: Result<
        (MemberRefParent, usize),
        DecodeError,
    >)
        ensures
            res_pos_eq(r, Self::spec_read(d@, pos as int, row_counts@)),
    {
        let max_size = max2(
            row_counts.get(TableId::TypeDef),
            max2(
                row_counts.get(TableId::TypeRef),
                max2(
                    row_counts.get(TableId::ModuleRef),
                    max2(row_counts.get(TableId::MethodDef), row_counts.get(TableId::TypeSpec)),
                ),
            ),
        );
        let (ti, p) = TaggedIndex::read_from(d, pos, 3, max_size)?;
        match ti.tag {
            0 => Ok((MemberRefParent::TypeDef(Index::new(ti.index)), p)),
            1 => Ok((MemberRefParent::TypeRef(Index::new(ti.index)), p)),
            2 => Ok((MemberRefParent::ModuleRef(Index::new(ti.index)), p)),
            3 => Ok((MemberRefParent::MethodDef(Index::new(ti.index)), p)),
            4 => Ok((MemberRefParent::TypeSpec(Index::new(ti.index)), p)),
            t => Err(DecodeError::ReservedTag(CompositeKind::MemberRefParent, t)),
        }
    }
}

/// A stored MemberRefParent is valid when its row number fits its target.
pub open spec fn member_ref_parent_wf(v: MemberRefParent, rc: Seq<u32>) -> bool {
    match v {
        MemberRefParent::TypeDef(i) => idx_ok(i.0, spec_count(rc, TableId::TypeDef)),
        MemberRefParent::TypeRef(i) => idx_ok(i.0, spec_count(rc, TableId::TypeRef)),
        MemberRefParent::ModuleRef(i) => idx_ok(i.0, spec_count(rc, TableId::ModuleRef)),
        MemberRefParent::MethodDef(i) => idx_ok(i.0, spec_count(rc, TableId::MethodDef)),
        MemberRefParent::TypeSpec(i) => idx_ok(i.0, spec_count(rc, TableId::TypeSpec)),
    }
}

/// The exact verdict on a stored MemberRefParent.
pub open spec fn spec_check_member_ref_parent(v: MemberRefParent, rc: Seq<u32>) -> Result<
    (),
    DecodeError,
> {
    match v {
        MemberRefParent::TypeDef(i) => spec_validate_table_idx(i.0, TableId::TypeDef, rc),
        MemberRefParent::TypeRef(i) => spec_validate_table_idx(i.0, TableId::TypeRef, rc),
        MemberRefParent::ModuleRef(i) => spec_validate_table_idx(i.0, TableId::ModuleRef, rc),
        MemberRefParent::MethodDef(i) => spec_validate_table_idx(i.0, TableId::MethodDef, rc),
        MemberRefParent::TypeSpec(i) => spec_validate_table_idx(i.0, TableId::TypeSpec, rc),
    }
}

/// Check a stored MemberRefParent against the row counts.
pub fn check_member_ref_parent(v: &MemberRefParent, rc: &RowCounts) -> (r: Result<
    (),
    DecodeError,
>)
    ensures
        r == spec_check_member_ref_parent(*v, rc@),
        r is Ok <==> member_ref_parent_wf(*v, rc@),
        r is Err ==> r->Err_0 is IndexOutOfRange,
{
    match v {
        MemberRefParent::TypeDef(i) => validate_table_idx(i.0, TableId::TypeDef, rc),
        MemberRefParent::TypeRef(i) => validate_table_idx(i.0, TableId::TypeRef, rc),
        MemberRefParent::ModuleRef(i) => validate_table_idx(i.0, TableId::ModuleRef, rc),
        MemberRefParent::MethodDef(i) => validate_table_idx(i.0, TableId::MethodDef, rc),
        MemberRefParent::TypeSpec(i) => validate_table_idx(i.0, TableId::TypeSpec, rc),
    }
}

/// A composite index into Event or Property (one tag bit).
#[derive(Debug, Clone, Copy)]
pub enum HasSemantics {
    Event(Index<EventEntry>),
    Property(Index<PropertyEntry>),
}

impl HasSemantics {
    /// The largest row count among this composite's target tables.
    pub open spec fn spec_max_rows(rc: Seq<u32>) -> u32 {
        spec_max2(spec_count(rc, TableId::Event), spec_count(rc, TableId::Property))
    }

    pub open spec fn spec_read(d: Seq<u8>, pos: int, rc: Seq<u32>) -> Result<
        (HasSemantics, int),
        DecodeError,
    > {
        match spec_tagged(d, pos, 1, Self::spec_max_rows(rc)) {
            Err(e) => Err(e),
            Ok((ti, p)) => if ti.tag == 0 {
                Ok((HasSemantics::Event(mk_idx(ti.index)), p))
            } else {
                Ok((HasSemantics::Property(mk_idx(ti.index)), p))
            },
        }
    }

    /// Decode a HasSemantics composite index.
    pub fn read_from(d: &Vec<u8>, pos: usize, row_counts: &RowCounts) -> (r: Result<
        (HasSemantics, usize),
        DecodeError,
    >)
        ensures
            res_pos_eq(r, Self::spec_read(d@, pos as int, row_counts@)),
    {
        let max_size = max2(row_counts.get(TableId::Event), row_counts.get(TableId::Property));
        let (ti, p) = TaggedIndex::read_from(d, pos, 1, max_size)?;
        if ti.tag == 0 {
            Ok((HasSemantics::Event(Index::new(ti.index)), p))
        } else {
            Ok((HasSemantics::Property(Index::new(ti.index)), p))
        }
    }
}

/// A composite index into MethodDef or MemberRef (one tag bit).
#[derive(Debug, Clone, Copy)]
pub enum MethodDefOrRef {
    MethodDef(Index<MethodDefEntry>),
    MethodRef(Index<MemberRefEntry>),
}

impl MethodDefOrRef {
    /// The largest row count among this composite's target tables.
    pub open spec fn spec_max_rows(rc: Seq<u32>) -> u32 {
        spec_max2(spec_count(rc, TableId::MethodDef), spec_count(rc, TableId::MemberRef))
    }

    pub open spec fn spec_read(d: Seq<u8>, pos: int, rc: Seq<u32>) -> Result<
        (MethodDefOrRef, int),
        DecodeError,
    > {
        match spec_tagged(d, pos, 1, Self::spec_max_rows(rc)) {
            Err(e) => Err(e),
            Ok((ti, p)) => if ti.tag == 0 {
                Ok((MethodDefOrRef::MethodDef(mk_idx(ti.index)), p))
            } else {
                Ok((MethodDefOrRef::MethodRef(mk_idx(ti.index)), p))
            },
        }
    }

    /// Decode a MethodDefOrRef composite index.
    pub fn read_from(d: &Vec<u8>, pos: usize, row_counts: &RowCounts) -> (r: Result<
        (MethodDefOrRef, usize),
        DecodeError,
    >)
        ensures
            res_pos_eq(r, Self::spec_read(d@, pos as int, row_counts@)),
    {
        let max_size = max2(row_counts.get(TableId::MethodDef), row_counts.get(TableId::MemberRef));
        let (ti, p) = TaggedIndex::read_from(d, pos, 1, max_size)?;
        if ti.tag == 0 {
            Ok((MethodDefOrRef::MethodDef(Index::new(ti.index)), p))
        } else {
            Ok((MethodDefOrRef::MethodRef(Index::new(ti.index)), p))
        }
    }
}

/// A composite index into Field or MethodDef (one tag bit).
#[derive(Debug, Clone, Copy)]
pub enum MemberForwarded {
    Field(Index<FieldEntry>),
    MethodDef(Index<MethodDefEntry>),
}

impl MemberForwarded {
    /// The largest row count among this composite's target tables.
    pub open spec fn spec_max_rows(rc: Seq<u32>) -> u32 {
        spec_max2(spec_count(rc, TableId::Field), spec_count(rc, TableId::MethodDef))
    }

    pub open spec fn spec_read(d: Seq<u8>, pos: int, rc: Seq<u32>) -> Result<
        (MemberForwarded, int),
        DecodeError,
    > {
        match spec_tagged(d, pos, 1, Self::spec_max_rows(rc)) {
            Err(e) => Err(e),
            Ok((ti, p)) => if ti.tag == 0 {
                Ok((MemberForwarded::Field(mk_idx(ti.index)), p))
            } else {
                Ok((MemberForwarded::MethodDef(mk_idx(ti.index)), p))
            },
        }
    }

    /// Decode a MemberForwarded composite index.
    pub fn read_from(d: &Vec<u8>, pos: usize, row_counts: &RowCounts) -> (r: Result<
        (MemberForwarded, usize),
        DecodeError,
    >)
        ensures
            res_pos_eq(r, Self::spec_read(d@, pos as int, row_counts@)),
    {
        let max_size = max2(row_counts.get(TableId::Field), row_counts.get(TableId::MethodDef));
        let (ti, p) = TaggedIndex::read_from(d, pos, 1, max_size)?;
        if ti.tag == 0 {
            Ok((MemberForwarded::Field(Index::new(ti.index)), p))
        } else {
            Ok((MemberForwarded::MethodDef(Index::new(ti.index)), p))
        }
    }
}

/// A composite index into File, AssemblyRef or ExportedType (two tag
/// bits).
#[derive(Debug, Clone, Copy)]
pub enum Implementation {
    File(Index<FileEntry>),
    AssemblyRef(Index<AssemblyRefEntry>),
    ExportedType(Index<ExportedTypeEntry>),
}

impl Implementation {
    /// The largest row count among this composite's target tables.
    pub open spec fn spec_max_rows(rc: Seq<u32>) -> u32 {
        spec_max2(
            spec_count(rc, TableId::File),
            spec_max2(spec_count(rc, TableId::AssemblyRef), spec_count(rc, TableId::ExportedType)),
        )
    }

    pub open spec fn spec_read(d: Seq<u8>, pos: int, rc: Seq<u32>) -> Result<
        (Implementation, int),
        DecodeError,
    > {
        match spec_tagged(d, pos, 2, Self::spec_max_rows(rc)) {
            Err(e) => Err(e),
            Ok((ti, p)) => if ti.tag == 0 {
                Ok((Implementation::File(mk_idx(ti.index)), p))
            } else if ti.tag == 1 {
                Ok((Implementation::AssemblyRef(mk_idx(ti.index)), p))
            } else if ti.tag == 2 {
                Ok((Implementation::ExportedType(mk_idx(ti.index)), p))
            } else {
                Err(DecodeError::ReservedTag(CompositeKind::Implementation, ti.tag))
            },
        }
    }

    /// Decode an Implementation composite index.
    pub fn read_from(d: &Vec<u8>, pos: usize, row_counts: &RowCounts) -> (r: Result<
        (Implementation, usize),
        DecodeError,
    >)
        ensures
            res_pos_eq(r, Self::spec_read(d@, pos as int, row_counts@)),
    {
        let max_size = max2(
            row_counts.get(TableId::File),
            max2(row_counts.get(TableId::AssemblyRef), row_counts.get(TableId::ExportedType)),
        );
        let (ti, p) = TaggedIndex::read_from(d, pos, 2, max_size)?;
        match ti.tag {
            0 => Ok((Implementation::File(Index::new(ti.index)), p)),
            1 => Ok((Implementation::AssemblyRef(Index::new(ti.index)), p)),
            2 => Ok((Implementation::ExportedType(Index::new(ti.index)), p)),
            t => Err(DecodeError::ReservedTag(CompositeKind::Implementation, t)),
        }
    }
}

/// A composite index into MethodDef or MemberRef (three tag bits); only
/// tags two and three are defined, the rest are reserved.
#[derive(Debug, Clone, Copy)]
pub enum CustomAttributeType {
    MethodDef(Index<MethodDefEntry>),
    MemberRef(Index<MemberRefEntry>),
}

impl CustomAttributeType {
    /// The largest row count among this composite's target tables.
    pub open spec fn spec_max_rows(rc: Seq<u32>) -> u32 {
        spec_max2(spec_count(rc, TableId::MethodDef), spec_count(rc, TableId::MemberRef))
    }

    pub open spec fn spec_read(d: Seq<u8>, pos: int, rc: Seq<u32>) -> Result<
        (CustomAttributeType, int),
        DecodeError,
    > {
        match spec_tagged(d, pos, 3, Self::spec_max_rows(rc)) {
            Err(e) => Err(e),
            Ok((ti, p)) => if ti.tag == 2 {
                Ok((CustomAttributeType::MethodDef(mk_idx(ti.index)), p))
            } else if ti.tag == 3 {
                Ok((CustomAttributeType::MemberRef(mk_idx(ti.index)), p))
            } else {
                Err(DecodeError::ReservedTag(CompositeKind::CustomAttributeType, ti.tag))
            },
        }
    }

    /// Decode a CustomAttributeType composite index.
    pub fn read_from(d: &Vec<u8>, pos: usize, row_counts: &RowCounts) -> (r: Result<
        (CustomAttributeType, usize),
        DecodeError,
    >)
        ensures
            res_pos_eq(r, Self::spec_read(d@, pos as int, row_counts@)),
    {
        let max_size = max2(row_counts.get(TableId::MethodDef), row_counts.get(TableId::MemberRef));
        let (ti, p) = TaggedIndex::read_from(d, pos, 3, max_size)?;
        match ti.tag {
            2 => Ok((CustomAttributeType::MethodDef(Index::new(ti.index)), p)),
            3 => Ok((CustomAttributeType::MemberRef(Index::new(ti.index)), p)),
            t => Err(DecodeError::ReservedTag(CompositeKind::CustomAttributeType, t)),
        }
    }
}

/// A stored CustomAttributeType is valid when its row number fits its
/// target.
pub open spec fn custom_attribute_type_wf(v: CustomAttributeType, rc: Seq<u32>) -> bool {
    match v {
        CustomAttributeType::MethodDef(i) => idx_ok(i.0, spec_count(rc, TableId::MethodDef)),
        CustomAttributeType::MemberRef(i) => idx_ok(i.0, spec_count(rc, TableId::MemberRef)),
    }
}

/// The exact verdict on a stored CustomAttributeType.
pub open spec fn spec_check_custom_attribute_type(v: CustomAttributeType, rc: Seq<u32>) -> Result<
    (),
    DecodeError,
> {
    match v {
        CustomAttributeType::MethodDef(i) => spec_validate_table_idx(i.0, TableId::MethodDef, rc),
        CustomAttributeType::MemberRef(i) => spec_validate_table_idx(i.0, TableId::MemberRef, rc),
    }
}

/// Check a stored CustomAttributeType against the row counts.
pub fn check_custom_attribute_type(v: &CustomAttributeType, rc: &RowCounts) -> (r: Result<
    (),
    DecodeError,
>)
    ensures
        r == spec_check_custom_attribute_type(*v, rc@),
        r is Ok <==> custom_attribute_type_wf(*v, rc@),
        r is Err ==> r->Err_0 is IndexOutOfRange,
{
    match v {
        CustomAttributeType::MethodDef(i) => validate_table_idx(i.0, TableId::MethodDef, rc),
        CustomAttributeType::MemberRef(i) => validate_table_idx(i.0, TableId::MemberRef, rc),
    }
}

/// A composite index into Module, ModuleRef, AssemblyRef or TypeRef (two
/// tag bits).
#[derive(Debug, Clone, Copy)]
pub enum ResolutionScope {
    Module(Index<ModuleEntry>),
    ModuleRef(Index<ModuleRefEntry>),
    AssemblyRef(Index<AssemblyRefEntry>),
    TypeRef(Index<TypeRefEntry>),
}

impl ResolutionScope {
    /// The largest row count among this composite's target tables.
    pub open spec fn spec_max_rows(rc: Seq<u32>) -> u32 {
        spec_max2(
            spec_count(rc, TableId::Module),
            spec_max2(
                spec_count(rc, TableId::ModuleRef),
                spec_max2(
                    spec_count(rc, TableId::AssemblyRef),
                    spec_count(rc, TableId::TypeRef),
                ),
            ),
        )
    }

    pub open spec fn spec_read(d: Seq<u8>, pos: int, rc: Seq<u32>) -> Result<
        (ResolutionScope, int),
        DecodeError,
    > {
        match spec_tagged(d, pos, 2, Self::spec_max_rows(rc)) {
            Err(e) => Err(e),
            Ok((ti, p)) => if ti.tag == 0 {
                Ok((ResolutionScope::Module(mk_idx(ti.index)), p))
            } else if ti.tag == 1 {
                Ok((ResolutionScope::ModuleRef(mk_idx(ti.index)), p))
            } else if ti.tag == 2 {
                Ok((ResolutionScope::AssemblyRef(mk_idx(ti.index)), p))
            } else {
                Ok((ResolutionScope::TypeRef(mk_idx(ti.index)), p))
            },
        }
    }

    /// Decode a ResolutionScope composite index.
    pub fn read_from(d: &Vec<u8>, pos: usize, row_counts: &RowCounts) -> (r: Result<
        (ResolutionScope, usize),
        DecodeError,
    >)
        ensures
            res_pos_eq(r, Self::spec_read(d@, pos as int, row_counts@)),
    {
        let max_size = max2(
            row_counts.get(TableId::Module),
            max2(
                row_counts.get(TableId::ModuleRef),
                max2(row_counts.get(TableId::AssemblyRef), row_counts.get(TableId::TypeRef)),
            ),
        );
        let (ti, p) = TaggedIndex::read_from(d, pos, 2, max_size)?;
        match ti.tag {
            0 => Ok((ResolutionScope::Module(Index::new(ti.index)), p)),
            1 => Ok((ResolutionScope::ModuleRef(Index::new(ti.index)), p)),
            2 => Ok((ResolutionScope::AssemblyRef(Index::new(ti.index)), p)),
            _ => Ok((ResolutionScope::TypeRef(Index::new(ti.index)), p)),
        }
    }
}

/// A stored ResolutionScope is valid when its row number fits its target.
pub open spec fn resolution_scope_wf(v: ResolutionScope, rc: Seq<u32>) -> bool {
    match v {
        ResolutionScope::Module(i) => idx_ok(i.0, spec_count(rc, TableId::Module)),
        ResolutionScope::ModuleRef(i) => idx_ok(i.0, spec_count(rc, TableId::ModuleRef)),
        ResolutionScope::AssemblyRef(i) => idx_ok(i.0, spec_count(rc, TableId::AssemblyRef)),
        ResolutionScope::TypeRef(i) => idx_ok(i.0, spec_count(rc, TableId::TypeRef)),
    }
}

/// The exact verdict on a stored ResolutionScope.
pub open spec fn spec_check_resolution_scope(v: ResolutionScope, rc: Seq<u32>) -> Result<
    (),
    DecodeError,
> {
    match v {
        ResolutionScope::Module(i) => spec_validate_table_idx(i.0, TableId::Module, rc),
        ResolutionScope::ModuleRef(i) => spec_validate_table_idx(i.0, TableId::ModuleRef, rc),
        ResolutionScope::AssemblyRef(i) => spec_validate_table_idx(i.0, TableId::AssemblyRef, rc),
        ResolutionScope::TypeRef(i) => spec_validate_table_idx(i.0, TableId::TypeRef, rc),
    }
}

/// Check a stored ResolutionScope against the row counts.
pub fn check_resolution_scope(v: &ResolutionScope, rc: &RowCounts) -> (r: Result<(), DecodeError>)
    ensures
        r == spec_check_resolution_scope(*v, rc@),
        r is Ok <==> resolution_scope_wf(*v, rc@),
        r is Err ==> r->Err_0 is IndexOutOfRange,
{
    match v {
        ResolutionScope::Module(i) => validate_table_idx(i.0, TableId::Module, rc),
        ResolutionScope::ModuleRef(i) => validate_table_idx(i.0, TableId::ModuleRef, rc),
        ResolutionScope::AssemblyRef(i) => validate_table_idx(i.0, TableId::AssemblyRef, rc),
        ResolutionScope::TypeRef(i) => validate_table_idx(i.0, TableId::TypeRef, rc),
    }
}

/// A composite index into TypeDef or MethodDef (one tag bit).
#[derive(Debug, Clone, Copy)]
pub enum TypeOrMethodDef {
    TypeDef(Index<TypeDefEntry>),
    MethodDef(Index<MethodDefEntry>),
}

impl TypeOrMethodDef {
    /// The largest row count among this composite's target tables.
    pub open spec fn spec_max_rows(rc: Seq<u32>) -> u32 {
        spec_max2(spec_count(rc, TableId::TypeDef), spec_count(rc, TableId::MethodDef))
    }

    pub open spec fn spec_read(d: Seq<u8>, pos: int, rc: Seq<u32>) -> Result<
        (TypeOrMethodDef, int),
        DecodeError,
    > {
        match spec_tagged(d, pos, 1, Self::spec_max_rows(rc)) {
            Err(e) => Err(e),
            Ok((ti, p)) => if ti.tag == 0 {
                Ok((TypeOrMethodDef::TypeDef(mk_idx(ti.index)), p))
            } else {
                Ok((TypeOrMethodDef::MethodDef(mk_idx(ti.index)), p))
            },
        }
    }

    /// Decode a TypeOrMethodDef composite index.
    pub fn read_from(d: &Vec<u8>, pos: usize, row_counts: &RowCounts) -> (r: Result<
        (TypeOrMethodDef, usize),
        DecodeError,
    >)
        ensures
            res_pos_eq(r, Self::spec_read(d@, pos as int, row_counts@)),
    {
        let max_size = max2(row_counts.get(TableId::TypeDef), row_counts.get(TableId::MethodDef));
        let (ti, p) = TaggedIndex::read_from(d, pos, 1, max_size)?;
        if ti.tag == 0 {
            Ok((TypeOrMethodDef::TypeDef(Index::new(ti.index)), p))
        } else {
            Ok((TypeOrMethodDef::MethodDef(Index::new(ti.index)), p))
        }
    }
}

impl ModuleEntry {
    pub open spec fn spec_read_entry(d: Seq<u8>, pos: int, hs: HeapOffsetSizes, rc: Seq<u32>)
        -> Result<(ModuleEntry, int), DecodeError> {
        match reader::spec_read_u16(d, pos) {
            Err(e) => Err(e),
            Ok((generation, p1)) => match spec_read_index(d, p1, hs.string_index) {
                Err(e) => Err(e),
                Ok((name, p2)) => match spec_read_index(d, p2, hs.guid_index) {
                    Err(e) => Err(e),
                    Ok((mv_id, p3)) => match spec_read_index(d, p3, hs.guid_index) {
                        Err(e) => Err(e),
                        Ok((enc_id, p4)) => match spec_read_index(d, p4, hs.guid_index) {
                            Err(e) => Err(e),
                            Ok((enc_base_id, p5)) => Ok(
                                (
                                    ModuleEntry {
                                        generation,
                                        name: mk_idx(name),
                                        mv_id: mk_idx(mv_id),
                                        enc_id: mk_idx(enc_id),
                                        enc_base_id: mk_idx(enc_base_id),
                                    },
                                    p5,
                                ),
                            ),
                        },
                    },
                },
            },
        }
    }

    /// Decode one Module row.
    pub fn read_entry(d: &Vec<u8>, pos: usize, sizes: &FieldSizes) -> (r: Result<
        (ModuleEntry, usize),
        DecodeError,
    >)
        ensures
            res_pos_eq(
                r,
                Self::spec_read_entry(d@, pos as int, sizes.heap_sizes, sizes.row_counts@),
            ),
    {
        let (generation, p1) = reader::read_u16(d, pos)?;
        let (name, p2) = read_string(d, p1, sizes)?;
        let (mv_id, p3) = read_guid(d, p2, sizes)?;
        let (enc_id, p4) = read_guid(d, p3, sizes)?;
        let (enc_base_id, p5) = read_guid(d, p4, sizes)?;
        Ok((ModuleEntry { generation, name, mv_id, enc_id, enc_base_id }, p5))
    }
}

/// All indices of a Module row are null or in bounds.
pub open spec fn module_wf(m: ModuleEntry, ext: HeapExtents) -> bool {
    &&& heap_ok(m.name.0, ext.string_size)
    &&& guid_ok(m.mv_id.0, ext.guid_size)
    &&& guid_ok(m.enc_id.0, ext.guid_size)
    &&& guid_ok(m.enc_base_id.0, ext.guid_size)
}

/// The exact verdict on a Module row: the first offending index wins.
pub open spec fn spec_check_module(m: ModuleEntry, ext: HeapExtents) -> Result<(), DecodeError> {
    match spec_validate_string_idx(m.name.0, ext) {
        Err(e) => Err(e),
        Ok(u) => match spec_validate_guid_idx(m.mv_id.0, ext) {
            Err(e) => Err(e),
            Ok(u2) => match spec_validate_guid_idx(m.enc_id.0, ext) {
                Err(e) => Err(e),
                Ok(u3) => spec_validate_guid_idx(m.enc_base_id.0, ext),
            },
        },
    }
}

/// Check a Module row against the heap extents.
pub fn check_module(m: &ModuleEntry, ext: &HeapExtents) -> (r: Result<(), DecodeError>)
    ensures
        r == spec_check_module(*m, *ext),
        r is Ok <==> module_wf(*m, *ext),
        r is Err ==> r->Err_0 is IndexOutOfRange,
{
    validate_string_idx(m.name.0, ext)?;
    validate_guid_idx(m.mv_id.0, ext)?;
    validate_guid_idx(m.enc_id.0, ext)?;
    validate_guid_idx(m.enc_base_id.0, ext)?;
    Ok(())
}

impl TypeRefEntry {
    pub open spec fn spec_read_entry(d: Seq<u8>, pos: int, hs: HeapOffsetSizes, rc: Seq<u32>)
        -> Result<(TypeRefEntry, int), DecodeError> {
        match ResolutionScope::spec_read(d, pos, rc) {
            Err(e) => Err(e),
            Ok((resolution_scope, p1)) => match spec_read_index(d, p1, hs.string_index) {
                Err(e) => Err(e),
                Ok((name, p2)) => match spec_read_index(d, p2, hs.string_index) {
                    Err(e) => Err(e),
                    Ok((namespace, p3)) => Ok(
                        (
                            TypeRefEntry {
                                resolution_scope,
                                name: mk_idx(name),
                                namespace: mk_idx(namespace),
                            },
                            p3,
                        ),
                    ),
                },
            },
        }
    }

    /// Decode one TypeRef row.
    pub fn read_entry(d: &Vec<u8>, pos: usize, sizes: &FieldSizes) -> (r: Result<
        (TypeRefEntry, usize),
        DecodeError,
    >)
        ensures
            res_pos_eq(
                r,
                Self::spec_read_entry(d@, pos as int, sizes.heap_sizes, sizes.row_counts@),
            ),
    {
        let (resolution_scope, p1) = ResolutionScope::read_from(d, pos, &sizes.row_counts)?;
        let (name, p2) = read_string(d, p1, sizes)?;
        let (namespace, p3) = read_string(d, p2, sizes)?;
        Ok((TypeRefEntry { resolution_scope, name, namespace }, p3))
    }
}

/// All indices of a TypeRef row are null or in bounds.
pub open spec fn type_ref_wf(t: TypeRefEntry, rc: Seq<u32>, ext: HeapExtents) -> bool {
    &&& resolution_scope_wf(t.resolution_scope, rc)
    &&& heap_ok(t.name.0, ext.string_size)
    &&& heap_ok(t.namespace.0, ext.string_size)
}

/// The exact verdict on a TypeRef row: the first offending index wins.
pub open spec fn spec_check_type_ref(t: TypeRefEntry, rc: Seq<u32>, ext: HeapExtents) -> Result<
    (),
    DecodeError,
> {
    match spec_check_resolution_scope(t.resolution_scope, rc) {
        Err(e) => Err(e),
        Ok(u) => match spec_validate_string_idx(t.name.0, ext) {
            Err(e) => Err(e),
            Ok(u2) => spec_validate_string_idx(t.namespace.0, ext),
        },
    }
}

/// Check a TypeRef row against the row counts and heap extents.
pub fn check_type_ref(t: &TypeRefEntry, rc: &RowCounts, ext: &HeapExtents) -> (r: Result<
    (),
    DecodeError,
>)
    ensures
        r == spec_check_type_ref(*t, rc@, *ext),
        r is Ok <==> type_ref_wf(*t, rc@, *ext),
        r is Err ==> r->Err_0 is IndexOutOfRange,
{
    check_resolution_scope(&t.resolution_scope, rc)?;
    validate_string_idx(t.name.0, ext)?;
    validate_string_idx(t.namespace.0, ext)?;
    Ok(())
}

impl TypeDefEntry {
    pub open spec fn spec_read_entry(d: Seq<u8>, pos: int, hs: HeapOffsetSizes, rc: Seq<u32>)
        -> Result<(TypeDefEntry, int), DecodeError> {
        match reader::spec_read_u32(d, pos) {
            Err(e) => Err(e),
            Ok((flags, p1)) => match spec_read_index(d, p1, hs.string_index) {
                Err(e) => Err(e),
                Ok((name, p2)) => match spec_read_index(d, p2, hs.string_index) {
                    Err(e) => Err(e),
                    Ok((namespace, p3)) => match TypeDefOrRef::spec_read(d, p3, rc) {
                        Err(e) => Err(e),
                        Ok((extends, p4)) => match spec_read_index(
                            d,
                            p4,
                            crate::stream::spec_index_size(rc, TableId::Field),
                        ) {
                            Err(e) => Err(e),
                            Ok((fields, p5)) => match spec_read_index(
                                d,
                                p5,
                                crate::stream::spec_index_size(rc, TableId::MethodDef),
                            ) {
                                Err(e) => Err(e),
                                Ok((methods, p6)) => Ok(
                                    (
                                        TypeDefEntry {
                                            flags,
                                            name: mk_idx(name),
                                            namespace: mk_idx(namespace),
                                            extends,
                                            fields: mk_idx(fields),
                                            methods: mk_idx(methods),
                                        },
                                        p6,
                                    ),
                                ),
                            },
                        },
                    },
                },
            },
        }
    }

    /// Decode one TypeDef row; the flags word is stored raw.
    pub fn read_entry(d: &Vec<u8>, pos: usize, sizes: &FieldSizes) -> (r: Result<
        (TypeDefEntry, usize),
        DecodeError,
    >)
        ensures
            res_pos_eq(
                r,
                Self::spec_read_entry(d@, pos as int, sizes.heap_sizes, sizes.row_counts@),
            ),
    {
        let (flags, p1) = reader::read_u32(d, pos)?;
        let (name, p2) = read_string(d, p1, sizes)?;
        let (namespace, p3) = read_string(d, p2, sizes)?;
        let (extends, p4) = TypeDefOrRef::read_from(d, p3, &sizes.row_counts)?;
        let (fields, p5) = read_table_index(d, p4, sizes, TableId::Field)?;
        let (methods, p6) = read_table_index(d, p5, sizes, TableId::MethodDef)?;
        Ok((TypeDefEntry { flags, name, namespace, extends, fields, methods }, p6))
    }
}

/// All indices of a TypeDef row are null or in bounds.
pub open spec fn type_def_wf(t: TypeDefEntry, rc: Seq<u32>, ext: HeapExtents) -> bool {
    &&& heap_ok(t.name.0, ext.string_size)
    &&& heap_ok(t.namespace.0, ext.string_size)
    &&& type_def_or_ref_wf(t.extends, rc)
    &&& idx_ok(t.fields.0, spec_count(rc, TableId::Field))
    &&& idx_ok(t.methods.0, spec_count(rc, TableId::MethodDef))
}

/// The exact verdict on a TypeDef row: the first offending index wins.
pub open spec fn spec_check_type_def(t: TypeDefEntry, rc: Seq<u32>, ext: HeapExtents) -> Result<
    (),
    DecodeError,
> {
    match spec_validate_string_idx(t.name.0, ext) {
        Err(e) => Err(e),
        Ok(u) => match spec_validate_string_idx(t.namespace.0, ext) {
            Err(e) => Err(e),
            Ok(u2) => match spec_check_type_def_or_ref(t.extends, rc) {
                Err(e) => Err(e),
                Ok(u3) => match spec_validate_table_idx(t.fields.0, TableId::Field, rc) {
                    Err(e) => Err(e),
                    Ok(u4) => spec_validate_table_idx(t.methods.0, TableId::MethodDef, rc),
                },
            },
        },
    }
}

/// Check a TypeDef row against the row counts and heap extents.
pub fn check_type_def(t: &TypeDefEntry, rc: &RowCounts, ext: &HeapExtents) -> (r: Result<
    (),
    DecodeError,
>)
    ensures
        r == spec_check_type_def(*t, rc@, *ext),
        r is Ok <==> type_def_wf(*t, rc@, *ext),
        r is Err ==> r->Err_0 is IndexOutOfRange,
{
    validate_string_idx(t.name.0, ext)?;
    validate_string_idx(t.namespace.0, ext)?;
    check_type_def_or_ref(&t.extends, rc)?;
    validate_table_idx(t.fields.0, TableId::Field, rc)?;
    validate_table_idx(t.methods.0, TableId::MethodDef, rc)?;
    Ok(())
}

impl MethodDefEntry {
    pub open spec fn spec_read_entry(d: Seq<u8>, pos: int, hs: HeapOffsetSizes, rc: Seq<u32>)
        -> Result<(MethodDefEntry, int), DecodeError> {
        match reader::spec_read_u32(d, pos) {
            Err(e) => Err(e),
            Ok((rva, p1)) => match reader::spec_read_u16(d, p1) {
                Err(e) => Err(e),
                Ok((impl_flags, p2)) => match reader::spec_read_u16(d, p2) {
                    Err(e) => Err(e),
                    Ok((flags, p3)) => match spec_read_index(d, p3, hs.string_index) {
                        Err(e) => Err(e),
                        Ok((name, p4)) => match spec_read_index(d, p4, hs.blob_index) {
                            Err(e) => Err(e),
                            Ok((signature, p5)) => match spec_read_index(
                                d,
                                p5,
                                crate::stream::spec_index_size(rc, TableId::Param),
                            ) {
                                Err(e) => Err(e),
                                Ok((param_list, p6)) => Ok(
                                    (
                                        MethodDefEntry {
                                            rva,
                                            impl_flags,
                                            flags,
                                            name: mk_idx(name),
                                            signature: mk_idx(signature),
                                            param_list: mk_idx(param_list),
                                        },
                                        p6,
                                    ),
                                ),
                            },
                        },
                    },
                },
            },
        }
    }

    /// Decode one MethodDef row.
    pub fn read_entry(d: &Vec<u8>, pos: usize, sizes: &FieldSizes) -> (r: Result<
        (MethodDefEntry, usize),
        DecodeError,
    >)
        ensures
            res_pos_eq(
                r,
                Self::spec_read_entry(d@, pos as int, sizes.heap_sizes, sizes.row_counts@),
            ),
    {
        let (rva, p1) = reader::read_u32(d, pos)?;
        let (impl_flags, p2) = reader::read_u16(d, p1)?;
        let (flags, p3) = reader::read_u16(d, p2)?;
        let (name, p4) = read_string(d, p3, sizes)?;
        let (signature, p5) = read_blob(d, p4, sizes)?;
        let (param_list, p6) = read_table_index(d, p5, sizes, TableId::Param)?;
        Ok((MethodDefEntry { rva, impl_flags, flags, name, signature, param_list }, p6))
    }
}

/// All indices of a MethodDef row are null or in bounds.
pub open spec fn method_def_wf(m: MethodDefEntry, rc: Seq<u32>, ext: HeapExtents) -> bool {
    &&& heap_ok(m.name.0, ext.string_size)
    &&& heap_ok(m.signature.0, ext.blob_size)
    &&& idx_ok(m.param_list.0, spec_count(rc, TableId::Param))
}

/// The exact verdict on a MethodDef row: the first offending index wins.
pub open spec fn spec_check_method_def(m: MethodDefEntry, rc: Seq<u32>, ext: HeapExtents)
    -> Result<(), DecodeError> {
    match spec_validate_string_idx(m.name.0, ext) {
        Err(e) => Err(e),
        Ok(u) => match spec_validate_blob_idx(m.signature.0, ext) {
            Err(e) => Err(e),
            Ok(u2) => spec_validate_table_idx(m.param_list.0, TableId::Param, rc),
        },
    }
}

/// Check a MethodDef row against the row counts and heap extents.
pub fn check_method_def(m: &MethodDefEntry, rc: &RowCounts, ext: &HeapExtents) -> (r: Result<
    (),
    DecodeError,
>)
    ensures
        r == spec_check_method_def(*m, rc@, *ext),
        r is Ok <==> method_def_wf(*m, rc@, *ext),
        r is Err ==> r->Err_0 is IndexOutOfRange,
{
    validate_string_idx(m.name.0, ext)?;
    validate_blob_idx(m.signature.0, ext)?;
    validate_table_idx(m.param_list.0, TableId::Param, rc)?;
    Ok(())
}

impl ParamEntry {
    pub open spec fn spec_read_entry(d: Seq<u8>, pos: int, hs: HeapOffsetSizes, rc: Seq<u32>)
        -> Result<(ParamEntry, int), DecodeError> {
        match reader::spec_read_u16(d, pos) {
            Err(e) => Err(e),
            Ok((flags, p1)) => match reader::spec_read_u16(d, p1) {
                Err(e) => Err(e),
                Ok((sequence, p2)) => match spec_read_index(d, p2, hs.string_index) {
                    Err(e) => Err(e),
                    Ok((name, p3)) => Ok((ParamEntry { flags, sequence, name: mk_idx(name) }, p3)),
                },
            },
        }
    }

    /// Decode one Param row.
    pub fn read_entry(d: &Vec<u8>, pos: usize, sizes: &FieldSizes) -> (r: Result<
        (ParamEntry, usize),
        DecodeError,
    >)
        ensures
            res_pos_eq(
                r,
                Self::spec_read_entry(d@, pos as int, sizes.heap_sizes, sizes.row_counts@),
            ),
    {
        let (flags, p1) = reader::read_u16(d, pos)?;
        let (sequence, p2) = reader::read_u16(d, p1)?;
        let (name, p3) = read_string(d, p2, sizes)?;
        Ok((ParamEntry { flags, sequence, name }, p3))
    }
}

/// All indices of a Param row are null or in bounds.
pub open spec fn param_wf(p: ParamEntry, ext: HeapExtents) -> bool {
    heap_ok(p.name.0, ext.string_size)
}

/// The exact verdict on a Param row.
pub open spec fn spec_check_param(p: ParamEntry, ext: HeapExtents) -> Result<(), DecodeError> {
    spec_validate_string_idx(p.name.0, ext)
}

/// Check a Param row against the heap extents.
pub fn check_param(p: &ParamEntry, ext: &HeapExtents) -> (r: Result<(), DecodeError>)
    ensures
        r == spec_check_param(*p, *ext),
        r is Ok <==> param_wf(*p, *ext),
        r is Err ==> r->Err_0 is IndexOutOfRange,
{
    validate_string_idx(p.name.0, ext)
}

impl MemberRefEntry {
    pub open spec fn spec_read_entry(d: Seq<u8>, pos: int, hs: HeapOffsetSizes, rc: Seq<u32>)
        -> Result<(MemberRefEntry, int), DecodeError> {
        match MemberRefParent::spec_read(d, pos, rc) {
            Err(e) => Err(e),
            Ok((class, p1)) => match spec_read_index(d, p1, hs.string_index) {
                Err(e) => Err(e),
                Ok((name, p2)) => match spec_read_index(d, p2, hs.blob_index) {
                    Err(e) => Err(e),
                    Ok((signature, p3)) => Ok(
                        (
                            MemberRefEntry {
                                class,
                                name: mk_idx(name),
                                signature: mk_idx(signature),
                            },
                            p3,
                        ),
                    ),
                },
            },
        }
    }

    /// Decode one MemberRef row.
    pub fn read_entry(d: &Vec<u8>, pos: usize, sizes: &FieldSizes) -> (r: Result<
        (MemberRefEntry, usize),
        DecodeError,
    >)
        ensures
            res_pos_eq(
                r,
                Self::spec_read_entry(d@, pos as int, sizes.heap_sizes, sizes.row_counts@),
            ),
    {
        let (class, p1) = MemberRefParent::read_from(d, pos, &sizes.row_counts)?;
        let (name, p2) = read_string(d, p1, sizes)?;
        let (signature, p3) = read_blob(d, p2, sizes)?;
        Ok((MemberRefEntry { class, name, signature }, p3))
    }
}

/// All indices of a MemberRef row are null or in bounds.
pub open spec fn member_ref_wf(m: MemberRefEntry, rc: Seq<u32>, ext: HeapExtents) -> bool {
    &&& member_ref_parent_wf(m.class, rc)
    &&& heap_ok(m.name.0, ext.string_size)
    &&& heap_ok(m.signature.0, ext.blob_size)
}

/// The exact verdict on a MemberRef row: the first offending index wins.
pub open spec fn spec_check_member_ref(m: MemberRefEntry, rc: Seq<u32>, ext: HeapExtents)
    -> Result<(), DecodeError> {
    match spec_check_member_ref_parent(m.class, rc) {
        Err(e) => Err(e),
        Ok(u) => match spec_validate_string_idx(m.name.0, ext) {
            Err(e) => Err(e),
            Ok(u2) => spec_validate_blob_idx(m.signature.0, ext),
        },
    }
}

/// Check a MemberRef row against the row counts and heap extents.
pub fn check_member_ref(m: &MemberRefEntry, rc: &RowCounts, ext: &HeapExtents) -> (r: Result<
    (),
    DecodeError,
>)
    ensures
        r == spec_check_member_ref(*m, rc@, *ext),
        r is Ok <==> member_ref_wf(*m, rc@, *ext),
        r is Err ==> r->Err_0 is IndexOutOfRange,
{
    check_member_ref_parent(&m.class, rc)?;
    validate_string_idx(m.name.0, ext)?;
    validate_blob_idx(m.signature.0, ext)?;
    Ok(())
}

impl CustomAttributeEntry {
    pub open spec fn spec_read_entry(d: Seq<u8>, pos: int, hs: HeapOffsetSizes, rc: Seq<u32>)
        -> Result<(CustomAttributeEntry, int), DecodeError> {
        match HasCustomAttribute::spec_read(d, pos, rc) {
            Err(e) => Err(e),
            Ok((parent, p1)) => match CustomAttributeType::spec_read(d, p1, rc) {
                Err(e) => Err(e),
                Ok((constructor, p2)) => match spec_read_index(d, p2, hs.blob_index) {
                    Err(e) => Err(e),
                    Ok((value, p3)) => Ok(
                        (CustomAttributeEntry { parent, constructor, value: mk_idx(value) }, p3),
                    ),
                },
            },
        }
    }

    /// Decode one CustomAttribute row.
    pub fn read_entry(d: &Vec<u8>, pos: usize, sizes: &FieldSizes) -> (r: Result<
        (CustomAttributeEntry, usize),
        DecodeError,
    >)
        ensures
            res_pos_eq(
                r,
                Self::spec_read_entry(d@, pos as int, sizes.heap_sizes, sizes.row_counts@),
            ),
    {
        let (parent, p1) = HasCustomAttribute::read_from(d, pos, &sizes.row_counts)?;
        let (constructor, p2) = CustomAttributeType::read_from(d, p1, &sizes.row_counts)?;
        let (value, p3) = read_blob(d, p2, sizes)?;
        Ok((CustomAttributeEntry { parent, constructor, value }, p3))
    }
}

/// All indices of a CustomAttribute row are null or in bounds.
pub open spec fn custom_attribute_wf(c: CustomAttributeEntry, rc: Seq<u32>, ext: HeapExtents)
    -> bool {
    &&& has_custom_attribute_wf(c.parent, rc)
    &&& custom_attribute_type_wf(c.constructor, rc)
    &&& heap_ok(c.value.0, ext.blob_size)
}

/// The exact verdict on a CustomAttribute row: the first offending
/// index wins.
pub open spec fn spec_check_custom_attribute(
    c: CustomAttributeEntry,
    rc: Seq<u32>,
    ext: HeapExtents,
) -> Result<(), DecodeError> {
    match spec_check_has_custom_attribute(c.parent, rc) {
        Err(e) => Err(e),
        Ok(u) => match spec_check_custom_attribute_type(c.constructor, rc) {
            Err(e) => Err(e),
            Ok(u2) => spec_validate_blob_idx(c.value.0, ext),
        },
    }
}

/// Check a CustomAttribute row against the row counts and heap extents.
pub fn check_custom_attribute(c: &CustomAttributeEntry, rc: &RowCounts, ext: &HeapExtents) -> (r:
    Result<(), DecodeError>)
    ensures
        r == spec_check_custom_attribute(*c, rc@, *ext),
        r is Ok <==> custom_attribute_wf(*c, rc@, *ext),
        r is Err ==> r->Err_0 is IndexOutOfRange,
{
    check_has_custom_attribute(&c.parent, rc)?;
    check_custom_attribute_type(&c.constructor, rc)?;
    validate_blob_idx(c.value.0, ext)?;
    Ok(())
}

impl TypeSpecEntry {
    pub open spec fn spec_read_entry(d: Seq<u8>, pos: int, hs: HeapOffsetSizes, rc: Seq<u32>)
        -> Result<(TypeSpecEntry, int), DecodeError> {
        match spec_read_index(d, pos, hs.blob_index) {
            Err(e) => Err(e),
            Ok((signature, p1)) => Ok((TypeSpecEntry { signature: mk_idx(signature) }, p1)),
        }
    }

    /// Decode one TypeSpec row.
    pub fn read_entry(d: &Vec<u8>, pos: usize, sizes: &FieldSizes) -> (r: Result<
        (TypeSpecEntry, usize),
        DecodeError,
    >)
        ensures
            res_pos_eq(
                r,
                Self::spec_read_entry(d@, pos as int, sizes.heap_sizes, sizes.row_counts@),
            ),
    {
        let (signature, p1) = read_blob(d, pos, sizes)?;
        Ok((TypeSpecEntry { signature }, p1))
    }
}

/// All indices of a TypeSpec row are null or in bounds.
pub open spec fn type_spec_wf(t: TypeSpecEntry, ext: HeapExtents) -> bool {
    heap_ok(t.signature.0, ext.blob_size)
}

/// The exact verdict on a TypeSpec row.
pub open spec fn spec_check_type_spec(t: TypeSpecEntry, ext: HeapExtents) -> Result<
    (),
    DecodeError,
> {
    spec_validate_blob_idx(t.signature.0, ext)
}

/// Check a TypeSpec row against the heap extents.
pub fn check_type_spec(t: &TypeSpecEntry, ext: &HeapExtents) -> (r: Result<(), DecodeError>)
    ensures
        r == spec_check_type_spec(*t, *ext),
        r is Ok <==> type_spec_wf(*t, *ext),
        r is Err ==> r->Err_0 is IndexOutOfRange,
{
    validate_blob_idx(t.signature.0, ext)
}

impl AssemblyEntry {
    pub open spec fn spec_read_entry(d: Seq<u8>, pos: int, hs: HeapOffsetSizes, rc: Seq<u32>)
        -> Result<(AssemblyEntry, int), DecodeError> {
        match reader::spec_read_u32(d, pos) {
            Err(e) => Err(e),
            Ok((hash_algorithm, p1)) => match reader::spec_read_u16(d, p1) {
                Err(e) => Err(e),
                Ok((major_version, p2)) => match reader::spec_read_u16(d, p2) {
                    Err(e) => Err(e),
                    Ok((minor_version, p3)) => match reader::spec_read_u16(d, p3) {
                        Err(e) => Err(e),
                        Ok((build_number, p4)) => match reader::spec_read_u16(d, p4) {
                            Err(e) => Err(e),
                            Ok((revision_number, p5)) => match reader::spec_read_u32(d, p5) {
                                Err(e) => Err(e),
                                Ok((flags, p6)) => match spec_read_index(d, p6, hs.blob_index) {
                                    Err(e) => Err(e),
                                    Ok((public_key, p7)) => match spec_read_index(
                                        d,
                                        p7,
                                        hs.string_index,
                                    ) {
                                        Err(e) => Err(e),
                                        Ok((name, p8)) => match spec_read_index(
                                            d,
                                            p8,
                                            hs.string_index,
                                        ) {
                                            Err(e) => Err(e),
                                            Ok((culture, p9)) => Ok(
                                                (
                                                    AssemblyEntry {
                                                        hash_algorithm,
                                                        major_version,
                                                        minor_version,
                                                        build_number,
                                                        revision_number,
                                                        flags,
                                                        public_key: mk_idx(public_key),
                                                        name: mk_idx(name),
                                                        culture: mk_idx(culture),
                                                    },
                                                    p9,
                                                ),
                                            ),
                                        },
                                    },
                                },
                            },
                        },
                    },
                },
            },
        }
    }

    /// Decode one Assembly row.
    pub fn read_entry(d: &Vec<u8>, pos: usize, sizes: &FieldSizes) -> (r: Result<
        (AssemblyEntry, usize),
        DecodeError,
    >)
        ensures
            res_pos_eq(
                r,
                Self::spec_read_entry(d@, pos as int, sizes.heap_sizes, sizes.row_counts@),
            ),
    {
        let (hash_algorithm, p1) = reader::read_u32(d, pos)?;
        let (major_version, p2) = reader::read_u16(d, p1)?;
        let (minor_version, p3) = reader::read_u16(d, p2)?;
        let (build_number, p4) = reader::read_u16(d, p3)?;
        let (revision_number, p5) = reader::read_u16(d, p4)?;
        let (flags, p6) = reader::read_u32(d, p5)?;
        let (public_key, p7) = read_blob(d, p6, sizes)?;
        let (name, p8) = read_string(d, p7, sizes)?;
        let (culture, p9) = read_string(d, p8, sizes)?;
        Ok(
            (
                AssemblyEntry {
                    hash_algorithm,
                    major_version,
                    minor_version,
                    build_number,
                    revision_number,
                    flags,
                    public_key,
                    name,
                    culture,
                },
                p9,
            ),
        )
    }
}

/// All indices of an Assembly row are null or in bounds.
pub open spec fn assembly_wf(a: AssemblyEntry, ext: HeapExtents) -> bool {
    &&& heap_ok(a.public_key.0, ext.blob_size)
    &&& heap_ok(a.name.0, ext.string_size)
    &&& heap_ok(a.culture.0, ext.string_size)
}

/// The exact verdict on an Assembly row: the first offending index wins.
pub open spec fn spec_check_assembly(a: AssemblyEntry, ext: HeapExtents) -> Result<
    (),
    DecodeError,
> {
    match spec_validate_blob_idx(a.public_key.0, ext) {
        Err(e) => Err(e),
        Ok(u) => match spec_validate_string_idx(a.name.0, ext) {
            Err(e) => Err(e),
            Ok(u2) => spec_validate_string_idx(a.culture.0, ext),
        },
    }
}

/// Check an Assembly row against the heap extents.
pub fn check_assembly(a: &AssemblyEntry, ext: &HeapExtents) -> (r: Result<(), DecodeError>)
    ensures
        r == spec_check_assembly(*a, *ext),
        r is Ok <==> assembly_wf(*a, *ext),
        r is Err ==> r->Err_0 is IndexOutOfRange,
{
    validate_blob_idx(a.public_key.0, ext)?;
    validate_string_idx(a.name.0, ext)?;
    validate_string_idx(a.culture.0, ext)?;
    Ok(())
}

impl AssemblyRefEntry {
    pub open spec fn spec_read_entry(d: Seq<u8>, pos: int, hs: HeapOffsetSizes, rc: Seq<u32>)
        -> Result<(AssemblyRefEntry, int), DecodeError> {
        match reader::spec_read_u16(d, pos) {
            Err(e) => Err(e),
            Ok((major_version, p1)) => match reader::spec_read_u16(d, p1) {
                Err(e) => Err(e),
                Ok((minor_version, p2)) => match reader::spec_read_u16(d, p2) {
                    Err(e) => Err(e),
                    Ok((build_number, p3)) => match reader::spec_read_u16(d, p3) {
                        Err(e) => Err(e),
                        Ok((revision_number, p4)) => match reader::spec_read_u32(d, p4) {
                            Err(e) => Err(e),
                            Ok((flags, p5)) => match spec_read_index(d, p5, hs.blob_index) {
                                Err(e) => Err(e),
                                Ok((public_key_or_token, p6)) => match spec_read_index(
                                    d,
                                    p6,
                                    hs.string_index,
                                ) {
                                    Err(e) => Err(e),
                                    Ok((name, p7)) => match spec_read_index(
                                        d,
                                        p7,
                                        hs.string_index,
                                    ) {
                                        Err(e) => Err(e),
                                        Ok((culture, p8)) => match spec_read_index(
                                            d,
                                            p8,
                                            hs.blob_index,
                                        ) {
                                            Err(e) => Err(e),
                                            Ok((hash_value, p9)) => Ok(
                                                (
                                                    AssemblyRefEntry {
                                                        major_version,
                                                        minor_version,
                                                        build_number,
                                                        revision_number,
                                                        flags,
                                                        public_key_or_token: mk_idx(
                                                            public_key_or_token,
                                                        ),
                                                        name: mk_idx(name),
                                                        culture: mk_idx(culture),
                                                        hash_value: mk_idx(hash_value),
                                                    },
                                                    p9,
                                                ),
                                            ),
                                        },
                                    },
                                },
                            },
                        },
                    },
                },
            },
        }
    }

    /// Decode one AssemblyRef row.
    pub fn read_entry(d: &Vec<u8>, pos: usize, sizes: &FieldSizes) -> (r: Result<
        (AssemblyRefEntry, usize),
        DecodeError,
    >)
        ensures
            res_pos_eq(
                r,
                Self::spec_read_entry(d@, pos as int, sizes.heap_sizes, sizes.row_counts@),
            ),
    {
        let (major_version, p1) = reader::read_u16(d, pos)?;
        let (minor_version, p2) = reader::read_u16(d, p1)?;
        let (build_number, p3) = reader::read_u16(d, p2)?;
        let (revision_number, p4) = reader::read_u16(d, p3)?;
        let (flags, p5) = reader::read_u32(d, p4)?;
        let (public_key_or_token, p6) = read_blob(d, p5, sizes)?;
        let (name, p7) = read_string(d, p6, sizes)?;
        let (culture, p8) = read_string(d, p7, sizes)?;
        let (hash_value, p9) = read_blob(d, p8, sizes)?;
        Ok(
            (
                AssemblyRefEntry {
                    major_version,
                    minor_version,
                    build_number,
                    revision_number,
                    flags,
                    public_key_or_token,
                    name,
                    culture,
                    hash_value,
                },
                p9,
            ),
        )
    }
}

/// All indices of an AssemblyRef row are null or in bounds.
pub open spec fn assembly_ref_wf(a: AssemblyRefEntry, ext: HeapExtents) -> bool {
    &&& heap_ok(a.public_key_or_token.0, ext.blob_size)
    &&& heap_ok(a.name.0, ext.string_size)
    &&& heap_ok(a.culture.0, ext.string_size)
    &&& heap_ok(a.hash_value.0, ext.blob_size)
}

/// The exact verdict on an AssemblyRef row: the first offending index
/// wins.
pub open spec fn spec_check_assembly_ref(a: AssemblyRefEntry, ext: HeapExtents) -> Result<
    (),
    DecodeError,
> {
    match spec_validate_blob_idx(a.public_key_or_token.0, ext) {
        Err(e) => Err(e),
        Ok(u) => match spec_validate_string_idx(a.name.0, ext) {
            Err(e) => Err(e),
            Ok(u2) => match spec_validate_string_idx(a.culture.0, ext) {
                Err(e) => Err(e),
                Ok(u3) => spec_validate_blob_idx(a.hash_value.0, ext),
            },
        },
    }
}

/// Check an AssemblyRef row against the heap extents.
pub fn check_assembly_ref(a: &AssemblyRefEntry, ext: &HeapExtents) -> (r: Result<(), DecodeError>)
    ensures
        r == spec_check_assembly_ref(*a, *ext),
        r is Ok <==> assembly_ref_wf(*a, *ext),
        r is Err ==> r->Err_0 is IndexOutOfRange,
{
    validate_blob_idx(a.public_key_or_token.0, ext)?;
    validate_string_idx(a.name.0, ext)?;
    validate_string_idx(a.culture.0, ext)?;
    validate_blob_idx(a.hash_value.0, ext)?;
    Ok(())
}

/// The decoded tables, one vector of rows per supported kind, in on-disk
/// row order.
#[derive(Debug)]
pub struct Tables {
    pub modules: Vec<ModuleEntry>,
    pub type_refs: Vec<TypeRefEntry>,
    pub type_defs: Vec<TypeDefEntry>,
    pub method_defs: Vec<MethodDefEntry>,
    pub params: Vec<ParamEntry>,
    pub member_refs: Vec<MemberRefEntry>,
    pub custom_attributes: Vec<CustomAttributeEntry>,
    pub type_specs: Vec<TypeSpecEntry>,
    pub assemblies: Vec<AssemblyEntry>,
    pub assembly_refs: Vec<AssemblyRefEntry>,
}

/// The mathematical content of a `Tables` value.
pub ghost struct TablesView {
    pub modules: Seq<ModuleEntry>,
    pub type_refs: Seq<TypeRefEntry>,
    pub type_defs: Seq<TypeDefEntry>,
    pub method_defs: Seq<MethodDefEntry>,
    pub params: Seq<ParamEntry>,
    pub member_refs: Seq<MemberRefEntry>,
    pub custom_attributes: Seq<CustomAttributeEntry>,
    pub type_specs: Seq<TypeSpecEntry>,
    pub assemblies: Seq<AssemblyEntry>,
    pub assembly_refs: Seq<AssemblyRefEntry>,
}

impl View for Tables {
    type V = TablesView;

    open spec fn view(&self) -> TablesView {
        TablesView {
            modules: self.modules@,
            type_refs: self.type_refs@,
            type_defs: self.type_defs@,
            method_defs: self.method_defs@,
            params: self.params@,
            member_refs: self.member_refs@,
            custom_attributes: self.custom_attributes@,
            type_specs: self.type_specs@,
            assemblies: self.assemblies@,
            assembly_refs: self.assembly_refs@,
        }
    }
}

/// Every index stored in any row of any table is null or within the
/// bounds of its target table or heap.
pub open spec fn tables_wf(t: TablesView, rc: Seq<u32>, ext: HeapExtents) -> bool {
    &&& module_rows_wf(t.modules, ext)
    &&& type_ref_rows_wf(t.type_refs, rc, ext)
    &&& type_def_rows_wf(t.type_defs, rc, ext)
    &&& method_def_rows_wf(t.method_defs, rc, ext)
    &&& param_rows_wf(t.params, ext)
    &&& member_ref_rows_wf(t.member_refs, rc, ext)
    &&& custom_attribute_rows_wf(t.custom_attributes, rc, ext)
    &&& type_spec_rows_wf(t.type_specs, ext)
    &&& assembly_rows_wf(t.assemblies, ext)
    &&& assembly_ref_rows_wf(t.assembly_refs, ext)
}

/// `count` consecutive Module rows.
pub open spec fn spec_module_rows(
    d: Seq<u8>,
    pos: int,
    n: int,
    hs: HeapOffsetSizes,
    rc: Seq<u32>,
) -> Result<(Seq<ModuleEntry>, int), DecodeError>
    decreases n,
{
    if n <= 0 {
        Ok((Seq::empty(), pos))
    } else {
        match ModuleEntry::spec_read_entry(d, pos, hs, rc) {
            Err(e) => Err(e),
            Ok((m, p)) => match spec_module_rows(d, p, n - 1, hs, rc) {
                Err(e) => Err(e),
                Ok((s, pe)) => Ok((seq![m] + s, pe)),
            },
        }
    }
}

/// Read `count` consecutive Module rows.
pub fn read_module_rows(d: &Vec<u8>, pos: usize, count: u32, sizes: &FieldSizes) -> (r: Result<
    (Vec<ModuleEntry>, usize),
    DecodeError,
>)
    ensures
        match (r, spec_module_rows(
            d@,
            pos as int,
            count as int,
            sizes.heap_sizes,
            sizes.row_counts@,
        )) {
            (Ok((v, p)), Ok((s, sp))) => v@ == s && v@.len() == count && p as int == sp,
            (Err(e), Err(se)) => e == se,
            _ => false,
        },
{
    let ghost hs = sizes.heap_sizes;
    let ghost rc = sizes.row_counts@;
    let mut out: Vec<ModuleEntry> = Vec::new();
    let mut i: u32 = 0;
    let mut p: usize = pos;
    while i < count
        invariant
            i <= count,
            out@.len() == i,
            hs == sizes.heap_sizes,
            rc == sizes.row_counts@,
            spec_module_rows(d@, pos as int, count as int, hs, rc) == (match spec_module_rows(
                d@,
                p as int,
                count - i,
                hs,
                rc,
            ) {
                Ok((rest, pe)) => Ok::<(Seq<ModuleEntry>, int), DecodeError>((out@ + rest, pe)),
                Err(e) => Err::<(Seq<ModuleEntry>, int), DecodeError>(e),
            }),
        decreases count - i,
    {
        let ghost prev = out@;
        let ghost pp = p as int;
        let ghost ni = count - i;
        let (m, p2) = match ModuleEntry::read_entry(d, p, sizes) {
            Ok(x) => x,
            Err(e) => {
                proof {
                    assert(spec_module_rows(d@, pp, ni as int, hs, rc) == Err::<
                        (Seq<ModuleEntry>, int),
                        DecodeError,
                    >(e));
                }
                return Err(e);
            },
        };
        out.push(m);
        proof {
            let tail = spec_module_rows(d@, p2 as int, ni - 1, hs, rc);
            assert(spec_module_rows(d@, pp, ni as int, hs, rc) == (match tail {
                Ok((s, pe)) => Ok::<(Seq<ModuleEntry>, int), DecodeError>((seq![m] + s, pe)),
                Err(e) => Err::<(Seq<ModuleEntry>, int), DecodeError>(e),
            }));
            if tail is Ok {
                assert(prev + (seq![m] + tail->Ok_0.0) =~= out@ + tail->Ok_0.0);
            }
        }
        p = p2;
        i = i + 1;
    }
    proof {
        assert(out@ + Seq::<ModuleEntry>::empty() =~= out@);
    }
    Ok((out, p))
}

/// Every row of the sequence is well formed.
pub open spec fn module_rows_wf(s: Seq<ModuleEntry>, ext: HeapExtents) -> bool {
    forall|i: int| 0 <= i < s.len() ==> module_wf(#[trigger] s[i], ext)
}

/// The exact verdict on a Module row sequence: the first offending row
/// in on-disk order wins.
pub open spec fn spec_check_module_rows(s: Seq<ModuleEntry>, i: int, ext: HeapExtents) -> Result<
    (),
    DecodeError,
>
    decreases s.len() - i,
{
    if i < 0 || i >= s.len() {
        Ok(())
    } else {
        match spec_check_module(s[i], ext) {
            Err(e) => Err(e),
            Ok(u) => spec_check_module_rows(s, i + 1, ext),
        }
    }
}

/// Check every Module row against the heap extents.
pub fn check_module_rows(v: &Vec<ModuleEntry>, ext: &HeapExtents) -> (r: Result<(), DecodeError>)
    ensures
        r == spec_check_module_rows(v@, 0, *ext),
        r is Ok <==> module_rows_wf(v@, *ext),
        r is Err ==> r->Err_0 is IndexOutOfRange,
{
    let mut i: usize = 0;
    while i < v.len()
        invariant
            i <= v@.len(),
            forall|k: int| 0 <= k < i ==> module_wf(#[trigger] v@[k], *ext),
            spec_check_module_rows(v@, 0, *ext) == spec_check_module_rows(v@, i as int, *ext),
        decreases v@.len() - i,
    {
        match check_module(&v[i], ext) {
            Ok(u) => {},
            Err(e) => {
                proof {
                    assert(spec_check_module_rows(v@, i as int, *ext) == Err::<(), DecodeError>(e));
                }
                return Err(e);
            },
        }
        proof {
            assert(spec_check_module_rows(v@, i as int, *ext) == spec_check_module_rows(v@, i + 1, *ext));
        }
        i = i + 1;
    }
    proof {
        assert(spec_check_module_rows(v@, v@.len() as int, *ext) == Ok::<(), DecodeError>(()));
    }
    Ok(())
}


/// `count` consecutive TypeRef rows.
pub open spec fn spec_type_ref_rows(
    d: Seq<u8>,
    pos: int,
    n: int,
    hs: HeapOffsetSizes,
    rc: Seq<u32>,
) -> Result<(Seq<TypeRefEntry>, int), DecodeError>
    decreases n,
{
    if n <= 0 {
        Ok((Seq::empty(), pos))
    } else {
        match TypeRefEntry::spec_read_entry(d, pos, hs, rc) {
            Err(e) => Err(e),
            Ok((m, p)) => match spec_type_ref_rows(d, p, n - 1, hs, rc) {
                Err(e) => Err(e),
                Ok((s, pe)) => Ok((seq![m] + s, pe)),
            },
        }
    }
}

/// Read `count` consecutive TypeRef rows.
pub fn read_type_ref_rows(d: &Vec<u8>, pos: usize, count: u32, sizes: &FieldSizes) -> (r: Result<
    (Vec<TypeRefEntry>, usize),
    DecodeError,
>)
    ensures
        match (r, spec_type_ref_rows(
            d@,
            pos as int,
            count as int,
            sizes.heap_sizes,
            sizes.row_counts@,
        )) {
            (Ok((v, p)), Ok((s, sp))) => v@ == s && v@.len() == count && p as int == sp,
            (Err(e), Err(se)) => e == se,
            _ => false,
        },
{
    let ghost hs = sizes.heap_sizes;
    let ghost rc = sizes.row_counts@;
    let mut out: Vec<TypeRefEntry> = Vec::new();
    let mut i: u32 = 0;
    let mut p: usize = pos;
    while i < count
        invariant
            i <= count,
            out@.len() == i,
            hs == sizes.heap_sizes,
            rc == sizes.row_counts@,
            spec_type_ref_rows(d@, pos as int, count as int, hs, rc) == (match spec_type_ref_rows(
                d@,
                p as int,
                count - i,
                hs,
                rc,
            ) {
                Ok((rest, pe)) => Ok::<(Seq<TypeRefEntry>, int), DecodeError>((out@ + rest, pe)),
                Err(e) => Err::<(Seq<TypeRefEntry>, int), DecodeError>(e),
            }),
        decreases count - i,
    {
        let ghost prev = out@;
        let ghost pp = p as int;
        let ghost ni = count - i;
        let (m, p2) = match TypeRefEntry::read_entry(d, p, sizes) {
            Ok(x) => x,
            Err(e) => {
                proof {
                    assert(spec_type_ref_rows(d@, pp, ni as int, hs, rc) == Err::<
                        (Seq<TypeRefEntry>, int),
                        DecodeError,
                    >(e));
                }
                return Err(e);
            },
        };
        out.push(m);
        proof {
            let tail = spec_type_ref_rows(d@, p2 as int, ni - 1, hs, rc);
            assert(spec_type_ref_rows(d@, pp, ni as int, hs, rc) == (match tail {
                Ok((s, pe)) => Ok::<(Seq<TypeRefEntry>, int), DecodeError>((seq![m] + s, pe)),
                Err(e) => Err::<(Seq<TypeRefEntry>, int), DecodeError>(e),
            }));
            if tail is Ok {
                assert(prev + (seq![m] + tail->Ok_0.0) =~= out@ + tail->Ok_0.0);
            }
        }
        p = p2;
        i = i + 1;
    }
    proof {
        assert(out@ + Seq::<TypeRefEntry>::empty() =~= out@);
    }
    Ok((out, p))
}

/// Every row of the sequence is well formed.
pub open spec fn type_ref_rows_wf(s: Seq<TypeRefEntry>, rc: Seq<u32>, ext: HeapExtents) -> bool {
    forall|i: int| 0 <= i < s.len() ==> type_ref_wf(#[trigger] s[i], rc, ext)
}

/// The exact verdict on a TypeRef row sequence: the first offending row
/// in on-disk order wins.
pub open spec fn spec_check_type_ref_rows(s: Seq<TypeRefEntry>, i: int, rc: Seq<u32>, ext: HeapExtents) -> Result<
    (),
    DecodeError,
>
    decreases s.len() - i,
{
    if i < 0 || i >= s.len() {
        Ok(())
    } else {
        match spec_check_type_ref(s[i], rc, ext) {
            Err(e) => Err(e),
            Ok(u) => spec_check_type_ref_rows(s, i + 1, rc, ext),
        }
    }
}

/// Check every TypeRef row against the row counts and heap extents.
pub fn check_type_ref_rows(v: &Vec<TypeRefEntry>, rc: &RowCounts, ext: &HeapExtents) -> (r: Result<
    (),
    DecodeError,
>)
    ensures
        r == spec_check_type_ref_rows(v@, 0, rc@, *ext),
        r is Ok <==> type_ref_rows_wf(v@, rc@, *ext),
        r is Err ==> r->Err_0 is IndexOutOfRange,
{
    let mut i: usize = 0;
    while i < v.len()
        invariant
            i <= v@.len(),
            forall|k: int| 0 <= k < i ==> type_ref_wf(#[trigger] v@[k], rc@, *ext),
            spec_check_type_ref_rows(v@, 0, rc@, *ext) == spec_check_type_ref_rows(v@, i as int, rc@, *ext),
        decreases v@.len() - i,
    {
        match check_type_ref(&v[i], rc, ext) {
            Ok(u) => {},
            Err(e) => {
                proof {
                    assert(spec_check_type_ref_rows(v@, i as int, rc@, *ext) == Err::<(), DecodeError>(
                        e,
                    ));
                }
                return Err(e);
            },
        }
        proof {
            assert(spec_check_type_ref_rows(v@, i as int, rc@, *ext) == spec_check_type_ref_rows(
                v@,
                i + 1,
                rc@,
                *ext,
            ));
        }
        i = i + 1;
    }
    proof {
        assert(spec_check_type_ref_rows(v@, v@.len() as int, rc@, *ext) == Ok::<(), DecodeError>(()));
    }
    Ok(())
}

/// `count` consecutive TypeDef rows.
pub open spec fn spec_type_def_rows(
    d: Seq<u8>,
    pos: int,
    n: int,
    hs: HeapOffsetSizes,
    rc: Seq<u32>,
) -> Result<(Seq<TypeDefEntry>, int), DecodeError>
    decreases n,
{
    if n <= 0 {
        Ok((Seq::empty(), pos))
    } else {
        match TypeDefEntry::spec_read_entry(d, pos, hs, rc) {
            Err(e) => Err(e),
            Ok((m, p)) => match spec_type_def_rows(d, p, n - 1, hs, rc) {
                Err(e) => Err(e),
                Ok((s, pe)) => Ok((seq![m] + s, pe)),
            },
        }
    }
}

/// Read `count` consecutive TypeDef rows.
pub fn read_type_def_rows(d: &Vec<u8>, pos: usize, count: u32, sizes: &FieldSizes) -> (r: Result<
    (Vec<TypeDefEntry>, usize),
    DecodeError,
>)
    ensures
        match (r, spec_type_def_rows(
            d@,
            pos as int,
            count as int,
            sizes.heap_sizes,
            sizes.row_counts@,
        )) {
            (Ok((v, p)), Ok((s, sp))) => v@ == s && v@.len() == count && p as int == sp,
            (Err(e), Err(se)) => e == se,
            _ => false,
        },
{
    let ghost hs = sizes.heap_sizes;
    let ghost rc = sizes.row_counts@;
    let mut out: Vec<TypeDefEntry> = Vec::new();
    let mut i: u32 = 0;
    let mut p: usize = pos;
    while i < count
        invariant
            i <= count,
            out@.len() == i,
            hs == sizes.heap_sizes,
            rc == sizes.row_counts@,
            spec_type_def_rows(d@, pos as int, count as int, hs, rc) == (match spec_type_def_rows(
                d@,
                p as int,
                count - i,
                hs,
                rc,
            ) {
                Ok((rest, pe)) => Ok::<(Seq<TypeDefEntry>, int), DecodeError>((out@ + rest, pe)),
                Err(e) => Err::<(Seq<TypeDefEntry>, int), DecodeError>(e),
            }),
        decreases count - i,
    {
        let ghost prev = out@;
        let ghost pp = p as int;
        let ghost ni = count - i;
        let (m, p2) = match TypeDefEntry::read_entry(d, p, sizes) {
            Ok(x) => x,
            Err(e) => {
                proof {
                    assert(spec_type_def_rows(d@, pp, ni as int, hs, rc) == Err::<
                        (Seq<TypeDefEntry>, int),
                        DecodeError,
                    >(e));
                }
                return Err(e);
            },
        };
        out.push(m);
        proof {
            let tail = spec_type_def_rows(d@, p2 as int, ni - 1, hs, rc);
            assert(spec_type_def_rows(d@, pp, ni as int, hs, rc) == (match tail {
                Ok((s, pe)) => Ok::<(Seq<TypeDefEntry>, int), DecodeError>((seq![m] + s, pe)),
                Err(e) => Err::<(Seq<TypeDefEntry>, int), DecodeError>(e),
            }));
            if tail is Ok {
                assert(prev + (seq![m] + tail->Ok_0.0) =~= out@ + tail->Ok_0.0);
            }
        }
        p = p2;
        i = i + 1;
    }
    proof {
        assert(out@ + Seq::<TypeDefEntry>::empty() =~= out@);
    }
    Ok((out, p))
}

/// Every row of the sequence is well formed.
pub open spec fn type_def_rows_wf(s: Seq<TypeDefEntry>, rc: Seq<u32>, ext: HeapExtents) -> bool {
    forall|i: int| 0 <= i < s.len() ==> type_def_wf(#[trigger] s[i], rc, ext)
}

/// The exact verdict on a TypeDef row sequence: the first offending row
/// in on-disk order wins.
pub open spec fn spec_check_type_def_rows(s: Seq<TypeDefEntry>, i: int, rc: Seq<u32>, ext: HeapExtents) -> Result<
    (),
    DecodeError,
>
    decreases s.len() - i,
{
    if i < 0 || i >= s.len() {
        Ok(())
    } else {
        match spec_check_type_def(s[i], rc, ext) {
            Err(e) => Err(e),
            Ok(u) => spec_check_type_def_rows(s, i + 1, rc, ext),
        }
    }
}

/// Check every TypeDef row against the row counts and heap extents.
pub fn check_type_def_rows(v: &Vec<TypeDefEntry>, rc: &RowCounts, ext: &HeapExtents) -> (r: Result<
    (),
    DecodeError,
>)
    ensures
        r == spec_check_type_def_rows(v@, 0, rc@, *ext),
        r is Ok <==> type_def_rows_wf(v@, rc@, *ext),
        r is Err ==> r->Err_0 is IndexOutOfRange,
{
    let mut i: usize = 0;
    while i < v.len()
        invariant
            i <= v@.len(),
            forall|k: int| 0 <= k < i ==> type_def_wf(#[trigger] v@[k], rc@, *ext),
            spec_check_type_def_rows(v@, 0, rc@, *ext) == spec_check_type_def_rows(v@, i as int, rc@, *ext),
        decreases v@.len() - i,
    {
        match check_type_def(&v[i], rc, ext) {
            Ok(u) => {},
            Err(e) => {
                proof {
                    assert(spec_check_type_def_rows(v@, i as int, rc@, *ext) == Err::<(), DecodeError>(
                        e,
                    ));
                }
                return Err(e);
            },
        }
        proof {
            assert(spec_check_type_def_rows(v@, i as int, rc@, *ext) == spec_check_type_def_rows(
                v@,
                i + 1,
                rc@,
                *ext,
            ));
        }
        i = i + 1;
    }
    proof {
        assert(spec_check_type_def_rows(v@, v@.len() as int, rc@, *ext) == Ok::<(), DecodeError>(()));
    }
    Ok(())
}

/// `count` consecutive MethodDef rows.
pub open spec fn spec_method_def_rows(
    d: Seq<u8>,
    pos: int,
    n: int,
    hs: HeapOffsetSizes,
    rc: Seq<u32>,
) -> Result<(Seq<MethodDefEntry>, int), DecodeError>
    decreases n,
{
    if n <= 0 {
        Ok((Seq::empty(), pos))
    } else {
        match MethodDefEntry::spec_read_entry(d, pos, hs, rc) {
            Err(e) => Err(e),
            Ok((m, p)) => match spec_method_def_rows(d, p, n - 1, hs, rc) {
                Err(e) => Err(e),
                Ok((s, pe)) => Ok((seq![m] + s, pe)),
            },
        }
    }
}

/// Read `count` consecutive MethodDef rows.
pub fn read_method_def_rows(d: &Vec<u8>, pos: usize, count: u32, sizes: &FieldSizes) -> (r: Result<
    (Vec<MethodDefEntry>, usize),
    DecodeError,
>)
    ensures
        match (r, spec_method_def_rows(
            d@,
            pos as int,
            count as int,
            sizes.heap_sizes,
            sizes.row_counts@,
        )) {
            (Ok((v, p)), Ok((s, sp))) => v@ == s && v@.len() == count && p as int == sp,
            (Err(e), Err(se)) => e == se,
            _ => false,
        },
{
    let ghost hs = sizes.heap_sizes;
    let ghost rc = sizes.row_counts@;
    let mut out: Vec<MethodDefEntry> = Vec::new();
    let mut i: u32 = 0;
    let mut p: usize = pos;
    while i < count
        invariant
            i <= count,
            out@.len() == i,
            hs == sizes.heap_sizes,
            rc == sizes.row_counts@,
            spec_method_def_rows(d@, pos as int, count as int, hs, rc) == (match spec_method_def_rows(
                d@,
                p as int,
                count - i,
                hs,
                rc,
            ) {
                Ok((rest, pe)) => Ok::<(Seq<MethodDefEntry>, int), DecodeError>((out@ + rest, pe)),
                Err(e) => Err::<(Seq<MethodDefEntry>, int), DecodeError>(e),
            }),
        decreases count - i,
    {
        let ghost prev = out@;
        let ghost pp = p as int;
        let ghost ni = count - i;
        let (m, p2) = match MethodDefEntry::read_entry(d, p, sizes) {
            Ok(x) => x,
            Err(e) => {
                proof {
                    assert(spec_method_def_rows(d@, pp, ni as int, hs, rc) == Err::<
                        (Seq<MethodDefEntry>, int),
                        DecodeError,
                    >(e));
                }
                return Err(e);
            },
        };
        out.push(m);
        proof {
            let tail = spec_method_def_rows(d@, p2 as int, ni - 1, hs, rc);
            assert(spec_method_def_rows(d@, pp, ni as int, hs, rc) == (match tail {
                Ok((s, pe)) => Ok::<(Seq<MethodDefEntry>, int), DecodeError>((seq![m] + s, pe)),
                Err(e) => Err::<(Seq<MethodDefEntry>, int), DecodeError>(e),
            }));
            if tail is Ok {
                assert(prev + (seq![m] + tail->Ok_0.0) =~= out@ + tail->Ok_0.0);
            }
        }
        p = p2;
        i = i + 1;
    }
    proof {
        assert(out@ + Seq::<MethodDefEntry>::empty() =~= out@);
    }
    Ok((out, p))
}

/// Every row of the sequence is well formed.
pub open spec fn method_def_rows_wf(s: Seq<MethodDefEntry>, rc: Seq<u32>, ext: HeapExtents) -> bool {
    forall|i: int| 0 <= i < s.len() ==> method_def_wf(#[trigger] s[i], rc, ext)
}

/// The exact verdict on a MethodDef row sequence: the first offending row
/// in on-disk order wins.
pub open spec fn spec_check_method_def_rows(s: Seq<MethodDefEntry>, i: int, rc: Seq<u32>, ext: HeapExtents) -> Result<
    (),
    DecodeError,
>
    decreases s.len() - i,
{
    if i < 0 || i >= s.len() {
        Ok(())
    } else {
        match spec_check_method_def(s[i], rc, ext) {
            Err(e) => Err(e),
            Ok(u) => spec_check_method_def_rows(s, i + 1, rc, ext),
        }
    }
}

/// Check every MethodDef row against the row counts and heap extents.
pub fn check_method_def_rows(v: &Vec<MethodDefEntry>, rc: &RowCounts, ext: &HeapExtents) -> (r: Result<
    (),
    DecodeError,
>)
    ensures
        r == spec_check_method_def_rows(v@, 0, rc@, *ext),
        r is Ok <==> method_def_rows_wf(v@, rc@, *ext),
        r is Err ==> r->Err_0 is IndexOutOfRange,
{
    let mut i: usize = 0;
    while i < v.len()
        invariant
            i <= v@.len(),
            forall|k: int| 0 <= k < i ==> method_def_wf(#[trigger] v@[k], rc@, *ext),
            spec_check_method_def_rows(v@, 0, rc@, *ext) == spec_check_method_def_rows(v@, i as int, rc@, *ext),
        decreases v@.len() - i,
    {
        match check_method_def(&v[i], rc, ext) {
            Ok(u) => {},
            Err(e) => {
                proof {
                    assert(spec_check_method_def_rows(v@, i as int, rc@, *ext) == Err::<(), DecodeError>(
                        e,
                    ));
                }
                return Err(e);
            },
        }
        proof {
            assert(spec_check_method_def_rows(v@, i as int, rc@, *ext) == spec_check_method_def_rows(
                v@,
                i + 1,
                rc@,
                *ext,
            ));
        }
        i = i + 1;
    }
    proof {
        assert(spec_check_method_def_rows(v@, v@.len() as int, rc@, *ext) == Ok::<(), DecodeError>(()));
    }
    Ok(())
}

/// `count` consecutive Param rows.
pub open spec fn spec_param_rows(
    d: Seq<u8>,
    pos: int,
    n: int,
    hs: HeapOffsetSizes,
    rc: Seq<u32>,
) -> Result<(Seq<ParamEntry>, int), DecodeError>
    decreases n,
{
    if n <= 0 {
        Ok((Seq::empty(), pos))
    } else {
        match ParamEntry::spec_read_entry(d, pos, hs, rc) {
            Err(e) => Err(e),
            Ok((m, p)) => match spec_param_rows(d, p, n - 1, hs, rc) {
                Err(e) => Err(e),
                Ok((s, pe)) => Ok((seq![m] + s, pe)),
            },
        }
    }
}

/// Read `count` consecutive Param rows.
pub fn read_param_rows(d: &Vec<u8>, pos: usize, count: u32, sizes: &FieldSizes) -> (r: Result<
    (Vec<ParamEntry>, usize),
    DecodeError,
>)
    ensures
        match (r, spec_param_rows(
            d@,
            pos as int,
            count as int,
            sizes.heap_sizes,
            sizes.row_counts@,
        )) {
            (Ok((v, p)), Ok((s, sp))) => v@ == s && v@.len() == count && p as int == sp,
            (Err(e), Err(se)) => e == se,
            _ => false,
        },
{
    let ghost hs = sizes.heap_sizes;
    let ghost rc = sizes.row_counts@;
    let mut out: Vec<ParamEntry> = Vec::new();
    let mut i: u32 = 0;
    let mut p: usize = pos;
    while i < count
        invariant
            i <= count,
            out@.len() == i,
            hs == sizes.heap_sizes,
            rc == sizes.row_counts@,
            spec_param_rows(d@, pos as int, count as int, hs, rc) == (match spec_param_rows(
                d@,
                p as int,
                count - i,
                hs,
                rc,
            ) {
                Ok((rest, pe)) => Ok::<(Seq<ParamEntry>, int), DecodeError>((out@ + rest, pe)),
                Err(e) => Err::<(Seq<ParamEntry>, int), DecodeError>(e),
            }),
        decreases count - i,
    {
        let ghost prev = out@;
        let ghost pp = p as int;
        let ghost ni = count - i;
        let (m, p2) = match ParamEntry::read_entry(d, p, sizes) {
            Ok(x) => x,
            Err(e) => {
                proof {
                    assert(spec_param_rows(d@, pp, ni as int, hs, rc) == Err::<
                        (Seq<ParamEntry>, int),
                        DecodeError,
                    >(e));
                }
                return Err(e);
            },
        };
        out.push(m);
        proof {
            let tail = spec_param_rows(d@, p2 as int, ni - 1, hs, rc);
            assert(spec_param_rows(d@, pp, ni as int, hs, rc) == (match tail {
                Ok((s, pe)) => Ok::<(Seq<ParamEntry>, int), DecodeError>((seq![m] + s, pe)),
                Err(e) => Err::<(Seq<ParamEntry>, int), DecodeError>(e),
            }));
            if tail is Ok {
                assert(prev + (seq![m] + tail->Ok_0.0) =~= out@ + tail->Ok_0.0);
            }
        }
        p = p2;
        i = i + 1;
    }
    proof {
        assert(out@ + Seq::<ParamEntry>::empty() =~= out@);
    }
    Ok((out, p))
}

/// Every row of the sequence is well formed.
pub open spec fn param_rows_wf(s: Seq<ParamEntry>, ext: HeapExtents) -> bool {
    forall|i: int| 0 <= i < s.len() ==> param_wf(#[trigger] s[i], ext)
}

/// The exact verdict on a Param row sequence: the first offending row
/// in on-disk order wins.
pub open spec fn spec_check_param_rows(s: Seq<ParamEntry>, i: int, ext: HeapExtents) -> Result<
    (),
    DecodeError,
>
    decreases s.len() - i,
{
    if i < 0 || i >= s.len() {
        Ok(())
    } else {
        match spec_check_param(s[i], ext) {
            Err(e) => Err(e),
            Ok(u) => spec_check_param_rows(s, i + 1, ext),
        }
    }
}

/// Check every Param row against the heap extents.
pub fn check_param_rows(v: &Vec<ParamEntry>, ext: &HeapExtents) -> (r: Result<(), DecodeError>)
    ensures
        r == spec_check_param_rows(v@, 0, *ext),
        r is Ok <==> param_rows_wf(v@, *ext),
        r is Err ==> r->Err_0 is IndexOutOfRange,
{
    let mut i: usize = 0;
    while i < v.len()
        invariant
            i <= v@.len(),
            forall|k: int| 0 <= k < i ==> param_wf(#[trigger] v@[k], *ext),
            spec_check_param_rows(v@, 0, *ext) == spec_check_param_rows(v@, i as int, *ext),
        decreases v@.len() - i,
    {
        match check_param(&v[i], ext) {
            Ok(u) => {},
            Err(e) => {
                proof {
                    assert(spec_check_param_rows(v@, i as int, *ext) == Err::<(), DecodeError>(e));
                }
                return Err(e);
            },
        }
        proof {
            assert(spec_check_param_rows(v@, i as int, *ext) == spec_check_param_rows(v@, i + 1, *ext));
        }
        i = i + 1;
    }
    proof {
        assert(spec_check_param_rows(v@, v@.len() as int, *ext) == Ok::<(), DecodeError>(()));
    }
    Ok(())
}

/// `count` consecutive MemberRef rows.
pub open spec fn spec_member_ref_rows(
    d: Seq<u8>,
    pos: int,
    n: int,
    hs: HeapOffsetSizes,
    rc: Seq<u32>,
) -> Result<(Seq<MemberRefEntry>, int), DecodeError>
    decreases n,
{
    if n <= 0 {
        Ok((Seq::empty(), pos))
    } else {
        match MemberRefEntry::spec_read_entry(d, pos, hs, rc) {
            Err(e) => Err(e),
            Ok((m, p)) => match spec_member_ref_rows(d, p, n - 1, hs, rc) {
                Err(e) => Err(e),
                Ok((s, pe)) => Ok((seq![m] + s, pe)),
            },
        }
    }
}

/// Read `count` consecutive MemberRef rows.
pub fn read_member_ref_rows(d: &Vec<u8>, pos: usize, count: u32, sizes: &FieldSizes) -> (r: Result<
    (Vec<MemberRefEntry>, usize),
    DecodeError,
>)
    ensures
        match (r, spec_member_ref_rows(
            d@,
            pos as int,
            count as int,
            sizes.heap_sizes,
            sizes.row_counts@,
        )) {
            (Ok((v, p)), Ok((s, sp))) => v@ == s && v@.len() == count && p as int == sp,
            (Err(e), Err(se)) => e == se,
            _ => false,
        },
{
    let ghost hs = sizes.heap_sizes;
    let ghost rc = sizes.row_counts@;
    let mut out: Vec<MemberRefEntry> = Vec::new();
    let mut i: u32 = 0;
    let mut p: usize = pos;
    while i < count
        invariant
            i <= count,
            out@.len() == i,
            hs == sizes.heap_sizes,
            rc == sizes.row_counts@,
            spec_member_ref_rows(d@, pos as int, count as int, hs, rc) == (match spec_member_ref_rows(
                d@,
                p as int,
                count - i,
                hs,
                rc,
            ) {
                Ok((rest, pe)) => Ok::<(Seq<MemberRefEntry>, int), DecodeError>((out@ + rest, pe)),
                Err(e) => Err::<(Seq<MemberRefEntry>, int), DecodeError>(e),
            }),
        decreases count - i,
    {
        let ghost prev = out@;
        let ghost pp = p as int;
        let ghost ni = count - i;
        let (m, p2) = match MemberRefEntry::read_entry(d, p, sizes) {
            Ok(x) => x,
            Err(e) => {
                proof {
                    assert(spec_member_ref_rows(d@, pp, ni as int, hs, rc) == Err::<
                        (Seq<MemberRefEntry>, int),
                        DecodeError,
                    >(e));
                }
                return Err(e);
            },
        };
        out.push(m);
        proof {
            let tail = spec_member_ref_rows(d@, p2 as int, ni - 1, hs, rc);
            assert(spec_member_ref_rows(d@, pp, ni as int, hs, rc) == (match tail {
                Ok((s, pe)) => Ok::<(Seq<MemberRefEntry>, int), DecodeError>((seq![m] + s, pe)),
                Err(e) => Err::<(Seq<MemberRefEntry>, int), DecodeError>(e),
            }));
            if tail is Ok {
                assert(prev + (seq![m] + tail->Ok_0.0) =~= out@ + tail->Ok_0.0);
            }
        }
        p = p2;
        i = i + 1;
    }
    proof {
        assert(out@ + Seq::<MemberRefEntry>::empty() =~= out@);
    }
    Ok((out, p))
}

/// Every row of the sequence is well formed.
pub open spec fn member_ref_rows_wf(s: Seq<MemberRefEntry>, rc: Seq<u32>, ext: HeapExtents) -> bool {
    forall|i: int| 0 <= i < s.len() ==> member_ref_wf(#[trigger] s[i], rc, ext)
}

/// The exact verdict on a MemberRef row sequence: the first offending row
/// in on-disk order wins.
pub open spec fn spec_check_member_ref_rows(s: Seq<MemberRefEntry>, i: int, rc: Seq<u32>, ext: HeapExtents) -> Result<
    (),
    DecodeError,
>
    decreases s.len() - i,
{
    if i < 0 || i >= s.len() {
        Ok(())
    } else {
        match spec_check_member_ref(s[i], rc, ext) {
            Err(e) => Err(e),
            Ok(u) => spec_check_member_ref_rows(s, i + 1, rc, ext),
        }
    }
}

/// Check every MemberRef row against the row counts and heap extents.
pub fn check_member_ref_rows(v: &Vec<MemberRefEntry>, rc: &RowCounts, ext: &HeapExtents) -> (r: Result<
    (),
    DecodeError,
>)
    ensures
        r == spec_check_member_ref_rows(v@, 0, rc@, *ext),
        r is Ok <==> member_ref_rows_wf(v@, rc@, *ext),
        r is Err ==> r->Err_0 is IndexOutOfRange,
{
    let mut i: usize = 0;
    while i < v.len()
        invariant
            i <= v@.len(),
            forall|k: int| 0 <= k < i ==> member_ref_wf(#[trigger] v@[k], rc@, *ext),
            spec_check_member_ref_rows(v@, 0, rc@, *ext) == spec_check_member_ref_rows(v@, i as int, rc@, *ext),
        decreases v@.len() - i,
    {
        match check_member_ref(&v[i], rc, ext) {
            Ok(u) => {},
            Err(e) => {
                proof {
                    assert(spec_check_member_ref_rows(v@, i as int, rc@, *ext) == Err::<(), DecodeError>(
                        e,
                    ));
                }
                return Err(e);
            },
        }
        proof {
            assert(spec_check_member_ref_rows(v@, i as int, rc@, *ext) == spec_check_member_ref_rows(
                v@,
                i + 1,
                rc@,
                *ext,
            ));
        }
        i = i + 1;
    }
    proof {
        assert(spec_check_member_ref_rows(v@, v@.len() as int, rc@, *ext) == Ok::<(), DecodeError>(()));
    }
    Ok(())
}

/// `count` consecutive CustomAttribute rows.
pub open spec fn spec_custom_attribute_rows(
    d: Seq<u8>,
    pos: int,
    n: int,
    hs: HeapOffsetSizes,
    rc: Seq<u32>,
) -> Result<(Seq<CustomAttributeEntry>, int), DecodeError>
    decreases n,
{
    if n <= 0 {
        Ok((Seq::empty(), pos))
    } else {
        match CustomAttributeEntry::spec_read_entry(d, pos, hs, rc) {
            Err(e) => Err(e),
            Ok((m, p)) => match spec_custom_attribute_rows(d, p, n - 1, hs, rc) {
                Err(e) => Err(e),
                Ok((s, pe)) => Ok((seq![m] + s, pe)),
            },
        }
    }
}

/// Read `count` consecutive CustomAttribute rows.
pub fn read_custom_attribute_rows(d: &Vec<u8>, pos: usize, count: u32, sizes: &FieldSizes) -> (r: Result<
    (Vec<CustomAttributeEntry>, usize),
    DecodeError,
>)
    ensures
        match (r, spec_custom_attribute_rows(
            d@,
            pos as int,
            count as int,
            sizes.heap_sizes,
            sizes.row_counts@,
        )) {
            (Ok((v, p)), Ok((s, sp))) => v@ == s && v@.len() == count && p as int == sp,
            (Err(e), Err(se)) => e == se,
            _ => false,
        },
{
    let ghost hs = sizes.heap_sizes;
    let ghost rc = sizes.row_counts@;
    let mut out: Vec<CustomAttributeEntry> = Vec::new();
    let mut i: u32 = 0;
    let mut p: usize = pos;
    while i < count
        invariant
            i <= count,
            out@.len() == i,
            hs == sizes.heap_sizes,
            rc == sizes.row_counts@,
            spec_custom_attribute_rows(d@, pos as int, count as int, hs, rc) == (match spec_custom_attribute_rows(
                d@,
                p as int,
                count - i,
                hs,
                rc,
            ) {
                Ok((rest, pe)) => Ok::<(Seq<CustomAttributeEntry>, int), DecodeError>((out@ + rest, pe)),
                Err(e) => Err::<(Seq<CustomAttributeEntry>, int), DecodeError>(e),
            }),
        decreases count - i,
    {
        let ghost prev = out@;
        let ghost pp = p as int;
        let ghost ni = count - i;
        let (m, p2) = match CustomAttributeEntry::read_entry(d, p, sizes) {
            Ok(x) => x,
            Err(e) => {
                proof {
                    assert(spec_custom_attribute_rows(d@, pp, ni as int, hs, rc) == Err::<
                        (Seq<CustomAttributeEntry>, int),
                        DecodeError,
                    >(e));
                }
                return Err(e);
            },
        };
        out.push(m);
        proof {
            let tail = spec_custom_attribute_rows(d@, p2 as int, ni - 1, hs, rc);
            assert(spec_custom_attribute_rows(d@, pp, ni as int, hs, rc) == (match tail {
                Ok((s, pe)) => Ok::<(Seq<CustomAttributeEntry>, int), DecodeError>((seq![m] + s, pe)),
                Err(e) => Err::<(Seq<CustomAttributeEntry>, int), DecodeError>(e),
            }));
            if tail is Ok {
                assert(prev + (seq![m] + tail->Ok_0.0) =~= out@ + tail->Ok_0.0);
            }
        }
        p = p2;
        i = i + 1;
    }
    proof {
        assert(out@ + Seq::<CustomAttributeEntry>::empty() =~= out@);
    }
    Ok((out, p))
}

/// Every row of the sequence is well formed.
pub open spec fn custom_attribute_rows_wf(s: Seq<CustomAttributeEntry>, rc: Seq<u32>, ext: HeapExtents) -> bool {
    forall|i: int| 0 <= i < s.len() ==> custom_attribute_wf(#[trigger] s[i], rc, ext)
}

/// The exact verdict on a CustomAttribute row sequence: the first offending row
/// in on-disk order wins.
pub open spec fn spec_check_custom_attribute_rows(s: Seq<CustomAttributeEntry>, i: int, rc: Seq<u32>, ext: HeapExtents) -> Result<
    (),
    DecodeError,
>
    decreases s.len() - i,
{
    if i < 0 || i >= s.len() {
        Ok(())
    } else {
        match spec_check_custom_attribute(s[i], rc, ext) {
            Err(e) => Err(e),
            Ok(u) => spec_check_custom_attribute_rows(s, i + 1, rc, ext),
        }
    }
}

/// Check every CustomAttribute row against the row counts and heap extents.
pub fn check_custom_attribute_rows(v: &Vec<CustomAttributeEntry>, rc: &RowCounts, ext: &HeapExtents) -> (r: Result<
    (),
    DecodeError,
>)
    ensures
        r == spec_check_custom_attribute_rows(v@, 0, rc@, *ext),
        r is Ok <==> custom_attribute_rows_wf(v@, rc@, *ext),
        r is Err ==> r->Err_0 is IndexOutOfRange,
{
    let mut i: usize = 0;
    while i < v.len()
        invariant
            i <= v@.len(),
            forall|k: int| 0 <= k < i ==> custom_attribute_wf(#[trigger] v@[k], rc@, *ext),
            spec_check_custom_attribute_rows(v@, 0, rc@, *ext) == spec_check_custom_attribute_rows(v@, i as int, rc@, *ext),
        decreases v@.len() - i,
    {
        match check_custom_attribute(&v[i], rc, ext) {
            Ok(u) => {},
            Err(e) => {
                proof {
                    assert(spec_check_custom_attribute_rows(v@, i as int, rc@, *ext) == Err::<(), DecodeError>(
                        e,
                    ));
                }
                return Err(e);
            },
        }
        proof {
            assert(spec_check_custom_attribute_rows(v@, i as int, rc@, *ext) == spec_check_custom_attribute_rows(
                v@,
                i + 1,
                rc@,
                *ext,
            ));
        }
        i = i + 1;
    }
    proof {
        assert(spec_check_custom_attribute_rows(v@, v@.len() as int, rc@, *ext) == Ok::<(), DecodeError>(()));
    }
    Ok(())
}

/// `count` consecutive TypeSpec rows.
pub open spec fn spec_type_spec_rows(
    d: Seq<u8>,
    pos: int,
    n: int,
    hs: HeapOffsetSizes,
    rc: Seq<u32>,
) -> Result<(Seq<TypeSpecEntry>, int), DecodeError>
    decreases n,
{
    if n <= 0 {
        Ok((Seq::empty(), pos))
    } else {
        match TypeSpecEntry::spec_read_entry(d, pos, hs, rc) {
            Err(e) => Err(e),
            Ok((m, p)) => match spec_type_spec_rows(d, p, n - 1, hs, rc) {
                Err(e) => Err(e),
                Ok((s, pe)) => Ok((seq![m] + s, pe)),
            },
        }
    }
}

/// Read `count` consecutive TypeSpec rows.
pub fn read_type_spec_rows(d: &Vec<u8>, pos: usize, count: u32, sizes: &FieldSizes) -> (r: Result<
    (Vec<TypeSpecEntry>, usize),
    DecodeError,
>)
    ensures
        match (r, spec_type_spec_rows(
            d@,
            pos as int,
            count as int,
            sizes.heap_sizes,
            sizes.row_counts@,
        )) {
            (Ok((v, p)), Ok((s, sp))) => v@ == s && v@.len() == count && p as int == sp,
            (Err(e), Err(se)) => e == se,
            _ => false,
        },
{
    let ghost hs = sizes.heap_sizes;
    let ghost rc = sizes.row_counts@;
    let mut out: Vec<TypeSpecEntry> = Vec::new();
    let mut i: u32 = 0;
    let mut p: usize = pos;
    while i < count
        invariant
            i <= count,
            out@.len() == i,
            hs == sizes.heap_sizes,
            rc == sizes.row_counts@,
            spec_type_spec_rows(d@, pos as int, count as int, hs, rc) == (match spec_type_spec_rows(
                d@,
                p as int,
                count - i,
                hs,
                rc,
            ) {
                Ok((rest, pe)) => Ok::<(Seq<TypeSpecEntry>, int), DecodeError>((out@ + rest, pe)),
                Err(e) => Err::<(Seq<TypeSpecEntry>, int), DecodeError>(e),
            }),
        decreases count - i,
    {
        let ghost prev = out@;
        let ghost pp = p as int;
        let ghost ni = count - i;
        let (m, p2) = match TypeSpecEntry::read_entry(d, p, sizes) {
            Ok(x) => x,
            Err(e) => {
                proof {
                    assert(spec_type_spec_rows(d@, pp, ni as int, hs, rc) == Err::<
                        (Seq<TypeSpecEntry>, int),
                        DecodeError,
                    >(e));
                }
                return Err(e);
            },
        };
        out.push(m);
        proof {
            let tail = spec_type_spec_rows(d@, p2 as int, ni - 1, hs, rc);
            assert(spec_type_spec_rows(d@, pp, ni as int, hs, rc) == (match tail {
                Ok((s, pe)) => Ok::<(Seq<TypeSpecEntry>, int), DecodeError>((seq![m] + s, pe)),
                Err(e) => Err::<(Seq<TypeSpecEntry>, int), DecodeError>(e),
            }));
            if tail is Ok {
                assert(prev + (seq![m] + tail->Ok_0.0) =~= out@ + tail->Ok_0.0);
            }
        }
        p = p2;
        i = i + 1;
    }
    proof {
        assert(out@ + Seq::<TypeSpecEntry>::empty() =~= out@);
    }
    Ok((out, p))
}

/// Every row of the sequence is well formed.
pub open spec fn type_spec_rows_wf(s: Seq<TypeSpecEntry>, ext: HeapExtents) -> bool {
    forall|i: int| 0 <= i < s.len() ==> type_spec_wf(#[trigger] s[i], ext)
}

/// The exact verdict on a TypeSpec row sequence: the first offending row
/// in on-disk order wins.
pub open spec fn spec_check_type_spec_rows(s: Seq<TypeSpecEntry>, i: int, ext: HeapExtents) -> Result<
    (),
    DecodeError,
>
    decreases s.len() - i,
{
    if i < 0 || i >= s.len() {
        Ok(())
    } else {
        match spec_check_type_spec(s[i], ext) {
            Err(e) => Err(e),
            Ok(u) => spec_check_type_spec_rows(s, i + 1, ext),
        }
    }
}

/// Check every TypeSpec row against the heap extents.
pub fn check_type_spec_rows(v: &Vec<TypeSpecEntry>, ext: &HeapExtents) -> (r: Result<(), DecodeError>)
    ensures
        r == spec_check_type_spec_rows(v@, 0, *ext),
        r is Ok <==> type_spec_rows_wf(v@, *ext),
        r is Err ==> r->Err_0 is IndexOutOfRange,
{
    let mut i: usize = 0;
    while i < v.len()
        invariant
            i <= v@.len(),
            forall|k: int| 0 <= k < i ==> type_spec_wf(#[trigger] v@[k], *ext),
            spec_check_type_spec_rows(v@, 0, *ext) == spec_check_type_spec_rows(v@, i as int, *ext),
        decreases v@.len() - i,
    {
        match check_type_spec(&v[i], ext) {
            Ok(u) => {},
            Err(e) => {
                proof {
                    assert(spec_check_type_spec_rows(v@, i as int, *ext) == Err::<(), DecodeError>(e));
                }
                return Err(e);
            },
        }
        proof {
            assert(spec_check_type_spec_rows(v@, i as int, *ext) == spec_check_type_spec_rows(v@, i + 1, *ext));
        }
        i = i + 1;
    }
    proof {
        assert(spec_check_type_spec_rows(v@, v@.len() as int, *ext) == Ok::<(), DecodeError>(()));
    }
    Ok(())
}

/// `count` consecutive Assembly rows.
pub open spec fn spec_assembly_rows(
    d: Seq<u8>,
    pos: int,
    n: int,
    hs: HeapOffsetSizes,
    rc: Seq<u32>,
) -> Result<(Seq<AssemblyEntry>, int), DecodeError>
    decreases n,
{
    if n <= 0 {
        Ok((Seq::empty(), pos))
    } else {
        match AssemblyEntry::spec_read_entry(d, pos, hs, rc) {
            Err(e) => Err(e),
            Ok((m, p)) => match spec_assembly_rows(d, p, n - 1, hs, rc) {
                Err(e) => Err(e),
                Ok((s, pe)) => Ok((seq![m] + s, pe)),
            },
        }
    }
}

/// Read `count` consecutive Assembly rows.
pub fn read_assembly_rows(d: &Vec<u8>, pos: usize, count: u32, sizes: &FieldSizes) -> (r: Result<
    (Vec<AssemblyEntry>, usize),
    DecodeError,
>)
    ensures
        match (r, spec_assembly_rows(
            d@,
            pos as int,
            count as int,
            sizes.heap_sizes,
            sizes.row_counts@,
        )) {
            (Ok((v, p)), Ok((s, sp))) => v@ == s && v@.len() == count && p as int == sp,
            (Err(e), Err(se)) => e == se,
            _ => false,
        },
{
    let ghost hs = sizes.heap_sizes;
    let ghost rc = sizes.row_counts@;
    let mut out: Vec<AssemblyEntry> = Vec::new();
    let mut i: u32 = 0;
    let mut p: usize = pos;
    while i < count
        invariant
            i <= count,
            out@.len() == i,
            hs == sizes.heap_sizes,
            rc == sizes.row_counts@,
            spec_assembly_rows(d@, pos as int, count as int, hs, rc) == (match spec_assembly_rows(
                d@,
                p as int,
                count - i,
                hs,
                rc,
            ) {
                Ok((rest, pe)) => Ok::<(Seq<AssemblyEntry>, int), DecodeError>((out@ + rest, pe)),
                Err(e) => Err::<(Seq<AssemblyEntry>, int), DecodeError>(e),
            }),
        decreases count - i,
    {
        let ghost prev = out@;
        let ghost pp = p as int;
        let ghost ni = count - i;
        let (m, p2) = match AssemblyEntry::read_entry(d, p, sizes) {
            Ok(x) => x,
            Err(e) => {
                proof {
                    assert(spec_assembly_rows(d@, pp, ni as int, hs, rc) == Err::<
                        (Seq<AssemblyEntry>, int),
                        DecodeError,
                    >(e));
                }
                return Err(e);
            },
        };
        out.push(m);
        proof {
            let tail = spec_assembly_rows(d@, p2 as int, ni - 1, hs, rc);
            assert(spec_assembly_rows(d@, pp, ni as int, hs, rc) == (match tail {
                Ok((s, pe)) => Ok::<(Seq<AssemblyEntry>, int), DecodeError>((seq![m] + s, pe)),
                Err(e) => Err::<(Seq<AssemblyEntry>, int), DecodeError>(e),
            }));
            if tail is Ok {
                assert(prev + (seq![m] + tail->Ok_0.0) =~= out@ + tail->Ok_0.0);
            }
        }
        p = p2;
        i = i + 1;
    }
    proof {
        assert(out@ + Seq::<AssemblyEntry>::empty() =~= out@);
    }
    Ok((out, p))
}

/// Every row of the sequence is well formed.
pub open spec fn assembly_rows_wf(s: Seq<AssemblyEntry>, ext: HeapExtents) -> bool {
    forall|i: int| 0 <= i < s.len() ==> assembly_wf(#[trigger] s[i], ext)
}

/// The exact verdict on a Assembly row sequence: the first offending row
/// in on-disk order wins.
pub open spec fn spec_check_assembly_rows(s: Seq<AssemblyEntry>, i: int, ext: HeapExtents) -> Result<
    (),
    DecodeError,
>
    decreases s.len() - i,
{
    if i < 0 || i >= s.len() {
        Ok(())
    } else {
        match spec_check_assembly(s[i], ext) {
            Err(e) => Err(e),
            Ok(u) => spec_check_assembly_rows(s, i + 1, ext),
        }
    }
}

/// Check every Assembly row against the heap extents.
pub fn check_assembly_rows(v: &Vec<AssemblyEntry>, ext: &HeapExtents) -> (r: Result<(), DecodeError>)
    ensures
        r == spec_check_assembly_rows(v@, 0, *ext),
        r is Ok <==> assembly_rows_wf(v@, *ext),
        r is Err ==> r->Err_0 is IndexOutOfRange,
{
    let mut i: usize = 0;
    while i < v.len()
        invariant
            i <= v@.len(),
            forall|k: int| 0 <= k < i ==> assembly_wf(#[trigger] v@[k], *ext),
            spec_check_assembly_rows(v@, 0, *ext) == spec_check_assembly_rows(v@, i as int, *ext),
        decreases v@.len() - i,
    {
        match check_assembly(&v[i], ext) {
            Ok(u) => {},
            Err(e) => {
                proof {
                    assert(spec_check_assembly_rows(v@, i as int, *ext) == Err::<(), DecodeError>(e));
                }
                return Err(e);
            },
        }
        proof {
            assert(spec_check_assembly_rows(v@, i as int, *ext) == spec_check_assembly_rows(v@, i + 1, *ext));
        }
        i = i + 1;
    }
    proof {
        assert(spec_check_assembly_rows(v@, v@.len() as int, *ext) == Ok::<(), DecodeError>(()));
    }
    Ok(())
}

/// `count` consecutive AssemblyRef rows.
pub open spec fn spec_assembly_ref_rows(
    d: Seq<u8>,
    pos: int,
    n: int,
    hs: HeapOffsetSizes,
    rc: Seq<u32>,
) -> Result<(Seq<AssemblyRefEntry>, int), DecodeError>
    decreases n,
{
    if n <= 0 {
        Ok((Seq::empty(), pos))
    } else {
        match AssemblyRefEntry::spec_read_entry(d, pos, hs, rc) {
            Err(e) => Err(e),
            Ok((m, p)) => match spec_assembly_ref_rows(d, p, n - 1, hs, rc) {
                Err(e) => Err(e),
                Ok((s, pe)) => Ok((seq![m] + s, pe)),
            },
        }
    }
}

/// Read `count` consecutive AssemblyRef rows.
pub fn read_assembly_ref_rows(d: &Vec<u8>, pos: usize, count: u32, sizes: &FieldSizes) -> (r: Result<
    (Vec<AssemblyRefEntry>, usize),
    DecodeError,
>)
    ensures
        match (r, spec_assembly_ref_rows(
            d@,
            pos as int,
            count as int,
            sizes.heap_sizes,
            sizes.row_counts@,
        )) {
            (Ok((v, p)), Ok((s, sp))) => v@ == s && v@.len() == count && p as int == sp,
            (Err(e), Err(se)) => e == se,
            _ => false,
        },
{
    let ghost hs = sizes.heap_sizes;
    let ghost rc = sizes.row_counts@;
    let mut out: Vec<AssemblyRefEntry> = Vec::new();
    let mut i: u32 = 0;
    let mut p: usize = pos;
    while i < count
        invariant
            i <= count,
            out@.len() == i,
            hs == sizes.heap_sizes,
            rc == sizes.row_counts@,
            spec_assembly_ref_rows(d@, pos as int, count as int, hs, rc) == (match spec_assembly_ref_rows(
                d@,
                p as int,
                count - i,
                hs,
                rc,
            ) {
                Ok((rest, pe)) => Ok::<(Seq<AssemblyRefEntry>, int), DecodeError>((out@ + rest, pe)),
                Err(e) => Err::<(Seq<AssemblyRefEntry>, int), DecodeError>(e),
            }),
        decreases count - i,
    {
        let ghost prev = out@;
        let ghost pp = p as int;
        let ghost ni = count - i;
        let (m, p2) = match AssemblyRefEntry::read_entry(d, p, sizes) {
            Ok(x) => x,
            Err(e) => {
                proof {
                    assert(spec_assembly_ref_rows(d@, pp, ni as int, hs, rc) == Err::<
                        (Seq<AssemblyRefEntry>, int),
                        DecodeError,
                    >(e));
                }
                return Err(e);
            },
        };
        out.push(m);
        proof {
            let tail = spec_assembly_ref_rows(d@, p2 as int, ni - 1, hs, rc);
            assert(spec_assembly_ref_rows(d@, pp, ni as int, hs, rc) == (match tail {
                Ok((s, pe)) => Ok::<(Seq<AssemblyRefEntry>, int), DecodeError>((seq![m] + s, pe)),
                Err(e) => Err::<(Seq<AssemblyRefEntry>, int), DecodeError>(e),
            }));
            if tail is Ok {
                assert(prev + (seq![m] + tail->Ok_0.0) =~= out@ + tail->Ok_0.0);
            }
        }
        p = p2;
        i = i + 1;
    }
    proof {
        assert(out@ + Seq::<AssemblyRefEntry>::empty() =~= out@);
    }
    Ok((out, p))
}

/// Every row of the sequence is well formed.
pub open spec fn assembly_ref_rows_wf(s: Seq<AssemblyRefEntry>, ext: HeapExtents) -> bool {
    forall|i: int| 0 <= i < s.len() ==> assembly_ref_wf(#[trigger] s[i], ext)
}

/// The exact verdict on a AssemblyRef row sequence: the first offending row
/// in on-disk order wins.
pub open spec fn spec_check_assembly_ref_rows(s: Seq<AssemblyRefEntry>, i: int, ext: HeapExtents) -> Result<
    (),
    DecodeError,
>
    decreases s.len() - i,
{
    if i < 0 || i >= s.len() {
        Ok(())
    } else {
        match spec_check_assembly_ref(s[i], ext) {
            Err(e) => Err(e),
            Ok(u) => spec_check_assembly_ref_rows(s, i + 1, ext),
        }
    }
}

/// Check every AssemblyRef row against the heap extents.
pub fn check_assembly_ref_rows(v: &Vec<AssemblyRefEntry>, ext: &HeapExtents) -> (r: Result<(), DecodeError>)
    ensures
        r == spec_check_assembly_ref_rows(v@, 0, *ext),
        r is Ok <==> assembly_ref_rows_wf(v@, *ext),
        r is Err ==> r->Err_0 is IndexOutOfRange,
{
    let mut i: usize = 0;
    while i < v.len()
        invariant
            i <= v@.len(),
            forall|k: int| 0 <= k < i ==> assembly_ref_wf(#[trigger] v@[k], *ext),
            spec_check_assembly_ref_rows(v@, 0, *ext) == spec_check_assembly_ref_rows(v@, i as int, *ext),
        decreases v@.len() - i,
    {
        match check_assembly_ref(&v[i], ext) {
            Ok(u) => {},
            Err(e) => {
                proof {
                    assert(spec_check_assembly_ref_rows(v@, i as int, *ext) == Err::<(), DecodeError>(e));
                }
                return Err(e);
            },
        }
        proof {
            assert(spec_check_assembly_ref_rows(v@, i as int, *ext) == spec_check_assembly_ref_rows(v@, i + 1, *ext));
        }
        i = i + 1;
    }
    proof {
        assert(spec_check_assembly_ref_rows(v@, v@.len() as int, *ext) == Ok::<(), DecodeError>(()));
    }
    Ok(())
}












} // verus!
