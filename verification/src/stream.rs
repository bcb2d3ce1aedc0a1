//! Stream headers and the sizing data of the `#~` table stream.
//!
//! The `#~` header yields the dynamic parameters that govern every row
//! layout: which tables are present, how many rows each has, whether heap
//! indices are two or four bytes wide, and from those, the width of every
//! simple and composite index.

use vstd::prelude::*;
use crate::error::{DecodeError, Site};
use crate::reader;
use crate::reader::res_pos_eq_view;
use crate::tables::{check_assembly_ref_rows, check_assembly_rows, check_custom_attribute_rows,
    check_member_ref_rows, check_method_def_rows, check_module_rows, check_param_rows,
    check_type_def_rows, check_type_ref_rows, check_type_spec_rows, spec_check_assembly_ref_rows,
    spec_check_assembly_rows, spec_check_custom_attribute_rows, spec_check_member_ref_rows,
    spec_check_method_def_rows, spec_check_module_rows, spec_check_param_rows,
    spec_check_type_def_rows, spec_check_type_ref_rows, spec_check_type_spec_rows,
    read_assembly_ref_rows,
    read_assembly_rows, read_custom_attribute_rows, read_member_ref_rows, read_method_def_rows,
    read_module_rows, read_param_rows, read_type_def_rows, read_type_ref_rows,
    read_type_spec_rows, spec_assembly_ref_rows, spec_assembly_rows, spec_custom_attribute_rows,
    spec_member_ref_rows, spec_method_def_rows, spec_module_rows, spec_param_rows,
    spec_type_def_rows, spec_type_ref_rows, spec_type_spec_rows, tables_wf, Tables, TablesView};

verus! {

/// The metadata tables, numbered as the `valid` bitmask numbers them.
#[derive(Hash, PartialEq, Eq, Debug, Copy, Clone, Structural)]
pub enum TableId {
    Module,
    TypeRef,
    TypeDef,
    Field,
    MethodDef,
    Param,
    InterfaceImpl,
    MemberRef,
    Constant,
    CustomAttribute,
    FieldMarshal,
    DeclSecurity,
    ClassLayout,
    FieldLayout,
    StandAloneSig,
    EventMap,
    Event,
    PropertyMap,
    Property,
    MethodSemantics,
    MethodImpl,
    ModuleRef,
    TypeSpec,
    ImplMap,
    FieldRVA,
    Assembly,
    AssemblyProcessor,
    AssemblyOS,
    AssemblyRef,
    AssemblyRefProcessor,
    AssemblyRefOS,
    File,
    ExportedType,
    ManifestResource,
    NestedClass,
    GenericParam,
    MethodSpec,
    GenericParamConstraint,
}

/// The bit position of a table in the `valid` and `sorted` masks.
pub open spec fn table_id_num(t: TableId) -> int {
    match t {
        TableId::Module => 0,
        TableId::TypeRef => 1,
        TableId::TypeDef => 2,
        TableId::Field => 4,
        TableId::MethodDef => 6,
        TableId::Param => 8,
        TableId::InterfaceImpl => 9,
        TableId::MemberRef => 10,
        TableId::Constant => 11,
        TableId::CustomAttribute => 12,
        TableId::FieldMarshal => 13,
        TableId::DeclSecurity => 14,
        TableId::ClassLayout => 15,
        TableId::FieldLayout => 16,
        TableId::StandAloneSig => 17,
        TableId::EventMap => 18,
        TableId::Event => 20,
        TableId::PropertyMap => 21,
        TableId::Property => 23,
        TableId::MethodSemantics => 24,
        TableId::MethodImpl => 25,
        TableId::ModuleRef => 26,
        TableId::TypeSpec => 27,
        TableId::ImplMap => 28,
        TableId::FieldRVA => 29,
        TableId::Assembly => 32,
        TableId::AssemblyProcessor => 33,
        TableId::AssemblyOS => 34,
        TableId::AssemblyRef => 35,
        TableId::AssemblyRefProcessor => 36,
        TableId::AssemblyRefOS => 37,
        TableId::File => 38,
        TableId::ExportedType => 39,
        TableId::ManifestResource => 40,
        TableId::NestedClass => 41,
        TableId::GenericParam => 42,
        TableId::MethodSpec => 43,
        TableId::GenericParamConstraint => 44,
    }
}

/// The table at bit position `n`, if the format defines one there.
pub open spec fn spec_table_id_of(n: int) -> Option<TableId> {
    if n == 0 {
        Some(TableId::Module)
    } else if n == 1 {
        Some(TableId::TypeRef)
    } else if n == 2 {
        Some(TableId::TypeDef)
    } else if n == 4 {
        Some(TableId::Field)
    } else if n == 6 {
        Some(TableId::MethodDef)
    } else if n == 8 {
        Some(TableId::Param)
    } else if n == 9 {
        Some(TableId::InterfaceImpl)
    } else if n == 10 {
        Some(TableId::MemberRef)
    } else if n == 11 {
        Some(TableId::Constant)
    } else if n == 12 {
        Some(TableId::CustomAttribute)
    } else if n == 13 {
        Some(TableId::FieldMarshal)
    } else if n == 14 {
        Some(TableId::DeclSecurity)
    } else if n == 15 {
        Some(TableId::ClassLayout)
    } else if n == 16 {
        Some(TableId::FieldLayout)
    } else if n == 17 {
        Some(TableId::StandAloneSig)
    } else if n == 18 {
        Some(TableId::EventMap)
    } else if n == 20 {
        Some(TableId::Event)
    } else if n == 21 {
        Some(TableId::PropertyMap)
    } else if n == 23 {
        Some(TableId::Property)
    } else if n == 24 {
        Some(TableId::MethodSemantics)
    } else if n == 25 {
        Some(TableId::MethodImpl)
    } else if n == 26 {
        Some(TableId::ModuleRef)
    } else if n == 27 {
        Some(TableId::TypeSpec)
    } else if n == 28 {
        Some(TableId::ImplMap)
    } else if n == 29 {
        Some(TableId::FieldRVA)
    } else if n == 32 {
        Some(TableId::Assembly)
    } else if n == 33 {
        Some(TableId::AssemblyProcessor)
    } else if n == 34 {
        Some(TableId::AssemblyOS)
    } else if n == 35 {
        Some(TableId::AssemblyRef)
    } else if n == 36 {
        Some(TableId::AssemblyRefProcessor)
    } else if n == 37 {
        Some(TableId::AssemblyRefOS)
    } else if n == 38 {
        Some(TableId::File)
    } else if n == 39 {
        Some(TableId::ExportedType)
    } else if n == 40 {
        Some(TableId::ManifestResource)
    } else if n == 41 {
        Some(TableId::NestedClass)
    } else if n == 42 {
        Some(TableId::GenericParam)
    } else if n == 43 {
        Some(TableId::MethodSpec)
    } else if n == 44 {
        Some(TableId::GenericParamConstraint)
    } else {
        None
    }
}

impl TableId {
    /// The bit position of this table in the `valid` and `sorted` masks.
    pub fn to_num(self) -> (r: u8)
        ensures
            r as int == table_id_num(self),
    {
        match self {
            TableId::Module => 0,
            TableId::TypeRef => 1,
            TableId::TypeDef => 2,
            TableId::Field => 4,
            TableId::MethodDef => 6,
            TableId::Param => 8,
            TableId::InterfaceImpl => 9,
            TableId::MemberRef => 10,
            TableId::Constant => 11,
            TableId::CustomAttribute => 12,
            TableId::FieldMarshal => 13,
            TableId::DeclSecurity => 14,
            TableId::ClassLayout => 15,
            TableId::FieldLayout => 16,
            TableId::StandAloneSig => 17,
            TableId::EventMap => 18,
            TableId::Event => 20,
            TableId::PropertyMap => 21,
            TableId::Property => 23,
            TableId::MethodSemantics => 24,
            TableId::MethodImpl => 25,
            TableId::ModuleRef => 26,
            TableId::TypeSpec => 27,
            TableId::ImplMap => 28,
            TableId::FieldRVA => 29,
            TableId::Assembly => 32,
            TableId::AssemblyProcessor => 33,
            TableId::AssemblyOS => 34,
            TableId::AssemblyRef => 35,
            TableId::AssemblyRefProcessor => 36,
            TableId::AssemblyRefOS => 37,
            TableId::File => 38,
            TableId::ExportedType => 39,
            TableId::ManifestResource => 40,
            TableId::NestedClass => 41,
            TableId::GenericParam => 42,
            TableId::MethodSpec => 43,
            TableId::GenericParamConstraint => 44,
        }
    }

    /// The table at bit position `n`, if the format defines one there.
    pub fn from_num(n: u8) -> (r: Option<TableId>)
        ensures
            r == spec_table_id_of(n as int),
    {
        match n {
            0 => Some(TableId::Module),
            1 => Some(TableId::TypeRef),
            2 => Some(TableId::TypeDef),
            4 => Some(TableId::Field),
            6 => Some(TableId::MethodDef),
            8 => Some(TableId::Param),
            9 => Some(TableId::InterfaceImpl),
            10 => Some(TableId::MemberRef),
            11 => Some(TableId::Constant),
            12 => Some(TableId::CustomAttribute),
            13 => Some(TableId::FieldMarshal),
            14 => Some(TableId::DeclSecurity),
            15 => Some(TableId::ClassLayout),
            16 => Some(TableId::FieldLayout),
            17 => Some(TableId::StandAloneSig),
            18 => Some(TableId::EventMap),
            20 => Some(TableId::Event),
            21 => Some(TableId::PropertyMap),
            23 => Some(TableId::Property),
            24 => Some(TableId::MethodSemantics),
            25 => Some(TableId::MethodImpl),
            26 => Some(TableId::ModuleRef),
            27 => Some(TableId::TypeSpec),
            28 => Some(TableId::ImplMap),
            29 => Some(TableId::FieldRVA),
            32 => Some(TableId::Assembly),
            33 => Some(TableId::AssemblyProcessor),
            34 => Some(TableId::AssemblyOS),
            35 => Some(TableId::AssemblyRef),
            36 => Some(TableId::AssemblyRefProcessor),
            37 => Some(TableId::AssemblyRefOS),
            38 => Some(TableId::File),
            39 => Some(TableId::ExportedType),
            40 => Some(TableId::ManifestResource),
            41 => Some(TableId::NestedClass),
            42 => Some(TableId::GenericParam),
            43 => Some(TableId::MethodSpec),
            44 => Some(TableId::GenericParamConstraint),
            _ => None,
        }
    }
}

/// The width of an index field: two bytes or four.
#[derive(Debug, Clone, Copy, PartialEq, Eq, PartialOrd, Ord, Structural)]
pub enum IndexSize {
    Word,
    Dword,
}

impl IndexSize {
    /// The number of bytes an index of this size occupies.
    pub open spec fn spec_width(self) -> int {
        match self {
            IndexSize::Word => 2,
            IndexSize::Dword => 4,
        }
    }

    /// The largest value an index of this size can carry.
    pub fn to_u32(self) -> (r: u32)
        ensures
            self == IndexSize::Word ==> r == u16::MAX as u32,
            self == IndexSize::Dword ==> r == u32::MAX,
    {
        match self {
            IndexSize::Word => u16::MAX as u32,
            IndexSize::Dword => u32::MAX,
        }
    }

    /// `Dword` when the flag is set, `Word` otherwise.
    pub fn from_bit(x: bool) -> (r: IndexSize)
        ensures
            r == (if x {
                IndexSize::Dword
            } else {
                IndexSize::Word
            }),
    {
        if x {
            IndexSize::Dword
        } else {
            IndexSize::Word
        }
    }

    /// The number of bytes an index of this size occupies.
    pub fn width(self) -> (r: usize)
        ensures
            r as int == self.spec_width(),
    {
        match self {
            IndexSize::Word => 2,
            IndexSize::Dword => 4,
        }
    }
}

/// The widths of the three heap-index kinds, from the heap-sizes flag
/// byte of the `#~` header.
#[derive(Debug, Clone, Copy, PartialEq, Eq, Structural)]
pub struct HeapOffsetSizes {
    pub string_index: IndexSize,
    pub guid_index: IndexSize,
    pub blob_index: IndexSize,
}

/// Heap widths determined by the low three bits of the flag byte: bit 0
/// widens string indices, bit 1 GUID indices, bit 2 blob indices.
pub open spec fn spec_heap_offset_sizes(x: u8) -> HeapOffsetSizes {
    HeapOffsetSizes {
        string_index: if x & 0b1 != 0 {
            IndexSize::Dword
        } else {
            IndexSize::Word
        },
        guid_index: if x & 0b10 != 0 {
            IndexSize::Dword
        } else {
            IndexSize::Word
        },
        blob_index: if x & 0b100 != 0 {
            IndexSize::Dword
        } else {
            IndexSize::Word
        },
    }
}

impl HeapOffsetSizes {
    /// Decode the heap-sizes flag byte.
    pub fn from_flags(x: u8) -> (r: HeapOffsetSizes)
        ensures
            r == spec_heap_offset_sizes(x),
    {
        HeapOffsetSizes {
            string_index: IndexSize::from_bit((x & 0b1) > 0),
            guid_index: IndexSize::from_bit((x & 0b10) > 0),
            blob_index: IndexSize::from_bit((x & 0b100) > 0),
        }
    }
}

/// The per-table row counts, indexed by bit position; tables that are
/// absent count zero rows.
#[derive(Debug)]
pub struct RowCounts {
    counts: Vec<u32>,
}

impl View for RowCounts {
    type V = Seq<u32>;

    closed spec fn view(&self) -> Seq<u32> {
        if self.counts@.len() == 64 {
            self.counts@
        } else {
            Seq::new(64, |i: int| 0u32)
        }
    }
}

/// The row count of table `t` in a count table `rc`.
pub open spec fn spec_count(rc: Seq<u32>, t: TableId) -> u32 {
    rc[table_id_num(t)]
}

impl RowCounts {
    #[verifier::type_invariant]
    spec fn type_inv(self) -> bool {
        self.counts.len() == 64
    }

    /// All counts zero.
    pub fn new() -> (r: RowCounts)
        ensures
            r@ == Seq::new(64, |i: int| 0u32),
    {
        let counts: Vec<u32> = vec![0u32; 64];
        proof {
            assert(counts@ =~= Seq::new(64, |i: int| 0u32));
        }
        RowCounts { counts }
    }

    /// The row count of table `t`.
    pub fn get(&self, t: TableId) -> (r: u32)
        ensures
            r == spec_count(self@, t),
    {
        proof {
            use_type_invariant(self);
        }
        let n = t.to_num();
        self.counts[n as usize]
    }

    /// Record the row count of table `t`.
    pub fn set(&mut self, t: TableId, c: u32)
        ensures
            final(self)@ == old(self)@.update(table_id_num(t), c),
    {
        proof {
            use_type_invariant(&*self);
        }
        let n = t.to_num();
        self.counts[n as usize] = c;
    }

    /// The length of the count table is fixed.
    pub proof fn lemma_len(&self)
        ensures
            self@.len() == 64,
    {
    }
}

/// The byte sizes of the heap extents, for validating stored heap
/// indices.
#[derive(Debug, Clone, Copy, PartialEq, Eq, Structural)]
pub struct HeapExtents {
    pub string_size: u32,
    pub guid_size: u32,
    pub blob_size: u32,
}

/// Everything a row decoder needs to know about field widths.
#[derive(Debug)]
pub struct FieldSizes {
    pub heap_sizes: HeapOffsetSizes,
    pub row_counts: RowCounts,
    pub heap_extents: HeapExtents,
}

/// A simple index into table `t` is four bytes wide exactly when the
/// table's row count exceeds `65535`.
pub open spec fn spec_index_size(rc: Seq<u32>, t: TableId) -> IndexSize {
    if spec_count(rc, t) > 65535 {
        IndexSize::Dword
    } else {
        IndexSize::Word
    }
}

impl FieldSizes {
    /// Width of a simple index into table `t`: a dword exactly when the
    /// table holds more than `65535` rows.
    pub fn index_size(&self, t: TableId) -> (r: IndexSize)
        ensures
            r == spec_index_size(self.row_counts@, t),
            (r == IndexSize::Dword) <==> spec_count(self.row_counts@, t) > 65535,
    {
        if self.row_counts.get(t) > 65535 {
            IndexSize::Dword
        } else {
            IndexSize::Word
        }
    }
}

/// One stream header of the metadata root: extent and name.
#[derive(Debug, Clone)]
pub struct StreamHeader {
    pub offset: u32,
    pub size: u32,
    pub name: String,
}

impl View for StreamHeader {
    type V = (u32, u32, Seq<char>);

    open spec fn view(&self) -> (u32, u32, Seq<char>) {
        (self.offset, self.size, self.name@)
    }
}

/// A stream header: offset and size words, then the name, NUL-padded to
/// a four-byte boundary.
pub open spec fn spec_stream_header(d: Seq<u8>, pos: int) -> Result<
    ((u32, u32, Seq<char>), int),
    DecodeError,
> {
    match reader::spec_read_u32(d, pos) {
        Err(e) => Err(e),
        Ok((offset, p1)) => match reader::spec_read_u32(d, p1) {
            Err(e) => Err(e),
            Ok((size, p2)) => match reader::spec_read_c_str_aligned(d, p2, 4, Site::StreamName) {
                Err(e) => Err(e),
                Ok((name, p3)) => Ok(((offset, size, name), p3)),
            },
        },
    }
}

impl StreamHeader {
    /// Decode one stream header.
    pub fn read_from(d: &Vec<u8>, pos: usize) -> (r: Result<(StreamHeader, usize), DecodeError>)
        ensures
            res_pos_eq_view(r, spec_stream_header(d@, pos as int)),
    {
        let (offset, p1) = reader::read_u32(d, pos)?;
        let (size, p2) = reader::read_u32(d, p1)?;
        let (name, p3) = reader::read_c_str_aligned(d, p2, 4, Site::StreamName)?;
        Ok((StreamHeader { offset, size, name }, p3))
    }
}

/// The set of tables named by a `valid` bitmask, in ascending bit order.
#[derive(Debug)]
pub struct TableIds(pub Vec<TableId>);

/// The tables named by the bits of `mask` at positions `i` and above; a
/// set bit at an undefined position is a fatal error.
pub open spec fn spec_table_ids_from(mask: u64, i: int) -> Result<Seq<TableId>, DecodeError>
    decreases 64 - i,
{
    if i < 0 || i >= 64 {
        Ok(Seq::empty())
    } else if mask & (1u64 << (i as u64)) != 0 {
        match spec_table_id_of(i) {
            None => Err(DecodeError::UnknownTableId(i as u8)),
            Some(t) => match spec_table_ids_from(mask, i + 1) {
                Err(e) => Err(e),
                Ok(s) => Ok(seq![t] + s),
            },
        }
    } else {
        spec_table_ids_from(mask, i + 1)
    }
}

impl TableIds {
    /// Decode the `valid` bitmask into the list of present tables, in
    /// ascending bit order.
    pub fn from_mask(mask: u64) -> (r: Result<TableIds, DecodeError>)
        ensures
            match r {
                Ok(ids) => spec_table_ids_from(mask, 0) == Ok::<Seq<TableId>, DecodeError>(ids.0@),
                Err(e) => spec_table_ids_from(mask, 0) == Err::<Seq<TableId>, DecodeError>(e),
            },
    {
        let mut out: Vec<TableId> = Vec::new();
        let mut i: u8 = 0;
        while i < 64
            invariant
                i <= 64,
                spec_table_ids_from(mask, 0) == (match spec_table_ids_from(mask, i as int) {
                    Ok(rest) => Ok::<Seq<TableId>, DecodeError>(out@ + rest),
                    Err(e) => Err::<Seq<TableId>, DecodeError>(e),
                }),
            decreases 64 - i,
        {
            let ghost prev = out@;
            proof {
                assert(spec_table_ids_from(mask, i as int) == (if mask & (1u64 << (i as u64))
                    != 0 {
                    match spec_table_id_of(i as int) {
                        None => Err::<Seq<TableId>, DecodeError>(DecodeError::UnknownTableId(i)),
                        Some(t) => match spec_table_ids_from(mask, i + 1) {
                            Err(e) => Err::<Seq<TableId>, DecodeError>(e),
                            Ok(s) => Ok::<Seq<TableId>, DecodeError>(seq![t] + s),
                        },
                    }
                } else {
                    spec_table_ids_from(mask, i + 1)
                }));
            }
            if mask & (1u64 << (i as u64)) != 0 {
                match TableId::from_num(i) {
                    Some(t) => {
                        out.push(t);
                        proof {
                            let rest1 = spec_table_ids_from(mask, i + 1);
                            if rest1 is Ok {
                                assert(prev + (seq![t] + rest1->Ok_0) =~= out@ + rest1->Ok_0);
                            }
                        }
                    },
                    None => {
                        return Err(DecodeError::UnknownTableId(i));
                    },
                }
            }
            i = i + 1;
        }
        proof {
            assert(out@ + Seq::<TableId>::empty() =~= out@);
        }
        Ok(TableIds(out))
    }
}


/// Is there a row decoder for this table kind?
pub open spec fn is_supported(t: TableId) -> bool {
    match t {
        TableId::Module => true,
        TableId::TypeRef => true,
        TableId::TypeDef => true,
        TableId::MethodDef => true,
        TableId::Param => true,
        TableId::MemberRef => true,
        TableId::CustomAttribute => true,
        TableId::TypeSpec => true,
        TableId::Assembly => true,
        TableId::AssemblyRef => true,
        _ => false,
    }
}

/// Is there a row decoder for this table kind?
pub fn supported(t: TableId) -> (b: bool)
    ensures
        b == is_supported(t),
{
    match t {
        TableId::Module => true,
        TableId::TypeRef => true,
        TableId::TypeDef => true,
        TableId::MethodDef => true,
        TableId::Param => true,
        TableId::MemberRef => true,
        TableId::CustomAttribute => true,
        TableId::TypeSpec => true,
        TableId::Assembly => true,
        TableId::AssemblyRef => true,
        _ => false,
    }
}

/// One row-count word per present table, folded into the count table.
pub open spec fn spec_read_counts(d: Seq<u8>, pos: int, ids: Seq<TableId>, acc: Seq<u32>)
    -> Result<(Seq<u32>, int), DecodeError>
    decreases ids.len(),
{
    if ids.len() == 0 {
        Ok((acc, pos))
    } else {
        match reader::spec_read_u32(d, pos) {
            Err(e) => Err(e),
            Ok((c, p)) => spec_read_counts(
                d,
                p,
                ids.drop_first(),
                acc.update(table_id_num(ids[0]), c),
            ),
        }
    }
}

/// Read the row count of each present table, in ascending bit order.
pub fn read_counts(d: &Vec<u8>, pos: usize, ids: &TableIds) -> (r: Result<
    (RowCounts, usize),
    DecodeError,
>)
    ensures
        match (r, spec_read_counts(d@, pos as int, ids.0@, Seq::new(64, |i: int| 0u32))) {
            (Ok((rc, p)), Ok((s, sp))) => rc@ == s && p as int == sp,
            (Err(e), Err(se)) => e == se,
            _ => false,
        },
{
    let mut rc = RowCounts::new();
    let mut i: usize = 0;
    let mut p: usize = pos;
    proof {
        assert(ids.0@.skip(0) =~= ids.0@);
    }
    while i < ids.0.len()
        invariant
            i <= ids.0@.len(),
            spec_read_counts(d@, pos as int, ids.0@, Seq::new(64, |k: int| 0u32))
                == spec_read_counts(d@, p as int, ids.0@.skip(i as int), rc@),
        decreases ids.0@.len() - i,
    {
        let ghost pre = rc@;
        let ghost rest = ids.0@.skip(i as int);
        let t = ids.0[i];
        let (c, p2) = match reader::read_u32(d, p) {
            Ok(x) => x,
            Err(e) => {
                proof {
                    assert(spec_read_counts(d@, p as int, rest, pre) == Err::<
                        (Seq<u32>, int),
                        DecodeError,
                    >(e));
                }
                return Err(e);
            },
        };
        rc.set(t, c);
        proof {
            assert(rest[0] == ids.0@[i as int]);
            assert(rest.drop_first() =~= ids.0@.skip(i + 1));
            assert(spec_read_counts(d@, p as int, rest, pre) == spec_read_counts(
                d@,
                p2 as int,
                ids.0@.skip(i + 1),
                pre.update(table_id_num(t), c),
            ));
        }
        p = p2;
        i = i + 1;
    }
    proof {
        assert(ids.0@.skip(ids.0@.len() as int) =~= Seq::<TableId>::empty());
    }
    Ok((rc, p))
}

/// A present table without a decoder cannot be skipped: its row width is
/// unknown, so any such table with rows is a fatal error.
pub open spec fn spec_check_supported(ids: Seq<TableId>, rc: Seq<u32>) -> Result<
    (),
    DecodeError,
>
    decreases ids.len(),
{
    if ids.len() == 0 {
        Ok(())
    } else if !is_supported(ids[0]) && spec_count(rc, ids[0]) > 0 {
        Err(DecodeError::UnknownTableId(table_id_num(ids[0]) as u8))
    } else {
        spec_check_supported(ids.drop_first(), rc)
    }
}

/// Refuse any present table, with rows, that has no decoder here.
pub fn check_supported(ids: &TableIds, rc: &RowCounts) -> (r: Result<(), DecodeError>)
    ensures
        r == spec_check_supported(ids.0@, rc@),
{
    proof {
        assert(ids.0@.skip(0) =~= ids.0@);
    }
    let mut i: usize = 0;
    while i < ids.0.len()
        invariant
            i <= ids.0@.len(),
            spec_check_supported(ids.0@, rc@) == spec_check_supported(
                ids.0@.skip(i as int),
                rc@,
            ),
        decreases ids.0@.len() - i,
    {
        let ghost rest = ids.0@.skip(i as int);
        let t = ids.0[i];
        if !supported(t) && rc.get(t) > 0 {
            return Err(DecodeError::UnknownTableId(t.to_num()));
        }
        proof {
            assert(rest.drop_first() =~= ids.0@.skip(i + 1));
        }
        i = i + 1;
    }
    proof {
        assert(ids.0@.skip(ids.0@.len() as int) =~= Seq::<TableId>::empty());
    }
    Ok(())
}

/// The full decode of the `#~` stream: header prefix, present-table list,
/// row counts, then the rows of every supported table in ascending table
/// order. Absent tables read zero rows.
pub open spec fn spec_tables_stream(d: Seq<u8>, pos: int) -> Result<
    ((HeapOffsetSizes, Seq<u32>, TablesView), int),
    DecodeError,
> {
    match reader::spec_read_u32(d, pos) {
        Err(e) => Err(e),
        Ok((reserved, p1)) => if reserved != 0 {
            Err(DecodeError::BadMagic(Site::TablesHeader))
        } else {
            match reader::spec_read_u8(d, p1) {
                Err(e) => Err(e),
                Ok((major, p2)) => match reader::spec_read_u8(d, p2) {
                    Err(e) => Err(e),
                    Ok((minor, p3)) => match reader::spec_read_u8(d, p3) {
                        Err(e) => Err(e),
                        Ok((flags, p4)) => match reader::spec_read_u8(d, p4) {
                            Err(e) => Err(e),
                            Ok((reserved2, p5)) => match reader::spec_read_u64(d, p5) {
                                Err(e) => Err(e),
                                Ok((valid, p6)) => match reader::spec_read_u64(d, p6) {
                                    Err(e) => Err(e),
                                    Ok((sorted, p7)) => match spec_table_ids_from(valid, 0) {
                                        Err(e) => Err(e),
                                        Ok(ids) => match spec_read_counts(
                                            d,
                                            p7,
                                            ids,
                                            Seq::new(64, |i: int| 0u32),
                                        ) {
                                            Err(e) => Err(e),
                                            Ok((rc, p8)) => match spec_check_supported(ids, rc) {
                                                Err(e) => Err(e),
                                                Ok(u) => match spec_stream_rows(
                                                    d,
                                                    p8,
                                                    spec_heap_offset_sizes(flags),
                                                    rc,
                                                ) {
                                                    Err(e) => Err(e),
                                                    Ok((tv, pe)) => Ok(
                                                        ((spec_heap_offset_sizes(flags), rc, tv), pe),
                                                    ),
                                                },
                                            },
                                        },
                                    },
                                },
                            },
                        },
                    },
                },
            }
        },
    }
}

/// The rows of the ten supported tables, in ascending table order.
pub open spec fn spec_stream_rows(d: Seq<u8>, pos: int, hs: HeapOffsetSizes, rc: Seq<u32>)
    -> Result<(TablesView, int), DecodeError> {
    match spec_module_rows(d, pos, spec_count(rc, TableId::Module) as int, hs, rc) {
        Err(e) => Err(e),
        Ok((modules, q1)) => match spec_type_ref_rows(
            d,
            q1,
            spec_count(rc, TableId::TypeRef) as int,
            hs,
            rc,
        ) {
            Err(e) => Err(e),
            Ok((type_refs, q2)) => match spec_type_def_rows(
                d,
                q2,
                spec_count(rc, TableId::TypeDef) as int,
                hs,
                rc,
            ) {
                Err(e) => Err(e),
                Ok((type_defs, q3)) => match spec_method_def_rows(
                    d,
                    q3,
                    spec_count(rc, TableId::MethodDef) as int,
                    hs,
                    rc,
                ) {
                    Err(e) => Err(e),
                    Ok((method_defs, q4)) => match spec_param_rows(
                        d,
                        q4,
                        spec_count(rc, TableId::Param) as int,
                        hs,
                        rc,
                    ) {
                        Err(e) => Err(e),
                        Ok((params, q5)) => match spec_member_ref_rows(
                            d,
                            q5,
                            spec_count(rc, TableId::MemberRef) as int,
                            hs,
                            rc,
                        ) {
                            Err(e) => Err(e),
                            Ok((member_refs, q6)) => match spec_custom_attribute_rows(
                                d,
                                q6,
                                spec_count(rc, TableId::CustomAttribute) as int,
                                hs,
                                rc,
                            ) {
                                Err(e) => Err(e),
                                Ok((custom_attributes, q7)) => match spec_type_spec_rows(
                                    d,
                                    q7,
                                    spec_count(rc, TableId::TypeSpec) as int,
                                    hs,
                                    rc,
                                ) {
                                    Err(e) => Err(e),
                                    Ok((type_specs, q8)) => match spec_assembly_rows(
                                        d,
                                        q8,
                                        spec_count(rc, TableId::Assembly) as int,
                                        hs,
                                        rc,
                                    ) {
                                        Err(e) => Err(e),
                                        Ok((assemblies, q9)) => match spec_assembly_ref_rows(
                                            d,
                                            q9,
                                            spec_count(rc, TableId::AssemblyRef) as int,
                                            hs,
                                            rc,
                                        ) {
                                            Err(e) => Err(e),
                                            Ok((assembly_refs, q10)) => Ok(
                                                (
                                                    TablesView {
                                                        modules,
                                                        type_refs,
                                                        type_defs,
                                                        method_defs,
                                                        params,
                                                        member_refs,
                                                        custom_attributes,
                                                        type_specs,
                                                        assemblies,
                                                        assembly_refs,
                                                    },
                                                    q10,
                                                ),
                                            ),
                                        },
                                    },
                                },
                            },
                        },
                    },
                },
            },
        },
    }
}

/// The decoded `#~` stream: the rows and the declared row counts.
#[derive(Debug)]
pub struct MetaDataTablesStream {
    pub tables: Tables,
    pub row_counts: RowCounts,
}


/// Each table holds exactly its declared number of rows.
pub open spec fn stream_counts_match(t: TablesView, rc: Seq<u32>) -> bool {
    &&& t.modules.len() == spec_count(rc, TableId::Module)
    &&& t.type_refs.len() == spec_count(rc, TableId::TypeRef)
    &&& t.type_defs.len() == spec_count(rc, TableId::TypeDef)
    &&& t.method_defs.len() == spec_count(rc, TableId::MethodDef)
    &&& t.params.len() == spec_count(rc, TableId::Param)
    &&& t.member_refs.len() == spec_count(rc, TableId::MemberRef)
    &&& t.custom_attributes.len() == spec_count(rc, TableId::CustomAttribute)
    &&& t.type_specs.len() == spec_count(rc, TableId::TypeSpec)
    &&& t.assemblies.len() == spec_count(rc, TableId::Assembly)
    &&& t.assembly_refs.len() == spec_count(rc, TableId::AssemblyRef)
}

/// Read the rows of the ten supported tables, in ascending table order.
fn read_stream_rows(d: &Vec<u8>, pos: usize, sizes: &FieldSizes) -> (r: Result<
    (Tables, usize),
    DecodeError,
>)
    ensures
        match (r, spec_stream_rows(d@, pos as int, sizes.heap_sizes, sizes.row_counts@)) {
            (Ok((t, p)), Ok((tv, sp))) => t@ == tv && p as int == sp && stream_counts_match(
                tv,
                sizes.row_counts@,
            ),
            (Err(e), Err(se)) => e == se,
            _ => false,
        },
{
    let (modules, q1) = read_module_rows(d, pos, sizes.row_counts.get(TableId::Module), sizes)?;
    let (type_refs, q2) = read_type_ref_rows(
        d,
        q1,
        sizes.row_counts.get(TableId::TypeRef),
        sizes,
    )?;
    let (type_defs, q3) = read_type_def_rows(
        d,
        q2,
        sizes.row_counts.get(TableId::TypeDef),
        sizes,
    )?;
    let (method_defs, q4) = read_method_def_rows(
        d,
        q3,
        sizes.row_counts.get(TableId::MethodDef),
        sizes,
    )?;
    let (params, q5) = read_param_rows(d, q4, sizes.row_counts.get(TableId::Param), sizes)?;
    let (member_refs, q6) = read_member_ref_rows(
        d,
        q5,
        sizes.row_counts.get(TableId::MemberRef),
        sizes,
    )?;
    let (custom_attributes, q7) = read_custom_attribute_rows(
        d,
        q6,
        sizes.row_counts.get(TableId::CustomAttribute),
        sizes,
    )?;
    let (type_specs, q8) = read_type_spec_rows(
        d,
        q7,
        sizes.row_counts.get(TableId::TypeSpec),
        sizes,
    )?;
    let (assemblies, q9) = read_assembly_rows(
        d,
        q8,
        sizes.row_counts.get(TableId::Assembly),
        sizes,
    )?;
    let (assembly_refs, q10) = read_assembly_ref_rows(
        d,
        q9,
        sizes.row_counts.get(TableId::AssemblyRef),
        sizes,
    )?;
    let tables = Tables {
        modules,
        type_refs,
        type_defs,
        method_defs,
        params,
        member_refs,
        custom_attributes,
        type_specs,
        assemblies,
        assembly_refs,
    };
    Ok((tables, q10))
}

/// The exact verdict on the whole table set: tables are checked in
/// ascending table order, rows in on-disk order, fields in row order, so
/// equal inputs report the identical error.
pub open spec fn spec_check_tables(t: TablesView, rc: Seq<u32>, ext: HeapExtents) -> Result<
    (),
    DecodeError,
> {
    match spec_check_module_rows(t.modules, 0, ext) {
        Err(e) => Err(e),
        Ok(u0) => match spec_check_type_ref_rows(t.type_refs, 0, rc, ext) {
            Err(e) => Err(e),
            Ok(u1) => match spec_check_type_def_rows(t.type_defs, 0, rc, ext) {
                Err(e) => Err(e),
                Ok(u2) => match spec_check_method_def_rows(t.method_defs, 0, rc, ext) {
                    Err(e) => Err(e),
                    Ok(u3) => match spec_check_param_rows(t.params, 0, ext) {
                        Err(e) => Err(e),
                        Ok(u4) => match spec_check_member_ref_rows(t.member_refs, 0, rc, ext) {
                            Err(e) => Err(e),
                            Ok(u5) => match spec_check_custom_attribute_rows(
                                t.custom_attributes,
                                0,
                                rc,
                                ext,
                            ) {
                                Err(e) => Err(e),
                                Ok(u6) => match spec_check_type_spec_rows(t.type_specs, 0, ext) {
                                    Err(e) => Err(e),
                                    Ok(u7) => match spec_check_assembly_rows(
                                        t.assemblies,
                                        0,
                                        ext,
                                    ) {
                                        Err(e) => Err(e),
                                        Ok(u8) => spec_check_assembly_ref_rows(
                                            t.assembly_refs,
                                            0,
                                            ext,
                                        ),
                                    },
                                },
                            },
                        },
                    },
                },
            },
        },
    }
}

/// Check every stored index of every decoded row.
fn check_tables(t: &Tables, rc: &RowCounts, ext: &HeapExtents) -> (r: Result<(), DecodeError>)
    ensures
        r == spec_check_tables(t@, rc@, *ext),
        r is Ok <==> tables_wf(t@, rc@, *ext),
        r is Err ==> r->Err_0 is IndexOutOfRange,
{
    check_module_rows(&t.modules, ext)?;
    check_type_ref_rows(&t.type_refs, rc, ext)?;
    check_type_def_rows(&t.type_defs, rc, ext)?;
    check_method_def_rows(&t.method_defs, rc, ext)?;
    check_param_rows(&t.params, ext)?;
    check_member_ref_rows(&t.member_refs, rc, ext)?;
    check_custom_attribute_rows(&t.custom_attributes, rc, ext)?;
    check_type_spec_rows(&t.type_specs, ext)?;
    check_assembly_rows(&t.assemblies, ext)?;
    check_assembly_ref_rows(&t.assembly_refs, ext)?;
    Ok(())
}

impl MetaDataTablesStream {
    /// Decode the `#~` stream and validate every stored index against the
    /// row counts and the given heap extents. On success the returned
    /// tables are exactly the stream's rows and every index is null or in
    /// bounds; an out-of-range index is a fatal error.
    pub fn read_from(d: &Vec<u8>, pos: usize, extents: &HeapExtents) -> (r: Result<
        (MetaDataTablesStream, usize),
        DecodeError,
    >)
        ensures
            match spec_tables_stream(d@, pos as int) {
                Ok(((hs, rc, tv), pe)) => if tables_wf(tv, rc, *extents) {
                    match r {
                        Ok((s, p)) => s.tables@ == tv && s.row_counts@ == rc && p as int == pe
                            && stream_counts_match(tv, rc),
                        _ => false,
                    }
                } else {
                    match r {
                        Err(e) => e is IndexOutOfRange && spec_check_tables(tv, rc, *extents)
                            == Err::<(), DecodeError>(e),
                        _ => false,
                    }
                },
                Err(e) => r == Err::<(MetaDataTablesStream, usize), DecodeError>(e),
            },
    {
        let (reserved, p1) = reader::read_u32(d, pos)?;
        if reserved != 0 {
            return Err(DecodeError::BadMagic(Site::TablesHeader));
        }
        let (_major, p2) = reader::read_u8(d, p1)?;
        let (_minor, p3) = reader::read_u8(d, p2)?;
        let (flags, p4) = reader::read_u8(d, p3)?;
        let heap_sizes = HeapOffsetSizes::from_flags(flags);
        let (_reserved2, p5) = reader::read_u8(d, p4)?;
        let (valid, p6) = reader::read_u64(d, p5)?;
        let (_sorted, p7) = reader::read_u64(d, p6)?;
        let table_ids = TableIds::from_mask(valid)?;
        let (row_counts, p8) = read_counts(d, p7, &table_ids)?;
        check_supported(&table_ids, &row_counts)?;
        let sizes = FieldSizes { heap_sizes, row_counts, heap_extents: *extents };
        let (tables, q) = read_stream_rows(d, p8, &sizes)?;
        check_tables(&tables, &sizes.row_counts, extents)?;
        let FieldSizes { heap_sizes: _h, row_counts, heap_extents: _e } = sizes;
        Ok((MetaDataTablesStream { tables, row_counts }, q))
    }
}

} // verus!
