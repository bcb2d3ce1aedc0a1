//! The immutable metadata aggregate: heaps, tables and queries over them.

use vstd::prelude::*;
use std::collections::HashMap;
use crate::code::MethodBody;
use crate::heap::{Heaps, UserString, UserStringHeap};
use crate::stream::{stream_counts_match, HeapExtents, RowCounts};
use crate::tables::{tables_wf, AssemblyEntry, AssemblyRefEntry, BlobHeap, CustomAttributeEntry,
    GuidHeap, Index, MemberRefEntry, MethodDefEntry, ModuleEntry, ParamEntry, StringHeap, Tables,
    TablesView, TypeDefEntry, TypeRefEntry, TypeSpecEntry};

verus! {


/// The decoded image: heaps, tables, declared row counts, and any method
/// bodies resolved later, keyed by their RVA.
#[derive(Debug)]
pub struct Metadata {
    pub tables: Tables,
    pub heaps: Heaps,
    pub method_bodies: HashMap<u32, MethodBody>,
    pub row_counts: RowCounts,
}

/// A row of any supported table, as resolved from a metadata token.
#[derive(Debug, Clone, Copy)]
pub enum Row {
    Module(ModuleEntry),
    TypeRef(TypeRefEntry),
    TypeDef(TypeDefEntry),
    MethodDef(MethodDefEntry),
    Param(ParamEntry),
    MemberRef(MemberRefEntry),
    CustomAttribute(CustomAttributeEntry),
    TypeSpec(TypeSpecEntry),
    Assembly(AssemblyEntry),
    AssemblyRef(AssemblyRefEntry),
}

/// A metadata token resolves through its high byte (the table) and its
/// low three bytes (the one-based row number).
pub open spec fn spec_resolve_token(t: TablesView, token: u32) -> Option<Row> {
    let tid = token / 0x1000000;
    let row = (token % 0x1000000) as int;
    if row == 0 {
        None
    } else if tid == 0 && row <= t.modules.len() {
        Some(Row::Module(t.modules[row - 1]))
    } else if tid == 1 && row <= t.type_refs.len() {
        Some(Row::TypeRef(t.type_refs[row - 1]))
    } else if tid == 2 && row <= t.type_defs.len() {
        Some(Row::TypeDef(t.type_defs[row - 1]))
    } else if tid == 6 && row <= t.method_defs.len() {
        Some(Row::MethodDef(t.method_defs[row - 1]))
    } else if tid == 8 && row <= t.params.len() {
        Some(Row::Param(t.params[row - 1]))
    } else if tid == 10 && row <= t.member_refs.len() {
        Some(Row::MemberRef(t.member_refs[row - 1]))
    } else if tid == 12 && row <= t.custom_attributes.len() {
        Some(Row::CustomAttribute(t.custom_attributes[row - 1]))
    } else if tid == 27 && row <= t.type_specs.len() {
        Some(Row::TypeSpec(t.type_specs[row - 1]))
    } else if tid == 32 && row <= t.assemblies.len() {
        Some(Row::Assembly(t.assemblies[row - 1]))
    } else if tid == 35 && row <= t.assembly_refs.len() {
        Some(Row::AssemblyRef(t.assembly_refs[row - 1]))
    } else {
        None
    }
}

impl Metadata {
    /// The byte sizes of the heap extents this metadata was decoded with.
    pub open spec fn extents(self) -> HeapExtents {
        HeapExtents {
            string_size: self.heaps.strings.size,
            guid_size: self.heaps.guids.size,
            blob_size: self.heaps.blobs.size,
        }
    }

    /// Referential integrity: row counts equal the rows held, and every
    /// stored index is null or within its target's bounds.
    pub open spec fn wf(self) -> bool {
        &&& stream_counts_match(self.tables@, self.row_counts@)
        &&& tables_wf(self.tables@, self.row_counts@, self.extents())
    }

    /// The string at a `#Strings` offset: nothing for the null index,
    /// even though the store records the empty string at offset zero.
    pub fn get_string(&self, index: &Index<StringHeap>) -> (r: Option<&String>)
        ensures
            match r {
                Some(s) => index.0 != 0 && self.heaps.strings.strings@.contains_key(index.0) && *s
                    == self.heaps.strings.strings@[index.0],
                None => index.0 == 0 || !self.heaps.strings.strings@.contains_key(index.0),
            },
    {
        if index.0 == 0 {
            return None;
        }
        self.heaps.strings.get_at_index(index.0)
    }

    /// The user string at a `#US` offset: nothing for the null index.
    pub fn get_user_string(&self, index: &Index<UserStringHeap>) -> (r: Option<&UserString>)
        ensures
            match r {
                Some(s) => index.0 != 0 && self.heaps.user_strings.strings@.contains_key(index.0)
                    && *s == self.heaps.user_strings.strings@[index.0],
                None => index.0 == 0 || !self.heaps.user_strings.strings@.contains_key(index.0),
            },
    {
        if index.0 == 0 {
            return None;
        }
        self.heaps.user_strings.get_at_index(index.0)
    }

    /// The blob at a `#Blob` offset: nothing for the null index.
    pub fn get_blob(&self, index: &Index<BlobHeap>) -> (r: Option<&Vec<u8>>)
        ensures
            match r {
                Some(b) => index.0 != 0 && self.heaps.blobs.blobs@.contains_key(index.0) && *b
                    == self.heaps.blobs.blobs@[index.0],
                None => index.0 == 0 || !self.heaps.blobs.blobs@.contains_key(index.0),
            },
    {
        if index.0 == 0 {
            return None;
        }
        self.heaps.blobs.get_at_index(index.0)
    }

    /// The sixteen bytes of a `#GUID` entry (one-based index).
    pub fn get_guid(&self, index: &Index<GuidHeap>) -> (r: Option<Vec<u8>>)
        ensures
            match r {
                Some(g) => index.0 >= 1 && 16 * index.0 <= self.heaps.guids.data@.len() && g@
                    == self.heaps.guids.data@.subrange(
                    16 * (index.0 - 1),
                    16 * index.0 as int,
                ),
                None => index.0 == 0 || 16 * index.0 > self.heaps.guids.data@.len(),
            },
    {
        self.heaps.guids.get_at_index(index.0)
    }

    /// The Module row a one-based index selects, if it is in range.
    pub fn get_module(&self, index: Index<ModuleEntry>) -> (r: Option<&ModuleEntry>)
        ensures
            match r {
                Some(m) => 1 <= index.0 <= self.tables.modules@.len() && *m
                    == self.tables.modules@[index.0 - 1],
                None => index.0 == 0 || index.0 > self.tables.modules@.len(),
            },
    {
        if index.0 == 0 || index.0 as usize > self.tables.modules.len() {
            return None;
        }
        Some(&self.tables.modules[index.0 as usize - 1])
    }

    /// The TypeRef row a one-based index selects, if it is in range.
    pub fn get_type_ref(&self, index: Index<TypeRefEntry>) -> (r: Option<&TypeRefEntry>)
        ensures
            match r {
                Some(m) => 1 <= index.0 <= self.tables.type_refs@.len() && *m
                    == self.tables.type_refs@[index.0 - 1],
                None => index.0 == 0 || index.0 > self.tables.type_refs@.len(),
            },
    {
        if index.0 == 0 || index.0 as usize > self.tables.type_refs.len() {
            return None;
        }
        Some(&self.tables.type_refs[index.0 as usize - 1])
    }

    /// The TypeDef row a one-based index selects, if it is in range.
    pub fn get_type_def(&self, index: Index<TypeDefEntry>) -> (r: Option<&TypeDefEntry>)
        ensures
            match r {
                Some(m) => 1 <= index.0 <= self.tables.type_defs@.len() && *m
                    == self.tables.type_defs@[index.0 - 1],
                None => index.0 == 0 || index.0 > self.tables.type_defs@.len(),
            },
    {
        if index.0 == 0 || index.0 as usize > self.tables.type_defs.len() {
            return None;
        }
        Some(&self.tables.type_defs[index.0 as usize - 1])
    }

    /// The MethodDef row a one-based index selects, if it is in range.
    pub fn get_method_def(&self, index: Index<MethodDefEntry>) -> (r: Option<&MethodDefEntry>)
        ensures
            match r {
                Some(m) => 1 <= index.0 <= self.tables.method_defs@.len() && *m
                    == self.tables.method_defs@[index.0 - 1],
                None => index.0 == 0 || index.0 > self.tables.method_defs@.len(),
            },
    {
        if index.0 == 0 || index.0 as usize > self.tables.method_defs.len() {
            return None;
        }
        Some(&self.tables.method_defs[index.0 as usize - 1])
    }

    /// The Param row a one-based index selects, if it is in range.
    pub fn get_param(&self, index: Index<ParamEntry>) -> (r: Option<&ParamEntry>)
        ensures
            match r {
                Some(m) => 1 <= index.0 <= self.tables.params@.len() && *m
                    == self.tables.params@[index.0 - 1],
                None => index.0 == 0 || index.0 > self.tables.params@.len(),
            },
    {
        if index.0 == 0 || index.0 as usize > self.tables.params.len() {
            return None;
        }
        Some(&self.tables.params[index.0 as usize - 1])
    }

    /// The MemberRef row a one-based index selects, if it is in range.
    pub fn get_member_ref(&self, index: Index<MemberRefEntry>) -> (r: Option<&MemberRefEntry>)
        ensures
            match r {
                Some(m) => 1 <= index.0 <= self.tables.member_refs@.len() && *m
                    == self.tables.member_refs@[index.0 - 1],
                None => index.0 == 0 || index.0 > self.tables.member_refs@.len(),
            },
    {
        if index.0 == 0 || index.0 as usize > self.tables.member_refs.len() {
            return None;
        }
        Some(&self.tables.member_refs[index.0 as usize - 1])
    }

    /// Resolve a metadata token: the high byte names the table and the
    /// low three bytes the one-based row. Null rows, unsupported tables
    /// and out-of-range rows resolve to nothing.
    pub fn resolve_token(&self, token: u32) -> (r: Option<Row>)
        ensures
            r == spec_resolve_token(self.tables@, token),
    {
        let tid = token / 0x1000000;
        let row = (token % 0x1000000) as usize;
        if row == 0 {
            return None;
        }
        if tid == 0 && row <= self.tables.modules.len() {
            Some(Row::Module(self.tables.modules[row - 1]))
        } else if tid == 1 && row <= self.tables.type_refs.len() {
            Some(Row::TypeRef(self.tables.type_refs[row - 1]))
        } else if tid == 2 && row <= self.tables.type_defs.len() {
            Some(Row::TypeDef(self.tables.type_defs[row - 1]))
        } else if tid == 6 && row <= self.tables.method_defs.len() {
            Some(Row::MethodDef(self.tables.method_defs[row - 1]))
        } else if tid == 8 && row <= self.tables.params.len() {
            Some(Row::Param(self.tables.params[row - 1]))
        } else if tid == 10 && row <= self.tables.member_refs.len() {
            Some(Row::MemberRef(self.tables.member_refs[row - 1]))
        } else if tid == 12 && row <= self.tables.custom_attributes.len() {
            Some(Row::CustomAttribute(self.tables.custom_attributes[row - 1]))
        } else if tid == 27 && row <= self.tables.type_specs.len() {
            Some(Row::TypeSpec(self.tables.type_specs[row - 1]))
        } else if tid == 32 && row <= self.tables.assemblies.len() {
            Some(Row::Assembly(self.tables.assemblies[row - 1]))
        } else if tid == 35 && row <= self.tables.assembly_refs.len() {
            Some(Row::AssemblyRef(self.tables.assembly_refs[row - 1]))
        } else {
            None
        }
    }
}

} // verus!
