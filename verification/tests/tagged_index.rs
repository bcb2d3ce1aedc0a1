use clri::error::{CompositeKind, DecodeError};
use clri::stream::{RowCounts, TableId};
use clri::tables::{CustomAttributeType, HasCustomAttribute, Index, ResolutionScope, TypeDefOrRef};

#[test]
fn type_def_or_ref_16k_rows() {
    let bytes = vec![0b0010_0001u8, 0b0000_0011];

    let mut row_counts = RowCounts::new();
    row_counts.set(TableId::TypeDef, 2u32.pow(14) - 1);
    row_counts.set(TableId::TypeRef, 128);
    row_counts.set(TableId::TypeSpec, 0);

    let (type_def_or_ref, pos) = TypeDefOrRef::read_from(&bytes, 0, &row_counts).unwrap();

    match type_def_or_ref {
        TypeDefOrRef::TypeRef(Index(index, _)) => {
            assert_eq!(0xC8, index, "TypeRef index must equal 0xC8.")
        }
        otherwise => assert!(false, "TypeDefOrRef must be TypeRef(0xC8) (was {:?})", otherwise),
    }

    assert_eq!(2, pos);
}

#[test]
fn type_def_or_ref_over_16k_rows() {
    let bytes = vec![0b0000_0001u8, 0b0000_0000, 0b0000_0001, 0];

    let mut row_counts = RowCounts::new();
    row_counts.set(TableId::TypeDef, 2u32.pow(14));
    row_counts.set(TableId::TypeRef, 128);
    row_counts.set(TableId::TypeSpec, 0);

    let (type_def_or_ref, pos) = TypeDefOrRef::read_from(&bytes, 0, &row_counts).unwrap();

    match type_def_or_ref {
        TypeDefOrRef::TypeRef(Index(index, _)) => {
            assert_eq!(0x4000, index, "TypeRef index must equal 0x4000.")
        }
        _otherwise => assert!(false, "TypeDefOrRef must be TypeRef(0xC8)"),
    }

    assert_eq!(4, pos);
}

#[test]
fn type_def_or_ref_reserved_tag() {
    // Tag 0b11 has no target table.
    let bytes = vec![0b0000_0011u8, 0b0000_0000];
    let row_counts = RowCounts::new();
    let err = TypeDefOrRef::read_from(&bytes, 0, &row_counts).unwrap_err();
    assert_eq!(err, DecodeError::ReservedTag(CompositeKind::TypeDefOrRef, 3));
}

#[test]
fn has_custom_attribute_reserved_permission_tag() {
    // Five tag bits; tag 0b01000 is the reserved Permission target.
    let bytes = vec![0b0000_1000u8, 0b0000_0000];
    let row_counts = RowCounts::new();
    let err = HasCustomAttribute::read_from(&bytes, 0, &row_counts).unwrap_err();
    assert_eq!(err, DecodeError::ReservedTag(CompositeKind::HasCustomAttribute, 8));
}

#[test]
fn custom_attribute_type_reserved_tags() {
    // Three tag bits; only tags two and three are defined.
    let bytes = vec![0b0000_0000u8, 0b0000_0000];
    let row_counts = RowCounts::new();
    let err = CustomAttributeType::read_from(&bytes, 0, &row_counts).unwrap_err();
    assert_eq!(err, DecodeError::ReservedTag(CompositeKind::CustomAttributeType, 0));

    let bytes = vec![0b0000_0010u8, 0b0000_0000];
    let (v, pos) = CustomAttributeType::read_from(&bytes, 0, &row_counts).unwrap();
    assert!(matches!(v, CustomAttributeType::MethodDef(Index(0, _))));
    assert_eq!(2, pos);
}

#[test]
fn resolution_scope_round_trip() {
    // Encode (tag 3 = TypeRef, index 5) in a word: raw = 5 << 2 | 3.
    let raw: u16 = (5 << 2) | 3;
    let bytes = raw.to_le_bytes().to_vec();
    let row_counts = RowCounts::new();
    let (v, pos) = ResolutionScope::read_from(&bytes, 0, &row_counts).unwrap();
    assert!(matches!(v, ResolutionScope::TypeRef(Index(5, _))));
    assert_eq!(2, pos);
}

#[test]
fn composite_width_follows_max_of_targets() {
    // With 70000 TypeSpec rows the two-bit composite needs four bytes even
    // though TypeDef and TypeRef are small.
    let mut row_counts = RowCounts::new();
    row_counts.set(TableId::TypeSpec, 70000);
    let raw: u32 = (70000 << 2) | 0b10;
    let bytes = raw.to_le_bytes().to_vec();
    let (v, pos) = TypeDefOrRef::read_from(&bytes, 0, &row_counts).unwrap();
    assert!(matches!(v, TypeDefOrRef::TypeSpec(Index(70000, _))));
    assert_eq!(4, pos);
}
