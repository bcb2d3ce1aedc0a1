use clri::error::DecodeError;
use clri::math::to_next_multiple;
use clri::stream::{FieldSizes, HeapExtents, HeapOffsetSizes, IndexSize, RowCounts, TableId,
    TableIds};

#[test]
fn heap_widths_from_flag_byte() {
    let sizes = HeapOffsetSizes::from_flags(0b011);
    assert_eq!(IndexSize::Dword, sizes.string_index);
    assert_eq!(IndexSize::Dword, sizes.guid_index);
    assert_eq!(IndexSize::Word, sizes.blob_index);
}

#[test]
fn index_size_boundary() {
    let mut row_counts = RowCounts::new();
    row_counts.set(TableId::TypeDef, 65535);
    row_counts.set(TableId::TypeRef, 65536);
    let sizes = FieldSizes {
        heap_sizes: HeapOffsetSizes::from_flags(0),
        row_counts,
        heap_extents: HeapExtents { string_size: 0, guid_size: 0, blob_size: 0 },
    };
    assert_eq!(IndexSize::Word, sizes.index_size(TableId::TypeDef));
    assert_eq!(IndexSize::Dword, sizes.index_size(TableId::TypeRef));
    assert_eq!(IndexSize::Word, sizes.index_size(TableId::Module));
}

#[test]
fn index_size_limits() {
    assert_eq!(0xFFFF, IndexSize::Word.to_u32());
    assert_eq!(0xFFFF_FFFF, IndexSize::Dword.to_u32());
    assert_eq!(2, IndexSize::Word.width());
    assert_eq!(4, IndexSize::Dword.width());
}

#[test]
fn table_ids_from_mask_ascending() {
    let ids = TableIds::from_mask((1 << 0) | (1 << 2) | (1 << 35)).unwrap();
    assert_eq!(3, ids.0.len());
    assert_eq!(TableId::Module, ids.0[0]);
    assert_eq!(TableId::TypeDef, ids.0[1]);
    assert_eq!(TableId::AssemblyRef, ids.0[2]);
}

#[test]
fn table_ids_unknown_bit_is_fatal() {
    let err = TableIds::from_mask(1 << 3).unwrap_err();
    assert_eq!(err, DecodeError::UnknownTableId(3));

    let err = TableIds::from_mask(1 << 63).unwrap_err();
    assert_eq!(err, DecodeError::UnknownTableId(63));
}

#[test]
fn table_id_numbering() {
    assert_eq!(0, TableId::Module.to_num());
    assert_eq!(44, TableId::GenericParamConstraint.to_num());
    assert_eq!(Some(TableId::MethodDef), TableId::from_num(6));
    assert_eq!(None, TableId::from_num(19));
    assert_eq!(None, TableId::from_num(45));
}

#[test]
fn next_multiple_rounds_up() {
    assert_eq!(8, to_next_multiple(5, 4));
    assert_eq!(8, to_next_multiple(8, 4));
    assert_eq!(7, to_next_multiple(7, 0));
    assert_eq!(0, to_next_multiple(0, 16));
    assert_eq!(u64::MAX, to_next_multiple(u64::MAX - 1, 3));
    assert_eq!(u64::MAX - 1, to_next_multiple(u64::MAX - 1, 2));
}
