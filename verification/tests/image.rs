use clri::clr::CLRImage;
use clri::code::{MethodBody, MethodHeader, TINY_FORMAT};
use clri::error::{DecodeError, IndexKind, Site};
use clri::metadata::Row;
use clri::pe::{Section, SectionHeader};
use clri::stream::{HeapExtents, MetaDataTablesStream, TableId};
use clri::tables::Index;

fn push_u16(out: &mut Vec<u8>, v: u16) {
    out.extend_from_slice(&v.to_le_bytes());
}

fn push_u32(out: &mut Vec<u8>, v: u32) {
    out.extend_from_slice(&v.to_le_bytes());
}

fn push_u64(out: &mut Vec<u8>, v: u64) {
    out.extend_from_slice(&v.to_le_bytes());
}

fn stream_header(out: &mut Vec<u8>, offset: u32, size: u32, name: &[u8]) {
    push_u32(out, offset);
    push_u32(out, size);
    out.extend_from_slice(name);
}

/// A `#~` stream holding a single Module row whose name is string heap
/// offset 1 and whose GUID is entry 1.
fn tables_stream() -> Vec<u8> {
    let mut s = Vec::new();
    push_u32(&mut s, 0); // reserved
    s.push(2); // major
    s.push(0); // minor
    s.push(0); // heap size flags: all word
    s.push(1); // reserved
    push_u64(&mut s, 1); // valid: Module only
    push_u64(&mut s, 0); // sorted
    push_u32(&mut s, 1); // Module row count
    push_u16(&mut s, 0); // generation
    push_u16(&mut s, 1); // name
    push_u16(&mut s, 1); // mv_id
    push_u16(&mut s, 0); // enc_id
    push_u16(&mut s, 0); // enc_base_id
    s
}

/// A synthesized minimal image: a CLI header, a metadata root and the
/// five streams, with a Module-only table stream.
fn minimal_section() -> Section {
    let strings: &[u8] = b"\0Hello\0";
    let user_strings: &[u8] = &[0u8];
    let guids: Vec<u8> = (0u8..16).collect();
    let blobs: &[u8] = &[0u8];
    let tables = tables_stream();

    // Stream headers occupy 76 bytes after the 24-byte root prefix.
    let streams_start = 100u32;
    let s_off = streams_start;
    let us_off = s_off + strings.len() as u32;
    let g_off = us_off + user_strings.len() as u32;
    let b_off = g_off + guids.len() as u32;
    let t_off = b_off + blobs.len() as u32;

    let mut root = Vec::new();
    push_u32(&mut root, 0x424A5342);
    push_u16(&mut root, 1);
    push_u16(&mut root, 1);
    push_u32(&mut root, 0);
    push_u32(&mut root, 4); // version length
    root.extend_from_slice(b"v1\0\0");
    push_u16(&mut root, 0);
    push_u16(&mut root, 5); // stream count
    stream_header(&mut root, t_off, tables.len() as u32, b"#~\0\0");
    stream_header(&mut root, s_off, strings.len() as u32, b"#Strings\0\0\0\0");
    stream_header(&mut root, us_off, user_strings.len() as u32, b"#US\0");
    stream_header(&mut root, g_off, guids.len() as u32, b"#GUID\0\0\0");
    stream_header(&mut root, b_off, blobs.len() as u32, b"#Blob\0\0\0");
    assert_eq!(streams_start as usize, root.len());
    root.extend_from_slice(strings);
    root.extend_from_slice(user_strings);
    root.extend_from_slice(&guids);
    root.extend_from_slice(blobs);
    root.extend_from_slice(&tables);

    let metadata_rva = 80u32;
    let mut data = vec![0u8; 8]; // loader stub
    push_u32(&mut data, 0x48);
    push_u16(&mut data, 2);
    push_u16(&mut data, 5);
    push_u32(&mut data, metadata_rva);
    push_u32(&mut data, root.len() as u32);
    push_u32(&mut data, 1); // flags: IL only
    push_u32(&mut data, 0x06000001); // entry point token
    for _ in 0..6 {
        push_u32(&mut data, 0);
        push_u32(&mut data, 0);
    }
    assert_eq!(80, data.len());
    data.extend_from_slice(&root);

    let len = data.len() as u32;
    Section {
        header: SectionHeader {
            name: ".text".to_string(),
            virtual_address: 0,
            virtual_size: len,
            real_size: len,
            offset: 0,
        },
        data,
    }
}

#[test]
fn minimal_image_decodes_module() {
    let section = minimal_section();
    let image = CLRImage::from_section(&section).unwrap();
    assert_eq!(0x06000001, image.cli_header.entry_point_token);
    assert!(image.strong_name_signature.is_none());

    let metadata = &image.metadata;
    assert_eq!(1, metadata.tables.modules.len());
    let module = &metadata.tables.modules[0];
    assert_eq!(0, module.generation);
    assert_eq!(1, module.name.0);
    assert_eq!("Hello", metadata.get_string(&module.name).unwrap());
    let guid = metadata.get_guid(&module.mv_id).unwrap();
    assert_eq!(16, guid.len());
    assert_eq!(0, guid[0]);
}

#[test]
fn minimal_image_resolves_tokens() {
    let section = minimal_section();
    let image = CLRImage::from_section(&section).unwrap();
    match image.metadata.resolve_token(0x00000001) {
        Some(Row::Module(m)) => assert_eq!(1, m.name.0),
        other => assert!(false, "token must resolve to the module (was {:?})", other),
    }
    assert!(image.metadata.resolve_token(0x00000000).is_none());
    assert!(image.metadata.resolve_token(0x00000002).is_none());
    assert!(image.metadata.resolve_token(0x05000001).is_none());
}

#[test]
fn tables_stream_reserved_word_is_checked() {
    let mut s = tables_stream();
    s[0] = 1;
    let ext = HeapExtents { string_size: 7, guid_size: 16, blob_size: 1 };
    let err = MetaDataTablesStream::read_from(&s, 0, &ext).unwrap_err();
    assert_eq!(err, DecodeError::BadMagic(Site::TablesHeader));
}

#[test]
fn tables_stream_unsupported_table_with_rows_is_fatal() {
    let mut s = Vec::new();
    push_u32(&mut s, 0);
    s.push(2);
    s.push(0);
    s.push(0);
    s.push(1);
    push_u64(&mut s, 1 << 4); // Field table present
    push_u64(&mut s, 0);
    push_u32(&mut s, 1); // with one row
    let ext = HeapExtents { string_size: 0, guid_size: 0, blob_size: 0 };
    let err = MetaDataTablesStream::read_from(&s, 0, &ext).unwrap_err();
    assert_eq!(err, DecodeError::UnknownTableId(4));
}

#[test]
fn tables_stream_out_of_range_heap_index_is_fatal() {
    let s = tables_stream();
    // A one-byte string heap makes the module's name offset invalid.
    let ext = HeapExtents { string_size: 1, guid_size: 16, blob_size: 1 };
    let err = MetaDataTablesStream::read_from(&s, 0, &ext).unwrap_err();
    assert_eq!(err, DecodeError::IndexOutOfRange(IndexKind::StringHeap, 1, 1));
}

#[test]
fn tables_stream_truncated_is_eof() {
    let s = tables_stream();
    let short = s[..s.len() - 4].to_vec();
    let ext = HeapExtents { string_size: 7, guid_size: 16, blob_size: 1 };
    let err = MetaDataTablesStream::read_from(&short, 0, &ext).unwrap_err();
    assert_eq!(err, DecodeError::UnexpectedEof);
}

#[test]
fn cli_header_version_is_checked() {
    let section = minimal_section();
    let mut data = section.data.clone();
    data[12] = 3; // CLI major version
    let bad = Section { header: section.header.clone(), data };
    let err = CLRImage::from_section(&bad).unwrap_err();
    assert_eq!(err, DecodeError::BadVersion);
}

#[test]
fn metadata_signature_is_checked() {
    let section = minimal_section();
    let mut data = section.data.clone();
    data[80] = 0x42; // corrupt the BSJB signature
    data[81] = 0x42;
    let bad = Section { header: section.header.clone(), data };
    let err = CLRImage::from_section(&bad).unwrap_err();
    assert_eq!(err, DecodeError::BadMagic(Site::MetadataSignature));
}

#[test]
fn cli_header_size_is_checked() {
    let section = minimal_section();
    let mut data = section.data.clone();
    data[8] = 0x47; // CLI header size must be 0x48
    let bad = Section { header: section.header.clone(), data };
    let err = CLRImage::from_section(&bad).unwrap_err();
    assert_eq!(err, DecodeError::BadMagic(Site::CliHeaderSize));
}

#[test]
fn missing_tables_stream_is_fatal() {
    let section = minimal_section();
    let mut data = section.data.clone();
    // Rename "#~" so the root no longer names a tables stream.
    let root = 80;
    let name_off = root + 24 + 8;
    assert_eq!(b'#', data[name_off]);
    assert_eq!(b'~', data[name_off + 1]);
    data[name_off + 1] = b'x';
    let bad = Section { header: section.header.clone(), data };
    let err = CLRImage::from_section(&bad).unwrap_err();
    assert_eq!(err, DecodeError::BadMagic(Site::TablesStream));
}

#[test]
fn metadata_rva_below_section_base_is_fatal() {
    let section = minimal_section();
    let bad = Section {
        header: SectionHeader {
            name: ".text".to_string(),
            virtual_address: 0x4000,
            virtual_size: section.header.virtual_size,
            real_size: section.header.real_size,
            offset: 0,
        },
        data: section.data.clone(),
    };
    let err = CLRImage::from_section(&bad).unwrap_err();
    assert_eq!(err, DecodeError::SizeOverflow);
}

#[test]
fn tables_stream_out_of_range_table_index_is_fatal() {
    // Module and TypeRef, one row each; the TypeRef's resolution scope
    // points at Module row five, which does not exist.
    let mut s = Vec::new();
    push_u32(&mut s, 0);
    s.push(2);
    s.push(0);
    s.push(0);
    s.push(1);
    push_u64(&mut s, 0b11); // Module and TypeRef
    push_u64(&mut s, 0);
    push_u32(&mut s, 1); // Module rows
    push_u32(&mut s, 1); // TypeRef rows
    // Module row
    push_u16(&mut s, 0);
    push_u16(&mut s, 1); // name
    push_u16(&mut s, 0);
    push_u16(&mut s, 0);
    push_u16(&mut s, 0);
    // TypeRef row
    push_u16(&mut s, (5 << 2) | 0); // ResolutionScope: Module(5)
    push_u16(&mut s, 1); // name
    push_u16(&mut s, 0); // namespace
    let ext = HeapExtents { string_size: 7, guid_size: 16, blob_size: 1 };
    let err = MetaDataTablesStream::read_from(&s, 0, &ext).unwrap_err();
    assert_eq!(err, DecodeError::IndexOutOfRange(IndexKind::Table(TableId::Module), 5, 1));
}

#[test]
fn method_header_tiny_format() {
    // Low two bits 0b10 select the tiny format; the high six bits hold
    // the code size.
    let first: u16 = TINY_FORMAT | (6 << 2);
    let mut bytes = first.to_le_bytes().to_vec();
    bytes.extend_from_slice(&[1, 2, 3, 4, 5, 6]);
    let (header, pos) = MethodHeader::read(&bytes, 0).unwrap();
    assert_eq!(TINY_FORMAT, header.flags);
    assert_eq!(6, header.code_size);
    assert_eq!(8, header.max_stack);
    assert_eq!(0, header.local_var_signature_token);
    assert_eq!(2, pos);

    let (body, end) = MethodBody::read(&bytes, 0).unwrap();
    assert_eq!(vec![1u8, 2, 3, 4, 5, 6], body.code);
    assert_eq!(8, end);
}

#[test]
fn method_header_fat_format() {
    let mut bytes = Vec::new();
    push_u16(&mut bytes, 0x3013); // fat flags with a four-word header size
    push_u16(&mut bytes, 17); // max stack
    push_u32(&mut bytes, 2); // code size
    push_u32(&mut bytes, 0x11000001); // locals signature token
    bytes.extend_from_slice(&[0xAA, 0xBB]);
    let (body, end) = MethodBody::read(&bytes, 0).unwrap();
    assert_eq!(0x013, body.header.flags);
    assert_eq!(17, body.header.max_stack);
    assert_eq!(2, body.header.code_size);
    assert_eq!(0x11000001, body.header.local_var_signature_token);
    assert_eq!(vec![0xAAu8, 0xBB], body.code);
    assert_eq!(14, end);
}

#[test]
fn null_heap_indices_yield_nothing() {
    // Offset 0 stores the empty string, but the null index is not a
    // reference to it: every lookup on index zero is None.
    let section = minimal_section();
    let image = CLRImage::from_section(&section).unwrap();
    let metadata = &image.metadata;
    assert!(metadata.heaps.strings.get_at_index(0).is_some());
    assert!(metadata.get_string(&Index::new(0)).is_none());
    assert!(metadata.get_user_string(&Index::new(0)).is_none());
    assert!(metadata.get_blob(&Index::new(0)).is_none());
    assert!(metadata.get_guid(&Index::new(0)).is_none());
}

#[test]
fn metadata_row_getters_are_one_based() {
    let section = minimal_section();
    let image = CLRImage::from_section(&section).unwrap();
    let metadata = &image.metadata;
    assert!(metadata.get_module(Index::new(0)).is_none());
    assert!(metadata.get_module(Index::new(1)).is_some());
    assert!(metadata.get_module(Index::new(2)).is_none());
    assert!(metadata.get_type_ref(Index::new(1)).is_none());
}
