use clri::error::{DecodeError, Site};
use clri::heap::{BlobHeap, GuidHeap, StringHeap, UserString, UserStringHeap};

#[test]
fn string_heap_scans_runs() {
    // Two runs: the empty string at offset 0 and "Hi" at offset 1.
    let data = vec![0x00u8, b'H', b'i', 0x00];
    let heap = StringHeap::read_from(&data, 0, 4).unwrap();
    assert_eq!(Some(&String::new()), heap.get_at_index(0));
    assert_eq!(Some(&"Hi".to_string()), heap.get_at_index(1));
    assert_eq!(None, heap.get_at_index(2));
    assert_eq!(4, heap.size);
}

#[test]
fn string_heap_rejects_invalid_utf8() {
    let data = vec![0xFFu8, 0x00];
    let err = StringHeap::read_from(&data, 0, 2).unwrap_err();
    assert_eq!(err, DecodeError::BadUtf8(Site::StringsHeap));
}

#[test]
fn string_heap_unterminated_run_is_eof() {
    let data = vec![b'H', b'i'];
    let err = StringHeap::read_from(&data, 0, 2).unwrap_err();
    assert_eq!(err, DecodeError::UnexpectedEof);
}

#[test]
fn user_string_heap_decodes_utf16() {
    // One null entry, then an entry of length 7: three UTF-16 units "abc"
    // and the trailing flag byte.
    let data = vec![
        0x00u8, // empty entry at offset 0
        0x07, b'a', 0x00, b'b', 0x00, b'c', 0x00, 0x00, // "abc" + flag
    ];
    let heap = UserStringHeap::read_from(&data, 0, data.len() as u32).unwrap();
    assert_eq!(Some(&UserString::Valid(String::new())), heap.get_at_index(0));
    assert_eq!(Some(&UserString::Valid("abc".to_string())), heap.get_at_index(1));
}

#[test]
fn user_string_heap_records_garbage() {
    // A lone high surrogate is not valid UTF-16: recorded, not fatal.
    let data = vec![0x03u8, 0x00, 0xD8, 0x00];
    let heap = UserStringHeap::read_from(&data, 0, data.len() as u32).unwrap();
    assert_eq!(Some(&UserString::Garbage), heap.get_at_index(0));
}

#[test]
fn empty_utf16_buffer_is_the_empty_string() {
    assert_eq!(UserString::Valid(String::new()), UserString::from_utf16(&Vec::new()));
}

#[test]
fn blob_heap_scans_entries() {
    let data = vec![0x02u8, 0xAA, 0xBB, 0x00];
    let heap = BlobHeap::read_from(&data, 0, 4).unwrap();
    assert_eq!(Some(&vec![0xAAu8, 0xBB]), heap.get_at_index(0));
    assert_eq!(Some(&Vec::<u8>::new()), heap.get_at_index(3));
    assert_eq!(None, heap.get_at_index(1));
}

#[test]
fn guid_heap_is_one_based() {
    let mut data = Vec::new();
    for i in 0..16u8 {
        data.push(i);
    }
    let heap = GuidHeap::read_from(&data, 0, 16).unwrap();
    assert_eq!(None, heap.get_at_index(0));
    let g = heap.get_at_index(1).unwrap();
    assert_eq!(16, g.len());
    assert_eq!(0, g[0]);
    assert_eq!(15, g[15]);
    assert_eq!(None, heap.get_at_index(2));
}
