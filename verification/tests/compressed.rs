use clri::error::DecodeError;
use clri::reader::{encode_compressed_int, StreamUtils};

#[test]
fn compressed_int_one_byte() {
    let (cu, pos) = StreamUtils::decode_compressed_int(&vec![0x7Fu8], 0).unwrap();
    assert_eq!(127, cu.value);
    assert_eq!(1, cu.compressed_size);
    assert_eq!(1, pos);
}

#[test]
fn compressed_int_two_bytes_low() {
    let (cu, pos) = StreamUtils::decode_compressed_int(&vec![0x80u8, 0x80], 0).unwrap();
    assert_eq!(128, cu.value);
    assert_eq!(2, cu.compressed_size);
    assert_eq!(2, pos);
}

#[test]
fn compressed_int_two_bytes_high() {
    let (cu, pos) = StreamUtils::decode_compressed_int(&vec![0xBFu8, 0xFF], 0).unwrap();
    assert_eq!(16383, cu.value);
    assert_eq!(2, cu.compressed_size);
    assert_eq!(2, pos);
}

#[test]
fn compressed_int_four_bytes() {
    let (cu, pos) = StreamUtils::decode_compressed_int(&vec![0xC0u8, 0x00, 0x40, 0x00], 0).unwrap();
    assert_eq!(16384, cu.value);
    assert_eq!(4, cu.compressed_size);
    assert_eq!(4, pos);
}

#[test]
fn compressed_int_invalid_leading_pattern() {
    let err = StreamUtils::decode_compressed_int(&vec![0xE0u8, 0, 0, 0], 0).unwrap_err();
    assert_eq!(err, DecodeError::InvalidCompressedInt(0xE0));
}

#[test]
fn compressed_int_truncated() {
    let err = StreamUtils::decode_compressed_int(&vec![0x80u8], 0).unwrap_err();
    assert_eq!(err, DecodeError::UnexpectedEof);
}

#[test]
fn compressed_round_trip_boundaries() {
    for v in [0u32, 1, 127, 128, 16383, 16384, 0x1FFFFFFF] {
        let bytes = encode_compressed_int(v).unwrap();
        let expected_size = if v <= 127 {
            1
        } else if v <= 16383 {
            2
        } else {
            4
        };
        assert_eq!(expected_size as usize, bytes.len());
        let (cu, pos) = StreamUtils::decode_compressed_int(&bytes, 0).unwrap();
        assert_eq!(v, cu.value);
        assert_eq!(expected_size, cu.compressed_size);
        assert_eq!(bytes.len(), pos);
    }
}

#[test]
fn compressed_encode_rejects_out_of_range() {
    let err = encode_compressed_int(0x20000000).unwrap_err();
    assert_eq!(err, DecodeError::SizeOverflow);
}
