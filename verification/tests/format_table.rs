//! The format table: entries, sizes, and invertibility on concrete values.

use framebridge::format::PixelEncoding;
use framebridge::format::TensorEncoding;
use framebridge::format::pixel_encoding_of;
use framebridge::format::pixel_size;
use framebridge::format::tensor_encoding_of;
use framebridge::format::tensor_size;

#[test]
fn forward_entries() {
    assert_eq!(tensor_encoding_of(PixelEncoding::U8), Some(TensorEncoding::Uint8));
    assert_eq!(tensor_encoding_of(PixelEncoding::S8), Some(TensorEncoding::Int8));
    assert_eq!(tensor_encoding_of(PixelEncoding::F32), Some(TensorEncoding::Float));
}

#[test]
fn forward_gaps() {
    assert_eq!(tensor_encoding_of(PixelEncoding::U16), None);
    assert_eq!(tensor_encoding_of(PixelEncoding::S16), None);
    assert_eq!(tensor_encoding_of(PixelEncoding::S32), None);
    assert_eq!(tensor_encoding_of(PixelEncoding::F64), None);
}

#[test]
fn reverse_entries() {
    for channels in 1..=4usize {
        assert_eq!(pixel_encoding_of(TensorEncoding::Uint8, channels), Some(PixelEncoding::U8));
        assert_eq!(pixel_encoding_of(TensorEncoding::Int8, channels), Some(PixelEncoding::S8));
        assert_eq!(pixel_encoding_of(TensorEncoding::Float, channels), Some(PixelEncoding::F32));
    }
}

#[test]
fn reverse_gaps() {
    assert_eq!(pixel_encoding_of(TensorEncoding::Int16, 3), None);
    assert_eq!(pixel_encoding_of(TensorEncoding::Int32, 1), None);
    assert_eq!(pixel_encoding_of(TensorEncoding::Int64, 2), None);
    assert_eq!(pixel_encoding_of(TensorEncoding::Double, 4), None);
    // A channel count outside 1..=4 maps nothing, whatever the encoding.
    assert_eq!(pixel_encoding_of(TensorEncoding::Uint8, 0), None);
    assert_eq!(pixel_encoding_of(TensorEncoding::Uint8, 5), None);
}

#[test]
fn round_trip_on_entries() {
    // Invertibility, concretely: forward then reverse is the identity on
    // every covered pixel encoding, for every channel count.
    for encoding in [PixelEncoding::U8, PixelEncoding::S8, PixelEncoding::F32] {
        let mapped = tensor_encoding_of(encoding).unwrap();
        for channels in 1..=4usize {
            assert_eq!(pixel_encoding_of(mapped, channels), Some(encoding));
        }
        assert_eq!(tensor_size(mapped), pixel_size(encoding));
    }
}

#[test]
fn element_sizes() {
    assert_eq!(pixel_size(PixelEncoding::U8), 1);
    assert_eq!(pixel_size(PixelEncoding::S8), 1);
    assert_eq!(pixel_size(PixelEncoding::U16), 2);
    assert_eq!(pixel_size(PixelEncoding::S16), 2);
    assert_eq!(pixel_size(PixelEncoding::S32), 4);
    assert_eq!(pixel_size(PixelEncoding::F32), 4);
    assert_eq!(pixel_size(PixelEncoding::F64), 8);
    assert_eq!(tensor_size(TensorEncoding::Uint8), 1);
    assert_eq!(tensor_size(TensorEncoding::Int8), 1);
    assert_eq!(tensor_size(TensorEncoding::Int16), 2);
    assert_eq!(tensor_size(TensorEncoding::Int32), 4);
    assert_eq!(tensor_size(TensorEncoding::Int64), 8);
    assert_eq!(tensor_size(TensorEncoding::Float), 4);
    assert_eq!(tensor_size(TensorEncoding::Double), 8);
}
