//! The format table: a partial, invertible pairing between pixel-buffer
//! element encodings and tensor element encodings, together with the byte
//! width of each encoding.

use vstd::prelude::*;

verus! {

/// Element encoding of a pixel buffer: bit depth and signedness of one
/// sample, as a capture device reports it.
#[derive(Clone, Copy, Debug, PartialEq, Eq, Structural)]
pub enum PixelEncoding {
    U8,
    S8,
    U16,
    S16,
    S32,
    F32,
    F64,
}

/// Element encoding of a tensor buffer, as the numeric-compute collaborator
/// names its element types.
#[derive(Clone, Copy, Debug, PartialEq, Eq, Structural)]
pub enum TensorEncoding {
    Uint8,
    Int8,
    Int16,
    Int32,
    Int64,
    Float,
    Double,
}

/// Byte width of one sample of a pixel encoding.
pub open spec fn spec_pixel_size(e: PixelEncoding) -> nat {
    match e {
        PixelEncoding::U8 => 1,
        PixelEncoding::S8 => 1,
        PixelEncoding::U16 => 2,
        PixelEncoding::S16 => 2,
        PixelEncoding::S32 => 4,
        PixelEncoding::F32 => 4,
        PixelEncoding::F64 => 8,
    }
}

/// Byte width of one element of a tensor encoding.
pub open spec fn spec_tensor_size(e: TensorEncoding) -> nat {
    match e {
        TensorEncoding::Uint8 => 1,
        TensorEncoding::Int8 => 1,
        TensorEncoding::Int16 => 2,
        TensorEncoding::Int32 => 4,
        TensorEncoding::Int64 => 8,
        TensorEncoding::Float => 4,
        TensorEncoding::Double => 8,
    }
}

/// The forward direction of the format table: the tensor encoding paired with
/// a pixel encoding, or `None` where the table has no entry.
pub open spec fn spec_tensor_encoding_of(e: PixelEncoding) -> Option<TensorEncoding> {
    match e {
        PixelEncoding::U8 => Some(TensorEncoding::Uint8),
        PixelEncoding::S8 => Some(TensorEncoding::Int8),
        PixelEncoding::F32 => Some(TensorEncoding::Float),
        _ => None,
    }
}

/// The reverse direction of the format table, keyed by tensor encoding and
/// channel count: the pixel encoding an image should carry, or `None` where
/// no entry maps the pair.
pub open spec fn spec_pixel_encoding_of(e: TensorEncoding, channels: int) -> Option<
    PixelEncoding,
> {
    if 1 <= channels <= 4 {
        match e {
            TensorEncoding::Uint8 => Some(PixelEncoding::U8),
            TensorEncoding::Int8 => Some(PixelEncoding::S8),
            TensorEncoding::Float => Some(PixelEncoding::F32),
            _ => None,
        }
    } else {
        None
    }
}

/// Byte width of one sample of a pixel encoding.
pub fn pixel_size(e: PixelEncoding) -> (n: usize)
    ensures
        n == spec_pixel_size(e),
{
    match e {
        PixelEncoding::U8 => 1,
        PixelEncoding::S8 => 1,
        PixelEncoding::U16 => 2,
        PixelEncoding::S16 => 2,
        PixelEncoding::S32 => 4,
        PixelEncoding::F32 => 4,
        PixelEncoding::F64 => 8,
    }
}

/// Byte width of one element of a tensor encoding.
pub fn tensor_size(e: TensorEncoding) -> (n: usize)
    ensures
        n == spec_tensor_size(e),
{
    match e {
        TensorEncoding::Uint8 => 1,
        TensorEncoding::Int8 => 1,
        TensorEncoding::Int16 => 2,
        TensorEncoding::Int32 => 4,
        TensorEncoding::Int64 => 8,
        TensorEncoding::Float => 4,
        TensorEncoding::Double => 8,
    }
}

/// Look up the tensor encoding paired with a pixel encoding.
pub fn tensor_encoding_of(e: PixelEncoding) -> (r: Option<TensorEncoding>)
    ensures
        r == spec_tensor_encoding_of(e),
{
    match e {
        PixelEncoding::U8 => Some(TensorEncoding::Uint8),
        PixelEncoding::S8 => Some(TensorEncoding::Int8),
        PixelEncoding::F32 => Some(TensorEncoding::Float),
        _ => None,
    }
}

/// Look up the pixel encoding for a tensor encoding and a channel count.
pub fn pixel_encoding_of(e: TensorEncoding, channels: usize) -> (r: Option<PixelEncoding>)
    ensures
        r == spec_pixel_encoding_of(e, channels as int),
{
    if 1 <= channels && channels <= 4 {
        match e {
            TensorEncoding::Uint8 => Some(PixelEncoding::U8),
            TensorEncoding::Int8 => Some(PixelEncoding::S8),
            TensorEncoding::Float => Some(PixelEncoding::F32),
            _ => None,
        }
    } else {
        None
    }
}

/// Law: the table is invertible on the subset it covers. Every pixel encoding
/// with a forward entry maps back to itself under the reverse direction, for
/// every channel count an image may carry, and the paired encodings have the
/// same byte width.
pub proof fn lemma_table_invertible(e: PixelEncoding, channels: int)
    requires
        spec_tensor_encoding_of(e) is Some,
        1 <= channels <= 4,
    ensures
        spec_pixel_encoding_of(spec_tensor_encoding_of(e)->Some_0, channels) == Some(e),
        spec_tensor_size(spec_tensor_encoding_of(e)->Some_0) == spec_pixel_size(e),
{
}

/// Law: the reverse direction lands only on encodings the forward direction
/// covers, and returns to the same tensor encoding.
pub proof fn lemma_table_invertible_rev(e: TensorEncoding, channels: int)
    requires
        spec_pixel_encoding_of(e, channels) is Some,
    ensures
        spec_tensor_encoding_of(spec_pixel_encoding_of(e, channels)->Some_0) == Some(e),
{
}

} // verus!
