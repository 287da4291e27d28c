//! The converter: a pure, bidirectional, byte-faithful mapping between
//! images and tensors under row-major layout. No scaling and no clamping:
//! the pixel bytes of the image and the element bytes of the tensor are the
//! same bytes, with stride padding dropped on the way in and a minimal
//! stride produced on the way out.

use vstd::prelude::*;

use crate::format::PixelEncoding;
use crate::format::TensorEncoding;
use crate::format::pixel_encoding_of;
use crate::format::pixel_size;
use crate::format::spec_pixel_encoding_of;
use crate::format::spec_pixel_size;
use crate::format::spec_tensor_encoding_of;
use crate::format::spec_tensor_size;
use crate::format::tensor_encoding_of;
use crate::format::lemma_table_invertible;
use crate::format::lemma_table_invertible_rev;
use crate::image::Image;
use crate::image::lemma_packed_of_minimal_stride;
use crate::tensor::Tensor;
use crate::tensor::spec_product;
use crate::tensor::lemma_product2;
use crate::tensor::lemma_product3;
use vstd::arithmetic::div_mod::lemma_fundamental_div_mod_converse;
use vstd::arithmetic::mul::lemma_mul_inequality;

verus! {

/// The format-table key a failed lookup was made with.
#[derive(Clone, Copy, Debug, PartialEq, Eq, Structural)]
pub enum FormatKey {
    /// Forward lookup, keyed by the image's element encoding.
    Pixel(PixelEncoding),
    /// Reverse lookup, keyed by the tensor's element encoding and the
    /// channel count derived from its shape.
    Tensor(TensorEncoding, usize),
}

/// A conversion failure. Conversion never reinterprets bytes under an
/// unmapped encoding and never produces a half-filled result.
#[derive(Clone, Copy, Debug, PartialEq, Eq, Structural)]
pub enum ConvertError {
    /// The format table has no entry for the named key.
    UnsupportedFormat { key: FormatKey },
    /// The tensor's rank is neither 2 nor 3.
    ShapeError { rank: usize },
    /// The tensor's buffer is not contiguous, so a row-major bulk copy
    /// would misread it.
    NotContiguous,
}

/// When `to_tensor` succeeds: exactly when the image's encoding has a
/// format-table entry.
pub open spec fn to_tensor_ok(img: Image) -> bool {
    spec_tensor_encoding_of(img.encoding) is Some
}

/// The shape of the tensor built from an image: `[height, width]` for a
/// single-channel image, `[height, width, channels]` otherwise.
pub open spec fn spec_tensor_shape(img: Image) -> Seq<usize> {
    if img.channels == 1 {
        seq![img.height, img.width]
    } else {
        seq![img.height, img.width, img.channels]
    }
}

/// What `to_tensor` returns on success: a contiguous tensor of the paired
/// encoding whose bytes are exactly the image's packed pixel bytes.
pub open spec fn is_to_tensor(img: Image, t: Tensor) -> bool {
    &&& Some(t.encoding) == spec_tensor_encoding_of(img.encoding)
    &&& t.shape@ == spec_tensor_shape(img)
    &&& t.contiguous
    &&& t.data@ == img.packed()
}

/// The channel count derived from a tensor's shape: 1 for rank 2, the last
/// dimension for rank 3.
pub open spec fn spec_channels_of(t: Tensor) -> int {
    if t.rank() == 2 {
        1
    } else {
        t.shape@[2] as int
    }
}

/// When `to_image` succeeds: exactly when the rank is 2 or 3, the buffer is
/// contiguous, and the reverse format-table lookup maps the tensor's
/// encoding and channel count.
pub open spec fn to_image_ok(t: Tensor) -> bool {
    &&& t.rank() == 2 || t.rank() == 3
    &&& t.contiguous
    &&& spec_pixel_encoding_of(t.encoding, spec_channels_of(t)) is Some
}

/// The error `to_image` fails with: the rank guard first, then the
/// contiguity guard, then the reverse format-table lookup.
pub open spec fn spec_to_image_err(t: Tensor) -> ConvertError {
    if t.rank() != 2 && t.rank() != 3 {
        ConvertError::ShapeError { rank: t.shape.len() as usize }
    } else if !t.contiguous {
        ConvertError::NotContiguous
    } else {
        ConvertError::UnsupportedFormat {
            key: FormatKey::Tensor(t.encoding, spec_channels_of(t) as usize),
        }
    }
}

/// What `to_image` returns on success: an image of the mapped encoding with
/// a minimal stride whose buffer is exactly the tensor's bytes.
pub open spec fn is_to_image(t: Tensor, img: Image) -> bool {
    &&& img.height == t.shape@[0]
    &&& img.width == t.shape@[1]
    &&& img.channels == spec_channels_of(t)
    &&& Some(img.encoding) == spec_pixel_encoding_of(t.encoding, spec_channels_of(t))
    &&& img.stride == img.row_bytes()
    &&& img.data@ == t.data@
}

/// Convert an image to a tensor: resolve the element encoding through the
/// format table and copy the pixel bytes row-major into a fresh contiguous
/// buffer, dropping stride padding. Fails with `UnsupportedFormat`, naming
/// the image's encoding, exactly when the table has no entry for it; on
/// failure nothing is written.
pub fn to_tensor(img: &Image) -> (r: Result<Tensor, ConvertError>)
    requires
        img.wf(),
    ensures
        r is Ok <==> to_tensor_ok(*img),
        r matches Ok(t) ==> is_to_tensor(*img, t) && t.wf(),
        r matches Err(e) ==> e == (ConvertError::UnsupportedFormat {
            key: FormatKey::Pixel(img.encoding),
        }),
{
    let encoding = match tensor_encoding_of(img.encoding) {
        Some(e) => e,
        None => {
            return Err(
                ConvertError::UnsupportedFormat { key: FormatKey::Pixel(img.encoding) },
            );
        },
    };
    let px = pixel_size(img.encoding);
    proof {
        assert(img.width * img.channels <= img.width * img.channels * spec_pixel_size(
            img.encoding,
        )) by (nonlinear_arith)
            requires
                spec_pixel_size(img.encoding) >= 1,
                img.width >= 0,
                img.channels >= 0,
        ;
        lemma_mul_inequality(1, img.height as int, img.stride as int);
    }
    let wc = img.width * img.channels;
    let rb = wc * px;
    let mut out: Vec<u8> = Vec::new();
    let mut row: usize = 0;
    while row < img.height
        invariant
            img.wf(),
            rb == img.row_bytes(),
            0 <= row <= img.height,
            out.len() == row * rb,
            forall|i: int| 0 <= i < out.len() ==> out@[i] == img.packed()[i],
        decreases img.height - row,
    {
        proof {
            lemma_mul_inequality(row as int, img.height as int, img.stride as int);
            lemma_mul_inequality(row + 1, img.height as int, img.stride as int);
            lemma_mul_inequality(row + 1, img.height as int, rb as int);
            assert((row + 1) * img.stride == row * img.stride + img.stride) by (nonlinear_arith);
            assert((row + 1) * rb == row * rb + rb) by (nonlinear_arith);
        }
        let base = row * img.stride;
        let mut j: usize = 0;
        while j < rb
            invariant
                img.wf(),
                rb == img.row_bytes(),
                0 <= row < img.height,
                base == row * img.stride,
                base + img.stride <= img.data.len(),
                row * rb + rb <= img.height * rb,
                0 <= j <= rb,
                out.len() == row * rb + j,
                forall|i: int| 0 <= i < out.len() ==> out@[i] == img.packed()[i],
            decreases rb - j,
        {
            let b = img.data[base + j];
            out.push(b);
            proof {
                let i = row * rb + j;
                lemma_fundamental_div_mod_converse(i as int, rb as int, row as int, j as int);
                assert(0 <= i < img.height * rb);
                assert(img.packed()[i as int] == img.data@[(i as int / (rb as int)) * img.stride + i
                    as int % (rb as int)]);
                assert(img.packed()[i as int] == img.data@[base + j]);
            }
            j = j + 1;
        }
        row = row + 1;
    }
    proof {
        assert(out@ =~= img.packed());
    }
    let shape: Vec<usize> = if img.channels == 1 {
        vec![img.height, img.width]
    } else {
        vec![img.height, img.width, img.channels]
    };
    let t = Tensor { shape, encoding, contiguous: true, data: out };
    proof {
        lemma_table_invertible(img.encoding, img.channels as int);
        if img.channels == 1 {
            assert(t.shape@ =~= seq![img.height, img.width]);
            lemma_product2(img.height, img.width);
            assert(spec_product(t.shape@) == img.height * img.width * img.channels);
        } else {
            assert(t.shape@ =~= seq![img.height, img.width, img.channels]);
            lemma_product3(img.height, img.width, img.channels);
        }
        assert(t.data.len() == spec_product(t.shape@) * spec_tensor_size(t.encoding)) by (
        nonlinear_arith)
            requires
                t.data.len() == img.height * (img.width * img.channels * spec_pixel_size(
                    img.encoding,
                )),
                spec_product(t.shape@) == img.height * img.width * img.channels,
                spec_tensor_size(t.encoding) == spec_pixel_size(img.encoding),
        ;
    }
    Ok(t)
}

/// Convert a tensor back to an image: guard the rank, require a contiguous
/// buffer, resolve the pixel encoding through the reverse format-table
/// lookup, and copy the bytes into a fresh minimal-stride image buffer.
/// Fails with `ShapeError` exactly on a rank other than 2 or 3, with
/// `NotContiguous` exactly on a non-contiguous buffer, and with
/// `UnsupportedFormat`, naming the tensor encoding and channel count,
/// exactly when the reverse lookup has no entry.
pub fn to_image(t: &Tensor) -> (r: Result<Image, ConvertError>)
    requires
        t.wf(),
    ensures
        r is Ok <==> to_image_ok(*t),
        r matches Ok(img) ==> is_to_image(*t, img) && img.wf() && img.packed() == t.data@,
        r matches Err(e) ==> e == spec_to_image_err(*t),
{
    let rank = t.shape.len();
    if rank != 2 && rank != 3 {
        return Err(ConvertError::ShapeError { rank });
    }
    if !t.contiguous {
        return Err(ConvertError::NotContiguous);
    }
    let channels: usize = if rank == 2 {
        1
    } else {
        t.shape[2]
    };
    let encoding = match pixel_encoding_of(t.encoding, channels) {
        Some(e) => e,
        None => {
            return Err(
                ConvertError::UnsupportedFormat {
                    key: FormatKey::Tensor(t.encoding, channels),
                },
            );
        },
    };
    let height = t.shape[0];
    let width = t.shape[1];
    let px = pixel_size(encoding);
    proof {
        lemma_table_invertible_rev(t.encoding, channels as int);
        lemma_table_invertible(encoding, channels as int);
        if rank == 2 {
            assert(t.shape@ =~= seq![height, width]);
            lemma_product2(height, width);
            assert(spec_product(t.shape@) == height * width * channels);
        } else {
            assert(t.shape@ =~= seq![height, width, channels]);
            lemma_product3(height, width, channels);
        }
        assert(t.data.len() == height * (width * channels * spec_pixel_size(encoding))
            && width * channels <= width * channels * spec_pixel_size(encoding) && width * channels
            * spec_pixel_size(encoding) <= t.data.len()) by (nonlinear_arith)
            requires
                t.data.len() == spec_product(t.shape@) * spec_tensor_size(t.encoding),
                spec_product(t.shape@) == height * width * channels,
                spec_tensor_size(t.encoding) == spec_pixel_size(encoding),
                spec_pixel_size(encoding) >= 1,
                height >= 1,
                width >= 0,
                channels >= 0,
        ;
    }
    let wc = width * channels;
    let stride = wc * px;
    let mut out: Vec<u8> = Vec::new();
    let mut i: usize = 0;
    let total = t.data.len();
    while i < total
        invariant
            total == t.data.len(),
            0 <= i <= total,
            out.len() == i,
            forall|k: int| 0 <= k < i ==> out@[k] == t.data@[k],
        decreases total - i,
    {
        let b = t.data[i];
        out.push(b);
        i = i + 1;
    }
    proof {
        assert(out@ =~= t.data@);
    }
    let img = Image { height, width, channels, encoding, stride, data: out };
    proof {
        lemma_packed_of_minimal_stride(img);
    }
    Ok(img)
}

/// Law: the output of a successful `to_tensor` is always accepted by
/// `to_image` — the round trip never fails at the second step.
pub proof fn lemma_round_trip_succeeds(img: Image, t: Tensor)
    requires
        img.wf(),
        is_to_tensor(img, t),
    ensures
        to_image_ok(t),
{
    lemma_table_invertible(img.encoding, img.channels as int);
}

/// Law: the round trip is the identity on the image's attributes and its
/// packed pixel bytes. An image whose encoding has a format-table entry,
/// taken to a tensor and back, keeps its height, width, channel count and
/// encoding, and its pixel bytes byte for byte.
pub proof fn lemma_round_trip(img: Image, t: Tensor, img2: Image)
    requires
        img.wf(),
        is_to_tensor(img, t),
        is_to_image(t, img2),
        img2.wf(),
    ensures
        img2.height == img.height,
        img2.width == img.width,
        img2.channels == img.channels,
        img2.encoding == img.encoding,
        img2.packed() == img.packed(),
{
    lemma_table_invertible(img.encoding, img.channels as int);
    assert(img2.channels == img.channels);
    assert(img2.encoding == img.encoding);
    assert(img2.data@ == img.packed());
    assert(img2.data.len() == img.height * img.row_bytes());
    assert(img2.row_bytes() == img.row_bytes());
    assert(img2.data.len() == img2.height * img2.stride) by (nonlinear_arith)
        requires
            img2.data.len() == img.height * img.row_bytes(),
            img2.height == img.height,
            img2.stride == img.row_bytes(),
    ;
    lemma_packed_of_minimal_stride(img2);
}

} // verus!
