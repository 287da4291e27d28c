//! Owned image buffers: a contiguous byte buffer with height, width, channel
//! count, element encoding and row stride, and the packed row-major view of
//! its pixel bytes that conversion works on.

use vstd::prelude::*;

use crate::format::PixelEncoding;
use crate::format::spec_pixel_size;
use crate::format::pixel_size;

verus! {

/// An owned pixel buffer. `stride` is the number of bytes from the start of
/// one row to the start of the next; rows may carry padding beyond the
/// `width * channels * element size` pixel bytes.
#[derive(Debug)]
#[verifier::ext_equal]
pub struct Image {
    pub height: usize,
    pub width: usize,
    pub channels: usize,
    pub encoding: PixelEncoding,
    pub stride: usize,
    pub data: Vec<u8>,
}

/// Well-formedness of the raw attributes of an image: positive dimensions,
/// one to four channels, a stride that covers one packed row, and a buffer
/// that covers every row.
pub open spec fn parts_wf(
    height: int,
    width: int,
    channels: int,
    encoding: PixelEncoding,
    stride: int,
    len: int,
) -> bool {
    &&& height > 0
    &&& width > 0
    &&& 1 <= channels <= 4
    &&& width * channels * spec_pixel_size(encoding) <= stride
    &&& height * stride <= len
}

impl Image {
    /// Number of pixel bytes in one row, stride padding excluded.
    pub open spec fn row_bytes(self) -> int {
        self.width * self.channels * spec_pixel_size(self.encoding)
    }

    /// The image invariant.
    pub open spec fn wf(self) -> bool {
        parts_wf(
            self.height as int,
            self.width as int,
            self.channels as int,
            self.encoding,
            self.stride as int,
            self.data.len() as int,
        )
    }

    /// The packed pixel bytes: every row's pixel bytes in row-major order,
    /// stride padding dropped.
    pub open spec fn packed(self) -> Seq<u8> {
        Seq::new(
            (self.height * self.row_bytes()) as nat,
            |i: int| self.data@[(i / self.row_bytes()) * self.stride + i % self.row_bytes()],
        )
    }

    /// Build an image from raw attributes, validating the invariant; returns
    /// `None` exactly when the attributes do not form a well-formed image.
    pub fn new(
        height: usize,
        width: usize,
        channels: usize,
        encoding: PixelEncoding,
        stride: usize,
        data: Vec<u8>,
    ) -> (r: Option<Image>)
        ensures
            r is Some <==> parts_wf(
                height as int,
                width as int,
                channels as int,
                encoding,
                stride as int,
                data.len() as int,
            ),
            r matches Some(img) ==> {
                &&& img.height == height
                &&& img.width == width
                &&& img.channels == channels
                &&& img.encoding == encoding
                &&& img.stride == stride
                &&& img.data == data
                &&& img.wf()
            },
    {
        if height == 0 || width == 0 || channels < 1 || channels > 4 {
            return None;
        }
        let px = pixel_size(encoding);
        let wc = match width.checked_mul(channels) {
            Some(wc) => wc,
            None => {
                proof {
                    assert(width * channels * spec_pixel_size(encoding) >= width * channels) by (
                    nonlinear_arith)
                        requires
                            spec_pixel_size(encoding) >= 1,
                            width >= 0,
                            channels >= 0,
                    ;
                }
                return None;
            },
        };
        let rb = match wc.checked_mul(px) {
            Some(rb) => rb,
            None => {
                return None;
            },
        };
        if rb > stride {
            return None;
        }
        match height.checked_mul(stride) {
            Some(total) => {
                if total <= data.len() {
                    Some(
                        Image {
                            height,
                            width,
                            channels,
                            encoding,
                            stride,
                            data,
                        },
                    )
                } else {
                    None
                }
            },
            None => None,
        }
    }
}

/// When the stride is exactly one packed row and the buffer is exactly the
/// rows, the packed bytes are the buffer itself.
pub proof fn lemma_packed_of_minimal_stride(img: Image)
    requires
        img.wf(),
        img.stride == img.row_bytes(),
        img.data.len() == img.height * img.stride,
    ensures
        img.packed() == img.data@,
{
    let rb = img.row_bytes();
    assert forall|i: int| 0 <= i < img.packed().len() implies img.packed()[i] == img.data@[i] by {
        vstd::arithmetic::div_mod::lemma_fundamental_div_mod(i, rb);
        assert((i / rb) * img.stride + i % rb == i);
    }
    assert(img.packed() =~= img.data@);
}

} // verus!
