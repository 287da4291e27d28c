//! The frame source: opening a capture device under a strict configuration
//! contract, and classifying each read attempt into a fresh frame, end of
//! stream, or a transport error. The device itself is an external
//! collaborator; this module holds every decision made about what it
//! reports.

use vstd::prelude::*;

use crate::format::PixelEncoding;
use crate::image::Image;
use crate::image::parts_wf;

verus! {

/// Failure to open a frame source.
#[derive(Clone, Copy, Debug, PartialEq, Eq, Structural)]
pub enum OpenError {
    /// The capture device could not be opened at all.
    DeviceUnavailable { device: i32 },
    /// A requested dimension was not taken by the device: the effective
    /// value read back differs from the requested one. This is a strict
    /// contract, not a best-effort negotiation; both values are carried.
    ConfigurationMismatch { requested: usize, effective: usize },
}

/// The attributes of one frame buffer as the device hands it over.
/// Dimensions are signed because the device reports them signed; a
/// non-positive dimension marks a malformed frame.
pub struct RawFrame {
    pub width: i32,
    pub height: i32,
    pub channels: i32,
    pub encoding: PixelEncoding,
    pub stride: usize,
    pub data: Vec<u8>,
}

/// What one read attempt against the device observed.
pub enum DeviceReadEvent {
    /// The read call or the size query failed at the transport level.
    TransportFailure,
    /// The read call returned, but reported no frame grabbed.
    NotGrabbed,
    /// The read call handed over a frame buffer with these attributes.
    Grabbed(RawFrame),
}

/// One step of the frame sequence.
pub enum ReadResult {
    /// An independent, well-formed copy of the next frame.
    Frame(Image),
    /// The device reported a successful-but-empty or malformed frame: the
    /// sequence ends; this is not an error.
    EndOfStream,
    /// A transport failure: the sequence terminates in error.
    ReadError,
}

/// An open frame source: the effective configuration of its device, and
/// whether the sequence has been exhausted. Once exhausted it is restartable
/// only by opening a new source.
pub struct FrameSource {
    pub device: i32,
    pub width: usize,
    pub height: usize,
    pub exhausted: bool,
}

/// The configuration check for one dimension: a requested value must equal
/// the effective value the device reads back; an unrequested dimension
/// passes.
pub open spec fn spec_check_dim(requested: Option<usize>, effective: usize) -> Option<OpenError> {
    match requested {
        Some(r) => if r != effective {
            Some(OpenError::ConfigurationMismatch { requested: r, effective })
        } else {
            None
        },
        None => None,
    }
}

/// The outcome of opening a device: unavailable devices fail first, then
/// the width contract, then the height contract; otherwise a fresh,
/// unexhausted source carrying the effective configuration.
pub open spec fn spec_open(
    device: i32,
    requested_width: Option<usize>,
    requested_height: Option<usize>,
    opened: bool,
    effective_width: usize,
    effective_height: usize,
) -> Result<FrameSource, OpenError> {
    if !opened {
        Err(OpenError::DeviceUnavailable { device })
    } else {
        match spec_check_dim(requested_width, effective_width) {
            Some(e) => Err(e),
            None => match spec_check_dim(requested_height, effective_height) {
                Some(e) => Err(e),
                None => Ok(
                    FrameSource {
                        device,
                        width: effective_width,
                        height: effective_height,
                        exhausted: false,
                    },
                ),
            },
        }
    }
}

/// A raw frame is well formed when its attributes form a well-formed image:
/// positive dimensions, one to four channels, a stride covering one packed
/// row, and a buffer covering every row.
pub open spec fn raw_frame_wf(f: RawFrame) -> bool {
    parts_wf(
        f.height as int,
        f.width as int,
        f.channels as int,
        f.encoding,
        f.stride as int,
        f.data.len() as int,
    )
}

/// The image a well-formed raw frame becomes, owning the same buffer.
pub open spec fn spec_image_of(f: RawFrame) -> Image {
    Image {
        height: f.height as usize,
        width: f.width as usize,
        channels: f.channels as usize,
        encoding: f.encoding,
        stride: f.stride,
        data: f.data,
    }
}

/// The classification of one read attempt: a transport failure is an error;
/// an empty report, a non-positive width, or any other malformed frame ends
/// the stream; a well-formed frame is produced.
pub open spec fn spec_produce(ev: DeviceReadEvent) -> ReadResult {
    match ev {
        DeviceReadEvent::TransportFailure => ReadResult::ReadError,
        DeviceReadEvent::NotGrabbed => ReadResult::EndOfStream,
        DeviceReadEvent::Grabbed(f) => if raw_frame_wf(f) {
            ReadResult::Frame(spec_image_of(f))
        } else {
            ReadResult::EndOfStream
        },
    }
}

/// Check one dimension of the configuration contract.
pub fn check_dim(requested: Option<usize>, effective: usize) -> (r: Option<OpenError>)
    ensures
        r == spec_check_dim(requested, effective),
{
    match requested {
        Some(req) => {
            if req != effective {
                Some(OpenError::ConfigurationMismatch { requested: req, effective })
            } else {
                None
            }
        },
        None => None,
    }
}

impl FrameSource {
    /// Decide the outcome of opening a device, from what the open attempt
    /// and the configuration read-back observed. A requested dimension whose
    /// effective value differs fails with `ConfigurationMismatch` carrying
    /// both values; no source is returned then. Callers must not assume
    /// silent clamping.
    pub fn open(
        device: i32,
        requested_width: Option<usize>,
        requested_height: Option<usize>,
        opened: bool,
        effective_width: usize,
        effective_height: usize,
    ) -> (r: Result<FrameSource, OpenError>)
        ensures
            r == spec_open(
                device,
                requested_width,
                requested_height,
                opened,
                effective_width,
                effective_height,
            ),
            r is Ok <==> {
                &&& opened
                &&& (requested_width matches Some(w) ==> w == effective_width)
                &&& (requested_height matches Some(h) ==> h == effective_height)
            },
    {
        if !opened {
            return Err(OpenError::DeviceUnavailable { device });
        }
        if let Some(e) = check_dim(requested_width, effective_width) {
            return Err(e);
        }
        if let Some(e) = check_dim(requested_height, effective_height) {
            return Err(e);
        }
        Ok(
            FrameSource {
                device,
                width: effective_width,
                height: effective_height,
                exhausted: false,
            },
        )
    }

    /// Classify one read attempt and produce the next step of the sequence.
    /// A produced image is an independent, well-formed copy owning the
    /// buffer the event carried. A transport failure terminates the
    /// sequence as `ReadError`; an empty or malformed frame (in particular
    /// a non-positive width) is downgraded to `EndOfStream`, never an
    /// error; the two are never conflated.
    pub fn produce_next(&mut self, ev: DeviceReadEvent) -> (r: ReadResult)
        requires
            !old(self).exhausted,
        ensures
            r == spec_produce(ev),
            final(self).device == old(self).device,
            final(self).width == old(self).width,
            final(self).height == old(self).height,
            final(self).exhausted == !(r is Frame),
            r matches ReadResult::Frame(img) ==> img.wf(),
    {
        match ev {
            DeviceReadEvent::TransportFailure => {
                self.exhausted = true;
                ReadResult::ReadError
            },
            DeviceReadEvent::NotGrabbed => {
                self.exhausted = true;
                ReadResult::EndOfStream
            },
            DeviceReadEvent::Grabbed(f) => {
                let ghost gf = f;
                if f.width <= 0 || f.height <= 0 || f.channels < 1 || f.channels > 4 {
                    self.exhausted = true;
                    return ReadResult::EndOfStream;
                }
                match Image::new(
                    f.height as usize,
                    f.width as usize,
                    f.channels as usize,
                    f.encoding,
                    f.stride,
                    f.data,
                ) {
                    Some(img) => {
                        proof {
                            assert(img == spec_image_of(gf));
                        }
                        ReadResult::Frame(img)
                    },
                    None => {
                        self.exhausted = true;
                        ReadResult::EndOfStream
                    },
                }
            },
        }
    }
}

} // verus!
