//! The frame source: the strict configuration contract at open time, and
//! the classification of read attempts into frames, end of stream, and
//! errors.

use framebridge::format::PixelEncoding;
use framebridge::source::DeviceReadEvent;
use framebridge::source::FrameSource;
use framebridge::source::OpenError;
use framebridge::source::RawFrame;
use framebridge::source::ReadResult;

fn raw(width: i32, height: i32, channels: i32, data: Vec<u8>) -> RawFrame {
    let stride = if width > 0 { width as usize * channels.max(1) as usize } else { 0 };
    RawFrame { width, height, channels, encoding: PixelEncoding::U8, stride, data }
}

#[test]
fn configuration_mismatch_on_width() {
    // Requesting width 1920 against a device that only supports 640 fails
    // with both values; no source is returned.
    let r = FrameSource::open(0, Some(1920), None, true, 640, 480);
    assert_eq!(
        r.err(),
        Some(OpenError::ConfigurationMismatch { requested: 1920, effective: 640 })
    );
}

#[test]
fn configuration_mismatch_on_height() {
    let r = FrameSource::open(0, Some(640), Some(1080), true, 640, 480);
    assert_eq!(
        r.err(),
        Some(OpenError::ConfigurationMismatch { requested: 1080, effective: 480 })
    );
}

#[test]
fn open_without_requests_accepts_any_effective_values() {
    let s = FrameSource::open(1, None, None, true, 640, 480).expect("opens");
    assert_eq!(s.device, 1);
    assert_eq!(s.width, 640);
    assert_eq!(s.height, 480);
    assert!(!s.exhausted);
}

#[test]
fn open_with_matching_requests_succeeds() {
    let s = FrameSource::open(0, Some(640), Some(480), true, 640, 480).expect("opens");
    assert_eq!(s.width, 640);
    assert_eq!(s.height, 480);
}

#[test]
fn unopened_device_fails_before_configuration() {
    let r = FrameSource::open(3, Some(1920), None, false, 640, 480);
    assert_eq!(r.err(), Some(OpenError::DeviceUnavailable { device: 3 }));
}

#[test]
fn zero_width_frame_ends_stream_without_error() {
    // A successful-but-empty frame: the sequence ends; this is not an
    // error.
    let mut s = FrameSource::open(0, None, None, true, 640, 480).expect("opens");
    let r = s.produce_next(DeviceReadEvent::Grabbed(raw(0, 480, 3, vec![])));
    assert!(matches!(r, ReadResult::EndOfStream));
    assert!(s.exhausted);
}

#[test]
fn transport_failure_is_an_error() {
    let mut s = FrameSource::open(0, None, None, true, 640, 480).expect("opens");
    let r = s.produce_next(DeviceReadEvent::TransportFailure);
    assert!(matches!(r, ReadResult::ReadError));
    assert!(s.exhausted);
}

#[test]
fn not_grabbed_ends_stream_without_error() {
    let mut s = FrameSource::open(0, None, None, true, 640, 480).expect("opens");
    let r = s.produce_next(DeviceReadEvent::NotGrabbed);
    assert!(matches!(r, ReadResult::EndOfStream));
    assert!(s.exhausted);
}

#[test]
fn malformed_frame_is_downgraded_to_end_of_stream() {
    // A buffer shorter than one row is malformed, not a transport failure.
    let mut s = FrameSource::open(0, None, None, true, 640, 480).expect("opens");
    let r = s.produce_next(
        DeviceReadEvent::Grabbed(RawFrame {
            width: 4,
            height: 2,
            channels: 1,
            encoding: PixelEncoding::U8,
            stride: 4,
            data: vec![0; 3],
        }),
    );
    assert!(matches!(r, ReadResult::EndOfStream));
    assert!(s.exhausted);
}

#[test]
fn good_frame_is_produced_and_stream_stays_open() {
    let mut s = FrameSource::open(0, None, None, true, 4, 2).expect("opens");
    let r = s.produce_next(DeviceReadEvent::Grabbed(raw(4, 2, 1, vec![1, 2, 3, 4, 5, 6, 7, 8])));
    match r {
        ReadResult::Frame(img) => {
            assert_eq!(img.height, 2);
            assert_eq!(img.width, 4);
            assert_eq!(img.channels, 1);
            assert_eq!(img.encoding, PixelEncoding::U8);
            assert_eq!(img.stride, 4);
            assert_eq!(img.data, vec![1, 2, 3, 4, 5, 6, 7, 8]);
        },
        _ => panic!("expected a frame"),
    }
    assert!(!s.exhausted);
}
