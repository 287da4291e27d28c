//! End to end: a simulated device drives the frame source, whose sequence
//! feeds the pipeline through the converter, until the device reports an
//! empty frame.

use framebridge::format::PixelEncoding;
use framebridge::pipeline::pull_of_read;
use framebridge::pipeline::StreamPipeline;
use framebridge::pipeline::Termination;
use framebridge::pipeline::NO_KEY;
use framebridge::source::DeviceReadEvent;
use framebridge::source::FrameSource;
use framebridge::source::RawFrame;

fn grabbed(width: i32, height: i32, fill: u8) -> DeviceReadEvent {
    let stride = width.max(0) as usize;
    DeviceReadEvent::Grabbed(RawFrame {
        width,
        height,
        channels: 1,
        encoding: PixelEncoding::U8,
        stride,
        data: vec![fill; stride * height.max(0) as usize],
    })
}

#[test]
fn device_to_pipeline_until_empty_frame() {
    let mut src = FrameSource::open(0, Some(4), Some(2), true, 4, 2).expect("opens");
    let mut pipeline = StreamPipeline::new();
    let script = vec![grabbed(4, 2, 9), grabbed(4, 2, 7), grabbed(0, 2, 0), grabbed(4, 2, 5)];

    for ev in script {
        if src.exhausted || pipeline.outcome.is_some() {
            break;
        }
        let step = src.produce_next(ev);
        let pull = pull_of_read(step);
        let tens = match pipeline.begin_frame(&pull) {
            Some(t) => t,
            None => break,
        };
        // Identity transform; convert back for display.
        let shown = pipeline.end_frame(&tens).expect("round trip succeeds");
        assert_eq!(shown.height, 2);
        assert_eq!(shown.width, 4);
        pipeline.poll_cancel(NO_KEY);
    }

    // The zero-width frame ended the sequence after two processed frames,
    // without an error.
    assert!(src.exhausted);
    assert_eq!(pipeline.frames_processed, 2);
    assert_eq!(pipeline.outcome, Some(Termination::EndOfStream));
}
