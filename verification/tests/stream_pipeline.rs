//! The stream pipeline: cancellation, normal termination, error
//! termination, and the per-frame driving methods.

use framebridge::convert::ConvertError;
use framebridge::convert::FormatKey;
use framebridge::format::PixelEncoding;
use framebridge::image::Image;
use framebridge::pipeline::PullEvent;
use framebridge::pipeline::RunOutcome;
use framebridge::pipeline::StreamPipeline;
use framebridge::pipeline::Termination;
use framebridge::pipeline::run;
use framebridge::pipeline::NO_KEY;
use framebridge::pipeline::QUIT_KEY;

fn frame(height: usize, width: usize, seed: u8) -> PullEvent {
    let data: Vec<u8> = (0..height * width).map(|i| (i as u8).wrapping_add(seed)).collect();
    PullEvent::Frame(
        Image::new(height, width, 1, PixelEncoding::U8, width, data).expect("well-formed"),
    )
}

#[test]
fn cancellation_processes_exactly_the_frames_before_the_quit_signal() {
    // Three frames scripted, quit polled after the second: exactly two
    // frames are processed, and the run ends as Cancelled, without error.
    let script = vec![frame(2, 2, 1), frame(2, 2, 2), frame(2, 2, 3)];
    let keys = vec![NO_KEY, QUIT_KEY, NO_KEY];
    let r = run(&script, &keys);
    assert_eq!(
        r,
        RunOutcome { frames_processed: 2, termination: Termination::Cancelled }
    );
}

#[test]
fn quit_on_first_frame() {
    let script = vec![frame(2, 2, 1), frame(2, 2, 2)];
    let keys = vec![QUIT_KEY];
    let r = run(&script, &keys);
    assert_eq!(
        r,
        RunOutcome { frames_processed: 1, termination: Termination::Cancelled }
    );
}

#[test]
fn other_keys_do_not_cancel() {
    let script = vec![frame(2, 2, 1), frame(2, 2, 2)];
    let keys = vec![13, 65];
    let r = run(&script, &keys);
    assert_eq!(
        r,
        RunOutcome { frames_processed: 2, termination: Termination::EndOfStream }
    );
}

#[test]
fn end_of_stream_terminates_normally() {
    let script = vec![frame(2, 2, 1), PullEvent::End, frame(2, 2, 2)];
    let keys = vec![];
    let r = run(&script, &keys);
    assert_eq!(
        r,
        RunOutcome { frames_processed: 1, termination: Termination::EndOfStream }
    );
}

#[test]
fn read_failure_propagates() {
    let script = vec![frame(2, 2, 1), PullEvent::Fail];
    let keys = vec![];
    let r = run(&script, &keys);
    assert_eq!(
        r,
        RunOutcome { frames_processed: 1, termination: Termination::ReadFailure }
    );
}

#[test]
fn empty_script_ends_the_stream() {
    let script: Vec<PullEvent> = vec![];
    let keys: Vec<i32> = vec![];
    let r = run(&script, &keys);
    assert_eq!(
        r,
        RunOutcome { frames_processed: 0, termination: Termination::EndOfStream }
    );
}

#[test]
fn unconvertible_frame_fails_the_run() {
    let img = Image::new(1, 1, 1, PixelEncoding::S32, 4, vec![0; 4]).expect("well-formed");
    let script = vec![frame(2, 2, 1), PullEvent::Frame(img)];
    let keys = vec![];
    let r = run(&script, &keys);
    assert_eq!(
        r,
        RunOutcome {
            frames_processed: 1,
            termination: Termination::ConversionFailure(ConvertError::UnsupportedFormat {
                key: FormatKey::Pixel(PixelEncoding::S32),
            }),
        }
    );
}

#[test]
fn stepwise_driving_matches_the_loop() {
    // Drive the pipeline by hand, as the cooperative loop does: pull,
    // convert forward, transform (identity), convert back, poll a key.
    let mut p = StreamPipeline::new();
    assert_eq!(p.frames_processed, 0);
    assert!(p.outcome.is_none());

    let ev = frame(2, 3, 7);
    let t = p.begin_frame(&ev).expect("convertible frame");
    assert_eq!(t.shape, vec![2, 3]);
    let shown = p.end_frame(&t).expect("round trip succeeds");
    assert_eq!(shown.height, 2);
    assert_eq!(shown.width, 3);
    p.poll_cancel(NO_KEY);
    assert_eq!(p.frames_processed, 1);
    assert!(p.outcome.is_none());

    let t2 = p.begin_frame(&ev).expect("still running");
    let _shown2 = p.end_frame(&t2).expect("round trip succeeds");
    p.poll_cancel(QUIT_KEY);
    assert_eq!(p.frames_processed, 2);
    assert_eq!(p.outcome, Some(Termination::Cancelled));
}

#[test]
fn end_event_sets_the_outcome() {
    let mut p = StreamPipeline::new();
    assert!(p.begin_frame(&PullEvent::End).is_none());
    assert_eq!(p.outcome, Some(Termination::EndOfStream));
    assert_eq!(p.frames_processed, 0);
}

#[test]
fn fail_event_sets_the_outcome() {
    let mut p = StreamPipeline::new();
    assert!(p.begin_frame(&PullEvent::Fail).is_none());
    assert_eq!(p.outcome, Some(Termination::ReadFailure));
    assert_eq!(p.frames_processed, 0);
}
