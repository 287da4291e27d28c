//! The stream pipeline: a single cooperative loop that pulls frames,
//! converts them, hands them to an external transform and the display
//! collaborator, and polls a cancellation key once per iteration. The
//! decisions live here as a state machine; the device read, the transform
//! and the display are external collaborators driven by the caller.

use vstd::prelude::*;

use crate::convert::ConvertError;
use crate::convert::FormatKey;
use crate::convert::is_to_image;
use crate::convert::is_to_tensor;
use crate::convert::spec_to_image_err;
use crate::convert::to_image;
use crate::convert::to_image_ok;
use crate::convert::to_tensor;
use crate::convert::to_tensor_ok;
use crate::convert::lemma_round_trip_succeeds;
use crate::image::Image;
use crate::source::ReadResult;
use crate::tensor::Tensor;

verus! {

/// The key code the display collaborator reserves as the quit signal.
pub const QUIT_KEY: i32 = 27;

/// The key code the display collaborator reports when no key is pressed.
pub const NO_KEY: i32 = -1;

/// Why a pipeline run ended.
#[derive(Clone, Copy, Debug, PartialEq, Eq, Structural)]
pub enum Termination {
    /// The frame source reported the normal end of its sequence.
    EndOfStream,
    /// The quit key was polled after a frame was processed.
    Cancelled,
    /// The frame source reported a transport failure; not retried.
    ReadFailure,
    /// A frame could not be converted; no best-effort reinterpretation is
    /// attempted.
    ConversionFailure(ConvertError),
}

/// One pull from the frame source, as the pipeline sees it.
pub enum PullEvent {
    /// The next frame.
    Frame(Image),
    /// The source reported end of stream.
    End,
    /// The source reported a transport failure.
    Fail,
}

/// The cooperative driver's state: how many frames it has processed, and
/// its termination once it has one. It is restartable only by constructing
/// a new pipeline over a new frame source.
pub struct StreamPipeline {
    pub frames_processed: u64,
    pub outcome: Option<Termination>,
}

impl StreamPipeline {
    /// The pipeline keeps running until an outcome is set.
    pub open spec fn running(self) -> bool {
        self.outcome is None
    }

    /// A fresh pipeline: nothing processed, no outcome.
    pub fn new() -> (p: StreamPipeline)
        ensures
            p.frames_processed == 0,
            p.running(),
    {
        StreamPipeline { frames_processed: 0, outcome: None }
    }

    /// Take one pull from the frame source. End of stream and transport
    /// failure set the outcome; a frame is converted forward, yielding the
    /// tensor for the external transform, or sets a conversion failure.
    pub fn begin_frame(&mut self, ev: &PullEvent) -> (r: Option<Tensor>)
        requires
            old(self).running(),
            *ev matches PullEvent::Frame(img) ==> img.wf(),
        ensures
            final(self).frames_processed == old(self).frames_processed,
            *ev matches PullEvent::End ==> final(self).outcome == Some(Termination::EndOfStream)
                && r is None,
            *ev matches PullEvent::Fail ==> final(self).outcome == Some(Termination::ReadFailure)
                && r is None,
            *ev matches PullEvent::Frame(img) ==> if to_tensor_ok(img) {
                &&& r matches Some(t) && is_to_tensor(img, t) && t.wf()
                &&& final(self).running()
            } else {
                &&& r is None
                &&& final(self).outcome == Some(
                    Termination::ConversionFailure(
                        ConvertError::UnsupportedFormat { key: FormatKey::Pixel(img.encoding) },
                    ),
                )
            },
    {
        match ev {
            PullEvent::End => {
                self.outcome = Some(Termination::EndOfStream);
                None
            },
            PullEvent::Fail => {
                self.outcome = Some(Termination::ReadFailure);
                None
            },
            PullEvent::Frame(img) => {
                match to_tensor(img) {
                    Ok(t) => Some(t),
                    Err(e) => {
                        self.outcome = Some(Termination::ConversionFailure(e));
                        None
                    },
                }
            },
        }
    }

    /// Finish one frame after the external transform: convert the tensor
    /// back for display and count the frame as processed, or set a
    /// conversion failure.
    pub fn end_frame(&mut self, t: &Tensor) -> (r: Option<Image>)
        requires
            old(self).running(),
            t.wf(),
            old(self).frames_processed < u64::MAX,
        ensures
            if to_image_ok(*t) {
                &&& r matches Some(img) && is_to_image(*t, img) && img.wf()
                &&& final(self).frames_processed == old(self).frames_processed + 1
                &&& final(self).running()
            } else {
                &&& r is None
                &&& final(self).frames_processed == old(self).frames_processed
                &&& final(self).outcome == Some(
                    Termination::ConversionFailure(spec_to_image_err(*t)),
                )
            },
    {
        match to_image(t) {
            Ok(img) => {
                self.frames_processed = self.frames_processed + 1;
                Some(img)
            },
            Err(e) => {
                self.outcome = Some(Termination::ConversionFailure(e));
                None
            },
        }
    }

    /// Poll the cancellation signal, once per iteration, after the frame
    /// was handed to the display collaborator. The quit key cancels the
    /// run; any other key leaves the pipeline running.
    pub fn poll_cancel(&mut self, key: i32)
        requires
            old(self).running(),
        ensures
            final(self).frames_processed == old(self).frames_processed,
            final(self).outcome == (if key == QUIT_KEY {
                Some(Termination::Cancelled)
            } else {
                None::<Termination>
            }),
    {
        if key == QUIT_KEY {
            self.outcome = Some(Termination::Cancelled);
        }
    }
}

/// Adapt one step of a frame source's sequence to a pipeline pull: a frame
/// is pulled as a frame, end of stream ends the run normally, a read error
/// fails it.
pub fn pull_of_read(r: ReadResult) -> (p: PullEvent)
    ensures
        r matches ReadResult::Frame(img) ==> p == PullEvent::Frame(img),
        p is Frame ==> r is Frame,
        r is EndOfStream <==> p is End,
        r is ReadError <==> p is Fail,
{
    match r {
        ReadResult::Frame(img) => PullEvent::Frame(img),
        ReadResult::EndOfStream => PullEvent::End,
        ReadResult::ReadError => PullEvent::Fail,
    }
}

/// The key polled at one iteration of a scripted run: the scripted code, or
/// `NO_KEY` past the end of the script.
pub open spec fn key_at(keys: Seq<i32>, i: int) -> i32 {
    if 0 <= i < keys.len() {
        keys[i]
    } else {
        NO_KEY
    }
}

/// The outcome of a scripted pipeline run.
#[derive(Clone, Copy, Debug, PartialEq, Eq, Structural)]
pub struct RunOutcome {
    pub frames_processed: u64,
    pub termination: Termination,
}

/// The outcome of driving the pipeline from position `i` of a script with
/// `count` frames already processed: pulls are taken in order, each frame is
/// processed and its key polled, until a terminal event, the quit key, a
/// conversion failure, or the script's end (a silent device: end of
/// stream).
pub open spec fn spec_run(script: Seq<PullEvent>, keys: Seq<i32>, i: int, count: nat) -> (nat,
    Termination)
    decreases script.len() - i,
    when 0 <= i <= script.len()
{
    if i >= script.len() {
        (count, Termination::EndOfStream)
    } else {
        match script[i] {
            PullEvent::End => (count, Termination::EndOfStream),
            PullEvent::Fail => (count, Termination::ReadFailure),
            PullEvent::Frame(img) => {
                if !to_tensor_ok(img) {
                    (
                        count,
                        Termination::ConversionFailure(
                            ConvertError::UnsupportedFormat {
                                key: FormatKey::Pixel(img.encoding),
                            },
                        ),
                    )
                } else if key_at(keys, i) == QUIT_KEY {
                    ((count + 1) as nat, Termination::Cancelled)
                } else {
                    spec_run(script, keys, i + 1, (count + 1) as nat)
                }
            },
        }
    }
}

/// Drive a whole pipeline over a scripted frame source and a scripted key
/// sequence, with the identity transform between the two conversions. This
/// is the cooperative loop itself: one pull, one conversion each way, one
/// key poll per iteration, no retry of device reads.
pub fn run(script: &Vec<PullEvent>, keys: &Vec<i32>) -> (r: RunOutcome)
    requires
        forall|i: int|
            0 <= i < script@.len() ==> (#[trigger] script@[i] matches PullEvent::Frame(img)
                ==> img.wf()),
    ensures
        (r.frames_processed as nat, r.termination) == spec_run(script@, keys@, 0, 0),
{
    let mut p = StreamPipeline::new();
    let mut i: usize = 0;
    while i < script.len()
        invariant
            forall|k: int|
                0 <= k < script@.len() ==> (#[trigger] script@[k] matches PullEvent::Frame(img)
                    ==> img.wf()),
            0 <= i <= script.len(),
            p.running(),
            p.frames_processed == i,
            spec_run(script@, keys@, 0, 0) == spec_run(
                script@,
                keys@,
                i as int,
                p.frames_processed as nat,
            ),
        decreases script.len() - i,
    {
        let ev = &script[i];
        let tensor = match p.begin_frame(ev) {
            Some(t) => t,
            None => {
                return RunOutcome {
                    frames_processed: p.frames_processed,
                    termination: p.outcome.unwrap(),
                };
            },
        };
        let key: i32 = if i < keys.len() {
            keys[i]
        } else {
            NO_KEY
        };
        proof {
            lemma_round_trip_succeeds(ev->Frame_0, tensor);
        }
        let _shown = p.end_frame(&tensor);
        p.poll_cancel(key);
        if p.outcome.is_some() {
            return RunOutcome {
                frames_processed: p.frames_processed,
                termination: p.outcome.unwrap(),
            };
        }
        i = i + 1;
    }
    RunOutcome { frames_processed: p.frames_processed, termination: Termination::EndOfStream }
}

/// A run over convertible frames with no quit key reaches position `m`
/// with one frame counted per position passed.
proof fn lemma_run_reaches(script: Seq<PullEvent>, keys: Seq<i32>, m: int, i: int, count: nat)
    requires
        0 <= i <= m <= script.len(),
        forall|j: int|
            i <= j < m ==> (#[trigger] script[j] matches PullEvent::Frame(img) && to_tensor_ok(
                img,
            )),
        forall|j: int| i <= j < m ==> key_at(keys, j) != QUIT_KEY,
    ensures
        spec_run(script, keys, i, count) == spec_run(script, keys, m, (count + m - i) as nat),
    decreases m - i,
{
    if i < m {
        assert(script[i] matches PullEvent::Frame(img) && to_tensor_ok(img));
        lemma_run_reaches(script, keys, m, i + 1, (count + 1) as nat);
    }
}

/// Law: cancellation is exact. If the first quit key in the script stands
/// at position `m`, and every pull up to and including that position is a
/// convertible frame, the run processes exactly the frames preceding the
/// quit signal — positions 0 through `m` — and terminates as `Cancelled`,
/// without error.
pub proof fn lemma_cancellation(script: Seq<PullEvent>, keys: Seq<i32>, m: int)
    requires
        0 <= m < script.len(),
        forall|j: int|
            0 <= j <= m ==> (#[trigger] script[j] matches PullEvent::Frame(img) && to_tensor_ok(
                img,
            )),
        forall|j: int| 0 <= j < m ==> key_at(keys, j) != QUIT_KEY,
        key_at(keys, m) == QUIT_KEY,
    ensures
        spec_run(script, keys, 0, 0) == (((m + 1) as nat, Termination::Cancelled)),
{
    lemma_run_reaches(script, keys, m, 0, 0);
    assert(script[m] matches PullEvent::Frame(img) && to_tensor_ok(img));
}

/// Law: end of stream is not an error. If the source's sequence ends at
/// position `m`, after `m` convertible frames and no quit key, the run
/// processes exactly those frames and terminates as `EndOfStream`.
pub proof fn lemma_end_of_stream(script: Seq<PullEvent>, keys: Seq<i32>, m: int)
    requires
        0 <= m <= script.len(),
        m < script.len() ==> script[m] is End,
        forall|j: int|
            0 <= j < m ==> (#[trigger] script[j] matches PullEvent::Frame(img) && to_tensor_ok(
                img,
            )),
        forall|j: int| 0 <= j < m ==> key_at(keys, j) != QUIT_KEY,
    ensures
        spec_run(script, keys, 0, 0) == ((m as nat, Termination::EndOfStream)),
{
    lemma_run_reaches(script, keys, m, 0, 0);
}

/// Law: a transport failure propagates. If the source fails at position
/// `m`, after `m` convertible frames and no quit key, the run processes
/// exactly those frames and terminates as `ReadFailure`; the failure is
/// not retried and not conflated with end of stream.
pub proof fn lemma_read_failure(script: Seq<PullEvent>, keys: Seq<i32>, m: int)
    requires
        0 <= m < script.len(),
        script[m] is Fail,
        forall|j: int|
            0 <= j < m ==> (#[trigger] script[j] matches PullEvent::Frame(img) && to_tensor_ok(
                img,
            )),
        forall|j: int| 0 <= j < m ==> key_at(keys, j) != QUIT_KEY,
    ensures
        spec_run(script, keys, 0, 0) == ((m as nat, Termination::ReadFailure)),
{
    lemma_run_reaches(script, keys, m, 0, 0);
}

} // verus!
