//! The driver for one frame-extraction run of the external media pipeline.
//!
//! The pipeline itself — demux, decode, colour conversion, scaling to the
//! aspect-scale policy's dimensions, still-image encoding — runs outside
//! this library, feeding events back over a bounded channel: the first
//! produced frame, end of stream, an error or warning from the pipeline's
//! bus, or nothing within the time budget. This module is the driver's
//! decision core: it classifies each event, stops after the first frame,
//! treats warnings as non-fatal, and on every terminal event both yields
//! the outcome and obliges the caller to release the pipeline.

use vstd::prelude::*;
use crate::text::{spec_contains, str_contains};
use crate::thumbnail::GenerateError;

verus! {

/// Hard budget, in seconds, for waiting on a frame or pipeline completion.
pub const TIMEOUT_SECONDS: u64 = 5;

/// The backend's wording when it lacks a decoder for the stream; an error
/// carrying it means "file format not supported", not a generic failure.
pub const MISSING_DECODER_MARKER: &'static str = "missing a plug-in";

/// One event the running pipeline reports back to the driver.
#[derive(Debug)]
pub enum PipelineEvent {
    /// The sink produced its first (and only) frame: the encoded
    /// still-image bytes.
    Frame(Vec<u8>),
    /// The stream ended without any frame being produced.
    EndOfStream,
    /// The pipeline's bus reported an error, with its message text.
    BusError { message: String },
    /// The bus reported a warning: logged, non-fatal, the pipeline
    /// continues.
    Warning,
    /// Neither a frame nor termination arrived within the time budget.
    TimedOut,
}

/// The classification of a bus error: a missing decoder is surfaced as
/// "file format not supported", everything else as an opaque backend
/// failure.
pub open spec fn spec_classify_bus_error(message: Seq<char>) -> GenerateError {
    if spec_contains(message, MISSING_DECODER_MARKER@) {
        GenerateError::Unsupported
    } else {
        GenerateError::Backend
    }
}

/// Classifies a bus error by its message text.
pub fn classify_bus_error(message: &str) -> (e: GenerateError)
    ensures
        e == spec_classify_bus_error(message@),
{
    if str_contains(message, MISSING_DECODER_MARKER) {
        GenerateError::Unsupported
    } else {
        GenerateError::Backend
    }
}

/// What one event means for the waiting driver: nothing yet (a warning),
/// or the run's outcome.
pub open spec fn spec_event_outcome(e: PipelineEvent) -> Option<Result<Seq<u8>, GenerateError>> {
    match e {
        PipelineEvent::Frame(frame) => Some(Ok(frame@)),
        PipelineEvent::EndOfStream => Some(Err(GenerateError::Empty)),
        PipelineEvent::BusError { message } => Some(Err(spec_classify_bus_error(message@))),
        PipelineEvent::Warning => None,
        PipelineEvent::TimedOut => Some(Err(GenerateError::Timeout)),
    }
}

/// Where a driver stands: still waiting on the pipeline, or finished.
#[derive(Clone, Copy, Debug, PartialEq, Eq, Structural)]
pub enum DriverPhase {
    /// The pipeline runs and the driver waits for events.
    Waiting,
    /// A terminal event arrived; no further event is consumed, so at most
    /// one frame is ever taken from the pipeline.
    Done,
}

/// The driver for one pipeline run. `released` records whether the caller
/// has been obliged to tear the pipeline down; a driver never finishes
/// without it.
#[derive(Clone, Copy, Debug)]
pub struct PipelineDriver {
    pub phase: DriverPhase,
    pub released: bool,
}

/// The driver's transition for one event: a warning changes nothing, any
/// other event finishes the run with its outcome and the release
/// obligation set.
pub open spec fn spec_step(d: PipelineDriver, e: PipelineEvent) -> (
    PipelineDriver,
    Option<Result<Seq<u8>, GenerateError>>,
) {
    match spec_event_outcome(e) {
        None => (d, None),
        Some(outcome) => (
            PipelineDriver { phase: DriverPhase::Done, released: true },
            Some(outcome),
        ),
    }
}

/// The bytes-level view of a driver's answer.
pub open spec fn spec_outcome_view(r: Option<Result<Vec<u8>, GenerateError>>) -> Option<
    Result<Seq<u8>, GenerateError>,
> {
    match r {
        None => None,
        Some(Ok(frame)) => Some(Ok(frame@)),
        Some(Err(e)) => Some(Err(e)),
    }
}

impl PipelineDriver {
    /// A driver for a freshly started pipeline.
    pub fn start() -> (d: Self)
        ensures
            d.phase is Waiting,
            !d.released,
    {
        PipelineDriver { phase: DriverPhase::Waiting, released: false }
    }

    /// Consumes one event from the pipeline. A warning leaves the driver
    /// waiting; a frame, end of stream, bus error or timeout yields the
    /// classified outcome, finishes the driver, and obliges the caller to
    /// release the pipeline before returning. A finished driver consumes
    /// nothing more, so the first frame is the only one taken.
    pub fn on_event(&mut self, event: PipelineEvent) -> (r: Option<
        Result<Vec<u8>, GenerateError>,
    >)
        requires
            old(self).phase is Waiting,
        ensures
            (*final(self), spec_outcome_view(r)) == spec_step(*old(self), event),
    {
        match event {
            PipelineEvent::Frame(frame) => {
                self.phase = DriverPhase::Done;
                self.released = true;
                Some(Ok(frame))
            },
            PipelineEvent::EndOfStream => {
                self.phase = DriverPhase::Done;
                self.released = true;
                Some(Err(GenerateError::Empty))
            },
            PipelineEvent::BusError { message } => {
                self.phase = DriverPhase::Done;
                self.released = true;
                Some(Err(classify_bus_error(message.as_str())))
            },
            PipelineEvent::Warning => None,
            PipelineEvent::TimedOut => {
                self.phase = DriverPhase::Done;
                self.released = true;
                Some(Err(GenerateError::Timeout))
            },
        }
    }
}

/// Teardown on every exit path: whenever an event finishes the run —
/// success, end of stream, bus error, or timeout — the driver leaves with
/// the release obligation set. A pipeline is never abandoned running.
pub proof fn lemma_every_exit_releases(d: PipelineDriver, e: PipelineEvent)
    ensures
        spec_step(d, e).1 is Some ==> {
            &&& spec_step(d, e).0.released
            &&& spec_step(d, e).0.phase is Done
        },
{
}

/// Timeout: a pipeline that reports neither a frame nor termination within
/// the time budget yields exactly a `Timeout` error, and the pipeline is
/// released all the same.
pub proof fn lemma_timeout_outcome(d: PipelineDriver)
    ensures
        spec_step(d, PipelineEvent::TimedOut).1 == Some(Result::<Seq<u8>, GenerateError>::Err(
            GenerateError::Timeout,
        )),
        spec_step(d, PipelineEvent::TimedOut).0.released,
{
}

/// A warning is non-fatal: the driver keeps waiting and holds the
/// pipeline.
pub proof fn lemma_warning_continues(d: PipelineDriver)
    ensures
        spec_step(d, PipelineEvent::Warning) == (d, None::<Result<Seq<u8>, GenerateError>>),
{
}

/// The launch description for one source file: decode the container, scale
/// and convert, fit to the thumbnail box, encode to the still-image
/// format, and hand the first frame to the named sink.
pub fn pipeline_description(input: &str) -> (r: String)
    ensures
        r@ == "uridecodebin uri=file://"@ + input@
            + " ! videoscale ! videoconvert ! thumbnailscale ! pngenc ! appsink name=sink"@,
{
    let mut out = String::new();
    out.append("uridecodebin uri=file://");
    out.append(input);
    out.append(" ! videoscale ! videoconvert ! thumbnailscale ! pngenc ! appsink name=sink");
    proof {
        assert(out@ =~= "uridecodebin uri=file://"@ + input@
            + " ! videoscale ! videoconvert ! thumbnailscale ! pngenc ! appsink name=sink"@);
    }
    out
}

} // verus!
