//! The detection engine's control law: a state machine from capture
//! events to the next state and the action the capture loop must take.
//! The loop itself — opening the stream, reading frames, scoring them —
//! runs on a dedicated worker thread outside this library and feeds its
//! observations in as plain values.

use vstd::prelude::*;
use crate::errors::ConfigError;
use crate::matcher::spec_is_match;
use crate::matcher::is_match;

verus! {

/// The fixed delay between capture iterations, and the backoff after an
/// empty frame read, in milliseconds. It rate-limits CPU use; it is not
/// a debounce, so a sustained match may emit duplicate events.
pub const FRAME_INTERVAL_MS: u64 = 100;

/// Where the detection engine stands.
#[derive(Clone, Copy, Debug, PartialEq, Eq, Structural)]
pub enum EngineState {
    /// The capture handle is not open yet.
    Opening,
    /// Frames are being read and matched.
    Capturing,
    /// The engine has ended, normally after a fatal error.
    Closed,
}

/// What the capture loop observed in one iteration.
pub enum CaptureEvent {
    /// The source opened as a capture handle.
    Opened,
    /// The source could not be opened.
    OpenFailed,
    /// A read returned no data; live streams stall momentarily.
    EmptyFrame,
    /// A frame arrived; one scaled match score per template, in load
    /// order.
    FrameScores(Vec<i64>),
}

/// What the capture loop must do next.
#[derive(Clone, Copy, Debug, PartialEq, Eq, Structural)]
pub enum EngineAction {
    /// End the run: a fatal configuration error.
    Fail(ConfigError),
    /// Read the next frame at once.
    Proceed,
    /// Wait `FRAME_INTERVAL_MS`, then read again; an empty frame is a
    /// transient condition, never end-of-stream.
    Backoff,
    /// Publish a detection event, wait `FRAME_INTERVAL_MS`, then read
    /// again.
    PublishEvent,
    /// Wait `FRAME_INTERVAL_MS`, then read again.
    Delay,
    /// Nothing: the engine is closed.
    Halt,
}

/// The engine's transition law. An event that its state does not
/// expect closes the engine.
pub open spec fn spec_engine_step(state: EngineState, event: CaptureEvent, threshold: i64) -> (
    EngineState,
    EngineAction,
) {
    match (state, event) {
        (EngineState::Opening, CaptureEvent::Opened) => (EngineState::Capturing, EngineAction::Proceed),
        (EngineState::Opening, CaptureEvent::OpenFailed) => (
            EngineState::Closed,
            EngineAction::Fail(ConfigError::SourceUnopenable),
        ),
        (EngineState::Capturing, CaptureEvent::EmptyFrame) => (
            EngineState::Capturing,
            EngineAction::Backoff,
        ),
        (EngineState::Capturing, CaptureEvent::FrameScores(scores)) => (
            EngineState::Capturing,
            if spec_is_match(scores@, threshold) {
                EngineAction::PublishEvent
            } else {
                EngineAction::Delay
            },
        ),
        (EngineState::Closed, _) => (EngineState::Closed, EngineAction::Halt),
        _ => (EngineState::Closed, EngineAction::Halt),
    }
}

/// Advances the engine by one observation: a failed open is fatal; an
/// empty frame backs off and retries; a frame whose scores reach the
/// threshold publishes an event; any frame is followed by the fixed
/// inter-iteration delay.
pub fn engine_step(state: EngineState, event: &CaptureEvent, threshold: i64) -> (r: (
    EngineState,
    EngineAction,
))
    ensures
        r == spec_engine_step(state, *event, threshold),
{
    match (state, event) {
        (EngineState::Opening, CaptureEvent::Opened) => (
            EngineState::Capturing,
            EngineAction::Proceed,
        ),
        (EngineState::Opening, CaptureEvent::OpenFailed) => (
            EngineState::Closed,
            EngineAction::Fail(ConfigError::SourceUnopenable),
        ),
        (EngineState::Capturing, CaptureEvent::EmptyFrame) => (
            EngineState::Capturing,
            EngineAction::Backoff,
        ),
        (EngineState::Capturing, CaptureEvent::FrameScores(scores)) => (
            EngineState::Capturing,
            if is_match(scores, threshold) {
                EngineAction::PublishEvent
            } else {
                EngineAction::Delay
            },
        ),
        _ => (EngineState::Closed, EngineAction::Halt),
    }
}

} // verus!
