//! Error taxonomy: configuration errors are fatal at startup; stage
//! errors abort one clip job and leave the pipeline loop running.

use vstd::prelude::*;

verus! {

/// A startup condition under which the run cannot proceed at all.
#[derive(Clone, Copy, Debug, PartialEq, Eq, Structural)]
pub enum ConfigError {
    /// No reference image decoded successfully; there is nothing to match.
    NoTemplates,
    /// The source stream could not be opened as a capture handle.
    SourceUnopenable,
}

/// A failure that aborts the current clip job only.
#[derive(Clone, Copy, Debug, PartialEq, Eq, Structural)]
pub enum StageError {
    /// The external transcoding tool exited with a failure status.
    ToolFailed,
    /// A stage's output file was missing or empty.
    EmptyArtifact,
    /// The transcription pass produced no segments.
    EmptyTranscript,
    /// The speech-to-text stream delivered an event of an unexpected kind.
    ProtocolViolation,
    /// An artifact could not be handed to storage.
    UploadFailed,
}

} // verus!
