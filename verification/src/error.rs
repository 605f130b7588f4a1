//! Errors of the transcription pipeline.

use vstd::prelude::*;

verus! {

/// The ways in which a window's transcription can fail.
#[derive(Clone, Copy, Debug, PartialEq, Eq, Structural)]
pub enum ErrorKind {
    /// The input audio is unreadable, or its rate could not be reconciled
    /// with the rate the model requires.
    AudioFormat,
    /// An acoustic feature tensor does not have the shape the encoder accepts.
    Shape,
    /// The number of audio embeddings differs from the number of placeholder
    /// positions reserved in the prompt.
    ShapeMismatch,
    /// A required configuration value is missing or invalid.
    Config,
    /// Growing the key/value cache would exceed the decoder's context length.
    CacheOverflow,
    /// The tensor engine reported a failure of its own.
    Compute,
}

/// An error raised while one window is processed.
#[derive(Clone, Debug, PartialEq, Eq)]
pub enum PipelineError {
    /// See [`ErrorKind::AudioFormat`].
    AudioFormat,
    /// See [`ErrorKind::Shape`].
    Shape,
    /// The prompt reserved `expected` placeholder positions and the encoder
    /// delivered `actual` embeddings.
    ShapeMismatch { expected: usize, actual: usize },
    /// See [`ErrorKind::Config`].
    Config,
    /// See [`ErrorKind::CacheOverflow`].
    CacheOverflow,
    /// The tensor engine failed; its message is carried unchanged.
    Compute(String),
}

impl PipelineError {
    /// The kind of this error.
    pub open spec fn spec_kind(self) -> ErrorKind {
        match self {
            PipelineError::AudioFormat => ErrorKind::AudioFormat,
            PipelineError::Shape => ErrorKind::Shape,
            PipelineError::ShapeMismatch { .. } => ErrorKind::ShapeMismatch,
            PipelineError::Config => ErrorKind::Config,
            PipelineError::CacheOverflow => ErrorKind::CacheOverflow,
            PipelineError::Compute(_) => ErrorKind::Compute,
        }
    }

    /// The text that [`PipelineError::message`] gives for this error.
    pub open spec fn spec_message(self) -> Seq<char> {
        match self {
            PipelineError::AudioFormat => "audio format error"@,
            PipelineError::Shape => "shape error"@,
            PipelineError::ShapeMismatch { .. } => "shape mismatch error"@,
            PipelineError::Config => "configuration error"@,
            PipelineError::CacheOverflow => "cache overflow error"@,
            PipelineError::Compute(text) => text@,
        }
    }

    /// The kind of this error.
    pub fn kind(&self) -> (k: ErrorKind)
        ensures
            k == self.spec_kind(),
    {
        match self {
            PipelineError::AudioFormat => ErrorKind::AudioFormat,
            PipelineError::Shape => ErrorKind::Shape,
            PipelineError::ShapeMismatch { .. } => ErrorKind::ShapeMismatch,
            PipelineError::Config => ErrorKind::Config,
            PipelineError::CacheOverflow => ErrorKind::CacheOverflow,
            PipelineError::Compute(_) => ErrorKind::Compute,
        }
    }

    /// Whether the error signals a configuration or version disagreement
    /// between the parts of the model, which no retry can mend.
    pub fn is_fatal(&self) -> (fatal: bool)
        ensures
            fatal == (self.spec_kind() == ErrorKind::Shape || self.spec_kind()
                == ErrorKind::ShapeMismatch),
    {
        match self {
            PipelineError::Shape => true,
            PipelineError::ShapeMismatch { .. } => true,
            _ => false,
        }
    }

    /// A short description; an engine failure gives the engine's own words.
    pub fn message(&self) -> (text: String)
        ensures
            text@ == self.spec_message(),
    {
        match self {
            PipelineError::AudioFormat => String::from_str("audio format error"),
            PipelineError::Shape => String::from_str("shape error"),
            PipelineError::ShapeMismatch { .. } => String::from_str("shape mismatch error"),
            PipelineError::Config => String::from_str("configuration error"),
            PipelineError::CacheOverflow => String::from_str("cache overflow error"),
            PipelineError::Compute(text) => text.clone(),
        }
    }
}

/// A [`PipelineError`] together with the index of the window it arose in.
#[derive(Clone, Debug, PartialEq, Eq)]
pub struct WindowError {
    pub window_index: usize,
    pub error: PipelineError,
}

impl WindowError {
    /// Attaches the index of the failing window to an error.
    pub fn new(window_index: usize, error: PipelineError) -> (e: WindowError)
        ensures
            e.window_index == window_index,
            e.error == error,
    {
        WindowError { window_index, error }
    }
}

} // verus!
