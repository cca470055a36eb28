//! The error taxonomy of the transcription service.

use vstd::prelude::*;

verus! {

/// Everything that can go wrong between receiving a request and returning a
/// transcript.
#[derive(Debug, Clone, Copy, PartialEq, Eq, Structural)]
pub enum TranscriptionError {
    /// The model session never became usable; fatal for that session.
    ModelLoad,
    /// The input audio could not be decoded.
    Decode,
    /// The engine emitted zero segments: an explicit business error, never an
    /// empty transcript.
    NoSpeechDetected,
    /// The engine reported a failure mid-run.
    Inference,
    /// Exclusive access to the model session could not be granted.
    SessionUnavailable,
    /// Malformed request input, rejected before the model is touched.
    BadRequest,
    /// An unexpected internal failure.
    Internal,
}

/// The fixed description of each error.
pub open spec fn spec_message(e: TranscriptionError) -> Seq<char> {
    match e {
        TranscriptionError::ModelLoad => "failed to load the model"@,
        TranscriptionError::Decode => "failed to decode the audio"@,
        TranscriptionError::NoSpeechDetected => "no speech detected"@,
        TranscriptionError::Inference => "the inference run failed"@,
        TranscriptionError::SessionUnavailable => "the model session is unavailable"@,
        TranscriptionError::BadRequest => "bad request"@,
        TranscriptionError::Internal => "internal error"@,
    }
}

impl TranscriptionError {
    /// A short description, suitable for an error body or an abort message.
    pub fn message(&self) -> (r: &'static str)
        ensures
            r@ == spec_message(*self),
    {
        match self {
            TranscriptionError::ModelLoad => "failed to load the model",
            TranscriptionError::Decode => "failed to decode the audio",
            TranscriptionError::NoSpeechDetected => "no speech detected",
            TranscriptionError::Inference => "the inference run failed",
            TranscriptionError::SessionUnavailable => "the model session is unavailable",
            TranscriptionError::BadRequest => "bad request",
            TranscriptionError::Internal => "internal error",
        }
    }

    /// Which errors are rejected before the model session is ever touched.
    pub fn is_client_error(&self) -> (r: bool)
        ensures
            r == (*self is BadRequest),
    {
        match self {
            TranscriptionError::BadRequest => true,
            _ => false,
        }
    }
}

} // verus!
