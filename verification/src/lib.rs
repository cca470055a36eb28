//! Core of a local speech-to-text transcription service.
//!
//! The library owns the logic of the service: the transcript data model with
//! its SRT, VTT and plain-text renderings, the language and model-size
//! catalogues, the assembly of a transcript from raw engine segments, and the
//! HTTP-level decisions (routing, response format selection, rendering).
//! Audio decoding, the native inference engine and the network front end are
//! outside collaborators; they hand this library plain values and take plain
//! values back.

pub mod errors;
pub mod http;
pub mod language;
pub mod model;
pub mod orchestrator;
pub mod strutil;
pub mod timefmt;
pub mod transcript;

pub use errors::TranscriptionError;
pub use http::{RenderedResponse, RequestPlan, ResponseFormat};
pub use language::Language;
pub use model::Size;
pub use orchestrator::{Segment, Token};
pub use strutil::trim_ascii;
pub use transcript::{Transcript, Utterance};
