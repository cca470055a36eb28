//! HTTP-level decisions of the transcription endpoint.
//!
//! The network front end reads requests and writes responses; every decision
//! in between is made here, on plain values: whether a request is the CORS
//! preflight, whether it must be rejected before the model session is ever
//! touched, which exchange format the client asked for, and what the success
//! body and its content type are.

use vstd::prelude::*;

use crate::errors::TranscriptionError;
use crate::strutil::str_eq;
use crate::transcript::{all_wf, spec_srt, spec_text, spec_vtt, Transcript, Utterance};

verus! {

/// The fixed path of the transcription endpoint.
pub open spec fn spec_endpoint() -> Seq<char> {
    "/v1/audio/transcriptions"@
}

/// The path the transcription endpoint is served under.
pub fn endpoint_path() -> (r: &'static str)
    ensures
        r@ == spec_endpoint(),
{
    "/v1/audio/transcriptions"
}

/// The boundary parameter the multipart parser extracts from a
/// `Content-Type` header value that names `multipart/form-data`, if any.
pub uninterp spec fn spec_boundary_of(ct: Seq<char>) -> Option<Seq<char>>;

/// Relies on `multer::parse_boundary`: it extracts the boundary parameter of
/// a `multipart/form-data` content type and fails on any other header value;
/// its result is a function of the header value alone.
#[verifier::external_body]
fn parse_boundary(ct: &str) -> (r: Option<String>)
    ensures
        match r {
            Some(b) => spec_boundary_of(ct@) == Some(b@),
            None => spec_boundary_of(ct@) is None,
        },
{
    multer::parse_boundary(ct).ok()
}

/// What the service does with an incoming request, decided before any body
/// byte is read: answer the CORS preflight, reject the request, or read the
/// multipart body under the given boundary and transcribe it.
#[derive(Debug)]
pub enum RequestPlan {
    /// Answer 200 with permissive CORS headers and no body.
    CorsPreflight,
    /// Answer 400; the request does not carry a multipart body.
    Rejected,
    /// Parse the body as `multipart/form-data` under this boundary.
    Transcribe { boundary: String },
}

/// Whether the request is the CORS preflight of the transcription endpoint.
pub open spec fn spec_is_preflight(method: Seq<char>, path: Seq<char>) -> bool {
    method == "OPTIONS"@ && path == spec_endpoint()
}

/// Whether a `Content-Type` header value carries a multipart boundary.
pub open spec fn spec_has_boundary(ct: Option<&str>) -> bool {
    ct matches Some(c) && spec_boundary_of(c@) is Some
}

/// Decides what to do with a request.
///
/// The preflight is answered with success whatever the content type or the
/// rest of the request state; every other request without a parseable
/// `multipart/form-data` content type is rejected here, before the model
/// session or the request body is ever touched.
pub fn plan_request(method: &str, path: &str, content_type: Option<&str>) -> (r: RequestPlan)
    ensures
        r is CorsPreflight <==> spec_is_preflight(method@, path@),
        r is Rejected <==> (!spec_is_preflight(method@, path@) && !spec_has_boundary(
            content_type,
        )),
        r matches RequestPlan::Transcribe { boundary } ==> !spec_is_preflight(method@, path@)
            && spec_boundary_of(content_type->Some_0@) == Some(boundary@),
{
    if str_eq(method, "OPTIONS") && str_eq(path, endpoint_path()) {
        return RequestPlan::CorsPreflight;
    }
    match content_type {
        None => RequestPlan::Rejected,
        Some(ct) => {
            match parse_boundary(ct) {
                None => RequestPlan::Rejected,
                Some(b) => RequestPlan::Transcribe { boundary: b },
            }
        },
    }
}

/// The exchange formats a client can ask for in the `response_format` field.
#[derive(Debug, Clone, Copy, PartialEq, Eq, Structural)]
pub enum ResponseFormat {
    Json,
    Text,
    Srt,
    Vtt,
}

/// The format a `response_format` field selects: `text`, `srt` and `vtt`
/// select themselves; an absent or unrecognized value selects JSON.
pub open spec fn spec_format_of(s: Option<&str>) -> ResponseFormat {
    match s {
        Some(v) => if v@ == "srt"@ {
            ResponseFormat::Srt
        } else if v@ == "vtt"@ {
            ResponseFormat::Vtt
        } else if v@ == "text"@ {
            ResponseFormat::Text
        } else {
            ResponseFormat::Json
        },
        None => ResponseFormat::Json,
    }
}

/// Reads the optional `response_format` form field.
pub fn parse_response_format(s: Option<&str>) -> (r: ResponseFormat)
    ensures
        r == spec_format_of(s),
{
    match s {
        Some(v) => {
            if str_eq(v, "srt") {
                ResponseFormat::Srt
            } else if str_eq(v, "vtt") {
                ResponseFormat::Vtt
            } else if str_eq(v, "text") {
                ResponseFormat::Text
            } else {
                ResponseFormat::Json
            }
        },
        None => ResponseFormat::Json,
    }
}

/// The JSON string literal — quotes and escapes included — that the JSON
/// serializer produces for a given text.
pub uninterp spec fn spec_json_string(s: Seq<char>) -> Seq<char>;

/// Relies on `serde_json::to_string`: serializing a string value produces
/// its JSON string literal, a function of the characters alone.
#[verifier::external_body]
fn json_encode_text(s: &str) -> (r: Option<String>)
    ensures
        r matches Some(t) ==> t@ == spec_json_string(s@),
{
    serde_json::to_string(s).ok()
}

/// The JSON success body: an object carrying the plain-text transcript under
/// a `text` key.
pub open spec fn spec_json_body(us: Seq<Utterance>) -> Seq<char> {
    "{\"text\":"@ + spec_json_string(spec_text(us)) + "}"@
}

/// A rendered success body together with its content type.
#[derive(Debug)]
pub struct RenderedResponse {
    pub body: String,
    pub content_type: String,
}

/// Renders the success response for a transcript in the chosen format:
/// `text`, `srt` and `vtt` are the plain-text renderings under a plain-text
/// content type; JSON is the `text`-keyed object under a JSON content type.
pub fn render_response(t: &Transcript, format: ResponseFormat) -> (r: Result<
    RenderedResponse,
    TranscriptionError,
>)
    requires
        all_wf(t.utterances@),
    ensures
        match r {
            Ok(resp) => {
                &&& (format is Srt ==> resp.body@ == spec_srt(t.utterances@))
                &&& (format is Vtt ==> resp.body@ == spec_vtt(t.utterances@))
                &&& (format is Text ==> resp.body@ == spec_text(t.utterances@))
                &&& (format is Json ==> resp.body@ == spec_json_body(t.utterances@))
                &&& (format is Json ==> resp.content_type@ == "application/json; charset=utf-8"@)
                &&& (!(format is Json) ==> resp.content_type@ == "text/plain; charset=utf-8"@)
            },
            Err(e) => e == TranscriptionError::Internal,
        },
        r is Err ==> format is Json,
{
    match format {
        ResponseFormat::Srt => Ok(
            RenderedResponse {
                body: t.as_srt(),
                content_type: String::from_str("text/plain; charset=utf-8"),
            },
        ),
        ResponseFormat::Vtt => Ok(
            RenderedResponse {
                body: t.as_vtt(),
                content_type: String::from_str("text/plain; charset=utf-8"),
            },
        ),
        ResponseFormat::Text => Ok(
            RenderedResponse {
                body: t.as_text(),
                content_type: String::from_str("text/plain; charset=utf-8"),
            },
        ),
        ResponseFormat::Json => {
            let text = t.as_text();
            match json_encode_text(text.as_str()) {
                None => Err(TranscriptionError::Internal),
                Some(encoded) => {
                    let mut body = String::from_str("{\"text\":");
                    body.append(encoded.as_str());
                    body.append("}");
                    proof {
                        assert(body@ =~= spec_json_body(t.utterances@));
                    }
                    Ok(
                        RenderedResponse {
                            body,
                            content_type: String::from_str("application/json; charset=utf-8"),
                        },
                    )
                },
            }
        },
    }
}

/// The HTTP status an error is answered with: 400 for a request rejected
/// before the model session is touched, 500 for everything else.
pub fn error_status(e: &TranscriptionError) -> (r: u16)
    ensures
        r == 400 <==> *e is BadRequest,
        r == 400 || r == 500,
{
    if e.is_client_error() {
        400
    } else {
        500
    }
}

} // verus!
