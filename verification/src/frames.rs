//! Inbound frames of the synthesis service: each is a JSON document
//! whose "audio" field carries base64-encoded container bytes and
//! whose "message" field carries a service-reported diagnostic. The
//! JSON reading and the base64 decoding are the service protocol's
//! own encodings and are done by outside crates behind trusted
//! wrappers; everything decided from their results is verified.

use vstd::prelude::*;
use crate::errors::PlaybackError;

verus! {

/// What the two protocol fields of an inbound frame hold: the
/// "audio" and the "message" string fields of the JSON document, each
/// present or absent. A function of the frame text alone.
pub uninterp spec fn frame_fields_of(s: Seq<char>) -> (Option<Seq<char>>, Option<Seq<char>>);

/// Relies on serde_json::from_str, serde_json::Value::get and
/// serde_json::Value::as_str: reads the frame as a JSON document and
/// hands back its "audio" and "message" fields where they are
/// strings. A frame that is not a JSON document has neither field.
#[verifier::external_body]
fn frame_fields(text: &str) -> (r: (Option<String>, Option<String>))
    ensures
        r.deep_view() == frame_fields_of(text@),
{
    match serde_json::from_str::<serde_json::Value>(text) {
        Ok(doc) => {
            let audio = doc.get("audio").and_then(|f| f.as_str()).map(|s| s.to_string());
            let message = doc.get("message").and_then(|f| f.as_str()).map(|s| s.to_string());
            (audio, message)
        },
        Err(_) => (None, None),
    }
}

/// What base64 decoding yields on a piece of text: the decoded
/// bytes, or nothing where the text is not valid base64. A function
/// of the text alone.
pub uninterp spec fn base64_decoded(s: Seq<char>) -> Option<Seq<u8>>;

/// Relies on base64::decode: decodes the standard alphabet with
/// padding, and refuses anything else.
#[verifier::external_body]
fn decode_base64(text: &str) -> (r: Option<Vec<u8>>)
    ensures
        r.deep_view() == base64_decoded(text@),
{
    base64::decode(text).ok()
}

/// A decoded service message: audio to play, a fatal diagnostic, or
/// a frame shape this bridge does not know and ignores.
#[derive(Debug, PartialEq, Eq)]
pub enum InboundFrame {
    /// Raw audio container bytes, already stripped of their base64
    /// wire encoding.
    AudioPayload(Vec<u8>),
    /// The diagnostic text of a service-reported error, intact.
    ServiceError(String),
    /// An unrecognized frame, a forward-compatible no-op.
    Other,
}

/// The decoded audio a frame carries, if it is a well-formed audio
/// frame.
pub open spec fn frame_audio(s: Seq<char>) -> Option<Seq<u8>> {
    match frame_fields_of(s).0 {
        Some(a) => base64_decoded(a),
        None => None,
    }
}

/// Whether a frame aborts the turn: an audio field that does not
/// decode, or a service-reported error.
pub open spec fn frame_fatal(s: Seq<char>) -> bool {
    match frame_fields_of(s).0 {
        Some(a) => base64_decoded(a) is None,
        None => frame_fields_of(s).1 is Some,
    }
}

/// The failure a fatal frame surfaces: the diagnostic text of a
/// service error, kept intact, or the decode failure.
pub open spec fn fatal_matches(e: PlaybackError, s: Seq<char>) -> bool {
    match frame_fields_of(s).0 {
        Some(_) => e is InvalidPayload,
        None => e matches PlaybackError::Service(t) && Some(t@) == frame_fields_of(s).1,
    }
}

/// Decodes one inbound frame. An "audio" field is stripped of its
/// base64 encoding and returned as raw container bytes; a present
/// audio field that does not decode is fatal to the turn, as the
/// payload is owed well-formed by contract with the service. A
/// "message" field without audio is the service reporting an error
/// and is returned with its diagnostic text intact. Any other frame
/// shape is ignored.
pub fn parse_frame(text: &str) -> (r: Result<InboundFrame, PlaybackError>)
    ensures
        ({
            let fields = frame_fields_of(text@);
            match fields.0 {
                Some(a) => match base64_decoded(a) {
                    Some(bytes) => r matches Ok(InboundFrame::AudioPayload(v)) && v@ == bytes,
                    None => r matches Err(PlaybackError::InvalidPayload),
                },
                None => match fields.1 {
                    Some(diag) => r matches Ok(InboundFrame::ServiceError(t)) && t@ == diag,
                    None => r matches Ok(InboundFrame::Other),
                },
            }
        }),
        r matches Err(e) ==> frame_fatal(text@) && fatal_matches(e, text@),
        !frame_fatal(text@) ==> r is Ok,
{
    let (audio, message) = frame_fields(text);
    match audio {
        Some(a) => match decode_base64(a.as_str()) {
            Some(bytes) => Ok(InboundFrame::AudioPayload(bytes)),
            None => Err(PlaybackError::InvalidPayload),
        },
        None => match message {
            Some(m) => Ok(InboundFrame::ServiceError(m)),
            None => Ok(InboundFrame::Other),
        },
    }
}

} // verus!
