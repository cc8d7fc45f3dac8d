use vstd::prelude::*;

use base64::Engine;

use crate::frame::Frame;
use crate::frame::UndersizedFrameError;
use crate::frame::FRAME_MIN_LEN;

verus! {

/// Why a transport payload was rejected instead of yielding a frame.
#[derive(Clone, Copy, Debug, PartialEq, Eq, Structural)]
pub enum MalformedPayloadError {
    /// The payload is not valid transport-safe (base64) text.
    NotTransportText,
    /// The payload decodes to fewer than `FRAME_MIN_LEN` bytes.
    UndersizedFrame,
}

/// The transport-safe text that standard base64 produces for the given bytes.
pub uninterp spec fn transport_text_of(bytes: Seq<u8>) -> Seq<char>;

/// What standard base64 decoding gives back for the given text: the decoded
/// bytes, or nothing where the text is not valid base64.
pub uninterp spec fn transport_bytes_of(text: Seq<char>) -> Option<Seq<u8>>;

/// Relies on base64::engine::general_purpose::STANDARD.encode: the output
/// text is a deterministic function of the input bytes alone, and decoding
/// it with the same engine restores exactly those bytes (base64 is lossless).
#[verifier::external_body]
pub(crate) fn base64_encode(bytes: &Vec<u8>) -> (r: String)
    ensures
        r@ == transport_text_of(bytes@),
        transport_bytes_of(r@) == Some(bytes@),
{
    base64::engine::general_purpose::STANDARD.encode(bytes.as_slice())
}

/// Relies on base64::engine::general_purpose::STANDARD.decode: it returns
/// the bytes the text encodes, or an error where the text is not valid
/// base64.
#[verifier::external_body]
fn base64_decode(text: &str) -> (r: Option<Vec<u8>>)
    ensures
        match r {
            Some(v) => transport_bytes_of(text@) == Some(v@),
            None => transport_bytes_of(text@) is None,
        },
{
    base64::engine::general_purpose::STANDARD.decode(text).ok()
}

/// What decoding a transport payload yields: the carried frame bytes where
/// the payload is valid transport text for a large enough frame, and the
/// reason for rejection otherwise.
pub open spec fn spec_decode(payload: Seq<char>) -> Result<Seq<u8>, MalformedPayloadError> {
    match transport_bytes_of(payload) {
        Some(bytes) => if bytes.len() >= FRAME_MIN_LEN {
            Ok(bytes)
        } else {
            Err(MalformedPayloadError::UndersizedFrame)
        },
        None => Err(MalformedPayloadError::NotTransportText),
    }
}

/// Deterministic, lossless transform of a frame into its transport-safe
/// text representation.
///
/// Round-trip law: the second clause states that decoding the produced
/// payload gives back exactly the encoded frame.
pub fn encode(frame: &Frame) -> (r: String)
    requires
        frame.wf(),
    ensures
        r@ == transport_text_of(frame@),
        spec_decode(r@) == Ok::<Seq<u8>, MalformedPayloadError>(frame@),
{
    base64_encode(frame.as_bytes())
}

/// Inverse of `encode`: recovers the frame a transport payload carries, and
/// rejects a payload that is not valid transport text or that decodes to an
/// undersized frame.
pub fn decode(payload: &str) -> (r: Result<Frame, MalformedPayloadError>)
    ensures
        match r {
            Ok(f) => spec_decode(payload@) == Ok::<Seq<u8>, MalformedPayloadError>(f@) && f.wf(),
            Err(e) => spec_decode(payload@) == Err::<Seq<u8>, MalformedPayloadError>(e),
        },
{
    match base64_decode(payload) {
        Some(bytes) => match Frame::from_bytes(bytes) {
            Ok(f) => Ok(f),
            Err(UndersizedFrameError) => Err(MalformedPayloadError::UndersizedFrame),
        },
        None => Err(MalformedPayloadError::NotTransportText),
    }
}

} // verus!
