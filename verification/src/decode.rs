//! Decoding of resolved fetch payloads.
//!
//! The fetch boundary hands its opaque resolved value back in JSON text
//! form. The two decoders here interpret that text: as plain text (a JSON
//! string), or as a structured value of a caller-chosen shape. Both are
//! thin trusted fronts over `serde_json`; the verified mapping of a decode
//! attempt into the client's error taxonomy is [`decoded_into_response`].

use vstd::prelude::*;

use crate::request::FetchError;

verus! {

/// What the text decoder yields on a given payload: the decoded text, or
/// the decoder's message. The outcome is a function of the payload
/// characters alone.
pub uninterp spec fn text_decoded(payload: Seq<char>) -> Result<Seq<char>, Seq<char>>;

/// The view of a decode attempt: the decoded text, or the decoder's
/// message, each as its character sequence.
pub open spec fn attempt_view(r: Result<String, String>) -> Result<Seq<char>, Seq<char>> {
    match r {
        Ok(t) => Ok(t@),
        Err(m) => Err(m@),
    }
}

/// Relies on `serde_json::from_str::<String>`: parses the payload as a JSON
/// string, deterministically in the payload text; on failure the error
/// carries the parser's message.
#[verifier::external_body]
pub(crate) fn decode_text_payload(payload: &str) -> (r: Result<String, String>)
    ensures
        attempt_view(r) == text_decoded(payload@),
{
    serde_json::from_str::<String>(payload).map_err(|e| e.to_string())
}

/// Relies on `serde_json::from_str::<T>`: parses the payload as JSON and
/// maps it structurally into `T`. Nothing is assumed of the outcome; the
/// caller handles both cases through [`decoded_into_response`].
#[verifier::external_body]
pub(crate) fn decode_json_payload<T: serde::de::DeserializeOwned>(payload: &str) -> Result<
    T,
    String,
> {
    serde_json::from_str::<T>(payload).map_err(|e| e.to_string())
}

/// Surfaces a decode attempt to the caller: a successfully decoded value is
/// returned as such, and a decoder failure becomes a deserialization error
/// carrying the decoder's message — never a default or empty value.
pub fn decoded_into_response<T>(d: Result<T, String>) -> (r: Result<T, FetchError>)
    ensures
        d matches Ok(v) ==> r == Ok::<T, FetchError>(v),
        d matches Err(m) ==> r == Err::<T, FetchError>(FetchError::Deserialization(m)),
{
    match d {
        Ok(v) => Ok(v),
        Err(m) => Err(FetchError::Deserialization(m)),
    }
}

} // verus!
