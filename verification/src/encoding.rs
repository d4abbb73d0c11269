//! Text encodings that identity documents are made of: base64 and JSON
//! string literals. The encoders themselves are outside this crate; what
//! they return is named here, and the framing around it is verified.

use vstd::prelude::*;
use vstd::string::*;

verus! {

/// The URL-safe base64 text of `bytes`, without padding.
pub uninterp spec fn base64url_text(bytes: Seq<u8>) -> Seq<char>;

/// The standard base64 text of `bytes`, with padding.
pub uninterp spec fn base64_text(bytes: Seq<u8>) -> Seq<char>;

/// The JSON string literal for `text`, quotes included, or `None` where
/// the serializer reports an error.
pub uninterp spec fn json_string_text(text: Seq<char>) -> Option<Seq<char>>;

/// Why a JSON document could not be laid out anew.
#[derive(Clone, Copy, Debug, PartialEq, Eq, Structural)]
pub enum JsonFailure {
    /// The bytes are no JSON document.
    Parse,
    /// The document could not be written out again.
    Format,
}

/// The indented layout of the JSON document in `bytes`.
pub uninterp spec fn json_pretty_text(bytes: Seq<u8>) -> Result<Seq<char>, JsonFailure>;

/// Whether a buffer of `len` bytes is short enough for its base64 text to
/// have a length that fits the machine: four characters for each three
/// bytes begun.
pub open spec fn base64_fits(len: nat) -> bool {
    len / 3 * 4 + 4 <= usize::MAX
}

/// Encodes with `base64::engine::general_purpose::URL_SAFE_NO_PAD`.
///
/// The result is `base64url_text` of the bytes. Its characters come from
/// the URL-safe alphabet (letters, digits, `-` and `_`), so none is a dot.
/// The encoder panics where the length of the text overflows; `requires`
/// keeps such buffers out.
#[verifier::external_body]
pub(crate) fn base64url_encode(bytes: &[u8]) -> (text: String)
    requires
        base64_fits(bytes@.len()),
    ensures
        text@ == base64url_text(bytes@),
        !text@.contains('.'),
{
    base64::Engine::encode(&base64::engine::general_purpose::URL_SAFE_NO_PAD, bytes)
}

/// Encodes with `base64::engine::general_purpose::STANDARD`. The result is
/// `base64_text` of the bytes. The encoder panics where the length of the
/// text overflows; `requires` keeps such buffers out.
#[verifier::external_body]
pub(crate) fn base64_encode(bytes: &[u8]) -> (text: String)
    requires
        base64_fits(bytes@.len()),
    ensures
        text@ == base64_text(bytes@),
{
    base64::Engine::encode(&base64::engine::general_purpose::STANDARD, bytes)
}

/// Writes a text as a JSON string literal with `serde_json::to_string`.
/// The result is `json_string_text` of the text.
#[verifier::external_body]
pub(crate) fn json_string(text: &str) -> (literal: Option<String>)
    ensures
        match json_string_text(text@) {
            Some(t) => literal matches Some(s) && s@ == t,
            None => literal is None,
        },
{
    serde_json::to_string(text).ok()
}

/// Reads a JSON document with `serde_json::from_slice` and writes it out
/// with `serde_json::to_string_pretty`. The result is `json_pretty_text`
/// of the bytes, with the failing step named where one fails.
#[verifier::external_body]
pub(crate) fn json_pretty(bytes: &[u8]) -> (text: Result<String, JsonFailure>)
    ensures
        match json_pretty_text(bytes@) {
            Ok(t) => text matches Ok(s) && s@ == t,
            Err(e) => text == Err::<String, JsonFailure>(e),
        },
{
    let value: serde_json::Value = serde_json::from_slice(bytes).map_err(|_| JsonFailure::Parse)?;
    serde_json::to_string_pretty(&value).map_err(|_| JsonFailure::Format)
}

/// Whether `bytes` is short enough to be base64-encoded.
pub fn fits_base64(bytes: &[u8]) -> (fits: bool)
    ensures
        fits == base64_fits(bytes@.len()),
{
    bytes.len() / 3 <= (usize::MAX - 4) / 4
}

/// The base64url form of a JSON text: the encoding of its UTF-8 bytes.
pub open spec fn json_segment(json: Seq<char>) -> Seq<char> {
    base64url_text(vstd::utf8::encode_utf8(json))
}

/// Encodes a JSON text as one segment of a compact token. `None` where
/// the text is too long to encode.
pub fn encode_json_segment(json: &str) -> (segment: Option<String>)
    ensures
        match segment {
            Some(s) => base64_fits(vstd::utf8::encode_utf8(json@).len()) && s@ == json_segment(
                json@,
            ) && !s@.contains('.'),
            None => !base64_fits(vstd::utf8::encode_utf8(json@).len()),
        },
{
    let raw = json.as_bytes();
    if !fits_base64(raw) {
        return None;
    }
    Some(base64url_encode(raw))
}

} // verus!
