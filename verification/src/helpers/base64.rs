//! Standard base64 text of a byte buffer.

use std::io::Write;
use vstd::prelude::*;

verus! {

/// The padded base64 text of `bytes` in the standard alphabet, as the
/// `base64` crate's general-purpose engine writes it.
pub uninterp spec fn base64_standard(bytes: Seq<u8>) -> Seq<char>;

/// A character of the standard base64 alphabet, or the padding sign.
pub open spec fn is_base64_char(c: char) -> bool {
    ('A' <= c && c <= 'Z') || ('a' <= c && c <= 'z') || ('0' <= c && c <= '9') || c == '+' || c
        == '/' || c == '='
}

/// Whether `text` has the shape of padded base64: groups of four characters
/// of the alphabet.
pub open spec fn is_base64_text(text: Seq<char>) -> bool {
    &&& text.len() % 4 == 0
    &&& forall|i: int| 0 <= i < text.len() ==> is_base64_char(#[trigger] text[i])
}

/// Runs the `base64` crate's `EncoderStringWriter` over `buffer` with the
/// standard alphabet and the default configuration, which pads.
///
/// Trusted: the text is `base64_standard` of the bytes, it has four
/// characters for every three bytes begun, and each is of the alphabet or the
/// padding sign. The writer appends to a `String`, which accepts every write,
/// so the call does not fail.
#[verifier::external_body]
fn standard_encode(buffer: &[u8]) -> (r: Result<String, std::io::Error>)
    ensures
        r is Ok,
        r.unwrap()@ == base64_standard(buffer@),
        r.unwrap()@.len() == 4 * ((buffer@.len() + 2) / 3),
        is_base64_text(r.unwrap()@),
{
    let engine = base64::engine::GeneralPurpose::new(
        &base64::alphabet::STANDARD,
        base64::engine::GeneralPurposeConfig::default(),
    );
    let mut encoder = base64::write::EncoderStringWriter::new(&engine);
    encoder.write_all(buffer)?;
    Ok(encoder.into_inner())
}

/// Encodes `buffer` as padded standard base64.
pub fn encode_base64(buffer: &[u8]) -> (r: Result<String, std::io::Error>)
    ensures
        r is Ok,
        r.unwrap()@ == base64_standard(buffer@),
        r.unwrap()@.len() == 4 * ((buffer@.len() + 2) / 3),
        is_base64_text(r.unwrap()@),
{
    standard_encode(buffer)
}

} // verus!
