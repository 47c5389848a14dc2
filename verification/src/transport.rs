//! The transport codec: standard Base64 with canonical padding.
//!
//! The encoding and decoding themselves are done by the `base64` crate;
//! what it computes is named here and not defined.

use vstd::prelude::*;
use crate::error::PipelineError;

verus! {

#[verifier::external_type_specification]
#[verifier::external_body]
pub struct ExDecodeError(base64::DecodeError);

/// The text that the `base64` crate's `STANDARD` engine gives for `data`.
pub uninterp spec fn standard_encoding(data: Seq<u8>) -> Seq<char>;

/// The bytes that the `base64` crate's `STANDARD` engine reads from `text`,
/// or `None` where it rejects `text`.
pub uninterp spec fn standard_decoding(text: Seq<char>) -> Option<Seq<u8>>;

/// Length of the padded Base64 text for `n` bytes: four characters for
/// every group of three bytes, the last group counted in full.
pub open spec fn encoded_len(n: nat) -> nat {
    4 * ((n + 2) / 3)
}

/// Whether `c` is one of the 64 characters that stand for six bits: a
/// letter, a digit, `+` or `/`.
pub open spec fn in_alphabet(c: char) -> bool {
    ||| 'A' <= c <= 'Z'
    ||| 'a' <= c <= 'z'
    ||| '0' <= c <= '9'
    ||| c == '+'
    ||| c == '/'
}

/// The shape of a payload: groups of four characters of the alphabet, with
/// `=` in none but the last two places.
pub open spec fn well_formed_payload(text: Seq<char>) -> bool {
    &&& text.len() % 4 == 0
    &&& forall|i: int|
        0 <= i < text.len() ==> in_alphabet(#[trigger] text[i]) || (text[i] == '=' && i
            >= text.len() - 2)
}

/// `base64::Engine::encode` on `base64::engine::general_purpose::STANDARD`.
///
/// Trusted: the returned text is the engine's encoding of `data`, and the
/// same engine decodes that text back to `data`. The text is padded to
/// whole groups of four characters and holds nothing but the alphabet and
/// the padding. The call panics when the length of the text overflows
/// `usize`, which `requires` rules out.
#[verifier::external_body]
fn standard_encode(data: &[u8]) -> (text: String)
    requires
        encoded_len(data@.len()) <= usize::MAX,
    ensures
        text@ == standard_encoding(data@),
        standard_decoding(text@) == Some(data@),
        text@.len() == encoded_len(data@.len()),
        well_formed_payload(text@),
{
    base64::Engine::encode(&base64::engine::general_purpose::STANDARD, data)
}

/// `base64::Engine::decode` on `base64::engine::general_purpose::STANDARD`.
///
/// Trusted: the call succeeds exactly where the engine's decoding is
/// defined and then returns it. The engine refuses every character outside
/// the alphabet and demands canonical padding and zero trailing bits, so
/// the text it accepts has the shape of a payload and is the encoding of
/// the bytes it returns.
#[verifier::external_body]
fn standard_decode(text: &str) -> (result: Result<Vec<u8>, base64::DecodeError>)
    ensures
        match result {
            Ok(bytes) => {
                &&& standard_decoding(text@) == Some(bytes@)
                &&& standard_encoding(bytes@) == text@
                &&& well_formed_payload(text@)
            },
            Err(_) => standard_decoding(text@) is None,
        },
{
    base64::Engine::decode(&base64::engine::general_purpose::STANDARD, text)
}

/// The length of the Base64 text for `n` bytes, or `None` when that length
/// does not fit in `usize`.
pub fn checked_encoded_len(n: usize) -> (len: Option<usize>)
    ensures
        match len {
            Some(l) => l == encoded_len(n as nat),
            None => encoded_len(n as nat) > usize::MAX,
        },
{
    let partial: usize = if n % 3 == 0 { 0 } else { 1 };
    let groups: usize = n / 3 + partial;
    if groups > usize::MAX / 4 {
        None
    } else {
        Some(groups * 4)
    }
}

/// Encodes bytes as Base64 text.
///
/// Decoding the text gives `data` back.
pub fn encode(data: &[u8]) -> (text: String)
    requires
        encoded_len(data@.len()) <= usize::MAX,
    ensures
        text@ == standard_encoding(data@),
        standard_decoding(text@) == Some(data@),
        text@.len() == encoded_len(data@.len()),
        well_formed_payload(text@),
{
    standard_encode(data)
}

/// Decodes Base64 text, all of it or nothing.
///
/// Text that has not the shape of a payload is refused. Encoding the bytes
/// that come out gives `text` back.
pub fn decode(text: &str) -> (result: Result<Vec<u8>, PipelineError>)
    ensures
        match standard_decoding(text@) {
            Some(bytes) => {
                &&& result matches Ok(out) && out@ == bytes
                &&& standard_encoding(bytes) == text@
                &&& well_formed_payload(text@)
            },
            None => result == Err::<Vec<u8>, PipelineError>(PipelineError::TransportDecode),
        },
        !well_formed_payload(text@) ==> result == Err::<Vec<u8>, PipelineError>(
            PipelineError::TransportDecode,
        ),
{
    match standard_decode(text) {
        Ok(bytes) => Ok(bytes),
        Err(_) => Err(PipelineError::TransportDecode),
    }
}

} // verus!
