//! Base64 with the standard alphabet and padding.
use base64::Engine;
use vstd::prelude::*;

verus! {

/// What the standard engine of `base64` encodes the bytes to.
pub uninterp spec fn base64_text(bytes: Seq<u8>) -> Seq<char>;

/// What the standard engine of `base64` decodes the text to: bytes, or the text of the error.
pub uninterp spec fn base64_decoded(text: Seq<char>) -> Result<Seq<u8>, Seq<char>>;

/// `base64::Engine::encode` of the standard engine: a text that the bytes alone decide, and that
/// the same engine decodes to the bytes again. The call panics where the length of the text does
/// not fit a `usize`; a slice, which has `isize::MAX` bytes at most, does not get there.
#[verifier::external_body]
pub(crate) fn encode(bytes: &[u8]) -> (text: String)
    ensures
        text@ == base64_text(bytes@),
        (base64_decoded(text@) == Ok::<Seq<u8>, Seq<char>>(bytes@)),
{
    base64::engine::general_purpose::STANDARD.encode(bytes)
}

/// `base64::Engine::decode` of the standard engine: the bytes that the text encodes, or the text of
/// the error, which the encoded text alone decides.
#[verifier::external_body]
pub(crate) fn decode(encoded: &str) -> (result: Result<Vec<u8>, String>)
    ensures
        match result {
            Ok(bytes) => base64_decoded(encoded@) == Ok::<Seq<u8>, Seq<char>>(bytes@),
            Err(error) => base64_decoded(encoded@) == Err::<Seq<u8>, Seq<char>>(error@),
        },
{
    base64::engine::general_purpose::STANDARD.decode(encoded).map_err(|error| error.to_string())
}

} // verus!
