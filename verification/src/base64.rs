//! Decoding of the URL-safe, unpadded base64 that the headers carry.

use base64::Engine;
use vstd::prelude::*;

verus! {

/// What decoding `input` as URL-safe base64 without padding gives: the
/// decoded bytes, or the decoder's description of why `input` is no such
/// text.
pub uninterp spec fn base64url_decoding(input: Seq<u8>) -> Result<Seq<u8>, Seq<char>>;

/// The outcome of a decoding as plain sequences.
pub open spec fn decoding_view(r: Result<Vec<u8>, String>) -> Result<Seq<u8>, Seq<char>> {
    match r {
        Ok(bytes) => Ok(bytes@),
        Err(reason) => Err(reason@),
    }
}

/// Decodes URL-safe base64 without padding.
///
/// Trusted: calls `decode` of the `base64` crate's `URL_SAFE_NO_PAD` engine
/// and renders its error as text. The contract claims only that the result
/// is a function of the input, which it names [`base64url_decoding`].
#[verifier::external_body]
pub(crate) fn base64_decode(input: &[u8]) -> (r: Result<Vec<u8>, String>)
    ensures
        decoding_view(r) == base64url_decoding(input@),
{
    base64::engine::general_purpose::URL_SAFE_NO_PAD.decode(input).map_err(|e| e.to_string())
}

} // verus!
