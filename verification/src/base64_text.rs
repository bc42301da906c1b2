//! Decoding of base64 text, done by the `base64` crate.

use base64::Engine;
use vstd::prelude::*;

verus! {

/// The bytes that `text` stands for in base64 with the standard alphabet
/// and canonical padding, or `None` where `text` is no such encoding.
pub uninterp spec fn base64_decoded(text: Seq<char>) -> Option<Seq<u8>>;

/// The decoder's own account of why it refuses `text`.
pub uninterp spec fn base64_refusal(text: Seq<char>) -> Seq<char>;

/// `Engine::decode` of `base64::engine::general_purpose::STANDARD`, and
/// `to_string` of the `base64::DecodeError` that it gives on failure.
///
/// Trusted: the call succeeds exactly on the texts that `base64_decoded`
/// accepts, and then returns the bytes that it names; on failure the
/// error's text is the one that `base64_refusal` names. Both depend on the
/// text alone. Nothing is claimed of the wording.
#[verifier::external_body]
pub(crate) fn decode_standard(text: &str) -> (r: Result<Vec<u8>, String>)
    ensures
        r is Ok <==> base64_decoded(text@) is Some,
        r matches Ok(bytes) ==> base64_decoded(text@) == Some(bytes@),
        r matches Err(reason) ==> reason@ == base64_refusal(text@),
{
    match base64::engine::general_purpose::STANDARD.decode(text) {
        Ok(bytes) => Ok(bytes),
        Err(e) => Err(e.to_string()),
    }
}

} // verus!
