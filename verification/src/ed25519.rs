//! Ed25519 signature verification, done by the `ed25519-dalek` crate.

use ed25519_dalek::Verifier;
use vstd::prelude::*;

verus! {

/// The 32 bytes `key` are the encoding of a point on the curve, so that
/// they can serve as a public key.
pub uninterp spec fn ed25519_key_accepted(key: Seq<u8>) -> bool;

/// The verifier's own account of why `key` is no public key.
pub uninterp spec fn ed25519_key_refusal(key: Seq<u8>) -> Seq<char>;

/// The 64 bytes `signature` satisfy the verification equation for
/// `message` under the public key `key`.
pub uninterp spec fn ed25519_signature_accepted(
    key: Seq<u8>,
    message: Seq<u8>,
    signature: Seq<u8>,
) -> bool;

/// The verifier's own account of why `signature` is refused for `message`
/// under `key`.
pub uninterp spec fn ed25519_signature_refusal(
    key: Seq<u8>,
    message: Seq<u8>,
    signature: Seq<u8>,
) -> Seq<char>;

/// `VerifyingKey::from_bytes`, and `to_string` of the `ed25519::Error`
/// that it gives on failure.
///
/// Trusted: the call succeeds exactly on the keys that
/// `ed25519_key_accepted` names; on failure the error's text is the one
/// that `ed25519_key_refusal` names. Both depend on the bytes alone. The
/// key itself is dropped: `verify_detached` builds it again.
#[verifier::external_body]
pub(crate) fn parse_key(key: &[u8; 32]) -> (r: Result<(), String>)
    ensures
        r is Ok <==> ed25519_key_accepted(key@),
        r matches Err(reason) ==> reason@ == ed25519_key_refusal(key@),
{
    match ed25519_dalek::VerifyingKey::from_bytes(key) {
        Ok(_) => Ok(()),
        Err(e) => Err(e.to_string()),
    }
}

/// `Verifier::verify` of the `VerifyingKey` that `VerifyingKey::from_bytes`
/// builds from `key`, on `message` and the `Signature` that
/// `Signature::from_bytes` builds from `signature`; on failure,
/// `to_string` of the `ed25519::Error`.
///
/// Trusted: the call succeeds exactly where the key is accepted and the
/// signature satisfies the verification equation, as the two names say;
/// on failure the error's text is the one that `ed25519_signature_refusal`
/// names. All of it depends on the three byte strings alone.
#[verifier::external_body]
pub(crate) fn verify_detached(
    key: &[u8; 32],
    message: &[u8],
    signature: &[u8; 64],
) -> (r: Result<(), String>)
    ensures
        r is Ok <==> (ed25519_key_accepted(key@)
            && ed25519_signature_accepted(key@, message@, signature@)),
        r matches Err(reason) ==> reason@ == ed25519_signature_refusal(
            key@,
            message@,
            signature@,
        ),
{
    let verified = match ed25519_dalek::VerifyingKey::from_bytes(key) {
        Ok(k) => k.verify(message, &ed25519_dalek::Signature::from_bytes(signature)),
        Err(e) => Err(e),
    };
    match verified {
        Ok(()) => Ok(()),
        Err(e) => Err(e.to_string()),
    }
}

} // verus!
