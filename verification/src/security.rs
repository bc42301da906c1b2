//! Signature verification and version policy for update artifacts.

use crate::base64_text::{base64_decoded, base64_refusal, decode_standard};
use crate::ed25519::{
    ed25519_key_accepted, ed25519_key_refusal, ed25519_signature_accepted,
    ed25519_signature_refusal, parse_key, verify_detached,
};
use crate::environment::Environment;
use crate::semantic_version::{parse_prerelease, semver_prerelease};
use crate::text::{blank, join, contains, decimal, decimal_text, has_substring, is_blank};
use vstd::prelude::*;
use vstd::string::*;

verus! {

/// The length of a public key, in bytes.
pub const PUBLIC_KEY_LENGTH: usize = 32;

/// The length of a signature, in bytes.
pub const SIGNATURE_LENGTH: usize = 64;

/// Why a signature check did not succeed, without the detail.
#[derive(Debug, Clone, Copy, PartialEq, Eq, Structural)]
pub enum SignatureErrorKind {
    InvalidPublicKey,
    InvalidSignature,
    InvalidData,
    VerificationFailed,
}

/// Why a signature check did not succeed. Each variant carries a detail
/// for the reader.
#[derive(Debug, Clone)]
pub enum SignatureError {
    InvalidPublicKey(String),
    InvalidSignature(String),
    InvalidData(String),
    VerificationFailed(String),
}

impl SignatureErrorKind {
    /// What stands before the detail in the error's message.
    pub open spec fn heading(self) -> Seq<char> {
        match self {
            SignatureErrorKind::InvalidPublicKey => "Invalid public key format: "@,
            SignatureErrorKind::InvalidSignature => "Invalid signature format: "@,
            SignatureErrorKind::InvalidData => "Invalid data to verify: "@,
            SignatureErrorKind::VerificationFailed => "Signature verification failed: "@,
        }
    }
}

impl SignatureError {
    pub open spec fn kind(self) -> SignatureErrorKind {
        match self {
            SignatureError::InvalidPublicKey(_) => SignatureErrorKind::InvalidPublicKey,
            SignatureError::InvalidSignature(_) => SignatureErrorKind::InvalidSignature,
            SignatureError::InvalidData(_) => SignatureErrorKind::InvalidData,
            SignatureError::VerificationFailed(_) => SignatureErrorKind::VerificationFailed,
        }
    }

    pub open spec fn detail(self) -> Seq<char> {
        match self {
            SignatureError::InvalidPublicKey(d) => d@,
            SignatureError::InvalidSignature(d) => d@,
            SignatureError::InvalidData(d) => d@,
            SignatureError::VerificationFailed(d) => d@,
        }
    }

    /// The error's message: the heading of its kind, then the detail.
    pub open spec fn message(self) -> Seq<char> {
        self.kind().heading() + self.detail()
    }

    /// The error is of kind `kind` and carries exactly `detail`.
    pub open spec fn is(self, kind: SignatureErrorKind, detail: Seq<char>) -> bool {
        self.kind() == kind && self.detail() == detail
    }

    /// The error's message.
    pub fn to_string(&self) -> (s: String)
        ensures
            s@ == self.message(),
    {
        match self {
            SignatureError::InvalidPublicKey(d) => join("Invalid public key format: ", d.as_str()),
            SignatureError::InvalidSignature(d) => join("Invalid signature format: ", d.as_str()),
            SignatureError::InvalidData(d) => join("Invalid data to verify: ", d.as_str()),
            SignatureError::VerificationFailed(d) => join(
                "Signature verification failed: ",
                d.as_str(),
            ),
        }
    }
}

/// Why a version is not offered.
#[derive(Debug, Clone, Copy, PartialEq, Eq, Structural)]
pub enum VersionError {
    /// The text is not a semantic version.
    InvalidFormat,
    /// The version is well formed but belongs to another track.
    EnvironmentMismatch,
}

impl VersionError {
    pub open spec fn message(self) -> Seq<char> {
        match self {
            VersionError::InvalidFormat => "Invalid version format"@,
            VersionError::EnvironmentMismatch => "Version does not match environment"@,
        }
    }

    /// The error's message.
    pub fn to_string(&self) -> (s: String)
        ensures
            s@ == self.message(),
    {
        match self {
            VersionError::InvalidFormat => String::from_str("Invalid version format"),
            VersionError::EnvironmentMismatch => String::from_str(
                "Version does not match environment",
            ),
        }
    }
}

/// Why an update was not accepted: its version or its signature.
#[derive(Debug, Clone)]
pub enum ValidationError {
    Version(VersionError),
    Signature(SignatureError),
}

impl ValidationError {
    pub open spec fn message(self) -> Seq<char> {
        match self {
            ValidationError::Version(e) => e.message(),
            ValidationError::Signature(e) => e.message(),
        }
    }

    /// The message of the error inside.
    pub fn to_string(&self) -> (s: String)
        ensures
            s@ == self.message(),
    {
        match self {
            ValidationError::Version(e) => e.to_string(),
            ValidationError::Signature(e) => e.to_string(),
        }
    }
}

/// The step at which a signature check ends.
pub enum SignatureCheck {
    /// There is nothing to verify.
    EmptyData,
    /// The signature text is blank.
    EmptySignature,
    /// The public key text is blank.
    EmptyPublicKey,
    /// The public key text is not base64, for the reason that the decoder
    /// gives.
    PublicKeyEncoding(Seq<char>),
    /// The signature text is not base64, for the reason that the decoder
    /// gives.
    SignatureEncoding(Seq<char>),
    /// The public key has this many bytes, not 32.
    PublicKeyLength(nat),
    /// The 32 bytes are not a public key, for the reason that the
    /// verifier gives.
    PublicKeyRejected(Seq<char>),
    /// The signature has this many bytes, not 64.
    SignatureLength(nat),
    /// The signature does not fit the data and the key, for the reason
    /// that the verifier gives.
    Rejected(Seq<char>),
    /// The signature fits the data and the key.
    Accepted,
}

/// The label is one that `environment` offers: none on Production, one
/// that holds `staging` on Staging, and on Development one that holds
/// `dev` or `staging` or is there at all.
pub open spec fn label_allowed(label: Seq<char>, environment: Environment) -> bool {
    match environment {
        Environment::Production => label.len() == 0,
        Environment::Staging => has_substring(label, "staging"@),
        Environment::Development => has_substring(label, "dev"@) || has_substring(
            label,
            "staging"@,
        ) || label.len() > 0,
    }
}

/// What the version policy says of `version` on `environment`.
pub open spec fn version_verdict(version: Seq<char>, environment: Environment) -> Result<
    bool,
    VersionError,
> {
    match semver_prerelease(version) {
        None => Err(VersionError::InvalidFormat),
        Some(label) => if label_allowed(label, environment) {
            Ok(true)
        } else {
            Err(VersionError::EnvironmentMismatch)
        },
    }
}

/// Where the check of `signature` over `data` under `public_key` ends.
/// The steps are taken in this order, and the first that fails decides.
pub open spec fn signature_check(
    data: Seq<u8>,
    signature: Seq<char>,
    public_key: Seq<char>,
) -> SignatureCheck {
    if data.len() == 0 {
        SignatureCheck::EmptyData
    } else if is_blank(signature) {
        SignatureCheck::EmptySignature
    } else if is_blank(public_key) {
        SignatureCheck::EmptyPublicKey
    } else {
        match (base64_decoded(public_key), base64_decoded(signature)) {
            (None, _) => SignatureCheck::PublicKeyEncoding(base64_refusal(public_key)),
            (Some(_), None) => SignatureCheck::SignatureEncoding(base64_refusal(signature)),
            (Some(key), Some(sig)) => {
                if key.len() != 32 {
                    SignatureCheck::PublicKeyLength(key.len())
                } else if !ed25519_key_accepted(key) {
                    SignatureCheck::PublicKeyRejected(ed25519_key_refusal(key))
                } else if sig.len() != 64 {
                    SignatureCheck::SignatureLength(sig.len())
                } else if ed25519_signature_accepted(key, data, sig) {
                    SignatureCheck::Accepted
                } else {
                    SignatureCheck::Rejected(ed25519_signature_refusal(key, data, sig))
                }
            },
        }
    }
}

/// The check gets as far as the lengths of key and signature: there is
/// data, neither text is blank, and both are base64.
pub open spec fn reaches_lengths(
    data: Seq<u8>,
    signature: Seq<char>,
    public_key: Seq<char>,
) -> bool {
    &&& data.len() > 0
    &&& !is_blank(signature)
    &&& !is_blank(public_key)
    &&& base64_decoded(public_key) is Some
    &&& base64_decoded(signature) is Some
}

/// The number of bytes that `text` decodes to.
pub open spec fn decoded_length(text: Seq<char>) -> nat
    recommends
        base64_decoded(text) is Some,
{
    base64_decoded(text)->0.len()
}

/// The text `public_key` is the base64 of 32 bytes that are a public key.
pub open spec fn key_is_accepted(public_key: Seq<char>) -> bool {
    base64_decoded(public_key) matches Some(key) && key.len() == 32 && ed25519_key_accepted(key)
}

impl SignatureCheck {
    /// The kind and the detail of the error that a check which ends here
    /// returns; `None` where it ends in acceptance. Where the decoder or
    /// the verifier refuses, the detail ends in its own words.
    pub open spec fn refusal(self) -> Option<(SignatureErrorKind, Seq<char>)> {
        match self {
            SignatureCheck::Accepted => None,
            SignatureCheck::EmptyData => Some(
                (SignatureErrorKind::InvalidData, "Empty data provided"@),
            ),
            SignatureCheck::EmptySignature => Some(
                (SignatureErrorKind::InvalidSignature, "Empty signature provided"@),
            ),
            SignatureCheck::EmptyPublicKey => Some(
                (SignatureErrorKind::InvalidPublicKey, "Empty public key provided"@),
            ),
            SignatureCheck::PublicKeyEncoding(reason) => Some(
                (SignatureErrorKind::InvalidPublicKey, "Base64 decode error: "@ + reason),
            ),
            SignatureCheck::SignatureEncoding(reason) => Some(
                (SignatureErrorKind::InvalidSignature, "Base64 decode error: "@ + reason),
            ),
            SignatureCheck::PublicKeyLength(n) => Some(
                (
                    SignatureErrorKind::InvalidPublicKey,
                    "Expected 32 bytes, got "@ + decimal_text(n),
                ),
            ),
            SignatureCheck::PublicKeyRejected(reason) => Some(
                (SignatureErrorKind::InvalidPublicKey, "Key parsing error: "@ + reason),
            ),
            SignatureCheck::SignatureLength(n) => Some(
                (
                    SignatureErrorKind::InvalidSignature,
                    "Expected 64 bytes, got "@ + decimal_text(n),
                ),
            ),
            SignatureCheck::Rejected(reason) => Some(
                (SignatureErrorKind::VerificationFailed, "Verification error: "@ + reason),
            ),
        }
    }

    /// The message of the error that a check which ends here returns;
    /// empty where it ends in acceptance.
    pub open spec fn refusal_message(self) -> Seq<char> {
        match self.refusal() {
            Some((kind, detail)) => kind.heading() + detail,
            None => Seq::empty(),
        }
    }
}

/// `r` is what a check that ends at `check` returns: `Ok(true)` on
/// acceptance, and otherwise the error of the kind and with the detail
/// that belong to the step.
pub open spec fn reports(r: Result<bool, SignatureError>, check: SignatureCheck) -> bool {
    match check.refusal() {
        None => r matches Ok(accepted) && accepted,
        Some((kind, detail)) => r matches Err(e) && e.is(kind, detail),
    }
}

/// The bytes of a public key as an array, where there are 32 of them.
pub fn public_key_from_bytes(bytes: &[u8]) -> (r: Result<[u8; 32], SignatureError>)
    ensures
        match r {
            Ok(key) => bytes@.len() == 32 && key@ == bytes@,
            Err(e) => bytes@.len() != 32 && e.is(
                SignatureErrorKind::InvalidPublicKey,
                "Expected 32 bytes, got "@ + decimal_text(bytes@.len()),
            ),
        },
{
    if bytes.len() != PUBLIC_KEY_LENGTH {
        let detail = join("Expected 32 bytes, got ", decimal(bytes.len()).as_str());
        return Err(SignatureError::InvalidPublicKey(detail));
    }
    let mut key: [u8; 32] = [0u8; 32];
    let mut i: usize = 0;
    while i < 32
        invariant
            i <= 32,
            bytes@.len() == 32,
            forall|k: int| 0 <= k < i ==> key@[k] == bytes@[k],
        decreases 32 - i,
    {
        key[i] = bytes[i];
        i += 1;
    }
    assert(key@ =~= bytes@);
    Ok(key)
}

/// The bytes of a signature as an array, where there are 64 of them.
pub fn signature_from_bytes(bytes: &[u8]) -> (r: Result<[u8; 64], SignatureError>)
    ensures
        match r {
            Ok(signature) => bytes@.len() == 64 && signature@ == bytes@,
            Err(e) => bytes@.len() != 64 && e.is(
                SignatureErrorKind::InvalidSignature,
                "Expected 64 bytes, got "@ + decimal_text(bytes@.len()),
            ),
        },
{
    if bytes.len() != SIGNATURE_LENGTH {
        let detail = join("Expected 64 bytes, got ", decimal(bytes.len()).as_str());
        return Err(SignatureError::InvalidSignature(detail));
    }
    let mut signature: [u8; 64] = [0u8; 64];
    let mut i: usize = 0;
    while i < 64
        invariant
            i <= 64,
            bytes@.len() == 64,
            forall|k: int| 0 <= k < i ==> signature@[k] == bytes@[k],
        decreases 64 - i,
    {
        signature[i] = bytes[i];
        i += 1;
    }
    assert(signature@ =~= bytes@);
    Ok(signature)
}

/// Whether a version with the pre-release label `label` is offered on
/// `environment`.
pub fn prerelease_allowed(label: &str, environment: Environment) -> (allowed: bool)
    ensures
        allowed == label_allowed(label@, environment),
{
    match environment {
        Environment::Production => label.is_empty(),
        Environment::Staging => contains(label, "staging"),
        Environment::Development => contains(label, "dev") || contains(label, "staging")
            || !label.is_empty(),
    }
}

/// The checks that stand between an update artifact and its installation.
pub struct UpdateSecurity;

impl UpdateSecurity {
    /// Checks that `signature_base64` is the signature of `data` under
    /// `public_key_base64`. Returns `Ok(true)` only where the verifier
    /// accepts the signature; every other outcome is an error that names
    /// the step that failed. Never returns `Ok(false)`.
    pub fn verify_signature(
        data: &[u8],
        signature_base64: &str,
        public_key_base64: &str,
    ) -> (r: Result<bool, SignatureError>)
        ensures
            reports(r, signature_check(data@, signature_base64@, public_key_base64@)),
            r matches Ok(accepted) ==> accepted,
            reaches_lengths(data@, signature_base64@, public_key_base64@) && decoded_length(
                public_key_base64@,
            ) != 32 ==> reports(
                r,
                SignatureCheck::PublicKeyLength(decoded_length(public_key_base64@)),
            ),
            reaches_lengths(data@, signature_base64@, public_key_base64@) && key_is_accepted(
                public_key_base64@,
            ) && decoded_length(signature_base64@) != 64 ==> reports(
                r,
                SignatureCheck::SignatureLength(decoded_length(signature_base64@)),
            ),
    {
        if data.len() == 0 {
            return Err(SignatureError::InvalidData(String::from_str("Empty data provided")));
        }
        if blank(signature_base64) {
            return Err(
                SignatureError::InvalidSignature(String::from_str("Empty signature provided")),
            );
        }
        if blank(public_key_base64) {
            return Err(
                SignatureError::InvalidPublicKey(String::from_str("Empty public key provided")),
            );
        }
        let public_key_bytes = match decode_standard(public_key_base64) {
            Ok(bytes) => bytes,
            Err(reason) => {
                let detail = join("Base64 decode error: ", reason.as_str());
                return Err(SignatureError::InvalidPublicKey(detail));
            },
        };
        let signature_bytes = match decode_standard(signature_base64) {
            Ok(bytes) => bytes,
            Err(reason) => {
                let detail = join("Base64 decode error: ", reason.as_str());
                return Err(SignatureError::InvalidSignature(detail));
            },
        };
        let key = match public_key_from_bytes(public_key_bytes.as_slice()) {
            Ok(key) => key,
            Err(e) => {
                return Err(e);
            },
        };
        match parse_key(&key) {
            Ok(_) => {},
            Err(reason) => {
                let detail = join("Key parsing error: ", reason.as_str());
                return Err(SignatureError::InvalidPublicKey(detail));
            },
        }
        let signature = match signature_from_bytes(signature_bytes.as_slice()) {
            Ok(signature) => signature,
            Err(e) => {
                return Err(e);
            },
        };
        match verify_detached(&key, data, &signature) {
            Ok(_) => Ok(true),
            Err(reason) => {
                let detail = join("Verification error: ", reason.as_str());
                Err(SignatureError::VerificationFailed(detail))
            },
        }
    }

    /// Decides whether the version `version_str` is offered on
    /// `environment`. A text that is not a semantic version is
    /// `InvalidFormat` on every environment; a well-formed version of
    /// another track is `EnvironmentMismatch`. Never returns `Ok(false)`.
    pub fn validate_version_for_environment(
        version_str: &str,
        environment: Environment,
    ) -> (r: Result<bool, VersionError>)
        ensures
            r == version_verdict(version_str@, environment),
    {
        let label = match parse_prerelease(version_str) {
            Ok(label) => label,
            Err(_) => {
                return Err(VersionError::InvalidFormat);
            },
        };
        if prerelease_allowed(label.as_str(), environment) {
            Ok(true)
        } else {
            Err(VersionError::EnvironmentMismatch)
        }
    }

    /// Accepts an update only where its version is offered on
    /// `environment` and its signature verifies. The version is judged
    /// first; the signature is not looked at where the version fails.
    pub fn validate_update(
        version: &str,
        data: &[u8],
        signature: &str,
        public_key: &str,
        environment: Environment,
    ) -> (r: Result<bool, ValidationError>)
        ensures
            match version_verdict(version@, environment) {
                Err(refusal) => r matches Err(ValidationError::Version(e)) && e == refusal,
                Ok(_) => if signature_check(data@, signature@, public_key@) is Accepted {
                    r matches Ok(accepted) && accepted
                } else {
                    r matches Err(ValidationError::Signature(e)) && reports(
                        Err(e),
                        signature_check(data@, signature@, public_key@),
                    )
                },
            },
    {
        match Self::validate_version_for_environment(version, environment) {
            Ok(_) => {},
            Err(e) => {
                return Err(ValidationError::Version(e));
            },
        }
        match Self::verify_signature(data, signature, public_key) {
            Ok(_) => Ok(true),
            Err(e) => Err(ValidationError::Signature(e)),
        }
    }
}

/// `Ok(true)` is returned for an affirmative answer of the verifier and
/// for nothing else: whatever `r` reports of a check, it is `Ok` only
/// where the data is there, key and signature decode to 32 and 64 bytes,
/// the key is a public key and the signature fits the data under it.
pub proof fn lemma_acceptance_is_affirmative(
    data: Seq<u8>,
    signature: Seq<char>,
    public_key: Seq<char>,
    r: Result<bool, SignatureError>,
)
    requires
        reports(r, signature_check(data, signature, public_key)),
    ensures
        r is Ok <==> (signature_check(data, signature, public_key) is Accepted),
        r is Ok ==> {
            &&& data.len() > 0
            &&& key_is_accepted(public_key)
            &&& base64_decoded(signature) matches Some(sig) && sig.len() == 64
                && ed25519_signature_accepted(base64_decoded(public_key)->0, data, sig)
        },
{
}

/// Once key and signature are read, the verifier alone decides: where
/// there is data, the key is a public key and the signature has 64 bytes,
/// the result is `Ok(true)` where the verifier accepts the signature, and
/// a failed verification with the verifier's reason where it refuses. It
/// is never `Ok(false)`.
pub proof fn lemma_verdict_follows_the_verifier(
    data: Seq<u8>,
    signature: Seq<char>,
    public_key: Seq<char>,
    r: Result<bool, SignatureError>,
)
    requires
        data.len() > 0,
        !is_blank(signature),
        !is_blank(public_key),
        key_is_accepted(public_key),
        base64_decoded(signature) is Some,
        decoded_length(signature) == 64,
        reports(r, signature_check(data, signature, public_key)),
    ensures
        ({
            let key = base64_decoded(public_key)->0;
            let sig = base64_decoded(signature)->0;
            if ed25519_signature_accepted(key, data, sig) {
                r == Ok::<bool, SignatureError>(true)
            } else {
                r is Err && r->Err_0.is(
                    SignatureErrorKind::VerificationFailed,
                    "Verification error: "@ + ed25519_signature_refusal(key, data, sig),
                )
            }
        }),
{
}

/// Development offers exactly the versions that carry a pre-release
/// label, whatever the label says; a clean release is not among them.
pub proof fn lemma_development_takes_every_label(label: Seq<char>)
    ensures
        label_allowed(label, Environment::Development) <==> label.len() > 0,
{
    if label.len() == 0 {
        reveal_strlit("dev");
        reveal_strlit("staging");
        assert(!has_substring(label, "dev"@));
        assert(!has_substring(label, "staging"@));
    }
}

/// No version is offered both on Production and on another track, and
/// what Staging offers, Development offers too.
pub proof fn lemma_tracks_are_kept_apart(label: Seq<char>)
    ensures
        label_allowed(label, Environment::Production) ==> !label_allowed(
            label,
            Environment::Staging,
        ) && !label_allowed(label, Environment::Development),
        label_allowed(label, Environment::Staging) ==> label_allowed(
            label,
            Environment::Development,
        ),
{
    lemma_development_takes_every_label(label);
    if label.len() == 0 {
        reveal_strlit("staging");
        assert(!has_substring(label, "staging"@));
    }
}

/// A text that is not a semantic version is refused as malformed on every
/// environment, and no other text is.
pub proof fn lemma_malformed_everywhere(version: Seq<char>, environment: Environment)
    ensures
        version_verdict(version, environment) == Err::<bool, VersionError>(
            VersionError::InvalidFormat,
        ) <==> semver_prerelease(version) is None,
        version_verdict(version, environment) != Ok::<bool, VersionError>(false),
{
}

} // verus!
