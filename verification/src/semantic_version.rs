//! Parsing of semantic versions, done by the `semver` crate.

use std::str::FromStr;
use vstd::prelude::*;

verus! {

/// `semver::Error`. Only that there is one is looked at.
#[verifier::external_type_specification]
#[verifier::external_body]
pub struct ExSemverError(semver::Error);

/// The pre-release label of the semantic version that `text` spells:
/// what stands between the hyphen after MAJOR.MINOR.PATCH and the build
/// metadata, empty where the version has no such part. `None` where `text`
/// is not a semantic version.
pub uninterp spec fn semver_prerelease(text: Seq<char>) -> Option<Seq<char>>;

/// `Version::from_str`, and `Prerelease::as_str` on the `pre` field of the
/// version it returns.
///
/// Trusted: the call succeeds exactly on the texts that `semver_prerelease`
/// accepts, and then returns the label that it names. The same text always
/// parses alike.
#[verifier::external_body]
pub(crate) fn parse_prerelease(text: &str) -> (r: Result<String, semver::Error>)
    ensures
        match r {
            Ok(label) => semver_prerelease(text@) == Some(label@),
            Err(_) => semver_prerelease(text@) is None,
        },
{
    match semver::Version::from_str(text) {
        Ok(version) => Ok(version.pre.as_str().to_owned()),
        Err(e) => Err(e),
    }
}

} // verus!
