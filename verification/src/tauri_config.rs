//! What is fixed when the application is built: whether the updater is
//! switched on, for which environment, and where it looks for updates.

use crate::text::same_text;
use vstd::prelude::*;

verus! {

/// The environment of a build that names none.
pub const DEFAULT_ENVIRONMENT: &'static str = "production";

/// The address of the release feed that `environment` reads.
pub open spec fn update_endpoint_text(environment: Seq<char>) -> Seq<char> {
    if environment == "development"@ {
        "https://github.com/Jun-T-git/prompalette/releases/download/latest-dev.json"@
    } else if environment == "staging"@ {
        "https://github.com/Jun-T-git/prompalette/releases/download/latest-staging.json"@
    } else {
        "https://github.com/Jun-T-git/prompalette/releases/latest/download/latest.json"@
    }
}

/// Whether the updater is switched on: only where the build's switch is
/// set, and set to `true`.
pub fn is_updater_active(switch: Option<&str>) -> (active: bool)
    ensures
        active == (switch matches Some(value) && value@ == "true"@),
{
    match switch {
        Some(value) => same_text(value, "true"),
        None => false,
    }
}

/// The environment that the build names, and Production where it names
/// none.
pub fn current_environment<'a>(setting: Option<&'a str>) -> (name: &'a str)
    ensures
        name@ == (match setting {
            Some(value) => value@,
            None => DEFAULT_ENVIRONMENT@,
        }),
{
    match setting {
        Some(value) => value,
        None => DEFAULT_ENVIRONMENT,
    }
}

/// The address of the release feed for the environment named
/// `environment`; every name but `development` and `staging` reads the
/// production feed.
pub fn get_update_endpoint(environment: &str) -> (url: &'static str)
    ensures
        url@ == update_endpoint_text(environment@),
{
    if same_text(environment, "development") {
        "https://github.com/Jun-T-git/prompalette/releases/download/latest-dev.json"
    } else if same_text(environment, "staging") {
        "https://github.com/Jun-T-git/prompalette/releases/download/latest-staging.json"
    } else {
        "https://github.com/Jun-T-git/prompalette/releases/latest/download/latest.json"
    }
}

} // verus!
