//! The addresses at which each environment looks for updates.

use crate::environment::Environment;
use vstd::prelude::*;
use vstd::string::*;

verus! {

/// Where Production looks for updates unless told otherwise.
pub const DEFAULT_PRODUCTION_URL: &'static str =
    "https://api.github.com/repos/Jun-T-git/prompalette/releases/latest";

/// Where Staging and Development look for updates unless told otherwise.
pub const DEFAULT_PRERELEASE_URL: &'static str =
    "https://api.github.com/repos/Jun-T-git/prompalette/releases";

/// The update address of each environment.
#[derive(Debug, Clone)]
pub struct UpdateUrls {
    pub production: String,
    pub staging: String,
    pub development: String,
}

/// `given` where there is one, `fallback` otherwise.
pub open spec fn text_or(given: Option<String>, fallback: Seq<char>) -> Seq<char> {
    match given {
        Some(text) => text@,
        None => fallback,
    }
}

fn or_text(given: Option<String>, fallback: &str) -> (s: String)
    ensures
        s@ == text_or(given, fallback@),
{
    match given {
        Some(text) => text,
        None => String::from_str(fallback),
    }
}

impl Default for UpdateUrls {
    /// The default addresses, without any override.
    fn default() -> (urls: UpdateUrls)
        ensures
            urls.production@ == DEFAULT_PRODUCTION_URL@,
            urls.staging@ == DEFAULT_PRERELEASE_URL@,
            urls.development@ == DEFAULT_PRERELEASE_URL@,
    {
        UpdateUrls::with_overrides(None, None, None)
    }
}

impl UpdateUrls {
    /// The address for `env`.
    pub open spec fn url_text(self, env: Environment) -> Seq<char> {
        match env {
            Environment::Production => self.production@,
            Environment::Staging => self.staging@,
            Environment::Development => self.development@,
        }
    }

    /// The default addresses, each replaced by its override where one is
    /// given.
    pub fn with_overrides(
        production: Option<String>,
        staging: Option<String>,
        development: Option<String>,
    ) -> (urls: UpdateUrls)
        ensures
            urls.production@ == text_or(production, DEFAULT_PRODUCTION_URL@),
            urls.staging@ == text_or(staging, DEFAULT_PRERELEASE_URL@),
            urls.development@ == text_or(development, DEFAULT_PRERELEASE_URL@),
    {
        UpdateUrls {
            production: or_text(production, DEFAULT_PRODUCTION_URL),
            staging: or_text(staging, DEFAULT_PRERELEASE_URL),
            development: or_text(development, DEFAULT_PRERELEASE_URL),
        }
    }

    /// The address for `env`.
    pub fn get_url_for_environment(&self, env: &Environment) -> (url: &str)
        ensures
            url@ == self.url_text(*env),
    {
        match env {
            Environment::Production => self.production.as_str(),
            Environment::Staging => self.staging.as_str(),
            Environment::Development => self.development.as_str(),
        }
    }

    /// These addresses, each replaced by its override where one is given:
    /// an override from the process environment wins over a configured
    /// address, and that over the default.
    pub fn merge_with_env(
        self,
        production: Option<String>,
        staging: Option<String>,
        development: Option<String>,
    ) -> (urls: UpdateUrls)
        ensures
            urls.production@ == text_or(production, self.production@),
            urls.staging@ == text_or(staging, self.staging@),
            urls.development@ == text_or(development, self.development@),
    {
        let UpdateUrls { production: p, staging: s, development: d } = self;
        UpdateUrls {
            production: match production {
                Some(url) => url,
                None => p,
            },
            staging: match staging {
                Some(url) => url,
                None => s,
            },
            development: match development {
                Some(url) => url,
                None => d,
            },
        }
    }
}

} // verus!
