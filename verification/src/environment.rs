//! The deployment track of the running application and the constants that
//! follow from it.

use crate::text::same_text;
use vstd::prelude::*;
use vstd::string::*;

verus! {

/// The deployment track.
#[derive(Debug, Clone, Copy, PartialEq, Eq, Structural)]
pub enum Environment {
    Development,
    Staging,
    Production,
}

/// The family of operating system, as far as it decides where user data lives.
#[derive(Debug, Clone, Copy, PartialEq, Eq, Structural)]
pub enum Platform {
    MacOs,
    Windows,
    Other,
}

impl Platform {
    /// The name of the process variable that holds the base directory.
    pub open spec fn base_variable_text(self) -> Seq<char> {
        match self {
            Platform::MacOs => "HOME"@,
            Platform::Windows => "APPDATA"@,
            Platform::Other => "HOME"@,
        }
    }

    /// What is reported when the base directory is not known.
    pub open spec fn missing_base_text(self) -> Seq<char> {
        match self {
            Platform::MacOs => "Cannot find HOME directory on macOS"@,
            Platform::Windows => "Cannot find APPDATA directory on Windows"@,
            Platform::Other => "Cannot find HOME directory on Linux"@,
        }
    }

    /// The segments between the base directory and the application's own
    /// directory.
    pub open spec fn support_segments(self) -> Seq<Seq<char>> {
        match self {
            Platform::MacOs => seq!["Library/Application Support"@],
            Platform::Windows => seq![],
            Platform::Other => seq![".config"@],
        }
    }

    /// The name of the process variable that holds the base directory.
    pub fn base_variable(&self) -> (s: &'static str)
        ensures
            s@ == self.base_variable_text(),
    {
        match self {
            Platform::MacOs => "HOME",
            Platform::Windows => "APPDATA",
            Platform::Other => "HOME",
        }
    }
}

impl Environment {
    /// The track that a setting selects. An absent or unknown setting
    /// selects Development in a debug build and Production otherwise.
    pub open spec fn resolved(setting: Option<Seq<char>>, debug_build: bool) -> Environment {
        if setting == Some("development"@) {
            Environment::Development
        } else if setting == Some("staging"@) {
            Environment::Staging
        } else if setting == Some("production"@) {
            Environment::Production
        } else if debug_build {
            Environment::Development
        } else {
            Environment::Production
        }
    }

    pub open spec fn app_identifier_text(self) -> Seq<char> {
        match self {
            Environment::Development => "com.prompalette.app.dev"@,
            Environment::Staging => "com.prompalette.app.staging"@,
            Environment::Production => "com.prompalette.app"@,
        }
    }

    pub open spec fn app_name_text(self) -> Seq<char> {
        match self {
            Environment::Development => "PromPalette Dev"@,
            Environment::Staging => "PromPalette Staging"@,
            Environment::Production => "PromPalette"@,
        }
    }

    pub open spec fn data_dir_name_text(self) -> Seq<char> {
        match self {
            Environment::Development => "PromPalette-Dev"@,
            Environment::Staging => "PromPalette-Staging"@,
            Environment::Production => "PromPalette"@,
        }
    }

    pub open spec fn database_filename_text(self) -> Seq<char> {
        match self {
            Environment::Development => "prompalette-dev.db"@,
            Environment::Staging => "prompalette-staging.db"@,
            Environment::Production => "prompalette.db"@,
        }
    }

    pub open spec fn window_title_text(self) -> Seq<char> {
        match self {
            Environment::Development => "PromPalette [DEV]"@,
            Environment::Staging => "PromPalette [STAGING]"@,
            Environment::Production => "PromPalette"@,
        }
    }

    pub open spec fn icon_suffix_text(self) -> Seq<char> {
        match self {
            Environment::Development => "-dev"@,
            Environment::Staging => "-staging"@,
            Environment::Production => ""@,
        }
    }

    pub open spec fn name_text(self) -> Seq<char> {
        match self {
            Environment::Development => "development"@,
            Environment::Staging => "staging"@,
            Environment::Production => "production"@,
        }
    }

    pub open spec fn storage_prefix_text(self) -> Seq<char> {
        match self {
            Environment::Development => "prompalette-dev"@,
            Environment::Staging => "prompalette-staging"@,
            Environment::Production => "prompalette"@,
        }
    }

    pub open spec fn public_key_variable_text(self) -> Seq<char> {
        match self {
            Environment::Development => "PROMPALETTE_DEVELOPMENT_PUBLIC_KEY"@,
            Environment::Staging => "PROMPALETTE_STAGING_PUBLIC_KEY"@,
            Environment::Production => "PROMPALETTE_PRODUCTION_PUBLIC_KEY"@,
        }
    }

    /// The segments of the data directory below `base`, outermost first.
    pub open spec fn data_dir_segments(self, platform: Platform, base: Seq<char>) -> Seq<
        Seq<char>,
    > {
        seq![base] + platform.support_segments() + seq![self.data_dir_name_text()]
    }

    /// The track selected by the value of the track setting, if it is set,
    /// and by the kind of build.
    pub fn current(setting: Option<&str>, debug_build: bool) -> (env: Environment)
        ensures
            env == Self::resolved(
                match setting {
                    Some(s) => Some(s@),
                    None => None,
                },
                debug_build,
            ),
    {
        let fallback = if debug_build {
            Environment::Development
        } else {
            Environment::Production
        };
        match setting {
            Some(s) => {
                if same_text(s, "development") {
                    Environment::Development
                } else if same_text(s, "staging") {
                    Environment::Staging
                } else if same_text(s, "production") {
                    Environment::Production
                } else {
                    fallback
                }
            },
            None => fallback,
        }
    }

    /// The identifier under which the application is registered.
    pub fn app_identifier(&self) -> (s: &'static str)
        ensures
            s@ == self.app_identifier_text(),
    {
        match self {
            Environment::Development => "com.prompalette.app.dev",
            Environment::Staging => "com.prompalette.app.staging",
            Environment::Production => "com.prompalette.app",
        }
    }

    /// The application's display name.
    pub fn app_name(&self) -> (s: &'static str)
        ensures
            s@ == self.app_name_text(),
    {
        match self {
            Environment::Development => "PromPalette Dev",
            Environment::Staging => "PromPalette Staging",
            Environment::Production => "PromPalette",
        }
    }

    /// The name of the application's own directory below the platform's
    /// base directory.
    pub fn data_dir_name(&self) -> (s: &'static str)
        ensures
            s@ == self.data_dir_name_text(),
    {
        match self {
            Environment::Development => "PromPalette-Dev",
            Environment::Staging => "PromPalette-Staging",
            Environment::Production => "PromPalette",
        }
    }

    /// The data directory as path segments, outermost first: the base
    /// directory, the platform's support directory where it has one, and the
    /// application's own directory. `base` is the value of the variable that
    /// `platform.base_variable()` names; without it there is no data
    /// directory.
    pub fn data_dir(
        &self,
        platform: Platform,
        base: Option<&str>,
    ) -> (r: Result<Vec<String>, String>)
        ensures
            match base {
                Some(b) => r matches Ok(segments) && segments.deep_view()
                    == self.data_dir_segments(platform, b@),
                None => r matches Err(message) && message@ == platform.missing_base_text(),
            },
    {
        match base {
            None => {
                let message = match platform {
                    Platform::MacOs => "Cannot find HOME directory on macOS",
                    Platform::Windows => "Cannot find APPDATA directory on Windows",
                    Platform::Other => "Cannot find HOME directory on Linux",
                };
                Err(String::from_str(message))
            },
            Some(b) => {
                let mut segments: Vec<String> = Vec::new();
                segments.push(String::from_str(b));
                match platform {
                    Platform::MacOs => {
                        segments.push(String::from_str("Library/Application Support"));
                    },
                    Platform::Windows => {},
                    Platform::Other => {
                        segments.push(String::from_str(".config"));
                    },
                }
                segments.push(String::from_str(self.data_dir_name()));
                assert(segments.deep_view() =~= self.data_dir_segments(platform, b@));
                Ok(segments)
            },
        }
    }

    /// The file name of the data store.
    pub fn database_filename(&self) -> (s: &'static str)
        ensures
            s@ == self.database_filename_text(),
    {
        match self {
            Environment::Development => "prompalette-dev.db",
            Environment::Staging => "prompalette-staging.db",
            Environment::Production => "prompalette.db",
        }
    }

    /// The title of the main window.
    pub fn window_title(&self) -> (s: &'static str)
        ensures
            s@ == self.window_title_text(),
    {
        match self {
            Environment::Development => "PromPalette [DEV]",
            Environment::Staging => "PromPalette [STAGING]",
            Environment::Production => "PromPalette",
        }
    }

    /// What is appended to an icon's name.
    pub fn icon_suffix(&self) -> (s: &'static str)
        ensures
            s@ == self.icon_suffix_text(),
    {
        match self {
            Environment::Development => "-dev",
            Environment::Staging => "-staging",
            Environment::Production => "",
        }
    }

    /// Whether this is the production track.
    pub fn is_production(&self) -> (b: bool)
        ensures
            b == (*self == Environment::Production),
    {
        matches!(self, Environment::Production)
    }

    /// The track's name, as the track setting spells it.
    pub fn name(&self) -> (s: &'static str)
        ensures
            s@ == self.name_text(),
    {
        match self {
            Environment::Development => "development",
            Environment::Staging => "staging",
            Environment::Production => "production",
        }
    }

    /// The track's name as an owned text.
    pub fn to_string(&self) -> (s: String)
        ensures
            s@ == self.name_text(),
    {
        String::from_str(self.name())
    }

    /// The prefix of the keys under which the front end stores its data.
    pub fn storage_prefix(&self) -> (s: &'static str)
        ensures
            s@ == self.storage_prefix_text(),
    {
        match self {
            Environment::Development => "prompalette-dev",
            Environment::Staging => "prompalette-staging",
            Environment::Production => "prompalette",
        }
    }

    /// The name of the process variable that holds this track's public key.
    pub fn public_key_variable(&self) -> (s: &'static str)
        ensures
            s@ == self.public_key_variable_text(),
    {
        match self {
            Environment::Development => "PROMPALETTE_DEVELOPMENT_PUBLIC_KEY",
            Environment::Staging => "PROMPALETTE_STAGING_PUBLIC_KEY",
            Environment::Production => "PROMPALETTE_PRODUCTION_PUBLIC_KEY",
        }
    }
}

/// Two environments share none of their constants: not the name, not the
/// identifier, not the data directory, not the data store, and not the
/// variable of the public key. What belongs to one environment is never
/// taken for what belongs to another.
pub proof fn lemma_environments_share_nothing(a: Environment, b: Environment)
    requires
        a != b,
    ensures
        a.name_text() != b.name_text(),
        a.app_identifier_text() != b.app_identifier_text(),
        a.app_name_text() != b.app_name_text(),
        a.data_dir_name_text() != b.data_dir_name_text(),
        a.database_filename_text() != b.database_filename_text(),
        a.window_title_text() != b.window_title_text(),
        a.icon_suffix_text() != b.icon_suffix_text(),
        a.storage_prefix_text() != b.storage_prefix_text(),
        a.public_key_variable_text() != b.public_key_variable_text(),
{
    reveal_strlit("development");
    reveal_strlit("staging");
    reveal_strlit("production");
    reveal_strlit("com.prompalette.app.dev");
    reveal_strlit("com.prompalette.app.staging");
    reveal_strlit("com.prompalette.app");
    reveal_strlit("PromPalette Dev");
    reveal_strlit("PromPalette Staging");
    reveal_strlit("PromPalette");
    reveal_strlit("PromPalette-Dev");
    reveal_strlit("PromPalette-Staging");
    reveal_strlit("prompalette-dev.db");
    reveal_strlit("prompalette-staging.db");
    reveal_strlit("prompalette.db");
    reveal_strlit("PromPalette [DEV]");
    reveal_strlit("PromPalette [STAGING]");
    reveal_strlit("-dev");
    reveal_strlit("-staging");
    reveal_strlit("");
    reveal_strlit("prompalette-dev");
    reveal_strlit("prompalette-staging");
    reveal_strlit("prompalette");
    reveal_strlit("PROMPALETTE_DEVELOPMENT_PUBLIC_KEY");
    reveal_strlit("PROMPALETTE_STAGING_PUBLIC_KEY");
    reveal_strlit("PROMPALETTE_PRODUCTION_PUBLIC_KEY");
    assert(a.name_text().len() != b.name_text().len());
    assert(a.app_identifier_text().len() != b.app_identifier_text().len());
    assert(a.app_name_text().len() != b.app_name_text().len());
    assert(a.data_dir_name_text().len() != b.data_dir_name_text().len());
    assert(a.database_filename_text().len() != b.database_filename_text().len());
    assert(a.window_title_text().len() != b.window_title_text().len());
    assert(a.icon_suffix_text().len() != b.icon_suffix_text().len());
    assert(a.storage_prefix_text().len() != b.storage_prefix_text().len());
    assert(a.public_key_variable_text().len() != b.public_key_variable_text().len());
}

/// The setting that spells an environment's name selects that
/// environment, whatever the kind of build.
pub proof fn lemma_name_selects_environment(env: Environment, debug_build: bool)
    ensures
        Environment::resolved(Some(env.name_text()), debug_build) == env,
{
    reveal_strlit("development");
    reveal_strlit("staging");
    reveal_strlit("production");
    assert("development"@.len() != "staging"@.len());
    assert("development"@.len() != "production"@.len());
    assert("staging"@.len() != "production"@.len());
}

} // verus!
