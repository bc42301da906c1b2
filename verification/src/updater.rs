//! The update lifecycle: what a check for updates concludes, and the order
//! in which an update is backed up, downloaded and installed.

use crate::environment::Environment;
use crate::security::{
    reports, signature_check, version_verdict, UpdateSecurity, ValidationError, VersionError,
};
use crate::semantic_version::semver_prerelease;
use crate::text::{
    contains, has_substring, join, join3, occurs_at, option_debug, option_debug_text,
    option_text,
};
use vstd::prelude::*;
use vstd::string::*;

verus! {

/// A release that the updater service offers.
#[derive(Debug, Clone)]
pub struct UpdateInfo {
    pub version: String,
    pub notes: Option<String>,
    pub pub_date: Option<String>,
    pub url: String,
    pub signature: Option<String>,
}

/// How much of a download has arrived.
#[derive(Debug, Clone, Copy, PartialEq, Eq, Structural)]
pub struct DownloadProgress {
    received: u64,
    total: u64,
}

impl DownloadProgress {
    #[verifier::type_invariant]
    spec fn bounded(self) -> bool {
        self.received <= self.total && self.total > 0
    }

    /// Bytes that have arrived.
    pub closed spec fn received_bytes(self) -> nat {
        self.received as nat
    }

    /// Bytes of the whole download.
    pub closed spec fn total_bytes(self) -> nat {
        self.total as nat
    }

    /// The share that has arrived, in whole percent, rounded down.
    pub open spec fn percent_value(self) -> nat {
        self.received_bytes() * 100 / self.total_bytes()
    }

    /// A download of which nothing has arrived yet.
    pub fn start() -> (p: DownloadProgress)
        ensures
            p.received_bytes() == 0,
            p.total_bytes() == 1,
    {
        DownloadProgress { received: 0, total: 1 }
    }

    /// `received` of `total` bytes, where the total is known and not zero.
    /// What exceeds the total counts as the total.
    pub fn of(received: u64, total: u64) -> (r: Option<DownloadProgress>)
        ensures
            r is Some <==> total > 0,
            r matches Some(p) ==> p.total_bytes() == total && p.received_bytes() == (if received
                <= total {
                received
            } else {
                total
            }),
    {
        if total == 0 {
            None
        } else if received <= total {
            Some(DownloadProgress { received, total })
        } else {
            Some(DownloadProgress { received: total, total })
        }
    }

    /// Bytes that have arrived.
    pub fn received(&self) -> (n: u64)
        ensures
            n == self.received_bytes(),
    {
        self.received
    }

    /// Bytes of the whole download; never zero.
    pub fn total(&self) -> (n: u64)
        ensures
            n == self.total_bytes(),
            n > 0,
    {
        proof {
            use_type_invariant(self);
        }
        self.total
    }

    /// The share that has arrived, in whole percent: from 0 to 100.
    pub fn percent(&self) -> (p: u8)
        ensures
            p == self.percent_value(),
            p <= 100,
    {
        proof {
            use_type_invariant(self);
        }
        let received: u128 = self.received as u128;
        let total: u128 = self.total as u128;
        let scaled: u128 = received * 100;
        let p: u128 = scaled / total;
        assert(p <= 100) by (nonlinear_arith)
            requires
                p == scaled / total,
                scaled == received * 100,
                received <= total,
                total > 0,
        ;
        p as u8
    }
}

/// The state of the update lifecycle. Exactly one holds at a time.
#[derive(Debug, Clone)]
pub enum UpdateStatus {
    NoUpdateAvailable,
    UpdateAvailable(UpdateInfo),
    Downloading { progress: DownloadProgress },
    Downloaded,
    Installing,
    Error(String),
}

/// The kind of an update error, without the detail.
#[derive(Debug, Clone, Copy, PartialEq, Eq, Structural)]
pub enum UpdateErrorKind {
    NetworkError,
    SignatureError,
    VersionMismatch,
    BackupFailed,
    DownloadFailed,
    InstallFailed,
    ConfigError,
    Unknown,
}

/// What an update command reports when it fails. Each variant carries a
/// detail for the reader.
#[derive(Debug, Clone)]
pub enum UpdateError {
    NetworkError(String),
    SignatureError(String),
    VersionMismatch(String),
    BackupFailed(String),
    DownloadFailed(String),
    InstallFailed(String),
    ConfigError(String),
    Unknown(String),
}

impl UpdateErrorKind {
    /// What stands before the detail in the error's message.
    pub open spec fn heading(self) -> Seq<char> {
        match self {
            UpdateErrorKind::NetworkError => "Network error: "@,
            UpdateErrorKind::SignatureError => "Signature verification failed: "@,
            UpdateErrorKind::VersionMismatch => "Version mismatch: "@,
            UpdateErrorKind::BackupFailed => "Backup failed: "@,
            UpdateErrorKind::DownloadFailed => "Download failed: "@,
            UpdateErrorKind::InstallFailed => "Installation failed: "@,
            UpdateErrorKind::ConfigError => "Configuration error: "@,
            UpdateErrorKind::Unknown => "Unknown error: "@,
        }
    }
}

impl UpdateError {
    pub open spec fn kind(self) -> UpdateErrorKind {
        match self {
            UpdateError::NetworkError(_) => UpdateErrorKind::NetworkError,
            UpdateError::SignatureError(_) => UpdateErrorKind::SignatureError,
            UpdateError::VersionMismatch(_) => UpdateErrorKind::VersionMismatch,
            UpdateError::BackupFailed(_) => UpdateErrorKind::BackupFailed,
            UpdateError::DownloadFailed(_) => UpdateErrorKind::DownloadFailed,
            UpdateError::InstallFailed(_) => UpdateErrorKind::InstallFailed,
            UpdateError::ConfigError(_) => UpdateErrorKind::ConfigError,
            UpdateError::Unknown(_) => UpdateErrorKind::Unknown,
        }
    }

    pub open spec fn detail(self) -> Seq<char> {
        match self {
            UpdateError::NetworkError(d) => d@,
            UpdateError::SignatureError(d) => d@,
            UpdateError::VersionMismatch(d) => d@,
            UpdateError::BackupFailed(d) => d@,
            UpdateError::DownloadFailed(d) => d@,
            UpdateError::InstallFailed(d) => d@,
            UpdateError::ConfigError(d) => d@,
            UpdateError::Unknown(d) => d@,
        }
    }

    /// The error's message: the heading of its kind, then the detail.
    pub open spec fn message(self) -> Seq<char> {
        self.kind().heading() + self.detail()
    }

    /// The error is of kind `kind` and carries exactly `detail`.
    pub open spec fn is(self, kind: UpdateErrorKind, detail: Seq<char>) -> bool {
        self.kind() == kind && self.detail() == detail
    }

    /// The error's message, as it crosses to the user interface.
    pub fn to_string(&self) -> (s: String)
        ensures
            s@ == self.message(),
    {
        match self {
            UpdateError::NetworkError(d) => join("Network error: ", d.as_str()),
            UpdateError::SignatureError(d) => join("Signature verification failed: ", d.as_str()),
            UpdateError::VersionMismatch(d) => join("Version mismatch: ", d.as_str()),
            UpdateError::BackupFailed(d) => join("Backup failed: ", d.as_str()),
            UpdateError::DownloadFailed(d) => join("Download failed: ", d.as_str()),
            UpdateError::InstallFailed(d) => join("Installation failed: ", d.as_str()),
            UpdateError::ConfigError(d) => join("Configuration error: ", d.as_str()),
            UpdateError::Unknown(d) => join("Unknown error: ", d.as_str()),
        }
    }
}

/// The outcome of one attempt to back the data store up.
#[derive(Debug, Clone)]
pub struct BackupResult {
    pub success: bool,
    pub backup_path: Option<String>,
    pub timestamp: String,
    pub error: Option<String>,
}

/// A backup result as plain values.
pub struct BackupResultView {
    pub success: bool,
    pub backup_path: Option<Seq<char>>,
    pub timestamp: Seq<char>,
    pub error: Option<Seq<char>>,
}

impl View for BackupResult {
    type V = BackupResultView;

    open spec fn view(&self) -> BackupResultView {
        BackupResultView {
            success: self.success,
            backup_path: option_text(self.backup_path),
            timestamp: self.timestamp@,
            error: option_text(self.error),
        }
    }
}

/// The update policy of one environment.
#[derive(Debug, Clone)]
pub struct UpdateConfig {
    pub environment: String,
    pub updates_enabled: bool,
    pub auto_check_enabled: bool,
    pub requires_manual_approval: bool,
    pub backup_enabled: bool,
    pub public_key: Option<String>,
}

/// An update policy as plain values.
pub struct UpdateConfigView {
    pub environment: Seq<char>,
    pub updates_enabled: bool,
    pub auto_check_enabled: bool,
    pub requires_manual_approval: bool,
    pub backup_enabled: bool,
    pub public_key: Option<Seq<char>>,
}

impl View for UpdateConfig {
    type V = UpdateConfigView;

    open spec fn view(&self) -> UpdateConfigView {
        UpdateConfigView {
            environment: self.environment@,
            updates_enabled: self.updates_enabled,
            auto_check_enabled: self.auto_check_enabled,
            requires_manual_approval: self.requires_manual_approval,
            backup_enabled: self.backup_enabled,
            public_key: option_text(self.public_key),
        }
    }
}

impl UpdateConfig {
    /// The policy that `env` starts from: updates and backups are on,
    /// checks run by themselves only on Production, and only Development
    /// installs without asking. No public key is set.
    pub open spec fn default_view(env: Environment) -> UpdateConfigView {
        UpdateConfigView {
            environment: env.name_text(),
            updates_enabled: true,
            auto_check_enabled: env == Environment::Production,
            requires_manual_approval: env != Environment::Development,
            backup_enabled: true,
            public_key: None,
        }
    }

    /// The policy that `env` starts from.
    pub fn default_for_environment(env: Environment) -> (config: UpdateConfig)
        ensures
            config@ == Self::default_view(env),
    {
        UpdateConfig {
            environment: env.to_string(),
            updates_enabled: true,
            auto_check_enabled: env.is_production(),
            requires_manual_approval: !matches!(env, Environment::Development),
            backup_enabled: true,
            public_key: None,
        }
    }
}

/// The policy in force on `env`: its defaults, with updates enabled.
pub fn get_update_config(env: Environment) -> (config: UpdateConfig)
    ensures
        config@ == UpdateConfig::default_view(env),
{
    let mut config = UpdateConfig::default_for_environment(env);
    config.updates_enabled = true;
    config
}

/// What the updater service answered to a check.
#[derive(Debug, Clone)]
pub enum CheckOutcome {
    /// The service could not be reached at all, for this reason.
    UpdaterUnavailable(String),
    /// The service offers nothing.
    NoCandidate,
    /// The service offers this release.
    Candidate(UpdateInfo),
    /// The service failed, with this message.
    Failed(String),
}

/// Where a check for updates stands.
#[derive(Debug, Clone, Copy, PartialEq, Eq, Structural)]
pub enum CheckPhase {
    /// Nothing has been done yet.
    Ready,
    /// The updater service is being asked.
    Asking,
    /// The check is over.
    Finished,
}

/// What happened while updates were checked for.
#[derive(Debug)]
pub enum CheckEvent {
    /// The check was asked for, with the updater switched on or off.
    Started { updater_active: bool },
    /// The updater service was asked, with this outcome.
    Answered(CheckOutcome),
}

/// What is to be done next in a check for updates.
#[derive(Debug)]
pub enum CheckAction {
    /// Ask the updater service and report its answer with `Answered`.
    AskUpdater,
    /// Return this to the caller.
    Finish(Result<UpdateStatus, UpdateError>),
}

/// The next phase of a check and what is to be done to get there.
#[derive(Debug)]
pub struct CheckStep {
    pub phase: CheckPhase,
    pub action: CheckAction,
}

/// The kind of error that a failure of the updater service is reported
/// as, judged by the words of its message: a network error where it
/// speaks of the network or of a connection, and unknown otherwise.
pub open spec fn failure_kind(message: Seq<char>) -> UpdateErrorKind {
    if has_substring(message, "network"@) || has_substring(message, "connection"@) {
        UpdateErrorKind::NetworkError
    } else {
        UpdateErrorKind::Unknown
    }
}

/// Reports a failure of the updater service under the kind that its
/// message points to, with the message unchanged as the detail.
pub fn classify_failure(message: String) -> (e: UpdateError)
    ensures
        e.is(failure_kind(message@), message@),
{
    if contains(message.as_str(), "network") || contains(message.as_str(), "connection") {
        UpdateError::NetworkError(message)
    } else {
        UpdateError::Unknown(message)
    }
}

/// `r` is what a check on `environment` concludes from the updater
/// service's answer.
///
/// No candidate: nothing is available. A candidate whose version the
/// policy accepts is available, unchanged; one of another track is passed
/// over as if there were none; one whose version is malformed is an
/// error. A failure of the service is an error of the kind that its
/// message points to, and a service that could not be reached is an
/// unknown error.
pub open spec fn is_conclusion(
    environment: Environment,
    outcome: CheckOutcome,
    r: Result<UpdateStatus, UpdateError>,
) -> bool {
    match outcome {
        CheckOutcome::UpdaterUnavailable(reason) => r matches Err(e) && e.is(
            UpdateErrorKind::Unknown,
            "Failed to get updater: "@ + reason@,
        ),
        CheckOutcome::NoCandidate => r matches Ok(status) && status is NoUpdateAvailable,
        CheckOutcome::Candidate(info) => match version_verdict(info.version@, environment) {
            Ok(_) => r matches Ok(UpdateStatus::UpdateAvailable(offered)) && offered == info,
            Err(VersionError::EnvironmentMismatch) => r matches Ok(status)
                && status is NoUpdateAvailable,
            Err(VersionError::InvalidFormat) => r matches Err(e) && e.is(
                UpdateErrorKind::VersionMismatch,
                "Invalid version format: "@ + info.version@,
            ),
        },
        CheckOutcome::Failed(message) => r matches Err(e) && e.is(
            failure_kind(message@),
            message@,
        ),
    }
}

/// The phase of a check that follows `phase` on `event`; `None` where the
/// event has no place in the phase.
pub open spec fn next_check_phase(phase: CheckPhase, event: CheckEvent) -> Option<CheckPhase> {
    match (phase, event) {
        (CheckPhase::Ready, CheckEvent::Started { updater_active }) => if updater_active {
            Some(CheckPhase::Asking)
        } else {
            Some(CheckPhase::Finished)
        },
        (CheckPhase::Asking, CheckEvent::Answered(_)) => Some(CheckPhase::Finished),
        _ => None,
    }
}

/// What is done on `event` in `phase` of a check on `environment`, where
/// the event has a place there. With the updater switched off the check
/// is over at once with nothing available, and the service is not asked;
/// with the updater switched on the service is asked; its answer
/// concludes the check.
pub open spec fn is_check_action_for(
    environment: Environment,
    phase: CheckPhase,
    event: CheckEvent,
    action: CheckAction,
) -> bool {
    match (phase, event) {
        (CheckPhase::Ready, CheckEvent::Started { updater_active }) => if updater_active {
            action is AskUpdater
        } else {
            action matches CheckAction::Finish(Ok(UpdateStatus::NoUpdateAvailable))
        },
        (CheckPhase::Asking, CheckEvent::Answered(outcome)) => action matches CheckAction::Finish(
            r,
        ) && is_conclusion(environment, outcome, r),
        _ => true,
    }
}

/// What a check on `environment` concludes from the updater service's
/// answer.
fn conclude_check(environment: Environment, outcome: CheckOutcome) -> (r: Result<
    UpdateStatus,
    UpdateError,
>)
    ensures
        is_conclusion(environment, outcome, r),
{
    match outcome {
        CheckOutcome::UpdaterUnavailable(reason) => Err(
            UpdateError::Unknown(join("Failed to get updater: ", reason.as_str())),
        ),
        CheckOutcome::NoCandidate => Ok(UpdateStatus::NoUpdateAvailable),
        CheckOutcome::Candidate(info) => {
            match UpdateSecurity::validate_version_for_environment(
                info.version.as_str(),
                environment,
            ) {
                Ok(_) => Ok(UpdateStatus::UpdateAvailable(info)),
                Err(VersionError::EnvironmentMismatch) => Ok(UpdateStatus::NoUpdateAvailable),
                Err(VersionError::InvalidFormat) => {
                    let detail = join("Invalid version format: ", info.version.as_str());
                    Err(UpdateError::VersionMismatch(detail))
                },
            }
        },
        CheckOutcome::Failed(message) => Err(classify_failure(message)),
    }
}

/// Takes one step in a check for updates on `environment`: from the phase
/// and what happened to the next phase and what is to be done.
///
/// A check that starts with the updater switched off ends at once with
/// nothing available, and the updater service is not asked. One that
/// starts with the updater switched on asks the service. The answer ends
/// the check: no candidate means that nothing is available; a candidate
/// whose version the policy accepts is available; one of another track is
/// passed over as if there were none; one whose version is malformed is
/// an error; a failure of the service is a network error or an unknown
/// one, by the words of its message. Returns `None` where the event has
/// no place in the phase.
pub fn check_for_updates(
    environment: Environment,
    phase: CheckPhase,
    event: CheckEvent,
) -> (r: Option<CheckStep>)
    ensures
        match next_check_phase(phase, event) {
            None => r is None,
            Some(next) => r matches Some(step) && step.phase == next && is_check_action_for(
                environment,
                phase,
                event,
                step.action,
            ),
        },
{
    match (phase, event) {
        (CheckPhase::Ready, CheckEvent::Started { updater_active }) => {
            if updater_active {
                Some(CheckStep { phase: CheckPhase::Asking, action: CheckAction::AskUpdater })
            } else {
                Some(
                    CheckStep {
                        phase: CheckPhase::Finished,
                        action: CheckAction::Finish(Ok(UpdateStatus::NoUpdateAvailable)),
                    },
                )
            }
        },
        (CheckPhase::Asking, CheckEvent::Answered(outcome)) => {
            let conclusion = conclude_check(environment, outcome);
            Some(CheckStep { phase: CheckPhase::Finished, action: CheckAction::Finish(conclusion) })
        },
        _ => None,
    }
}

/// The updater service is asked in one place only: at the start of a
/// check, and then only with the updater switched on. A check that starts
/// with the updater switched off is over with nothing available.
pub proof fn lemma_service_is_asked_only_when_switched_on(
    environment: Environment,
    phase: CheckPhase,
    event: CheckEvent,
    action: CheckAction,
)
    requires
        next_check_phase(phase, event) is Some,
        is_check_action_for(environment, phase, event, action),
    ensures
        action is AskUpdater <==> (phase == CheckPhase::Ready && event
            == (CheckEvent::Started { updater_active: true })),
        event == (CheckEvent::Started { updater_active: false }) ==> (action matches CheckAction::Finish(
            Ok(UpdateStatus::NoUpdateAvailable),
        )) && next_check_phase(phase, event) == Some(CheckPhase::Finished),
{
}

/// A candidate whose version carries a label that holds `staging` is
/// offered on Staging, unchanged in every field, and is passed over on
/// Production without an error.
pub proof fn lemma_staging_candidate_is_offered_on_staging_only(
    info: UpdateInfo,
    on_staging: Result<UpdateStatus, UpdateError>,
    on_production: Result<UpdateStatus, UpdateError>,
)
    requires
        semver_prerelease(info.version@) matches Some(label) && has_substring(label, "staging"@),
        is_conclusion(Environment::Staging, CheckOutcome::Candidate(info), on_staging),
        is_conclusion(Environment::Production, CheckOutcome::Candidate(info), on_production),
    ensures
        on_staging matches Ok(UpdateStatus::UpdateAvailable(offered)) && offered == info,
        on_production matches Ok(status) && status is NoUpdateAvailable,
{
    reveal_strlit("staging");
    let label = semver_prerelease(info.version@)->0;
    let at = choose|at: int| occurs_at(label, "staging"@, at);
    assert(occurs_at(label, "staging"@, at));
    assert(label.len() >= 7);
}

/// A failure of the updater service is never reported as anything but a
/// network error or an unknown error, it is never a success, and its
/// message is carried unchanged.
pub proof fn lemma_service_failure_is_network_or_unknown(
    environment: Environment,
    message: String,
    r: Result<UpdateStatus, UpdateError>,
)
    requires
        is_conclusion(environment, CheckOutcome::Failed(message), r),
    ensures
        r is Err,
        r->Err_0.detail() == message@,
        r->Err_0.kind() == UpdateErrorKind::NetworkError || r->Err_0.kind()
            == UpdateErrorKind::Unknown,
        r->Err_0.kind() == UpdateErrorKind::NetworkError <==> (has_substring(
            message@,
            "network"@,
        ) || has_substring(message@, "connection"@)),
{
}

/// Checks a downloaded update before it is installed: the file must have
/// been read, a public key must be configured for `environment`, and the
/// version and the signature must both be accepted, in this order.
pub fn verify_update_file(
    file: Result<Vec<u8>, String>,
    version: &str,
    signature: &str,
    public_key: Option<&str>,
    environment: Environment,
) -> (r: Result<(), UpdateError>)
    ensures
        match (file, public_key) {
            (Err(reason), _) => r matches Err(e) && e.is(
                UpdateErrorKind::DownloadFailed,
                "Failed to read update file: "@ + reason@,
            ),
            (Ok(_), None) => r matches Err(e) && e.is(
                UpdateErrorKind::ConfigError,
                "Public key not configured for "@ + environment.name_text() + " environment"@,
            ),
            (Ok(data), Some(key)) => match version_verdict(version@, environment) {
                Err(refusal) => r matches Err(e) && e.is(
                    UpdateErrorKind::SignatureError,
                    "Update verification failed: "@ + refusal.message(),
                ),
                Ok(_) => if signature_check(data@, signature@, key@) is Accepted {
                    r is Ok
                } else {
                    r matches Err(e) && e.is(
                        UpdateErrorKind::SignatureError,
                        "Update verification failed: "@ + signature_check(
                            data@,
                            signature@,
                            key@,
                        ).refusal_message(),
                    )
                },
            },
        },
{
    let data = match file {
        Ok(data) => data,
        Err(reason) => {
            let detail = join("Failed to read update file: ", reason.as_str());
            return Err(UpdateError::DownloadFailed(detail));
        },
    };
    let key = match public_key {
        Some(key) => key,
        None => {
            let detail = join3(
                "Public key not configured for ",
                environment.name(),
                " environment",
            );
            return Err(UpdateError::ConfigError(detail));
        },
    };
    match UpdateSecurity::validate_update(version, data.as_slice(), signature, key, environment) {
        Ok(_) => Ok(()),
        Err(e) => {
            let detail = join("Update verification failed: ", e.to_string().as_str());
            proof {
                if let ValidationError::Signature(refusal) = e {
                    assert(reports(Err(refusal), signature_check(data@, signature@, key@)));
                    assert(refusal.message() == signature_check(
                        data@,
                        signature@,
                        key@,
                    ).refusal_message());
                }
            }
            Err(UpdateError::SignatureError(detail))
        },
    }
}

/// Where the applying of an update stands.
#[derive(Debug, Clone, Copy, PartialEq, Eq, Structural)]
pub enum ApplyPhase {
    /// Nothing has been done yet.
    Ready,
    /// The backup is being written.
    BackingUp,
    /// The updater service is being asked for the candidate.
    Probing,
    /// The start of the download is being announced.
    Announcing,
    /// The update is being downloaded and installed.
    Downloading,
    /// The end of the download is being announced.
    AnnouncingDownloaded,
    /// The start of the installation is being announced.
    AnnouncingInstall,
    /// The attempt is over.
    Finished,
}

/// What happened while an update was applied.
#[derive(Debug)]
pub enum ApplyEvent {
    /// The applying was asked for.
    Started,
    /// The backup was attempted, with this report.
    BackupReported(Result<BackupResult, UpdateError>),
    /// The updater service could not be set up.
    UpdaterUnavailable(String),
    /// The updater service offers a candidate.
    CandidateFound,
    /// The updater service offers nothing.
    NoCandidate,
    /// The updater service failed.
    CheckFailed(String),
    /// The last announcement was delivered.
    Notified,
    /// The last announcement could not be delivered.
    NotifyFailed(String),
    /// A chunk of this length arrived; the length of the whole download
    /// is given where it is known.
    Progress { chunk_length: u64, content_length: Option<u64> },
    /// The update was downloaded and installed.
    Installed,
    /// The download or the installation failed.
    InstallFailed(String),
}

/// What is announced to the user interface, and must be delivered.
#[derive(Debug, Clone, Copy, PartialEq, Eq, Structural)]
pub enum Announcement {
    DownloadStarted,
    DownloadComplete,
    InstallStarted,
}

/// What is to be done next while an update is applied.
#[derive(Debug)]
pub enum ApplyAction {
    /// Write a backup and report it with `BackupReported`.
    CreateBackup,
    /// Ask the updater service for the candidate.
    FindCandidate,
    /// Deliver the announcement and report `Notified` or `NotifyFailed`.
    Announce(Announcement),
    /// Start the download and installation; report every chunk with
    /// `Progress` and the end with `Installed` or `InstallFailed`.
    DownloadAndInstall,
    /// Tell the user interface how far the download is. Nothing is to be
    /// reported back, whether or not this is delivered.
    Report(DownloadProgress),
    /// Nothing: go on waiting.
    Wait,
    /// Return this to the caller.
    Finish(Result<UpdateStatus, String>),
}

/// The kind of an action, without what it carries.
#[derive(Debug, Clone, Copy, PartialEq, Eq, Structural)]
pub enum ApplyActionKind {
    CreateBackup,
    FindCandidate,
    Announce,
    DownloadAndInstall,
    Report,
    Wait,
    Finish,
}

/// The next phase and what is to be done to get there.
#[derive(Debug)]
pub struct ApplyStep {
    pub phase: ApplyPhase,
    pub action: ApplyAction,
}

impl Announcement {
    pub open spec fn event_name_text(self) -> Seq<char> {
        match self {
            Announcement::DownloadStarted => "update-download-progress"@,
            Announcement::DownloadComplete => "update-download-complete"@,
            Announcement::InstallStarted => "update-install-start"@,
        }
    }

    /// The name under which the announcement is sent.
    pub fn event_name(&self) -> (s: &'static str)
        ensures
            s@ == self.event_name_text(),
    {
        match self {
            Announcement::DownloadStarted => "update-download-progress",
            Announcement::DownloadComplete => "update-download-complete",
            Announcement::InstallStarted => "update-install-start",
        }
    }

    /// The state that the announcement carries.
    pub fn status(&self) -> (status: UpdateStatus)
        ensures
            match self {
                Announcement::DownloadStarted => status matches UpdateStatus::Downloading {
                    progress,
                } && progress.received_bytes() == 0 && progress.total_bytes() == 1,
                Announcement::DownloadComplete => status is Downloaded,
                Announcement::InstallStarted => status is Installing,
            },
    {
        match self {
            Announcement::DownloadStarted => UpdateStatus::Downloading {
                progress: DownloadProgress::start(),
            },
            Announcement::DownloadComplete => UpdateStatus::Downloaded,
            Announcement::InstallStarted => UpdateStatus::Installing,
        }
    }
}

impl ApplyAction {
    pub open spec fn kind(self) -> ApplyActionKind {
        match self {
            ApplyAction::CreateBackup => ApplyActionKind::CreateBackup,
            ApplyAction::FindCandidate => ApplyActionKind::FindCandidate,
            ApplyAction::Announce(_) => ApplyActionKind::Announce,
            ApplyAction::DownloadAndInstall => ApplyActionKind::DownloadAndInstall,
            ApplyAction::Report(_) => ApplyActionKind::Report,
            ApplyAction::Wait => ApplyActionKind::Wait,
            ApplyAction::Finish(_) => ApplyActionKind::Finish,
        }
    }

    /// The attempt ends in the failed state with the reason `reason`.
    pub open spec fn fails_with(self, reason: Seq<char>) -> bool {
        self matches ApplyAction::Finish(Ok(UpdateStatus::Error(message))) && message@ == reason
    }

    /// The command itself fails with the message `message`.
    pub open spec fn aborts_with(self, message: Seq<char>) -> bool {
        self matches ApplyAction::Finish(Err(text)) && text@ == message
    }
}

impl ApplyPhase {
    /// How far the phase is on the way from `Ready` to `Finished`.
    pub open spec fn rank(self) -> nat {
        match self {
            ApplyPhase::Ready => 0,
            ApplyPhase::BackingUp => 1,
            ApplyPhase::Probing => 2,
            ApplyPhase::Announcing => 3,
            ApplyPhase::Downloading => 4,
            ApplyPhase::AnnouncingDownloaded => 5,
            ApplyPhase::AnnouncingInstall => 6,
            ApplyPhase::Finished => 7,
        }
    }

    /// A phase that is only reached after a backup was written.
    pub open spec fn is_backed_up(self) -> bool {
        2 <= self.rank() <= 6
    }
}

/// The event reports a backup that was written.
pub open spec fn is_successful_backup(event: ApplyEvent) -> bool {
    event matches ApplyEvent::BackupReported(Ok(result)) && result.success
}

/// The phase that follows `phase` on `event`; `None` where the event has
/// no place in the phase.
pub open spec fn next_phase(phase: ApplyPhase, event: ApplyEvent) -> Option<ApplyPhase> {
    match (phase, event) {
        (ApplyPhase::Ready, ApplyEvent::Started) => Some(ApplyPhase::BackingUp),
        (ApplyPhase::BackingUp, ApplyEvent::BackupReported(Ok(result))) => if result.success {
            Some(ApplyPhase::Probing)
        } else {
            Some(ApplyPhase::Finished)
        },
        (ApplyPhase::BackingUp, ApplyEvent::BackupReported(Err(_))) => Some(ApplyPhase::Finished),
        (ApplyPhase::Probing, ApplyEvent::UpdaterUnavailable(_)) => Some(ApplyPhase::Finished),
        (ApplyPhase::Probing, ApplyEvent::CheckFailed(_)) => Some(ApplyPhase::Finished),
        (ApplyPhase::Probing, ApplyEvent::NoCandidate) => Some(ApplyPhase::Finished),
        (ApplyPhase::Probing, ApplyEvent::CandidateFound) => Some(ApplyPhase::Announcing),
        (ApplyPhase::Announcing, ApplyEvent::Notified) => Some(ApplyPhase::Downloading),
        (ApplyPhase::Announcing, ApplyEvent::NotifyFailed(_)) => Some(ApplyPhase::Finished),
        (ApplyPhase::Downloading, ApplyEvent::Progress { .. }) => Some(ApplyPhase::Downloading),
        (ApplyPhase::Downloading, ApplyEvent::Installed) => Some(
            ApplyPhase::AnnouncingDownloaded,
        ),
        (ApplyPhase::Downloading, ApplyEvent::InstallFailed(_)) => Some(ApplyPhase::Finished),
        (ApplyPhase::AnnouncingDownloaded, ApplyEvent::Notified) => Some(
            ApplyPhase::AnnouncingInstall,
        ),
        (ApplyPhase::AnnouncingDownloaded, ApplyEvent::NotifyFailed(_)) => Some(
            ApplyPhase::Finished,
        ),
        (ApplyPhase::AnnouncingInstall, ApplyEvent::Notified) => Some(ApplyPhase::Finished),
        (ApplyPhase::AnnouncingInstall, ApplyEvent::NotifyFailed(_)) => Some(ApplyPhase::Finished),
        _ => None,
    }
}

/// What is done on `event` in `phase`, where the event has a place there.
pub open spec fn is_action_for(phase: ApplyPhase, event: ApplyEvent, action: ApplyAction) -> bool {
    match (phase, event) {
        (ApplyPhase::Ready, ApplyEvent::Started) => action is CreateBackup,
        (ApplyPhase::BackingUp, ApplyEvent::BackupReported(Ok(result))) => if result.success {
            action is FindCandidate
        } else {
            action.fails_with(
                "Failed to create backup: "@ + option_debug_text(option_text(result.error)),
            )
        },
        (ApplyPhase::BackingUp, ApplyEvent::BackupReported(Err(e))) => action.fails_with(
            e.message(),
        ),
        (ApplyPhase::Probing, ApplyEvent::UpdaterUnavailable(reason)) => action.fails_with(
            reason@,
        ),
        (ApplyPhase::Probing, ApplyEvent::CheckFailed(reason)) => action.fails_with(reason@),
        (ApplyPhase::Probing, ApplyEvent::NoCandidate) => action matches ApplyAction::Finish(
            Ok(UpdateStatus::NoUpdateAvailable),
        ),
        (ApplyPhase::Probing, ApplyEvent::CandidateFound) => action == ApplyAction::Announce(
            Announcement::DownloadStarted,
        ),
        (ApplyPhase::Announcing, ApplyEvent::Notified) => action is DownloadAndInstall,
        (ApplyPhase::Downloading, ApplyEvent::Progress { chunk_length, content_length }) => {
            match content_length {
                Some(total) if total > 0 => action matches ApplyAction::Report(progress)
                    && progress.total_bytes() == total && progress.received_bytes() == (
                if chunk_length <= total {
                    chunk_length
                } else {
                    total
                }),
                _ => action is Wait,
            }
        },
        (ApplyPhase::Downloading, ApplyEvent::Installed) => action == ApplyAction::Announce(
            Announcement::DownloadComplete,
        ),
        (ApplyPhase::Downloading, ApplyEvent::InstallFailed(reason)) => action.fails_with(
            reason@,
        ),
        (ApplyPhase::AnnouncingDownloaded, ApplyEvent::Notified) => action
            == ApplyAction::Announce(Announcement::InstallStarted),
        (ApplyPhase::AnnouncingInstall, ApplyEvent::Notified) => action matches ApplyAction::Finish(
            Ok(UpdateStatus::Installing),
        ),
        (_, ApplyEvent::NotifyFailed(reason)) => action.aborts_with(reason@),
        _ => true,
    }
}

/// The phase after the first `n` of `events`, starting from `Ready`. An
/// event that has no place in the phase it meets is passed over.
pub open spec fn phase_after(events: Seq<ApplyEvent>, n: nat) -> ApplyPhase
    decreases n,
{
    if n == 0 || n > events.len() {
        ApplyPhase::Ready
    } else {
        let before = phase_after(events, (n - 1) as nat);
        match next_phase(before, events[n - 1]) {
            Some(phase) => phase,
            None => before,
        }
    }
}

/// Takes one step in the applying of an update: from the phase and what
/// happened to the next phase and what is to be done. The order is fixed:
/// the backup comes first and the update is not attempted without it;
/// then the candidate is looked up, the download is announced, the update
/// is downloaded and installed, and its end and the start of the
/// installation are announced. A backup that was not written, whether it
/// is reported as a result without success or as an error, ends the
/// attempt in the failed state. Returns `None` where the event has no
/// place in the phase.
pub fn download_and_apply_update(phase: ApplyPhase, event: ApplyEvent) -> (r: Option<ApplyStep>)
    ensures
        match next_phase(phase, event) {
            None => r is None,
            Some(next) => r matches Some(step) && step.phase == next && is_action_for(
                phase,
                event,
                step.action,
            ),
        },
{
    match (phase, event) {
        (ApplyPhase::Ready, ApplyEvent::Started) => Some(
            ApplyStep { phase: ApplyPhase::BackingUp, action: ApplyAction::CreateBackup },
        ),
        (ApplyPhase::BackingUp, ApplyEvent::BackupReported(Ok(result))) => {
            if result.success {
                Some(ApplyStep { phase: ApplyPhase::Probing, action: ApplyAction::FindCandidate })
            } else {
                let reason = join(
                    "Failed to create backup: ",
                    option_debug(&result.error).as_str(),
                );
                Some(
                    ApplyStep {
                        phase: ApplyPhase::Finished,
                        action: ApplyAction::Finish(Ok(UpdateStatus::Error(reason))),
                    },
                )
            }
        },
        (ApplyPhase::BackingUp, ApplyEvent::BackupReported(Err(e))) => Some(
            ApplyStep {
                phase: ApplyPhase::Finished,
                action: ApplyAction::Finish(Ok(UpdateStatus::Error(e.to_string()))),
            },
        ),
        (ApplyPhase::Probing, ApplyEvent::UpdaterUnavailable(reason)) => Some(
            ApplyStep {
                phase: ApplyPhase::Finished,
                action: ApplyAction::Finish(Ok(UpdateStatus::Error(reason))),
            },
        ),
        (ApplyPhase::Probing, ApplyEvent::CheckFailed(reason)) => Some(
            ApplyStep {
                phase: ApplyPhase::Finished,
                action: ApplyAction::Finish(Ok(UpdateStatus::Error(reason))),
            },
        ),
        (ApplyPhase::Probing, ApplyEvent::NoCandidate) => Some(
            ApplyStep {
                phase: ApplyPhase::Finished,
                action: ApplyAction::Finish(Ok(UpdateStatus::NoUpdateAvailable)),
            },
        ),
        (ApplyPhase::Probing, ApplyEvent::CandidateFound) => Some(
            ApplyStep {
                phase: ApplyPhase::Announcing,
                action: ApplyAction::Announce(Announcement::DownloadStarted),
            },
        ),
        (ApplyPhase::Announcing, ApplyEvent::Notified) => Some(
            ApplyStep { phase: ApplyPhase::Downloading, action: ApplyAction::DownloadAndInstall },
        ),
        (ApplyPhase::Announcing, ApplyEvent::NotifyFailed(reason)) => Some(
            ApplyStep { phase: ApplyPhase::Finished, action: ApplyAction::Finish(Err(reason)) },
        ),
        (ApplyPhase::Downloading, ApplyEvent::Progress { chunk_length, content_length }) => {
            let progress = match content_length {
                Some(total) => DownloadProgress::of(chunk_length, total),
                None => None,
            };
            let action = match progress {
                Some(progress) => ApplyAction::Report(progress),
                None => ApplyAction::Wait,
            };
            Some(ApplyStep { phase: ApplyPhase::Downloading, action })
        },
        (ApplyPhase::Downloading, ApplyEvent::Installed) => Some(
            ApplyStep {
                phase: ApplyPhase::AnnouncingDownloaded,
                action: ApplyAction::Announce(Announcement::DownloadComplete),
            },
        ),
        (ApplyPhase::Downloading, ApplyEvent::InstallFailed(reason)) => Some(
            ApplyStep {
                phase: ApplyPhase::Finished,
                action: ApplyAction::Finish(Ok(UpdateStatus::Error(reason))),
            },
        ),
        (ApplyPhase::AnnouncingDownloaded, ApplyEvent::Notified) => Some(
            ApplyStep {
                phase: ApplyPhase::AnnouncingInstall,
                action: ApplyAction::Announce(Announcement::InstallStarted),
            },
        ),
        (ApplyPhase::AnnouncingDownloaded, ApplyEvent::NotifyFailed(reason)) => Some(
            ApplyStep { phase: ApplyPhase::Finished, action: ApplyAction::Finish(Err(reason)) },
        ),
        (ApplyPhase::AnnouncingInstall, ApplyEvent::Notified) => Some(
            ApplyStep {
                phase: ApplyPhase::Finished,
                action: ApplyAction::Finish(Ok(UpdateStatus::Installing)),
            },
        ),
        (ApplyPhase::AnnouncingInstall, ApplyEvent::NotifyFailed(reason)) => Some(
            ApplyStep { phase: ApplyPhase::Finished, action: ApplyAction::Finish(Err(reason)) },
        ),
        _ => None,
    }
}

/// No step leads back: the phase that follows is never an earlier one,
/// and it is the same one only while a download reports its progress.
/// Nothing follows `Finished`.
pub proof fn lemma_phases_only_advance(phase: ApplyPhase, event: ApplyEvent)
    ensures
        next_phase(phase, event) matches Some(next) ==> {
            &&& phase.rank() <= next.rank()
            &&& (phase.rank() == next.rank() ==> phase == ApplyPhase::Downloading
                && event is Progress)
        },
        phase == ApplyPhase::Finished ==> next_phase(phase, event) is None,
{
}

/// The download is started in one place only: on the delivery of the
/// announcement that it starts. The update is installed by that action
/// and by no other.
pub proof fn lemma_download_starts_after_announcement(
    phase: ApplyPhase,
    event: ApplyEvent,
    action: ApplyAction,
)
    requires
        next_phase(phase, event) is Some,
        is_action_for(phase, event, action),
        action is DownloadAndInstall,
    ensures
        phase == ApplyPhase::Announcing,
        event is Notified,
{
}

/// What is announced goes with the phase: the start of the download is
/// announced on the way into `Announcing`, its end on the way into
/// `AnnouncingDownloaded` and the start of the installation on the way
/// into `AnnouncingInstall`; progress is reported during the download and
/// at no other time. With the phases, the states that the user interface
/// is told of only advance.
pub proof fn lemma_announcements_follow_the_phases(
    phase: ApplyPhase,
    event: ApplyEvent,
    action: ApplyAction,
)
    requires
        next_phase(phase, event) is Some,
        is_action_for(phase, event, action),
    ensures
        action matches ApplyAction::Announce(announcement) ==> next_phase(phase, event) == Some(
            match announcement {
                Announcement::DownloadStarted => ApplyPhase::Announcing,
                Announcement::DownloadComplete => ApplyPhase::AnnouncingDownloaded,
                Announcement::InstallStarted => ApplyPhase::AnnouncingInstall,
            },
        ),
        action is Report ==> phase == ApplyPhase::Downloading && next_phase(phase, event) == Some(
            ApplyPhase::Downloading,
        ),
        action is Finish <==> next_phase(phase, event) == Some(ApplyPhase::Finished),
{
}

/// An attempt ends in one of three states: nothing was on offer, the
/// attempt failed, or the installation has started. The last is only
/// reached from the announcement that the installation starts, which
/// follows the announcement that the download is complete.
pub proof fn lemma_an_attempt_ends_in_three_ways(
    phase: ApplyPhase,
    event: ApplyEvent,
    action: ApplyAction,
)
    requires
        next_phase(phase, event) is Some,
        is_action_for(phase, event, action),
    ensures
        action matches ApplyAction::Finish(Ok(status)) ==> status is NoUpdateAvailable
            || status is Error || status is Installing,
        action matches ApplyAction::Finish(Ok(UpdateStatus::Installing)) ==> phase
            == ApplyPhase::AnnouncingInstall && event is Notified,
        action matches ApplyAction::Finish(Ok(UpdateStatus::NoUpdateAvailable)) ==> phase
            == ApplyPhase::Probing && event is NoCandidate,
{
}

/// A backup that was not written ends the attempt in the failed state,
/// with a reason that names the failure: nothing else is done, and the
/// command itself does not fail.
pub proof fn lemma_failed_backup_ends_in_the_failed_state(event: ApplyEvent, action: ApplyAction)
    requires
        event is BackupReported,
        !is_successful_backup(event),
        is_action_for(ApplyPhase::BackingUp, event, action),
    ensures
        next_phase(ApplyPhase::BackingUp, event) == Some(ApplyPhase::Finished),
        action matches ApplyAction::Finish(Ok(UpdateStatus::Error(_))),
        event matches ApplyEvent::BackupReported(Err(e)) ==> action.fails_with(e.message()),
{
}

/// A phase that lies behind the backup is only reached after a backup
/// was reported as written.
pub proof fn lemma_backup_comes_first(events: Seq<ApplyEvent>, n: nat)
    requires
        n <= events.len(),
        phase_after(events, n).is_backed_up(),
    ensures
        exists|j: int| 0 <= j < n && is_successful_backup(#[trigger] events[j]),
    decreases n,
{
    if n > 0 {
        let before = phase_after(events, (n - 1) as nat);
        if before.is_backed_up() {
            lemma_backup_comes_first(events, (n - 1) as nat);
        } else {
            assert(is_successful_backup(events[n - 1]));
        }
    }
}

/// Whatever happens in whatever order, the download of an update is not
/// started unless a backup was written before.
pub proof fn lemma_no_download_without_backup(
    events: Seq<ApplyEvent>,
    n: nat,
    action: ApplyAction,
)
    requires
        n < events.len(),
        next_phase(phase_after(events, n), events[n as int]) is Some,
        is_action_for(phase_after(events, n), events[n as int], action),
        action is DownloadAndInstall,
    ensures
        exists|j: int| 0 <= j < n && is_successful_backup(#[trigger] events[j]),
{
    lemma_download_starts_after_announcement(phase_after(events, n), events[n as int], action);
    lemma_backup_comes_first(events, n);
}

} // verus!
