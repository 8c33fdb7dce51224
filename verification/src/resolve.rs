//! The resolution and provisioning state machine.
//!
//! A [`Resolver`] decides which executable of the language server to launch.
//! It performs no outside work itself: the host drives it by answering each
//! [`Step::Ask`] query with the matching [`Event`], until the machine ends the
//! attempt with [`Step::Done`] or [`Step::Fail`].  The whole transition
//! relation is the spec function [`spec_step`]; every decision the machine
//! takes is proved against it.
//!
//! Resolution order, first success wins: explicit settings path, PATH lookup,
//! validated cache, remote provisioning (fetch release metadata, select the
//! asset for this platform, download and extract unless already installed,
//! sweep stale version directories, cache the new path).

use vstd::prelude::*;
use crate::naming::{
    asset_name, asset_stem, binary_path, spec_asset_name, spec_asset_stem, spec_binary_path,
    spec_version_dir, version_dir_name,
};
use crate::platform::{Arch, ArchiveKind, Os, archive_kind, spec_archive_kind};
use crate::release::{ReleaseMetadata, ReleaseModel, find_asset, spec_find_asset, spec_stale, stale_entries};

verus! {

/// Per-worktree configuration for the server binary: an optional explicit
/// executable path and an optional argument override.
pub struct BinarySettings {
    pub path: Option<String>,
    pub arguments: Option<Vec<String>>,
}

/// Mathematical model of [`BinarySettings`].
#[verifier::ext_equal]
pub struct BinarySettingsModel {
    pub path: Option<Seq<char>>,
    pub arguments: Option<Seq<Seq<char>>>,
}

impl View for BinarySettings {
    type V = BinarySettingsModel;

    open spec fn view(&self) -> BinarySettingsModel {
        BinarySettingsModel { path: self.path.deep_view(), arguments: self.arguments.deep_view() }
    }
}

impl DeepView for BinarySettings {
    type V = BinarySettingsModel;

    open spec fn deep_view(&self) -> BinarySettingsModel {
        self@
    }
}

/// The triple handed to the host's process spawner: executable path,
/// argument list and environment variables.  Immutable once constructed.
pub struct LaunchDescriptor {
    pub executable_path: String,
    pub arguments: Vec<String>,
    pub environment: Vec<(String, String)>,
}

/// Mathematical model of [`LaunchDescriptor`].
#[verifier::ext_equal]
pub struct DescriptorModel {
    pub executable_path: Seq<char>,
    pub arguments: Seq<Seq<char>>,
    pub environment: Seq<(Seq<char>, Seq<char>)>,
}

impl View for LaunchDescriptor {
    type V = DescriptorModel;

    open spec fn view(&self) -> DescriptorModel {
        DescriptorModel {
            executable_path: self.executable_path@,
            arguments: self.arguments.deep_view(),
            environment: self.environment.deep_view(),
        }
    }
}

/// Typed failure of one resolution attempt.  Every kind is terminal for the
/// attempt; the host may retry only by starting a new resolution.
pub enum ResolveError {
    /// The release offers no asset whose name matches the one computed for
    /// this platform and architecture.  Permanent for that release.
    AssetNotFound { asset_name: String },
    /// Downloading or extracting the matched asset failed.
    DownloadFailed { cause: String },
    /// No binary was found locally and the release metadata could not be
    /// fetched, so no resolution path is left.
    NoBinaryAvailable { cause: String },
}

/// Mathematical model of [`ResolveError`].
#[verifier::ext_equal]
pub enum ErrorModel {
    AssetNotFound { asset_name: Seq<char> },
    DownloadFailed { cause: Seq<char> },
    NoBinaryAvailable { cause: Seq<char> },
}

impl View for ResolveError {
    type V = ErrorModel;

    open spec fn view(&self) -> ErrorModel {
        match self {
            ResolveError::AssetNotFound { asset_name } => ErrorModel::AssetNotFound {
                asset_name: asset_name@,
            },
            ResolveError::DownloadFailed { cause } => ErrorModel::DownloadFailed { cause: cause@ },
            ResolveError::NoBinaryAvailable { cause } => ErrorModel::NoBinaryAvailable {
                cause: cause@,
            },
        }
    }
}

impl ResolveError {
    /// Human-readable text surfaced to the host.  For the exhausted case it
    /// names the manual installation command, since no automated recovery is
    /// left.
    pub fn message(&self) -> (r: String)
        ensures
            r@ == match self@ {
                ErrorModel::AssetNotFound { asset_name } => "no asset found matching "@
                    + asset_name,
                ErrorModel::DownloadFailed { cause } => "failed to download file: "@ + cause,
                ErrorModel::NoBinaryAvailable { cause } => "no ty binary available: "@ + cause
                    + "; install it manually, for example with `pip install ty`, or set an explicit binary path in the settings"@,
            },
    {
        match self {
            ResolveError::AssetNotFound { asset_name } => String::from_str(
                "no asset found matching ",
            ).concat(asset_name.as_str()),
            ResolveError::DownloadFailed { cause } => String::from_str(
                "failed to download file: ",
            ).concat(cause.as_str()),
            ResolveError::NoBinaryAvailable { cause } => String::from_str(
                "no ty binary available: ",
            ).concat(cause.as_str()).concat(
                "; install it manually, for example with `pip install ty`, or set an explicit binary path in the settings",
            ),
        }
    }
}

/// An installation progress report, purely observational for the host.
#[derive(Clone, Copy, PartialEq, Eq, Structural, Debug)]
pub enum Status {
    CheckingForUpdate,
    Downloading,
}

/// One piece of outside work the resolver asks the host to perform.
pub enum Query {
    /// Look up the worktree's binary settings for the server.
    FetchSettings,
    /// Search the worktree's PATH for the server binary.
    LookupPath,
    /// Check whether `path` currently is a regular file on disk.
    CheckFile { path: String },
    /// Report installation progress (observational, nothing to decide).
    Notify { status: Status },
    /// Fetch the latest release metadata from the fixed upstream source,
    /// allowing pre-releases and requiring assets.
    FetchRelease,
    /// Download the archive at `url` and extract it into `version_dir`.
    Download { url: String, version_dir: String, kind: ArchiveKind },
    /// List the entry names of the extension's working directory.
    ListWorkingDir,
    /// Remove the named working-directory entries, best-effort.
    Remove { entries: Vec<String> },
}

/// Mathematical model of [`Query`].
#[verifier::ext_equal]
pub enum QueryModel {
    FetchSettings,
    LookupPath,
    CheckFile { path: Seq<char> },
    Notify { status: Status },
    FetchRelease,
    Download { url: Seq<char>, version_dir: Seq<char>, kind: ArchiveKind },
    ListWorkingDir,
    Remove { entries: Seq<Seq<char>> },
}

impl View for Query {
    type V = QueryModel;

    open spec fn view(&self) -> QueryModel {
        match self {
            Query::FetchSettings => QueryModel::FetchSettings,
            Query::LookupPath => QueryModel::LookupPath,
            Query::CheckFile { path } => QueryModel::CheckFile { path: path@ },
            Query::Notify { status } => QueryModel::Notify { status: *status },
            Query::FetchRelease => QueryModel::FetchRelease,
            Query::Download { url, version_dir, kind } => QueryModel::Download {
                url: url@,
                version_dir: version_dir@,
                kind: *kind,
            },
            Query::ListWorkingDir => QueryModel::ListWorkingDir,
            Query::Remove { entries } => QueryModel::Remove { entries: entries.deep_view() },
        }
    }
}

/// The host's answer to the query the resolver asked last.
pub enum Event {
    /// Result of the settings lookup; `None` when the settings are absent or
    /// malformed (treated as "no override", never as an error).
    Settings { settings: Option<BinarySettings> },
    /// Result of the PATH lookup.
    PathFound { path: Option<String> },
    /// Whether the checked path currently is a regular file.
    FileChecked { is_file: bool },
    /// The progress report was delivered.
    Notified,
    /// Result of the release-metadata fetch.
    ReleaseFetched { release: Result<ReleaseMetadata, String> },
    /// Result of the download-and-extract step.
    Downloaded { outcome: Result<(), String> },
    /// The entry names of the working directory.
    WorkingDirListed { entries: Vec<String> },
    /// The removal sweep was attempted (failures are tolerated).
    Removed,
}

/// Mathematical model of [`Event`].
#[verifier::ext_equal]
pub enum EventModel {
    Settings { settings: Option<BinarySettingsModel> },
    PathFound { path: Option<Seq<char>> },
    FileChecked { is_file: bool },
    Notified,
    ReleaseFetched { release: Result<ReleaseModel, Seq<char>> },
    Downloaded { outcome: Result<(), Seq<char>> },
    WorkingDirListed { entries: Seq<Seq<char>> },
    Removed,
}

impl View for Event {
    type V = EventModel;

    open spec fn view(&self) -> EventModel {
        match self {
            Event::Settings { settings } => EventModel::Settings {
                settings: settings.deep_view(),
            },
            Event::PathFound { path } => EventModel::PathFound { path: path.deep_view() },
            Event::FileChecked { is_file } => EventModel::FileChecked { is_file: *is_file },
            Event::Notified => EventModel::Notified,
            Event::ReleaseFetched { release } => EventModel::ReleaseFetched {
                release: match release {
                    Ok(rel) => Ok(rel@),
                    Err(cause) => Err(cause@),
                },
            },
            Event::Downloaded { outcome } => EventModel::Downloaded {
                outcome: match outcome {
                    Ok(u) => Ok(*u),
                    Err(cause) => Err(cause@),
                },
            },
            Event::WorkingDirListed { entries } => EventModel::WorkingDirListed {
                entries: entries.deep_view(),
            },
            Event::Removed => EventModel::Removed,
        }
    }
}

/// What the resolver wants next: another answered query, or the end of the
/// attempt.
pub enum Step {
    Ask { query: Query },
    Done { descriptor: LaunchDescriptor },
    Fail { error: ResolveError },
}

/// Mathematical model of [`Step`].
#[verifier::ext_equal]
pub enum StepModel {
    Ask { query: QueryModel },
    Done { descriptor: DescriptorModel },
    Fail { error: ErrorModel },
}

impl View for Step {
    type V = StepModel;

    open spec fn view(&self) -> StepModel {
        match self {
            Step::Ask { query } => StepModel::Ask { query: query@ },
            Step::Done { descriptor } => StepModel::Done { descriptor: descriptor@ },
            Step::Fail { error } => StepModel::Fail { error: error@ },
        }
    }
}

/// Where the resolver stands inside one resolution attempt: which query it
/// is waiting to see answered, with the values already decided on.
pub enum Phase {
    /// No attempt is under way.
    Idle,
    AwaitSettings,
    AwaitPathLookup,
    AwaitCacheCheck { path: String },
    AwaitFetchNotify,
    AwaitRelease,
    AwaitInstallCheck { url: String, version_dir: String, binary_path: String },
    AwaitDownloadNotify { url: String, version_dir: String, binary_path: String },
    AwaitDownload { version_dir: String, binary_path: String },
    AwaitListing { version_dir: String, binary_path: String },
    AwaitSweep { binary_path: String },
}

/// Mathematical model of [`Phase`].
#[verifier::ext_equal]
pub enum PhaseModel {
    Idle,
    AwaitSettings,
    AwaitPathLookup,
    AwaitCacheCheck { path: Seq<char> },
    AwaitFetchNotify,
    AwaitRelease,
    AwaitInstallCheck { url: Seq<char>, version_dir: Seq<char>, binary_path: Seq<char> },
    AwaitDownloadNotify { url: Seq<char>, version_dir: Seq<char>, binary_path: Seq<char> },
    AwaitDownload { version_dir: Seq<char>, binary_path: Seq<char> },
    AwaitListing { version_dir: Seq<char>, binary_path: Seq<char> },
    AwaitSweep { binary_path: Seq<char> },
}

impl View for Phase {
    type V = PhaseModel;

    open spec fn view(&self) -> PhaseModel {
        match self {
            Phase::Idle => PhaseModel::Idle,
            Phase::AwaitSettings => PhaseModel::AwaitSettings,
            Phase::AwaitPathLookup => PhaseModel::AwaitPathLookup,
            Phase::AwaitCacheCheck { path } => PhaseModel::AwaitCacheCheck { path: path@ },
            Phase::AwaitFetchNotify => PhaseModel::AwaitFetchNotify,
            Phase::AwaitRelease => PhaseModel::AwaitRelease,
            Phase::AwaitInstallCheck { url, version_dir, binary_path } => {
                PhaseModel::AwaitInstallCheck {
                    url: url@,
                    version_dir: version_dir@,
                    binary_path: binary_path@,
                }
            },
            Phase::AwaitDownloadNotify { url, version_dir, binary_path } => {
                PhaseModel::AwaitDownloadNotify {
                    url: url@,
                    version_dir: version_dir@,
                    binary_path: binary_path@,
                }
            },
            Phase::AwaitDownload { version_dir, binary_path } => PhaseModel::AwaitDownload {
                version_dir: version_dir@,
                binary_path: binary_path@,
            },
            Phase::AwaitListing { version_dir, binary_path } => PhaseModel::AwaitListing {
                version_dir: version_dir@,
                binary_path: binary_path@,
            },
            Phase::AwaitSweep { binary_path } => PhaseModel::AwaitSweep {
                binary_path: binary_path@,
            },
        }
    }
}

/// The resolver: the fixed server identifier, the host platform, the cached
/// path of the last successful provisioning (process-wide, never persisted),
/// and the state of the current attempt.
pub struct Resolver {
    /// The fixed server identifier, also the binary name looked up on PATH.
    pub tool: String,
    pub platform: Os,
    pub arch: Arch,
    /// Set only after a successful provisioning cycle; re-validated on disk
    /// before every reuse, never trusted as-is.
    pub cached_binary_path: Option<String>,
    /// The worktree's shell environment for the current attempt.
    pub environment: Vec<(String, String)>,
    /// The argument override from the settings of the current attempt.
    pub args_override: Option<Vec<String>>,
    pub phase: Phase,
}

/// Mathematical model of [`Resolver`].
#[verifier::ext_equal]
pub struct ResolverModel {
    pub tool: Seq<char>,
    pub platform: Os,
    pub arch: Arch,
    pub cached_binary_path: Option<Seq<char>>,
    pub environment: Seq<(Seq<char>, Seq<char>)>,
    pub args_override: Option<Seq<Seq<char>>>,
    pub phase: PhaseModel,
}

impl View for Resolver {
    type V = ResolverModel;

    open spec fn view(&self) -> ResolverModel {
        ResolverModel {
            tool: self.tool@,
            platform: self.platform,
            arch: self.arch,
            cached_binary_path: self.cached_binary_path.deep_view(),
            environment: self.environment.deep_view(),
            args_override: self.args_override.deep_view(),
            phase: self.phase@,
        }
    }
}

/// The launch descriptor for `path` under the policy of the current attempt:
/// the settings' argument override if present, else the single fixed
/// `server` subcommand; the environment captured at the start of the
/// attempt.
pub open spec fn spec_descriptor(m: ResolverModel, path: Seq<char>) -> DescriptorModel {
    DescriptorModel {
        executable_path: path,
        arguments: match m.args_override {
            Some(args) => args,
            None => seq!["server"@],
        },
        environment: m.environment,
    }
}

/// Starting a resolution attempt: capture the environment, forget the
/// previous attempt's argument override, and ask for the settings first.
pub open spec fn spec_begin(pre: ResolverModel, environment: Seq<(Seq<char>, Seq<char>)>) -> (
    ResolverModel,
    StepModel,
) {
    (
        ResolverModel { environment, args_override: None, phase: PhaseModel::AwaitSettings, ..pre },
        StepModel::Ask { query: QueryModel::FetchSettings },
    )
}

/// The full transition relation of one step: from the machine's state and
/// the host's answer to the next state and the next step.  `None` when the
/// event does not answer the query the machine is waiting on.
pub open spec fn spec_step(pre: ResolverModel, event: EventModel) -> Option<
    (ResolverModel, StepModel),
> {
    match (pre.phase, event) {
        (PhaseModel::AwaitSettings, EventModel::Settings { settings }) => {
            let path = match settings {
                Some(s) => s.path,
                None => None,
            };
            let mid = ResolverModel {
                args_override: match settings {
                    Some(s) => s.arguments,
                    None => None,
                },
                ..pre
            };
            match path {
                Some(p) => Some(
                    (
                        ResolverModel { phase: PhaseModel::Idle, ..mid },
                        StepModel::Done { descriptor: spec_descriptor(mid, p) },
                    ),
                ),
                None => Some(
                    (
                        ResolverModel { phase: PhaseModel::AwaitPathLookup, ..mid },
                        StepModel::Ask { query: QueryModel::LookupPath },
                    ),
                ),
            }
        },
        (PhaseModel::AwaitPathLookup, EventModel::PathFound { path }) => match path {
            Some(p) => Some(
                (
                    ResolverModel { phase: PhaseModel::Idle, ..pre },
                    StepModel::Done { descriptor: spec_descriptor(pre, p) },
                ),
            ),
            None => match pre.cached_binary_path {
                Some(c) => Some(
                    (
                        ResolverModel { phase: PhaseModel::AwaitCacheCheck { path: c }, ..pre },
                        StepModel::Ask { query: QueryModel::CheckFile { path: c } },
                    ),
                ),
                None => Some(
                    (
                        ResolverModel { phase: PhaseModel::AwaitFetchNotify, ..pre },
                        StepModel::Ask {
                            query: QueryModel::Notify { status: Status::CheckingForUpdate },
                        },
                    ),
                ),
            },
        },
        (PhaseModel::AwaitCacheCheck { path }, EventModel::FileChecked { is_file }) => {
            if is_file {
                Some(
                    (
                        ResolverModel { phase: PhaseModel::Idle, ..pre },
                        StepModel::Done { descriptor: spec_descriptor(pre, path) },
                    ),
                )
            } else {
                Some(
                    (
                        ResolverModel { phase: PhaseModel::AwaitFetchNotify, ..pre },
                        StepModel::Ask {
                            query: QueryModel::Notify { status: Status::CheckingForUpdate },
                        },
                    ),
                )
            }
        },
        (PhaseModel::AwaitFetchNotify, EventModel::Notified) => Some(
            (
                ResolverModel { phase: PhaseModel::AwaitRelease, ..pre },
                StepModel::Ask { query: QueryModel::FetchRelease },
            ),
        ),
        (PhaseModel::AwaitRelease, EventModel::ReleaseFetched { release }) => match release {
            Err(cause) => Some(
                (
                    ResolverModel { phase: PhaseModel::Idle, ..pre },
                    StepModel::Fail { error: ErrorModel::NoBinaryAvailable { cause } },
                ),
            ),
            Ok(rel) => {
                let name = spec_asset_name(pre.tool, pre.arch, pre.platform);
                match spec_find_asset(rel.assets, name) {
                    None => Some(
                        (
                            ResolverModel { phase: PhaseModel::Idle, ..pre },
                            StepModel::Fail { error: ErrorModel::AssetNotFound { asset_name: name } },
                        ),
                    ),
                    Some(asset) => {
                        let version_dir = spec_version_dir(pre.tool, rel.version);
                        let stem = spec_asset_stem(pre.tool, pre.arch, pre.platform);
                        let bp = spec_binary_path(pre.tool, version_dir, stem, pre.platform);
                        Some(
                            (
                                ResolverModel {
                                    phase: PhaseModel::AwaitInstallCheck {
                                        url: asset.download_url,
                                        version_dir,
                                        binary_path: bp,
                                    },
                                    ..pre
                                },
                                StepModel::Ask { query: QueryModel::CheckFile { path: bp } },
                            ),
                        )
                    },
                }
            },
        },
        (
            PhaseModel::AwaitInstallCheck { url, version_dir, binary_path },
            EventModel::FileChecked { is_file },
        ) => {
            if is_file {
                Some(
                    (
                        ResolverModel {
                            phase: PhaseModel::Idle,
                            cached_binary_path: Some(binary_path),
                            ..pre
                        },
                        StepModel::Done { descriptor: spec_descriptor(pre, binary_path) },
                    ),
                )
            } else {
                Some(
                    (
                        ResolverModel {
                            phase: PhaseModel::AwaitDownloadNotify { url, version_dir, binary_path },
                            ..pre
                        },
                        StepModel::Ask { query: QueryModel::Notify { status: Status::Downloading } },
                    ),
                )
            }
        },
        (
            PhaseModel::AwaitDownloadNotify { url, version_dir, binary_path },
            EventModel::Notified,
        ) => Some(
            (
                ResolverModel {
                    phase: PhaseModel::AwaitDownload { version_dir, binary_path },
                    ..pre
                },
                StepModel::Ask {
                    query: QueryModel::Download {
                        url,
                        version_dir,
                        kind: spec_archive_kind(pre.platform),
                    },
                },
            ),
        ),
        (
            PhaseModel::AwaitDownload { version_dir, binary_path },
            EventModel::Downloaded { outcome },
        ) => match outcome {
            Err(cause) => Some(
                (
                    ResolverModel { phase: PhaseModel::Idle, ..pre },
                    StepModel::Fail { error: ErrorModel::DownloadFailed { cause } },
                ),
            ),
            Ok(_) => Some(
                (
                    ResolverModel {
                        phase: PhaseModel::AwaitListing { version_dir, binary_path },
                        ..pre
                    },
                    StepModel::Ask { query: QueryModel::ListWorkingDir },
                ),
            ),
        },
        (
            PhaseModel::AwaitListing { version_dir, binary_path },
            EventModel::WorkingDirListed { entries },
        ) => Some(
            (
                ResolverModel { phase: PhaseModel::AwaitSweep { binary_path }, ..pre },
                StepModel::Ask {
                    query: QueryModel::Remove { entries: spec_stale(entries, version_dir) },
                },
            ),
        ),
        (PhaseModel::AwaitSweep { binary_path }, EventModel::Removed) => Some(
            (
                ResolverModel {
                    phase: PhaseModel::Idle,
                    cached_binary_path: Some(binary_path),
                    ..pre
                },
                StepModel::Done { descriptor: spec_descriptor(pre, binary_path) },
            ),
        ),
        _ => None,
    }
}

/// A query whose answer needs the network: the release-metadata fetch and
/// the archive download.
pub open spec fn is_network_query(q: QueryModel) -> bool {
    q is FetchRelease || q is Download
}

fn clone_strings(v: &Vec<String>) -> (r: Vec<String>)
    ensures
        r.deep_view() == v.deep_view(),
{
    let ghost model = v.deep_view();
    let mut r: Vec<String> = Vec::new();
    proof {
        assert(r.deep_view() =~= model.take(0));
    }
    let mut i: usize = 0;
    while i < v.len()
        invariant
            i <= v.len(),
            model == v.deep_view(),
            r.deep_view() == model.take(i as int),
        decreases v.len() - i,
    {
        let ghost prev = r.deep_view();
        r.push(v[i].clone());
        proof {
            assert(r.deep_view() =~= prev.push(model[i as int]));
            assert(model.take(i as int + 1) =~= model.take(i as int).push(model[i as int]));
        }
        i += 1;
    }
    proof {
        assert(model.take(i as int) =~= model);
    }
    r
}

fn clone_environment(v: &Vec<(String, String)>) -> (r: Vec<(String, String)>)
    ensures
        r.deep_view() == v.deep_view(),
{
    let ghost model = v.deep_view();
    let mut r: Vec<(String, String)> = Vec::new();
    proof {
        assert(r.deep_view() =~= model.take(0));
    }
    let mut i: usize = 0;
    while i < v.len()
        invariant
            i <= v.len(),
            model == v.deep_view(),
            r.deep_view() == model.take(i as int),
        decreases v.len() - i,
    {
        let ghost prev = r.deep_view();
        let pair = (v[i].0.clone(), v[i].1.clone());
        r.push(pair);
        proof {
            assert(r.deep_view() =~= prev.push(model[i as int]));
            assert(model.take(i as int + 1) =~= model.take(i as int).push(model[i as int]));
        }
        i += 1;
    }
    proof {
        assert(model.take(i as int) =~= model);
    }
    r
}

impl Resolver {
    /// A fresh resolver for the `ty` server on the given host platform, with
    /// an empty cache.
    pub fn new(platform: Os, arch: Arch) -> (r: Resolver)
        ensures
            r@.tool == "ty"@,
            r@.platform == platform,
            r@.arch == arch,
            r@.cached_binary_path is None,
            r@.environment == Seq::<(Seq<char>, Seq<char>)>::empty(),
            r@.args_override is None,
            r@.phase is Idle,
    {
        Resolver {
            tool: String::from_str("ty"),
            platform,
            arch,
            cached_binary_path: None,
            environment: Vec::new(),
            args_override: None,
            phase: Phase::Idle,
        }
    }

    /// The launch descriptor for `path` under the current attempt's policy.
    fn make_descriptor(&self, path: String) -> (d: LaunchDescriptor)
        ensures
            d@ == spec_descriptor(self@, path@),
    {
        let arguments = match &self.args_override {
            Some(args) => clone_strings(args),
            None => {
                let mut v: Vec<String> = Vec::new();
                v.push(String::from_str("server"));
                proof {
                    assert(v.deep_view() =~= seq!["server"@]);
                }
                v
            },
        };
        let environment = clone_environment(&self.environment);
        LaunchDescriptor { executable_path: path, arguments, environment }
    }

    /// Start a resolution attempt with the worktree's shell environment
    /// (empty when the host does not capture one).
    pub fn begin(&mut self, environment: Vec<(String, String)>) -> (step: Step)
        requires
            old(self)@.phase is Idle,
        ensures
            (final(self)@, step@) == spec_begin(old(self)@, environment.deep_view()),
    {
        self.environment = environment;
        self.args_override = None;
        self.phase = Phase::AwaitSettings;
        Step::Ask { query: Query::FetchSettings }
    }

    /// Whether `event` answers the query the resolver is waiting on.
    pub fn accepts(&self, event: &Event) -> (b: bool)
        ensures
            b == (spec_step(self@, event@) is Some),
    {
        match (&self.phase, event) {
            (Phase::AwaitSettings, Event::Settings { .. }) => true,
            (Phase::AwaitPathLookup, Event::PathFound { .. }) => true,
            (Phase::AwaitCacheCheck { .. }, Event::FileChecked { .. }) => true,
            (Phase::AwaitFetchNotify, Event::Notified) => true,
            (Phase::AwaitRelease, Event::ReleaseFetched { .. }) => true,
            (Phase::AwaitInstallCheck { .. }, Event::FileChecked { .. }) => true,
            (Phase::AwaitDownloadNotify { .. }, Event::Notified) => true,
            (Phase::AwaitDownload { .. }, Event::Downloaded { .. }) => true,
            (Phase::AwaitListing { .. }, Event::WorkingDirListed { .. }) => true,
            (Phase::AwaitSweep { .. }, Event::Removed) => true,
            _ => false,
        }
    }

    /// Take the host's answer and move one step: the exec side of
    /// [`spec_step`].
    pub fn step(&mut self, event: Event) -> (step: Step)
        requires
            spec_step(old(self)@, event@) is Some,
        ensures
            Some((final(self)@, step@)) == spec_step(old(self)@, event@),
    {
        match (&self.phase, event) {
            (Phase::AwaitSettings, Event::Settings { settings }) => {
                let (path, args) = match settings {
                    Some(s) => (s.path, s.arguments),
                    None => (None, None),
                };
                self.args_override = args;
                match path {
                    Some(p) => {
                        let descriptor = self.make_descriptor(p);
                        self.phase = Phase::Idle;
                        Step::Done { descriptor }
                    },
                    None => {
                        self.phase = Phase::AwaitPathLookup;
                        Step::Ask { query: Query::LookupPath }
                    },
                }
            },
            (Phase::AwaitPathLookup, Event::PathFound { path }) => match path {
                Some(p) => {
                    let descriptor = self.make_descriptor(p);
                    self.phase = Phase::Idle;
                    Step::Done { descriptor }
                },
                None => match &self.cached_binary_path {
                    Some(c) => {
                        let c1 = c.clone();
                        let c2 = c1.clone();
                        self.phase = Phase::AwaitCacheCheck { path: c1 };
                        Step::Ask { query: Query::CheckFile { path: c2 } }
                    },
                    None => {
                        self.phase = Phase::AwaitFetchNotify;
                        Step::Ask { query: Query::Notify { status: Status::CheckingForUpdate } }
                    },
                },
            },
            (Phase::AwaitCacheCheck { path }, Event::FileChecked { is_file }) => {
                if is_file {
                    let p = path.clone();
                    let descriptor = self.make_descriptor(p);
                    self.phase = Phase::Idle;
                    Step::Done { descriptor }
                } else {
                    self.phase = Phase::AwaitFetchNotify;
                    Step::Ask { query: Query::Notify { status: Status::CheckingForUpdate } }
                }
            },
            (Phase::AwaitFetchNotify, Event::Notified) => {
                self.phase = Phase::AwaitRelease;
                Step::Ask { query: Query::FetchRelease }
            },
            (Phase::AwaitRelease, Event::ReleaseFetched { release }) => match release {
                Err(cause) => {
                    self.phase = Phase::Idle;
                    Step::Fail { error: ResolveError::NoBinaryAvailable { cause } }
                },
                Ok(rel) => {
                    let name = asset_name(self.tool.as_str(), self.arch, self.platform);
                    match find_asset(&rel.assets, &name) {
                        None => {
                            self.phase = Phase::Idle;
                            Step::Fail { error: ResolveError::AssetNotFound { asset_name: name } }
                        },
                        Some(i) => {
                            let url = rel.assets[i].download_url.clone();
                            let version_dir = version_dir_name(
                                self.tool.as_str(),
                                rel.version.as_str(),
                            );
                            let stem = asset_stem(self.tool.as_str(), self.arch, self.platform);
                            let bp = binary_path(
                                self.tool.as_str(),
                                version_dir.as_str(),
                                stem.as_str(),
                                self.platform,
                            );
                            let query = Query::CheckFile { path: bp.clone() };
                            self.phase = Phase::AwaitInstallCheck {
                                url,
                                version_dir,
                                binary_path: bp,
                            };
                            Step::Ask { query }
                        },
                    }
                },
            },
            (
                Phase::AwaitInstallCheck { url, version_dir, binary_path },
                Event::FileChecked { is_file },
            ) => {
                if is_file {
                    let bp = binary_path.clone();
                    let descriptor = self.make_descriptor(bp.clone());
                    self.cached_binary_path = Some(bp);
                    self.phase = Phase::Idle;
                    Step::Done { descriptor }
                } else {
                    let u = url.clone();
                    let vd = version_dir.clone();
                    let bp = binary_path.clone();
                    self.phase = Phase::AwaitDownloadNotify {
                        url: u,
                        version_dir: vd,
                        binary_path: bp,
                    };
                    Step::Ask { query: Query::Notify { status: Status::Downloading } }
                }
            },
            (Phase::AwaitDownloadNotify { url, version_dir, binary_path }, Event::Notified) => {
                let u = url.clone();
                let vd = version_dir.clone();
                let vd2 = vd.clone();
                let bp = binary_path.clone();
                let kind = archive_kind(self.platform);
                self.phase = Phase::AwaitDownload { version_dir: vd, binary_path: bp };
                Step::Ask { query: Query::Download { url: u, version_dir: vd2, kind } }
            },
            (
                Phase::AwaitDownload { version_dir, binary_path },
                Event::Downloaded { outcome },
            ) => match outcome {
                Err(cause) => {
                    self.phase = Phase::Idle;
                    Step::Fail { error: ResolveError::DownloadFailed { cause } }
                },
                Ok(_) => {
                    let vd = version_dir.clone();
                    let bp = binary_path.clone();
                    self.phase = Phase::AwaitListing { version_dir: vd, binary_path: bp };
                    Step::Ask { query: Query::ListWorkingDir }
                },
            },
            (
                Phase::AwaitListing { version_dir, binary_path },
                Event::WorkingDirListed { entries },
            ) => {
                let stale = stale_entries(&entries, version_dir);
                let bp = binary_path.clone();
                self.phase = Phase::AwaitSweep { binary_path: bp };
                Step::Ask { query: Query::Remove { entries: stale } }
            },
            (Phase::AwaitSweep { binary_path }, Event::Removed) => {
                let bp = binary_path.clone();
                let descriptor = self.make_descriptor(bp.clone());
                self.cached_binary_path = Some(bp);
                self.phase = Phase::Idle;
                Step::Done { descriptor }
            },
            _ => {
                proof {
                    assert(false);
                }
                vstd::pervasive::unreached()
            },
        }
    }
}

} // verus!
