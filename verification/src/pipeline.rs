//! The resolution pipeline as a state machine.
//!
//! Every decision of a resolution call is made by [`step`]: the host owns
//! the I/O (reading the version-cache file, querying the release index,
//! downloading, marking the binary executable), performs the one operation
//! the current state calls for, and feeds the outcome back as an [`Event`].
//! A run starts in [`State::AwaitConfig`] and ends in [`State::Done`] or
//! [`State::Failed`].

use vstd::prelude::*;
use crate::cache::{install_needed, needs_install};
use crate::command::{build_command, CommandDescriptor};
use crate::config::ConfiguredPath;
use crate::platform::{
    asset_choice_of, bundled_binary_path, bundled_path_of, ArchiveKind, PlatformTarget,
};
verus! {

/// The latest published release: its version identifier (an opaque string,
/// compared only for equality) and the download URLs of its assets, in the
/// order the release lists them.
#[derive(PartialEq, Eq, Debug)]
pub struct ReleaseInfo {
    pub version: String,
    pub asset_urls: Vec<String>,
}

/// One download the installer should perform: the asset's URL and its
/// archive format.
#[derive(Clone, PartialEq, Eq, Debug)]
pub struct DownloadSpec {
    pub url: String,
    pub kind: ArchiveKind,
}

/// The download that asset selection yields for this platform: the asset at
/// the platform's fixed position, in the platform's archive format; nothing
/// when the platform is unsupported or the release has no asset at that
/// position.
pub open spec fn download_matches(
    target: PlatformTarget,
    assets: Seq<Seq<char>>,
    d: Option<DownloadSpec>,
) -> bool {
    match asset_choice_of(target) {
        Some(choice) => if choice.0 < assets.len() {
            d matches Some(ds) && ds.url@ == assets[choice.0] && ds.kind == choice.1
        } else {
            d is None
        },
        None => d is None,
    }
}

/// Selects this platform's asset out of a release's asset list, by the
/// platform's fixed position.
pub fn select_asset(target: PlatformTarget, assets: &Vec<String>) -> (d: Option<DownloadSpec>)
    ensures
        download_matches(target, assets.deep_view(), d),
{
    let choice: Option<(usize, ArchiveKind)> = match target {
        PlatformTarget::WindowsX64 => Some((2, ArchiveKind::Zip)),
        PlatformTarget::MacArm64 => Some((0, ArchiveKind::Zip)),
        PlatformTarget::LinuxX64 => Some((1, ArchiveKind::GzipTar)),
        PlatformTarget::Unsupported => None,
    };
    match choice {
        Some((i, kind)) => {
            if i < assets.len() {
                proof {
                    assert(assets.deep_view()[i as int] == assets[i as int].deep_view());
                }
                Some(DownloadSpec { url: assets[i].clone(), kind })
            } else {
                None
            }
        },
        None => None,
    }
}

/// The state of one resolution call. Each non-terminal state names the one
/// host operation that is due next; its outcome arrives as the matching
/// [`Event`].
#[derive(PartialEq, Eq, Debug)]
pub enum State {
    /// Waiting for the configured-path lookup.
    AwaitConfig,
    /// Waiting for the version-cache file to be read.
    AwaitCacheRead,
    /// Waiting for the release index query; `cached` is the version the
    /// cache held, if any.
    AwaitFetch { cached: Option<String> },
    /// Waiting for `version` to be written to the version-cache file;
    /// `planned_download` is the install that follows a successful write.
    AwaitCacheWrite { version: String, planned_download: Option<DownloadSpec> },
    /// Waiting for the asset download and extraction.
    AwaitDownload { download: DownloadSpec },
    /// Waiting for the bundled binary to be marked executable.
    AwaitMarkExecutable,
    /// Resolution finished: hand `command` to the host.
    Done { command: CommandDescriptor },
    /// Resolution failed; `message` is surfaced to the host.
    Failed { message: String },
}

/// The outcome of the host operation the current state called for.
#[derive(PartialEq, Eq, Debug)]
pub enum Event {
    /// The configured-path lookup finished.
    ConfigResolved(Option<ConfiguredPath>),
    /// The version-cache file was read: its trimmed contents (`None` when
    /// the file was absent or empty), or the message of a non-not-found
    /// I/O failure.
    CacheRead(Result<Option<String>, String>),
    /// The release index query finished.
    FetchCompleted(Result<ReleaseInfo, String>),
    /// The version-cache write finished.
    CacheWritten(Result<(), String>),
    /// The download and extraction finished; the outcome is ignored either
    /// way.
    Downloaded(Result<(), String>),
    /// Marking the bundled binary executable finished.
    ExecutableMarked(Result<(), String>),
}

/// Whether `event` is the outcome of the operation `state` called for.
pub open spec fn expects(state: State, event: Event) -> bool {
    match (state, event) {
        (State::AwaitConfig, Event::ConfigResolved(_)) => true,
        (State::AwaitCacheRead, Event::CacheRead(_)) => true,
        (State::AwaitFetch { .. }, Event::FetchCompleted(_)) => true,
        (State::AwaitCacheWrite { .. }, Event::CacheWritten(_)) => true,
        (State::AwaitDownload { .. }, Event::Downloaded(_)) => true,
        (State::AwaitMarkExecutable, Event::ExecutableMarked(_)) => true,
        _ => false,
    }
}

/// The transition relation of the pipeline: `post` is the state that
/// follows `pre` on `event`.
///
/// - A configured path ends the run at once, with no cache, network or
///   install activity and no executable-bit change.
/// - A cache-read or cache-write failure, and a failure to mark the binary
///   executable, are fatal; every other failure degrades to using whatever
///   is already on disk.
/// - A fetched release triggers the cache-write-then-install path exactly
///   when the cache held nothing or a different version string.
pub open spec fn step_ok(
    target: PlatformTarget,
    pre: State,
    event: Event,
    post: State,
) -> bool {
    match (pre, event) {
        (State::AwaitConfig, Event::ConfigResolved(cfg)) => match cfg {
            Some(cp) => (post matches State::Done { command }
                && command.executable == cp.path
                && command.args@.len() == 0
                && command.env@.len() == 0),
            None => post is AwaitCacheRead,
        },
        (State::AwaitCacheRead, Event::CacheRead(out)) => match out {
            Ok(cached) => (post matches State::AwaitFetch { cached: c } && c == cached),
            Err(m) => (post matches State::Failed { message } && message == m),
        },
        (State::AwaitFetch { cached }, Event::FetchCompleted(out)) => match out {
            Ok(release) => if install_needed(cached.deep_view(), release.version@) {
                post matches State::AwaitCacheWrite { version, planned_download }
                    && version == release.version
                    && download_matches(target, release.asset_urls.deep_view(), planned_download)
            } else {
                post is AwaitMarkExecutable
            },
            Err(_) => post is AwaitMarkExecutable,
        },
        (State::AwaitCacheWrite { version, planned_download }, Event::CacheWritten(out)) => match out {
            Ok(_) => match planned_download {
                Some(d) => (post matches State::AwaitDownload { download: d2 } && d2 == d),
                None => post is AwaitMarkExecutable,
            },
            Err(m) => (post matches State::Failed { message } && message == m),
        },
        (State::AwaitDownload { .. }, Event::Downloaded(_)) => post is AwaitMarkExecutable,
        (State::AwaitMarkExecutable, Event::ExecutableMarked(out)) => match out {
            Ok(_) => (post matches State::Done { command }
                && command.executable@ == bundled_path_of(target)
                && command.args@.len() == 0
                && command.env@.len() == 0),
            Err(m) => (post matches State::Failed { message } && message == m),
        },
        _ => false,
    }
}

/// The state a resolution call starts in.
pub fn initial_state() -> (s: State)
    ensures
        s is AwaitConfig,
{
    State::AwaitConfig
}

/// Performs one transition of the pipeline.
pub fn step(target: PlatformTarget, state: State, event: Event) -> (post: State)
    requires
        expects(state, event),
    ensures
        step_ok(target, state, event, post),
{
    match (state, event) {
        (State::AwaitConfig, Event::ConfigResolved(cfg)) => match cfg {
            Some(cp) => State::Done { command: build_command(cp.path) },
            None => State::AwaitCacheRead,
        },
        (State::AwaitCacheRead, Event::CacheRead(out)) => match out {
            Ok(cached) => State::AwaitFetch { cached },
            Err(m) => State::Failed { message: m },
        },
        (State::AwaitFetch { cached }, Event::FetchCompleted(out)) => match out {
            Ok(release) => {
                if needs_install(&cached, &release.version) {
                    let download = select_asset(target, &release.asset_urls);
                    State::AwaitCacheWrite { version: release.version, planned_download: download }
                } else {
                    State::AwaitMarkExecutable
                }
            },
            Err(_) => State::AwaitMarkExecutable,
        },
        (State::AwaitCacheWrite { version: _, planned_download }, Event::CacheWritten(out)) => match out {
            Ok(_) => match planned_download {
                Some(d) => State::AwaitDownload { download: d },
                None => State::AwaitMarkExecutable,
            },
            Err(m) => State::Failed { message: m },
        },
        (State::AwaitDownload { .. }, Event::Downloaded(_)) => State::AwaitMarkExecutable,
        (State::AwaitMarkExecutable, Event::ExecutableMarked(out)) => match out {
            Ok(_) => {
                let path = bundled_binary_path(target);
                State::Done { command: build_command(path.to_owned()) }
            },
            Err(m) => State::Failed { message: m },
        },
        _ => vstd::pervasive::unreached(),
    }
}

/// On a first-ever run — no cached version — a fetched release always
/// triggers an install attempt, whatever version value it reports: the
/// machine moves on to writing that version to the cache, with this
/// platform's asset selected for download.
pub proof fn lemma_first_run_installs(
    target: PlatformTarget,
    release: ReleaseInfo,
    post: State,
)
    requires
        step_ok(
            target,
            State::AwaitFetch { cached: None },
            Event::FetchCompleted(Ok(release)),
            post,
        ),
    ensures
        post matches State::AwaitCacheWrite { version, planned_download }
            && version == release.version
            && download_matches(target, release.asset_urls.deep_view(), planned_download),
{
}

/// When the fetched release reports exactly the cached version, no cache
/// write and no download are planned: the machine moves straight to marking
/// the already-installed binary executable.
pub proof fn lemma_matching_version_skips_install(
    target: PlatformTarget,
    cached: String,
    release: ReleaseInfo,
    post: State,
)
    requires
        cached@ == release.version@,
        step_ok(
            target,
            State::AwaitFetch { cached: Some(cached) },
            Event::FetchCompleted(Ok(release)),
            post,
        ),
    ensures
        post is AwaitMarkExecutable,
{
}

/// When the fetched release reports a version other than the cached one,
/// the machine plans to overwrite the cache with the new version and to
/// install this platform's asset before the bundled path is returned.
pub proof fn lemma_new_version_reinstalls(
    target: PlatformTarget,
    cached: String,
    release: ReleaseInfo,
    post: State,
)
    requires
        cached@ != release.version@,
        step_ok(
            target,
            State::AwaitFetch { cached: Some(cached) },
            Event::FetchCompleted(Ok(release)),
            post,
        ),
    ensures
        post matches State::AwaitCacheWrite { version, planned_download }
            && version == release.version
            && download_matches(target, release.asset_urls.deep_view(), planned_download),
{
}

/// A failed release fetch is non-fatal and mutates nothing: whatever the
/// cache held, the machine skips the cache write and the install and moves
/// straight to the bundled binary already on disk.
pub proof fn lemma_fetch_failure_falls_back(
    target: PlatformTarget,
    cached: Option<String>,
    error: String,
    post: State,
)
    requires
        step_ok(
            target,
            State::AwaitFetch { cached },
            Event::FetchCompleted(Err(error)),
            post,
        ),
    ensures
        post is AwaitMarkExecutable,
{
}

/// A finished run returns exactly one command, from exactly one source:
/// either the configured path, handed through unchanged with no
/// executable-bit change, or the fixed bundled path after the binary was
/// marked executable — and in both cases with empty arguments and an empty
/// environment.
pub proof fn lemma_done_command_source(
    target: PlatformTarget,
    pre: State,
    event: Event,
    post: State,
)
    requires
        step_ok(target, pre, event, post),
    ensures
        post matches State::Done { command } ==> {
            &&& command.args@.len() == 0
            &&& command.env@.len() == 0
            &&& ((pre is AwaitConfig && (event matches Event::ConfigResolved(cfg)
                && (cfg matches Some(cp) && command.executable == cp.path))) || (
            pre is AwaitMarkExecutable && command.executable@ == bundled_path_of(target)))
        },
{
}

} // verus!
