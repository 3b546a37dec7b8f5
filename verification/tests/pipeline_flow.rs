use c3_lsp_resolver::cache::{cache_contents_value, needs_install};
use c3_lsp_resolver::command::{build_command, CommandDescriptor};
use c3_lsp_resolver::config::{ConfiguredPath, PathOrigin};
use c3_lsp_resolver::pipeline::{
    initial_state, select_asset, step, DownloadSpec, Event, ReleaseInfo, State,
};
use c3_lsp_resolver::platform::{ArchiveKind, PlatformTarget};

fn s(x: &str) -> String {
    x.to_string()
}

fn three_assets() -> Vec<String> {
    vec![s("https://dl/mac.zip"), s("https://dl/linux.tar.gz"), s("https://dl/win.zip")]
}

fn release(version: &str) -> ReleaseInfo {
    ReleaseInfo { version: s(version), asset_urls: three_assets() }
}

#[test]
fn command_has_empty_args_and_env() {
    let c = build_command(s("/abs/bin"));
    assert_eq!(c.executable, s("/abs/bin"));
    assert!(c.args.is_empty());
    assert!(c.env.is_empty());
}

#[test]
fn cache_contents_are_trimmed_and_empty_means_no_version() {
    assert_eq!(cache_contents_value("1.2.3\n"), Some(s("1.2.3")));
    assert_eq!(cache_contents_value("  1.2.3  "), Some(s("1.2.3")));
    assert_eq!(cache_contents_value(""), None);
    assert_eq!(cache_contents_value(" \t\r\n"), None);
}

#[test]
fn needs_install_is_byte_equality_only() {
    assert!(needs_install(&None, &s("1.2.3")));
    assert!(!needs_install(&Some(s("1.2.3")), &s("1.2.3")));
    assert!(needs_install(&Some(s("1.2.3")), &s("1.3.0")));
    assert!(needs_install(&Some(s("1.2.3")), &s("v1.2.3")));
}

#[test]
fn asset_selection_uses_the_platform_position_and_format() {
    let assets = three_assets();
    assert_eq!(
        select_asset(PlatformTarget::WindowsX64, &assets),
        Some(DownloadSpec { url: s("https://dl/win.zip"), kind: ArchiveKind::Zip })
    );
    assert_eq!(
        select_asset(PlatformTarget::MacArm64, &assets),
        Some(DownloadSpec { url: s("https://dl/mac.zip"), kind: ArchiveKind::Zip })
    );
    assert_eq!(
        select_asset(PlatformTarget::LinuxX64, &assets),
        Some(DownloadSpec { url: s("https://dl/linux.tar.gz"), kind: ArchiveKind::GzipTar })
    );
}

#[test]
fn asset_selection_yields_nothing_when_unsupported_or_out_of_range() {
    let assets = three_assets();
    assert_eq!(select_asset(PlatformTarget::Unsupported, &assets), None);
    let short = vec![s("https://dl/mac.zip"), s("https://dl/linux.tar.gz")];
    assert_eq!(select_asset(PlatformTarget::WindowsX64, &short), None);
    assert_eq!(
        select_asset(PlatformTarget::LinuxX64, &short),
        Some(DownloadSpec { url: s("https://dl/linux.tar.gz"), kind: ArchiveKind::GzipTar })
    );
    assert_eq!(select_asset(PlatformTarget::MacArm64, &vec![]), None);
}

#[test]
fn configured_path_ends_the_run_with_no_other_activity() {
    let state = initial_state();
    let cp = ConfiguredPath { path: s("/abs/bin"), origin: PathOrigin::FromProjectConfig };
    let post = step(PlatformTarget::LinuxX64, state, Event::ConfigResolved(Some(cp)));
    assert_eq!(
        post,
        State::Done {
            command: CommandDescriptor {
                executable: s("/abs/bin"),
                args: vec![],
                env: vec![],
            },
        }
    );
}

#[test]
fn no_configuration_moves_on_to_the_cache() {
    let post = step(PlatformTarget::LinuxX64, initial_state(), Event::ConfigResolved(None));
    assert_eq!(post, State::AwaitCacheRead);
}

#[test]
fn cache_read_failure_is_fatal() {
    let post = step(
        PlatformTarget::LinuxX64,
        State::AwaitCacheRead,
        Event::CacheRead(Err(s("permission denied"))),
    );
    assert_eq!(post, State::Failed { message: s("permission denied") });
}

#[test]
fn first_run_installs_whatever_version_is_reported() {
    let post = step(
        PlatformTarget::LinuxX64,
        State::AwaitFetch { cached: None },
        Event::FetchCompleted(Ok(release("0.0.1"))),
    );
    assert_eq!(
        post,
        State::AwaitCacheWrite {
            version: s("0.0.1"),
            planned_download: Some(DownloadSpec {
                url: s("https://dl/linux.tar.gz"),
                kind: ArchiveKind::GzipTar,
            }),
        }
    );
}

#[test]
fn matching_version_skips_download_and_cache_write() {
    let post = step(
        PlatformTarget::LinuxX64,
        State::AwaitFetch { cached: Some(s("1.2.3")) },
        Event::FetchCompleted(Ok(release("1.2.3"))),
    );
    assert_eq!(post, State::AwaitMarkExecutable);
}

#[test]
fn new_version_overwrites_cache_then_installs() {
    let target = PlatformTarget::LinuxX64;
    let post = step(
        target,
        State::AwaitFetch { cached: Some(s("1.2.3")) },
        Event::FetchCompleted(Ok(release("1.3.0"))),
    );
    let expected_download =
        DownloadSpec { url: s("https://dl/linux.tar.gz"), kind: ArchiveKind::GzipTar };
    assert_eq!(
        post,
        State::AwaitCacheWrite {
            version: s("1.3.0"),
            planned_download: Some(expected_download.clone()),
        }
    );
    let post = step(target, post, Event::CacheWritten(Ok(())));
    assert_eq!(post, State::AwaitDownload { download: expected_download });
    let post = step(target, post, Event::Downloaded(Ok(())));
    assert_eq!(post, State::AwaitMarkExecutable);
    let post = step(target, post, Event::ExecutableMarked(Ok(())));
    assert_eq!(
        post,
        State::Done {
            command: CommandDescriptor {
                executable: s("c3lsp/server/bin/release/c3lsp"),
                args: vec![],
                env: vec![],
            },
        }
    );
}

#[test]
fn fetch_failure_falls_back_to_the_bundled_binary() {
    let target = PlatformTarget::MacArm64;
    let post = step(
        target,
        State::AwaitFetch { cached: Some(s("1.2.3")) },
        Event::FetchCompleted(Err(s("network unreachable"))),
    );
    assert_eq!(post, State::AwaitMarkExecutable);
    let post = step(target, post, Event::ExecutableMarked(Ok(())));
    assert_eq!(
        post,
        State::Done {
            command: CommandDescriptor {
                executable: s("c3lsp/server/bin/release/c3lsp"),
                args: vec![],
                env: vec![],
            },
        }
    );
}

#[test]
fn cache_write_failure_is_fatal_before_any_install() {
    let post = step(
        PlatformTarget::WindowsX64,
        State::AwaitCacheWrite {
            version: s("1.3.0"),
            planned_download: Some(DownloadSpec { url: s("https://dl/win.zip"), kind: ArchiveKind::Zip }),
        },
        Event::CacheWritten(Err(s("disk full"))),
    );
    assert_eq!(post, State::Failed { message: s("disk full") });
}

#[test]
fn failed_download_is_ignored_and_the_bundled_path_still_returned() {
    let target = PlatformTarget::WindowsX64;
    let post = step(
        target,
        State::AwaitDownload {
            download: DownloadSpec { url: s("https://dl/win.zip"), kind: ArchiveKind::Zip },
        },
        Event::Downloaded(Err(s("http 500"))),
    );
    assert_eq!(post, State::AwaitMarkExecutable);
    let post = step(target, post, Event::ExecutableMarked(Ok(())));
    assert_eq!(
        post,
        State::Done {
            command: CommandDescriptor {
                executable: s("c3lsp/server/bin/release/c3lsp.exe"),
                args: vec![],
                env: vec![],
            },
        }
    );
}

#[test]
fn executable_marking_failure_is_fatal() {
    let post = step(
        PlatformTarget::LinuxX64,
        State::AwaitMarkExecutable,
        Event::ExecutableMarked(Err(s("chmod failed"))),
    );
    assert_eq!(post, State::Failed { message: s("chmod failed") });
}

#[test]
fn unsupported_platform_skips_install_and_returns_the_sentinel() {
    let target = PlatformTarget::Unsupported;
    let post = step(target, initial_state(), Event::ConfigResolved(None));
    assert_eq!(post, State::AwaitCacheRead);
    let post = step(target, post, Event::CacheRead(Ok(None)));
    assert_eq!(post, State::AwaitFetch { cached: None });
    let post = step(target, post, Event::FetchCompleted(Ok(release("1.0.0"))));
    assert_eq!(post, State::AwaitCacheWrite { version: s("1.0.0"), planned_download: None });
    let post = step(target, post, Event::CacheWritten(Ok(())));
    assert_eq!(post, State::AwaitMarkExecutable);
    let post = step(target, post, Event::ExecutableMarked(Ok(())));
    assert_eq!(
        post,
        State::Done {
            command: CommandDescriptor {
                executable: s("no available lsp!"),
                args: vec![],
                env: vec![],
            },
        }
    );
}
