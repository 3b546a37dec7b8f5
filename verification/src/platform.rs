//! Mapping from the host's reported operating system and CPU architecture to
//! a supported platform target, and the per-target constants of the install
//! layout: the position of the platform's archive in a release's asset list,
//! the archive format, and the fixed relative path of the bundled binary.

use vstd::prelude::*;

verus! {

/// Operating system reported by the host.
#[derive(Clone, Copy, PartialEq, Eq, Structural, Debug)]
pub enum HostOs {
    Windows,
    Mac,
    Linux,
}

/// CPU architecture reported by the host.
#[derive(Clone, Copy, PartialEq, Eq, Structural, Debug)]
pub enum HostArch {
    Aarch64,
    X86,
    X8664,
}

/// A supported platform target, or `Unsupported` for every other pair.
#[derive(Clone, Copy, PartialEq, Eq, Structural, Debug)]
pub enum PlatformTarget {
    WindowsX64,
    MacArm64,
    LinuxX64,
    Unsupported,
}

/// Archive format of a downloadable release asset.
#[derive(Clone, Copy, PartialEq, Eq, Structural, Debug)]
pub enum ArchiveKind {
    Zip,
    GzipTar,
}

/// The platform target a given (os, arch) pair maps to.
pub open spec fn platform_target_of(os: HostOs, arch: HostArch) -> PlatformTarget {
    match (os, arch) {
        (HostOs::Windows, HostArch::X8664) => PlatformTarget::WindowsX64,
        (HostOs::Mac, HostArch::Aarch64) => PlatformTarget::MacArm64,
        (HostOs::Linux, HostArch::X8664) => PlatformTarget::LinuxX64,
        _ => PlatformTarget::Unsupported,
    }
}

/// Maps the host's (os, arch) pair to the platform target.
pub fn identify_platform(os: HostOs, arch: HostArch) -> (target: PlatformTarget)
    ensures
        target == platform_target_of(os, arch),
{
    match (os, arch) {
        (HostOs::Windows, HostArch::X8664) => PlatformTarget::WindowsX64,
        (HostOs::Mac, HostArch::Aarch64) => PlatformTarget::MacArm64,
        (HostOs::Linux, HostArch::X8664) => PlatformTarget::LinuxX64,
        _ => PlatformTarget::Unsupported,
    }
}

/// Position of this platform's archive in a release's asset list, and the
/// archive's format. `None` for an unsupported platform: no asset exists to
/// select.
pub open spec fn asset_choice_of(target: PlatformTarget) -> Option<(int, ArchiveKind)> {
    match target {
        PlatformTarget::WindowsX64 => Some((2int, ArchiveKind::Zip)),
        PlatformTarget::MacArm64 => Some((0int, ArchiveKind::Zip)),
        PlatformTarget::LinuxX64 => Some((1int, ArchiveKind::GzipTar)),
        PlatformTarget::Unsupported => None,
    }
}

/// The fixed relative path of the bundled server binary for this platform.
/// For an unsupported platform it is a sentinel that cannot launch; the
/// failure surfaces when the host tries to spawn it.
pub open spec fn bundled_path_of(target: PlatformTarget) -> Seq<char> {
    match target {
        PlatformTarget::WindowsX64 => "c3lsp/server/bin/release/c3lsp.exe"@,
        PlatformTarget::MacArm64 => "c3lsp/server/bin/release/c3lsp"@,
        PlatformTarget::LinuxX64 => "c3lsp/server/bin/release/c3lsp"@,
        PlatformTarget::Unsupported => "no available lsp!"@,
    }
}

/// Returns the fixed relative path of the bundled server binary.
pub fn bundled_binary_path(target: PlatformTarget) -> (path: &'static str)
    ensures
        path@ == bundled_path_of(target),
{
    match target {
        PlatformTarget::WindowsX64 => "c3lsp/server/bin/release/c3lsp.exe",
        PlatformTarget::MacArm64 => "c3lsp/server/bin/release/c3lsp",
        PlatformTarget::LinuxX64 => "c3lsp/server/bin/release/c3lsp",
        PlatformTarget::Unsupported => "no available lsp!",
    }
}

} // verus!
