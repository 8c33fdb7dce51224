//! Host platform and architecture enumerations, and the fixed tokens the
//! release naming scheme derives from them.

use vstd::prelude::*;

verus! {

/// Operating system of the host running the language server.
#[derive(Clone, Copy, PartialEq, Eq, Structural, Debug)]
pub enum Os {
    Mac,
    Linux,
    Windows,
}

/// CPU architecture of the host running the language server.
#[derive(Clone, Copy, PartialEq, Eq, Structural, Debug)]
pub enum Arch {
    Aarch64,
    X86,
    X8664,
}

/// Archive format of a downloadable release asset.
#[derive(Clone, Copy, PartialEq, Eq, Structural, Debug)]
pub enum ArchiveKind {
    GzipTar,
    Zip,
}

/// The architecture token used in asset names.
pub open spec fn spec_arch_label(arch: Arch) -> Seq<char> {
    match arch {
        Arch::Aarch64 => "aarch64"@,
        Arch::X86 => "i686"@,
        Arch::X8664 => "x86_64"@,
    }
}

/// The target-triple suffix used in asset names.
pub open spec fn spec_os_triple(os: Os) -> Seq<char> {
    match os {
        Os::Mac => "apple-darwin"@,
        Os::Linux => "unknown-linux-gnu"@,
        Os::Windows => "pc-windows-msvc"@,
    }
}

/// The archive extension used in asset names: a zip on Windows, a
/// gzip-compressed tar elsewhere.
pub open spec fn spec_archive_ext(os: Os) -> Seq<char> {
    match os {
        Os::Windows => "zip"@,
        _ => "tar.gz"@,
    }
}

/// The archive format implied by the platform.
pub open spec fn spec_archive_kind(os: Os) -> ArchiveKind {
    match os {
        Os::Windows => ArchiveKind::Zip,
        _ => ArchiveKind::GzipTar,
    }
}

pub fn arch_label(arch: Arch) -> (r: &'static str)
    ensures
        r@ == spec_arch_label(arch),
{
    match arch {
        Arch::Aarch64 => "aarch64",
        Arch::X86 => "i686",
        Arch::X8664 => "x86_64",
    }
}

pub fn os_triple(os: Os) -> (r: &'static str)
    ensures
        r@ == spec_os_triple(os),
{
    match os {
        Os::Mac => "apple-darwin",
        Os::Linux => "unknown-linux-gnu",
        Os::Windows => "pc-windows-msvc",
    }
}

pub fn archive_ext(os: Os) -> (r: &'static str)
    ensures
        r@ == spec_archive_ext(os),
{
    match os {
        Os::Windows => "zip",
        _ => "tar.gz",
    }
}

pub fn archive_kind(os: Os) -> (r: ArchiveKind)
    ensures
        r == spec_archive_kind(os),
{
    match os {
        Os::Windows => ArchiveKind::Zip,
        _ => ArchiveKind::GzipTar,
    }
}

} // verus!
