//! The fixed naming scheme for release assets, version directories and the
//! final executable path: `<tool>-<arch>-<os-triple>.<archive-ext>` for
//! assets, `<tool>-<version>` for version directories.

use vstd::prelude::*;
use crate::platform::{
    Arch, Os, arch_label, archive_ext, os_triple, spec_arch_label, spec_archive_ext, spec_os_triple,
};

verus! {

/// Stem of an asset name: `<tool>-<arch>-<os-triple>`.
pub open spec fn spec_asset_stem(tool: Seq<char>, arch: Arch, os: Os) -> Seq<char> {
    tool + "-"@ + spec_arch_label(arch) + "-"@ + spec_os_triple(os)
}

/// Full asset name: `<tool>-<arch>-<os-triple>.<archive-ext>`.
pub open spec fn spec_asset_name(tool: Seq<char>, arch: Arch, os: Os) -> Seq<char> {
    spec_asset_stem(tool, arch, os) + "."@ + spec_archive_ext(os)
}

/// Name of the directory one provisioned release lives in: `<tool>-<version>`.
pub open spec fn spec_version_dir(tool: Seq<char>, version: Seq<char>) -> Seq<char> {
    tool + "-"@ + version
}

/// Path of the provisioned executable inside the version directory: a fixed
/// `<tool>.exe` leaf on Windows, `<version-dir>/<asset-stem>/<tool>` elsewhere.
pub open spec fn spec_binary_path(
    tool: Seq<char>,
    version_dir: Seq<char>,
    stem: Seq<char>,
    os: Os,
) -> Seq<char> {
    if os is Windows {
        version_dir + "/"@ + tool + ".exe"@
    } else {
        version_dir + "/"@ + stem + "/"@ + tool
    }
}

pub fn asset_stem(tool: &str, arch: Arch, os: Os) -> (r: String)
    ensures
        r@ == spec_asset_stem(tool@, arch, os),
{
    let mut r = tool.to_owned();
    r.append("-");
    r.append(arch_label(arch));
    r.append("-");
    r.append(os_triple(os));
    proof {
        assert(r@ =~= spec_asset_stem(tool@, arch, os));
    }
    r
}

pub fn asset_name(tool: &str, arch: Arch, os: Os) -> (r: String)
    ensures
        r@ == spec_asset_name(tool@, arch, os),
{
    let mut r = asset_stem(tool, arch, os);
    r.append(".");
    r.append(archive_ext(os));
    proof {
        assert(r@ =~= spec_asset_name(tool@, arch, os));
    }
    r
}

pub fn version_dir_name(tool: &str, version: &str) -> (r: String)
    ensures
        r@ == spec_version_dir(tool@, version@),
{
    let mut r = tool.to_owned();
    r.append("-");
    r.append(version);
    proof {
        assert(r@ =~= spec_version_dir(tool@, version@));
    }
    r
}

pub fn binary_path(tool: &str, version_dir: &str, stem: &str, os: Os) -> (r: String)
    ensures
        r@ == spec_binary_path(tool@, version_dir@, stem@, os),
{
    let mut r = version_dir.to_owned();
    r.append("/");
    match os {
        Os::Windows => {
            r.append(tool);
            r.append(".exe");
        },
        _ => {
            r.append(stem);
            r.append("/");
            r.append(tool);
        },
    }
    proof {
        assert(r@ =~= spec_binary_path(tool@, version_dir@, stem@, os));
    }
    r
}

/// The computed asset name is a pure function of tool name, architecture and
/// operating system: identical inputs always yield the identical name.
pub proof fn lemma_asset_name_deterministic(
    tool1: Seq<char>,
    tool2: Seq<char>,
    arch1: Arch,
    arch2: Arch,
    os1: Os,
    os2: Os,
)
    requires
        tool1 == tool2,
        arch1 == arch2,
        os1 == os2,
    ensures
        spec_asset_name(tool1, arch1, os1) == spec_asset_name(tool2, arch2, os2),
{
}

} // verus!
