use ty_resolver::naming::{asset_name, asset_stem, binary_path, version_dir_name};
use ty_resolver::platform::{Arch, ArchiveKind, Os, arch_label, archive_ext, archive_kind, os_triple};

#[test]
fn linux_x86_64_asset_name() {
    assert_eq!(
        asset_name("ty", Arch::X8664, Os::Linux),
        "ty-x86_64-unknown-linux-gnu.tar.gz"
    );
}

#[test]
fn mac_aarch64_asset_name() {
    assert_eq!(
        asset_name("ty", Arch::Aarch64, Os::Mac),
        "ty-aarch64-apple-darwin.tar.gz"
    );
}

#[test]
fn windows_i686_asset_name() {
    assert_eq!(
        asset_name("ty", Arch::X86, Os::Windows),
        "ty-i686-pc-windows-msvc.zip"
    );
}

#[test]
fn asset_name_is_deterministic() {
    let a = asset_name("ty", Arch::X8664, Os::Linux);
    let b = asset_name("ty", Arch::X8664, Os::Linux);
    assert_eq!(a, b);
}

#[test]
fn version_directory_name() {
    assert_eq!(version_dir_name("ty", "0.1.0"), "ty-0.1.0");
}

#[test]
fn unix_binary_path_nests_asset_stem() {
    let stem = asset_stem("ty", Arch::X8664, Os::Linux);
    assert_eq!(stem, "ty-x86_64-unknown-linux-gnu");
    assert_eq!(
        binary_path("ty", "ty-0.1.0", &stem, Os::Linux),
        "ty-0.1.0/ty-x86_64-unknown-linux-gnu/ty"
    );
}

#[test]
fn windows_binary_path_is_fixed_exe_leaf() {
    let stem = asset_stem("ty", Arch::X8664, Os::Windows);
    assert_eq!(
        binary_path("ty", "ty-0.1.0", &stem, Os::Windows),
        "ty-0.1.0/ty.exe"
    );
}

#[test]
fn platform_tokens() {
    assert_eq!(arch_label(Arch::Aarch64), "aarch64");
    assert_eq!(arch_label(Arch::X86), "i686");
    assert_eq!(arch_label(Arch::X8664), "x86_64");
    assert_eq!(os_triple(Os::Mac), "apple-darwin");
    assert_eq!(os_triple(Os::Linux), "unknown-linux-gnu");
    assert_eq!(os_triple(Os::Windows), "pc-windows-msvc");
    assert_eq!(archive_ext(Os::Windows), "zip");
    assert_eq!(archive_ext(Os::Mac), "tar.gz");
    assert!(matches!(archive_kind(Os::Windows), ArchiveKind::Zip));
    assert!(matches!(archive_kind(Os::Linux), ArchiveKind::GzipTar));
}
