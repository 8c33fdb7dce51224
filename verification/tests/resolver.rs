use ty_resolver::release::{ReleaseAsset, ReleaseMetadata, find_asset, stale_entries};
use ty_resolver::platform::{Arch, ArchiveKind, Os};
use ty_resolver::resolve::{
    BinarySettings, Event, LaunchDescriptor, Query, ResolveError, Resolver, Status, Step,
};

/// A scripted host: answers each query of the resolver from canned data and
/// records what was asked of it.
struct FakeHost {
    settings_path: Option<String>,
    settings_args: Option<Vec<String>>,
    has_settings: bool,
    which: Option<String>,
    files: Vec<String>,
    release: Result<(String, Vec<(String, String)>), String>,
    download: Result<(), String>,
    dir_entries: Vec<String>,
    fetches: usize,
    downloads: usize,
    statuses: Vec<Status>,
    removed: Vec<String>,
}

impl FakeHost {
    fn new() -> FakeHost {
        FakeHost {
            settings_path: None,
            settings_args: None,
            has_settings: false,
            which: None,
            files: Vec::new(),
            release: Err(String::from("no release scripted")),
            download: Ok(()),
            dir_entries: Vec::new(),
            fetches: 0,
            downloads: 0,
            statuses: Vec::new(),
            removed: Vec::new(),
        }
    }

    fn answer(&mut self, query: Query) -> Event {
        match query {
            Query::FetchSettings => Event::Settings {
                settings: if self.has_settings {
                    Some(BinarySettings {
                        path: self.settings_path.clone(),
                        arguments: self.settings_args.clone(),
                    })
                } else {
                    None
                },
            },
            Query::LookupPath => Event::PathFound {
                path: self.which.clone(),
            },
            Query::CheckFile { path } => Event::FileChecked {
                is_file: self.files.iter().any(|f| *f == path),
            },
            Query::Notify { status } => {
                self.statuses.push(status);
                Event::Notified
            }
            Query::FetchRelease => {
                self.fetches += 1;
                Event::ReleaseFetched {
                    release: match &self.release {
                        Ok((version, assets)) => Ok(ReleaseMetadata {
                            version: version.clone(),
                            assets: assets
                                .iter()
                                .map(|(name, url)| ReleaseAsset {
                                    name: name.clone(),
                                    download_url: url.clone(),
                                })
                                .collect(),
                        }),
                        Err(cause) => Err(cause.clone()),
                    },
                }
            }
            Query::Download { .. } => {
                self.downloads += 1;
                Event::Downloaded {
                    outcome: self.download.clone(),
                }
            }
            Query::ListWorkingDir => Event::WorkingDirListed {
                entries: self.dir_entries.clone(),
            },
            Query::Remove { entries } => {
                self.removed.extend(entries);
                Event::Removed
            }
        }
    }
}

fn resolve(resolver: &mut Resolver, host: &mut FakeHost, env: Vec<(String, String)>) -> Step {
    let mut step = resolver.begin(env);
    for _ in 0..32 {
        match step {
            Step::Ask { query } => {
                let event = host.answer(query);
                assert!(resolver.accepts(&event));
                step = resolver.step(event);
            }
            done => return done,
        }
    }
    panic!("resolution did not finish");
}

fn descriptor_of(step: Step) -> LaunchDescriptor {
    match step {
        Step::Done { descriptor } => descriptor,
        Step::Fail { error } => panic!("resolution failed: {}", error.message()),
        Step::Ask { .. } => panic!("resolution still running"),
    }
}

fn error_of(step: Step) -> ResolveError {
    match step {
        Step::Fail { error } => error,
        _ => panic!("resolution did not fail"),
    }
}

fn scripted_release() -> Result<(String, Vec<(String, String)>), String> {
    Ok((
        String::from("0.1.0"),
        vec![
            (
                String::from("ty-aarch64-apple-darwin.tar.gz"),
                String::from("https://example.invalid/mac"),
            ),
            (
                String::from("ty-x86_64-unknown-linux-gnu.tar.gz"),
                String::from("https://example.invalid/linux"),
            ),
        ],
    ))
}

#[test]
fn settings_path_always_wins() {
    let mut resolver = Resolver::new(Os::Linux, Arch::X8664);
    let mut host = FakeHost::new();
    host.has_settings = true;
    host.settings_path = Some(String::from("/custom/ty"));
    host.which = Some(String::from("/usr/bin/ty"));
    let env = vec![(String::from("PATH"), String::from("/usr/bin"))];
    let descriptor = descriptor_of(resolve(&mut resolver, &mut host, env.clone()));
    assert_eq!(descriptor.executable_path, "/custom/ty");
    assert_eq!(descriptor.arguments, vec![String::from("server")]);
    assert_eq!(descriptor.environment, env);
    assert_eq!(host.fetches, 0);
    assert_eq!(host.downloads, 0);
}

#[test]
fn settings_arguments_override_default() {
    let mut resolver = Resolver::new(Os::Linux, Arch::X8664);
    let mut host = FakeHost::new();
    host.has_settings = true;
    host.settings_path = Some(String::from("/custom/ty"));
    host.settings_args = Some(vec![String::from("serve"), String::from("--quiet")]);
    let descriptor = descriptor_of(resolve(&mut resolver, &mut host, Vec::new()));
    assert_eq!(
        descriptor.arguments,
        vec![String::from("serve"), String::from("--quiet")]
    );
}

#[test]
fn path_lookup_needs_no_network() {
    let mut resolver = Resolver::new(Os::Mac, Arch::Aarch64);
    let mut host = FakeHost::new();
    host.which = Some(String::from("/opt/homebrew/bin/ty"));
    let descriptor = descriptor_of(resolve(&mut resolver, &mut host, Vec::new()));
    assert_eq!(descriptor.executable_path, "/opt/homebrew/bin/ty");
    assert_eq!(host.fetches, 0);
    assert_eq!(host.downloads, 0);
}

#[test]
fn full_provisioning_cycle() {
    let mut resolver = Resolver::new(Os::Linux, Arch::X8664);
    let mut host = FakeHost::new();
    host.release = scripted_release();
    host.dir_entries = vec![
        String::from("ty-0.0.9"),
        String::from("ty-0.1.0"),
        String::from("scratch"),
    ];
    let descriptor = descriptor_of(resolve(&mut resolver, &mut host, Vec::new()));
    assert_eq!(
        descriptor.executable_path,
        "ty-0.1.0/ty-x86_64-unknown-linux-gnu/ty"
    );
    assert_eq!(host.fetches, 1);
    assert_eq!(host.downloads, 1);
    assert_eq!(host.statuses, vec![Status::CheckingForUpdate, Status::Downloading]);
    assert_eq!(
        host.removed,
        vec![String::from("ty-0.0.9"), String::from("scratch")]
    );
    assert_eq!(
        resolver.cached_binary_path,
        Some(String::from("ty-0.1.0/ty-x86_64-unknown-linux-gnu/ty"))
    );
}

#[test]
fn cached_resolution_is_idempotent() {
    let mut resolver = Resolver::new(Os::Linux, Arch::X8664);
    let mut host = FakeHost::new();
    host.release = scripted_release();
    host.dir_entries = vec![String::from("ty-0.1.0")];
    let first = descriptor_of(resolve(&mut resolver, &mut host, Vec::new()));
    assert_eq!(host.fetches, 1);
    // The provisioned executable now exists on disk; nothing else changes.
    host.files.push(first.executable_path.clone());
    let second = descriptor_of(resolve(&mut resolver, &mut host, Vec::new()));
    assert_eq!(second.executable_path, first.executable_path);
    assert_eq!(second.arguments, first.arguments);
    assert_eq!(second.environment, first.environment);
    assert_eq!(host.fetches, 1);
    assert_eq!(host.downloads, 1);
}

#[test]
fn stale_cache_is_bypassed() {
    let mut resolver = Resolver::new(Os::Linux, Arch::X8664);
    resolver.cached_binary_path = Some(String::from("ty-0.0.9/ty-x86_64-unknown-linux-gnu/ty"));
    let mut host = FakeHost::new();
    host.release = scripted_release();
    host.dir_entries = vec![String::from("ty-0.1.0")];
    // The cached path is not among the existing files, so provisioning runs.
    let descriptor = descriptor_of(resolve(&mut resolver, &mut host, Vec::new()));
    assert_ne!(
        descriptor.executable_path,
        "ty-0.0.9/ty-x86_64-unknown-linux-gnu/ty"
    );
    assert_eq!(
        descriptor.executable_path,
        "ty-0.1.0/ty-x86_64-unknown-linux-gnu/ty"
    );
    assert_eq!(host.fetches, 1);
}

#[test]
fn valid_cache_is_reused_without_network() {
    let mut resolver = Resolver::new(Os::Linux, Arch::X8664);
    resolver.cached_binary_path = Some(String::from("ty-0.1.0/ty-x86_64-unknown-linux-gnu/ty"));
    let mut host = FakeHost::new();
    host.files.push(String::from("ty-0.1.0/ty-x86_64-unknown-linux-gnu/ty"));
    let descriptor = descriptor_of(resolve(&mut resolver, &mut host, Vec::new()));
    assert_eq!(
        descriptor.executable_path,
        "ty-0.1.0/ty-x86_64-unknown-linux-gnu/ty"
    );
    assert_eq!(host.fetches, 0);
    assert_eq!(host.downloads, 0);
}

#[test]
fn already_installed_version_skips_download() {
    let mut resolver = Resolver::new(Os::Linux, Arch::X8664);
    let mut host = FakeHost::new();
    host.release = scripted_release();
    host.files.push(String::from("ty-0.1.0/ty-x86_64-unknown-linux-gnu/ty"));
    let descriptor = descriptor_of(resolve(&mut resolver, &mut host, Vec::new()));
    assert_eq!(
        descriptor.executable_path,
        "ty-0.1.0/ty-x86_64-unknown-linux-gnu/ty"
    );
    assert_eq!(host.fetches, 1);
    assert_eq!(host.downloads, 0);
    assert_eq!(host.statuses, vec![Status::CheckingForUpdate]);
}

#[test]
fn missing_asset_fails_without_download() {
    let mut resolver = Resolver::new(Os::Windows, Arch::Aarch64);
    let mut host = FakeHost::new();
    host.release = scripted_release();
    let error = error_of(resolve(&mut resolver, &mut host, Vec::new()));
    assert_eq!(
        error.message(),
        "no asset found matching ty-aarch64-pc-windows-msvc.zip"
    );
    assert_eq!(host.downloads, 0);
    assert!(resolver.cached_binary_path.is_none());
}

#[test]
fn release_fetch_failure_names_manual_install() {
    let mut resolver = Resolver::new(Os::Linux, Arch::X8664);
    let mut host = FakeHost::new();
    host.release = Err(String::from("network unreachable"));
    let error = error_of(resolve(&mut resolver, &mut host, Vec::new()));
    let message = error.message();
    assert!(message.contains("network unreachable"));
    assert!(message.contains("pip install ty"));
}

#[test]
fn download_failure_is_fatal() {
    let mut resolver = Resolver::new(Os::Linux, Arch::X8664);
    let mut host = FakeHost::new();
    host.release = scripted_release();
    host.download = Err(String::from("archive truncated"));
    let error = error_of(resolve(&mut resolver, &mut host, Vec::new()));
    assert_eq!(
        error.message(),
        "failed to download file: archive truncated"
    );
    assert!(resolver.cached_binary_path.is_none());
}

#[test]
fn windows_provisioning_uses_zip_and_exe_leaf() {
    let mut resolver = Resolver::new(Os::Windows, Arch::X8664);
    let mut host = FakeHost::new();
    host.release = Ok((
        String::from("0.2.0"),
        vec![(
            String::from("ty-x86_64-pc-windows-msvc.zip"),
            String::from("https://example.invalid/win"),
        )],
    ));
    host.dir_entries = vec![String::from("ty-0.2.0")];
    let mut saw_zip = false;
    let mut step = resolver.begin(Vec::new());
    for _ in 0..32 {
        match step {
            Step::Ask { query } => {
                if let Query::Download { kind, version_dir, .. } = &query {
                    saw_zip = matches!(kind, ArchiveKind::Zip);
                    assert_eq!(version_dir, "ty-0.2.0");
                }
                let event = host.answer(query);
                assert!(resolver.accepts(&event));
                step = resolver.step(event);
            }
            other => {
                step = other;
                break;
            }
        }
    }
    let descriptor = descriptor_of(step);
    assert!(saw_zip);
    assert_eq!(descriptor.executable_path, "ty-0.2.0/ty.exe");
}

#[test]
fn mismatched_event_is_rejected() {
    let mut resolver = Resolver::new(Os::Linux, Arch::X8664);
    let step = resolver.begin(Vec::new());
    assert!(matches!(step, Step::Ask { query: Query::FetchSettings }));
    assert!(!resolver.accepts(&Event::Removed));
    assert!(resolver.accepts(&Event::Settings { settings: None }));
}

#[test]
fn find_asset_takes_first_exact_match() {
    let assets = vec![
        ReleaseAsset {
            name: String::from("ty-x86_64-unknown-linux-gnu.tar.gz"),
            download_url: String::from("first"),
        },
        ReleaseAsset {
            name: String::from("ty-x86_64-unknown-linux-gnu.tar.gz"),
            download_url: String::from("second"),
        },
    ];
    let found = find_asset(&assets, &String::from("ty-x86_64-unknown-linux-gnu.tar.gz"));
    assert_eq!(found, Some(0));
    let missing = find_asset(&assets, &String::from("ty-i686-pc-windows-msvc.zip"));
    assert_eq!(missing, None);
}

#[test]
fn stale_entries_spares_only_the_kept_directory() {
    let entries = vec![
        String::from("ty-0.0.9"),
        String::from("ty-0.1.0"),
        String::from("notes.txt"),
        String::from("ty-0.1.0-rc1"),
    ];
    let stale = stale_entries(&entries, &String::from("ty-0.1.0"));
    assert_eq!(
        stale,
        vec![
            String::from("ty-0.0.9"),
            String::from("notes.txt"),
            String::from("ty-0.1.0-rc1"),
        ]
    );
}

#[test]
fn empty_listing_removes_nothing() {
    let stale = stale_entries(&Vec::new(), &String::from("ty-0.1.0"));
    assert!(stale.is_empty());
}
