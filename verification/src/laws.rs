//! The stated laws of the resolver, each proved against the transition
//! relation [`spec_step`].

use vstd::prelude::*;
use crate::naming::spec_asset_name;
use crate::release::{
    ReleaseModel, lemma_find_asset_characterisation, lemma_sweep_leaves_only_version_dir,
    spec_stale,
};
use crate::resolve::{
    BinarySettingsModel, ErrorModel, EventModel, PhaseModel, QueryModel, ResolverModel, Status,
    StepModel, is_network_query, spec_begin, spec_descriptor, spec_step,
};

verus! {

/// Settings always win: when the worktree configuration names an explicit
/// binary path, the attempt ends at once with exactly that path, unmodified,
/// whatever PATH or the cache would have yielded.  No existence check is
/// made: trusting user configuration is intentional.
pub proof fn lemma_settings_path_wins(
    m: ResolverModel,
    settings: BinarySettingsModel,
    p: Seq<char>,
)
    requires
        m.phase is AwaitSettings,
        settings.path == Some(p),
    ensures
        (spec_step(m, EventModel::Settings { settings: Some(settings) }) matches Some((post, out))
            && ({
            &&& post.phase is Idle
            &&& post.cached_binary_path == m.cached_binary_path
            &&& out matches StepModel::Done { descriptor } && ({
                &&& descriptor.executable_path == p
                &&& descriptor.environment == m.environment
                &&& descriptor.arguments == (match settings.arguments {
                    Some(args) => args,
                    None => seq!["server"@],
                })
            })
        })),
{
}

/// With no settings override, a binary discoverable on PATH ends the
/// attempt: the machine returns that path, and the only queries it asked —
/// the settings lookup and the PATH lookup — touch no network.
pub proof fn lemma_path_hit_avoids_network(
    m0: ResolverModel,
    env: Seq<(Seq<char>, Seq<char>)>,
    settings: Option<BinarySettingsModel>,
    p: Seq<char>,
)
    requires
        m0.phase is Idle,
        (settings matches Some(s) ==> s.path is None),
    ensures
        ({
            let (m1, o1) = spec_begin(m0, env);
            let s2 = spec_step(m1, EventModel::Settings { settings });
            let s3 = spec_step(s2.unwrap().0, EventModel::PathFound { path: Some(p) });
            &&& o1 == StepModel::Ask { query: QueryModel::FetchSettings }
            &&& !is_network_query(QueryModel::FetchSettings)
            &&& s2 matches Some((m2, o2)) && o2 == StepModel::Ask {
                query: QueryModel::LookupPath,
            } && !is_network_query(QueryModel::LookupPath)
            &&& s3 matches Some((m3, o3)) && ({
                &&& m3.phase is Idle
                &&& o3 matches StepModel::Done { descriptor } && ({
                    &&& descriptor.executable_path == p
                    &&& descriptor.environment == env
                })
            })
        }),
{
}

/// A previously cached path that is no longer a regular file on disk is
/// silently bypassed, never returned: the attempt moves on toward remote
/// provisioning instead of ending.
pub proof fn lemma_stale_cache_bypassed(m: ResolverModel, path: Seq<char>)
    requires
        m.phase == (PhaseModel::AwaitCacheCheck { path }),
    ensures
        (spec_step(m, EventModel::FileChecked { is_file: false }) matches Some((post, out))
            && post.phase is AwaitFetchNotify && out == StepModel::Ask {
            query: QueryModel::Notify { status: Status::CheckingForUpdate },
        } && !(out is Done)),
{
}

/// When the release's asset list has no entry matching the computed asset
/// name, the attempt fails with an asset-not-found error naming exactly that
/// computed name, no download is asked, and the cache is untouched.
pub proof fn lemma_missing_asset_fails(m: ResolverModel, rel: ReleaseModel)
    requires
        m.phase is AwaitRelease,
        forall|i: int|
            0 <= i < rel.assets.len() ==> (#[trigger] rel.assets[i]).name != spec_asset_name(
                m.tool,
                m.arch,
                m.platform,
            ),
    ensures
        (spec_step(m, EventModel::ReleaseFetched { release: Ok(rel) }) matches Some((post, out))
            && post.phase is Idle && post.cached_binary_path == m.cached_binary_path && out
            == StepModel::Fail {
            error: ErrorModel::AssetNotFound {
                asset_name: spec_asset_name(m.tool, m.arch, m.platform),
            },
        }),
{
    lemma_find_asset_characterisation(rel.assets, spec_asset_name(m.tool, m.arch, m.platform));
}

/// After a successful extraction, the machine asks to remove exactly the
/// working-directory entries whose name differs from the new version
/// directory; of the listed entries only the version directory survives the
/// sweep, so one version directory remains.
pub proof fn lemma_sweep_request_leaves_one_version_dir(
    m: ResolverModel,
    version_dir: Seq<char>,
    bp: Seq<char>,
    entries: Seq<Seq<char>>,
)
    requires
        m.phase == (PhaseModel::AwaitListing { version_dir, binary_path: bp }),
    ensures
        (spec_step(m, EventModel::WorkingDirListed { entries }) matches Some((post, out)) && out
            == StepModel::Ask {
            query: QueryModel::Remove { entries: spec_stale(entries, version_dir) },
        } && post.phase == (PhaseModel::AwaitSweep { binary_path: bp })),
        forall|e: Seq<char>|
            entries.contains(e) ==> (#[trigger] spec_stale(entries, version_dir).contains(e) <==> e
                != version_dir),
        entries.contains(version_dir) ==> entries.to_set().difference(
            spec_stale(entries, version_dir).to_set(),
        ) =~= set![version_dir],
{
    lemma_sweep_leaves_only_version_dir(entries, version_dir);
}

/// The end of a resolution attempt from `m` in which the settings name no
/// explicit path, PATH finds nothing, and the cached path passes its file
/// check.
pub open spec fn spec_cached_attempt(
    m: ResolverModel,
    env: Seq<(Seq<char>, Seq<char>)>,
    settings: Option<BinarySettingsModel>,
) -> Option<(ResolverModel, StepModel)> {
    spec_step(
        spec_step(
            spec_step(spec_begin(m, env).0, EventModel::Settings { settings }).unwrap().0,
            EventModel::PathFound { path: None },
        ).unwrap().0,
        EventModel::FileChecked { is_file: true },
    )
}

/// Idempotence: with a valid cached path and no local override, an attempt
/// asks no network query (its queries are the settings lookup, the PATH
/// lookup and one file check) and returns the cached path; an identical
/// second attempt returns the very same descriptor and leaves the cache as
/// it was.
pub proof fn lemma_cached_resolution_idempotent(
    m0: ResolverModel,
    env: Seq<(Seq<char>, Seq<char>)>,
    settings: Option<BinarySettingsModel>,
    cached: Seq<char>,
)
    requires
        m0.phase is Idle,
        m0.cached_binary_path == Some(cached),
        (settings matches Some(s) ==> s.path is None),
    ensures
        ({
            let (m1, o1) = spec_begin(m0, env);
            let s2 = spec_step(m1, EventModel::Settings { settings });
            let s3 = spec_step(s2.unwrap().0, EventModel::PathFound { path: None });
            let s4 = spec_step(s3.unwrap().0, EventModel::FileChecked { is_file: true });
            &&& o1 == StepModel::Ask { query: QueryModel::FetchSettings }
            &&& s2 matches Some((m2, o2)) && o2 == StepModel::Ask {
                query: QueryModel::LookupPath,
            }
            &&& s3 matches Some((m3, o3)) && o3 == StepModel::Ask {
                query: QueryModel::CheckFile { path: cached },
            } && !is_network_query(QueryModel::CheckFile { path: cached })
            &&& s4 matches Some((m4, o4)) && ({
                &&& m4.phase is Idle
                &&& m4.cached_binary_path == Some(cached)
                &&& o4 matches StepModel::Done { descriptor } && descriptor.executable_path
                    == cached
            })
        }),
        ({
            let r1 = spec_cached_attempt(m0, env, settings);
            let r2 = spec_cached_attempt(r1.unwrap().0, env, settings);
            &&& r1 is Some
            &&& r2 is Some
            &&& r2.unwrap().1 == r1.unwrap().1
            &&& r2.unwrap().0.cached_binary_path == Some(cached)
        }),
{
}

/// The cached path is set only at the end of a successful provisioning
/// cycle — either the expected executable was already installed, or it was
/// downloaded, extracted and swept — and then to the very path the returned
/// descriptor launches.  Every other step leaves the cache unchanged.
pub proof fn lemma_cache_set_only_on_provisioning_success(m: ResolverModel, e: EventModel)
    ensures
        (spec_step(m, e) matches Some((post, out)) ==> (post.cached_binary_path
            == m.cached_binary_path || (out matches StepModel::Done { descriptor }
            && post.cached_binary_path == Some(descriptor.executable_path) && (m.phase
            is AwaitInstallCheck || m.phase is AwaitSweep)))),
{
}

} // verus!
