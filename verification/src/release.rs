//! Release metadata fetched from the upstream source, asset selection, and
//! the stale-version sweep decision.
//!
//! The metadata is untrusted input: it is validated only by exact name
//! matching against the computed asset name.

use vstd::prelude::*;

verus! {

/// One downloadable file attached to a release.
pub struct ReleaseAsset {
    pub name: String,
    pub download_url: String,
}

/// Mathematical model of a release asset.
#[verifier::ext_equal]
pub struct AssetModel {
    pub name: Seq<char>,
    pub download_url: Seq<char>,
}

impl View for ReleaseAsset {
    type V = AssetModel;

    open spec fn view(&self) -> AssetModel {
        AssetModel { name: self.name@, download_url: self.download_url@ }
    }
}

impl DeepView for ReleaseAsset {
    type V = AssetModel;

    open spec fn deep_view(&self) -> AssetModel {
        self@
    }
}

/// Metadata of one release: a version identifier and its downloadable assets.
pub struct ReleaseMetadata {
    pub version: String,
    pub assets: Vec<ReleaseAsset>,
}

/// Mathematical model of release metadata.
#[verifier::ext_equal]
pub struct ReleaseModel {
    pub version: Seq<char>,
    pub assets: Seq<AssetModel>,
}

impl View for ReleaseMetadata {
    type V = ReleaseModel;

    open spec fn view(&self) -> ReleaseModel {
        ReleaseModel { version: self.version@, assets: self.assets.deep_view() }
    }
}

/// First asset whose name equals `name`, if any.
pub open spec fn spec_find_asset(assets: Seq<AssetModel>, name: Seq<char>) -> Option<AssetModel>
    decreases assets.len(),
{
    if assets.len() == 0 {
        None
    } else if assets.first().name == name {
        Some(assets.first())
    } else {
        spec_find_asset(assets.drop_first(), name)
    }
}

/// The search fails exactly when no asset carries the name, and a found
/// asset carries the name it was searched by.
pub proof fn lemma_find_asset_characterisation(assets: Seq<AssetModel>, name: Seq<char>)
    ensures
        spec_find_asset(assets, name) is None <==> (forall|i: int|
            0 <= i < assets.len() ==> (#[trigger] assets[i]).name != name),
        spec_find_asset(assets, name) matches Some(a) ==> a.name == name && assets.contains(a),
    decreases assets.len(),
{
    if assets.len() == 0 {
    } else {
        let rest = assets.drop_first();
        lemma_find_asset_characterisation(rest, name);
        assert(forall|i: int| 0 <= i < rest.len() ==> rest[i] == assets[i + 1]);
        if assets.first().name != name {
            if spec_find_asset(assets, name) is None {
                assert(forall|i: int|
                    1 <= i < assets.len() ==> (#[trigger] assets[i]).name != name) by {
                    assert(forall|i: int|
                        1 <= i < assets.len() ==> assets[i] == rest[i - 1]);
                }
            }
            match spec_find_asset(rest, name) {
                Some(a) => {
                    assert(rest.contains(a));
                    let j = choose|j: int| 0 <= j < rest.len() && rest[j] == a;
                    assert(assets[j + 1] == a);
                },
                None => {},
            }
        }
    }
}

/// Index of the first asset in `assets` whose name equals `name`.
pub fn find_asset(assets: &Vec<ReleaseAsset>, name: &String) -> (r: Option<usize>)
    ensures
        match r {
            Some(i) => i < assets.len() && spec_find_asset(assets.deep_view(), name@) == Some(
                assets[i as int]@,
            ),
            None => spec_find_asset(assets.deep_view(), name@) is None,
        },
{
    let ghost model = assets.deep_view();
    proof {
        assert(model.skip(0) =~= model);
    }
    let mut i: usize = 0;
    while i < assets.len()
        invariant
            i <= assets.len(),
            model == assets.deep_view(),
            spec_find_asset(model, name@) == spec_find_asset(model.skip(i as int), name@),
        decreases assets.len() - i,
    {
        proof {
            assert(model[i as int] == assets@[i as int]@);
            assert(model.skip(i as int).len() > 0);
            assert(model.skip(i as int).first() == model[i as int]);
        }
        if assets[i].name == *name {
            proof {
                assert(spec_find_asset(model.skip(i as int), name@) == Some(model[i as int]));
            }
            return Some(i);
        }
        proof {
            assert(model.skip(i as int).drop_first() =~= model.skip(i as int + 1));
            assert(spec_find_asset(model.skip(i as int), name@) == spec_find_asset(
                model.skip(i as int + 1),
                name@,
            ));
        }
        i += 1;
    }
    proof {
        assert(model.skip(i as int) =~= Seq::<AssetModel>::empty());
        assert(spec_find_asset(model.skip(i as int), name@) is None);
    }
    None
}

/// The stale part of a working-directory listing beside the version
/// directory `keep`: every entry other than `keep` itself.
pub open spec fn spec_stale(entries: Seq<Seq<char>>, keep: Seq<char>) -> Seq<Seq<char>> {
    entries.filter(|e: Seq<char>| e != keep)
}

proof fn lemma_stale_push(s: Seq<Seq<char>>, m: Seq<char>, k: Seq<char>)
    ensures
        spec_stale(s.push(m), k) == if m != k {
            spec_stale(s, k).push(m)
        } else {
            spec_stale(s, k)
        },
{
    broadcast use vstd::prelude::Seq::lemma_filter_push;
}

/// The working-directory entries to sweep away after provisioning into the
/// version directory `keep`: every entry whose name differs from `keep`.
pub fn stale_entries(entries: &Vec<String>, keep: &String) -> (r: Vec<String>)
    ensures
        r.deep_view() == spec_stale(entries.deep_view(), keep@),
{
    broadcast use vstd::prelude::Seq::lemma_filter_push;

    let ghost model = entries.deep_view();
    let mut r: Vec<String> = Vec::new();
    proof {
        assert(model.take(0) =~= Seq::<Seq<char>>::empty());
        assert(spec_stale(model.take(0), keep@) =~= Seq::<Seq<char>>::empty());
    }
    let mut i: usize = 0;
    while i < entries.len()
        invariant
            i <= entries.len(),
            model == entries.deep_view(),
            r.deep_view() == spec_stale(model.take(i as int), keep@),
        decreases entries.len() - i,
    {
        let ghost prev = r.deep_view();
        proof {
            assert(model[i as int] == entries@[i as int]@);
            assert(model.take(i as int + 1) =~= model.take(i as int).push(model[i as int]));
            lemma_stale_push(model.take(i as int), model[i as int], keep@);
        }
        if !(entries[i] == *keep) {
            r.push(entries[i].clone());
            proof {
                assert(r.deep_view() =~= prev.push(model[i as int]));
            }
        }
        i += 1;
    }
    proof {
        assert(model.take(i as int) =~= model);
    }
    r
}

/// The sweep removes exactly the entries whose name differs from the new
/// version directory: an entry of the working directory survives it if and
/// only if it is the version directory itself, so after a successful
/// provisioning cycle (which created that directory) it is the only entry
/// left.
pub proof fn lemma_sweep_leaves_only_version_dir(entries: Seq<Seq<char>>, keep: Seq<char>)
    ensures
        forall|e: Seq<char>|
            entries.contains(e) ==> (#[trigger] spec_stale(entries, keep).contains(e) <==> e
                != keep),
        entries.contains(keep) ==> entries.to_set().difference(
            spec_stale(entries, keep).to_set(),
        ) =~= set![keep],
{
    broadcast use vstd::seq_lib::group_filter_ensures;

    let stale = spec_stale(entries, keep);
    assert forall|e: Seq<char>| entries.contains(e) implies (#[trigger] stale.contains(e) <==> e
        != keep) by {
        if e != keep {
            let j = choose|j: int| 0 <= j < entries.len() && entries[j] == e;
            assert(entries[j] == e);
            assert(stale.contains(entries[j]));
        }
        if stale.contains(e) {
            let j = choose|j: int| 0 <= j < stale.len() && stale[j] == e;
            assert(stale[j] != keep);
        }
    }
    if entries.contains(keep) {
        let survivors = entries.to_set().difference(stale.to_set());
        assert forall|e: Seq<char>| survivors.contains(e) implies e == keep by {
            assert(entries.contains(e) && !stale.contains(e));
        }
        assert(!stale.contains(keep));
        assert(survivors.contains(keep));
        assert(survivors =~= set![keep]);
    }
}

} // verus!
