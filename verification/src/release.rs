use vstd::prelude::*;
use crate::text::{opt_text, same_text, spec_trim_start_char, trim_start_char};

verus! {

/// Where the launcher asks for the newest release.
pub const LATEST_RELEASE_URL: &'static str = "https://api.github.com/repos/codep1ltio/Vortex.AIS/releases/latest";

/// The user agent that the launcher's requests carry.
pub const USER_AGENT: &'static str = "VortexAIS";

/// One downloadable file of a release.
pub struct GithubAsset {
    pub name: String,
    pub browser_download_url: String,
}

/// A release as the releases API describes it: its tag and its files.
pub struct GithubRelease {
    pub tag_name: String,
    pub assets: Vec<GithubAsset>,
}

impl View for GithubAsset {
    /// The asset's name and download address.
    type V = (Seq<char>, Seq<char>);

    open spec fn view(&self) -> (Seq<char>, Seq<char>) {
        (self.name@, self.browser_download_url@)
    }
}

impl View for GithubRelease {
    /// The tag and the assets, in the order the API lists them.
    type V = (Seq<char>, Seq<(Seq<char>, Seq<char>)>);

    open spec fn view(&self) -> (Seq<char>, Seq<(Seq<char>, Seq<char>)>) {
        (self.tag_name@, self.assets@.map_values(|a: GithubAsset| a@))
    }
}

/// A version with its leading `v`s removed, so that `v0.2` and `0.2` compare equal.
pub open spec fn spec_version_core(v: Seq<char>) -> Seq<char> {
    spec_trim_start_char(v, 'v')
}

/// Whether a release tagged `latest` differs from the running version `current`.
pub open spec fn spec_needs_update(current: Seq<char>, latest: Seq<char>) -> bool {
    spec_version_core(latest) != spec_version_core(current)
}

/// The download address of the first asset named `name`, if any.
pub open spec fn spec_find_asset(assets: Seq<(Seq<char>, Seq<char>)>, name: Seq<char>) -> Option<
    Seq<char>,
>
    decreases assets.len(),
{
    if assets.len() == 0 {
        None
    } else if assets[0].0 == name {
        Some(assets[0].1)
    } else {
        spec_find_asset(assets.drop_first(), name)
    }
}

/// The version with its leading `v`s removed.
pub fn version_core(v: &str) -> (res: &str)
    ensures
        res@ == spec_version_core(v@),
{
    trim_start_char(v, 'v')
}

/// Whether the release tag `latest` names another version than `current`.
pub fn needs_update(current: &str, latest: &str) -> (res: bool)
    ensures
        res == spec_needs_update(current@, latest@),
{
    !same_text(version_core(latest), version_core(current))
}

/// The download address of the first asset of `release` named `name`.
pub fn find_asset_url(release: &GithubRelease, name: &str) -> (res: Option<String>)
    ensures
        opt_text(res) == spec_find_asset(release@.1, name@),
{
    let ghost assets = release@.1;
    let mut i: usize = 0;
    assert(assets.skip(0) =~= assets);
    while i < release.assets.len()
        invariant
            i <= release.assets.len(),
            assets == release.assets@.map_values(|a: GithubAsset| a@),
            spec_find_asset(assets, name@) == spec_find_asset(assets.skip(i as int), name@),
        decreases release.assets.len() - i,
    {
        let asset = &release.assets[i];
        assert(assets.skip(i as int)[0] == asset@);
        if same_text(asset.name.as_str(), name) {
            return Some(asset.browser_download_url.clone());
        }
        assert(assets.skip(i as int).drop_first() =~= assets.skip(i + 1));
        i = i + 1;
    }
    None
}

/// The name of the archive that an update ships in.
pub const UPDATE_ARCHIVE_NAME: &'static str = "vortex.zip";

/// The download address of the release's `vortex.zip`.
pub fn update_archive_url(release: &GithubRelease) -> (res: Option<String>)
    ensures
        opt_text(res) == spec_find_asset(release@.1, "vortex.zip"@),
{
    find_asset_url(release, UPDATE_ARCHIVE_NAME)
}

/// The address found belongs to the first asset whose name is exactly `name`: there is
/// one exactly when some asset carries that name, the asset there carries exactly that
/// name and that address, and no earlier asset carries the name.
pub proof fn lemma_find_asset_is_first_exact_match(
    assets: Seq<(Seq<char>, Seq<char>)>,
    name: Seq<char>,
)
    ensures
        spec_find_asset(assets, name) is None <==> forall|j: int|
            0 <= j < assets.len() ==> assets[j].0 != name,
        spec_find_asset(assets, name) matches Some(u) ==> exists|i: int|
            0 <= i < assets.len() && assets[i] == (name, u) && forall|j: int|
                0 <= j < i ==> assets[j].0 != name,
        forall|i: int|
            0 <= i < assets.len() && assets[i].0 == name && (forall|j: int|
                0 <= j < i ==> assets[j].0 != name) ==> spec_find_asset(assets, name) == Some(
                assets[i].1,
            ),
    decreases assets.len(),
{
    if assets.len() > 0 {
        let rest = assets.drop_first();
        lemma_find_asset_is_first_exact_match(rest, name);
        assert forall|j: int| 0 <= j < rest.len() implies rest[j] == assets[j + 1] by {}
        if assets[0].0 != name {
            if let Some(u) = spec_find_asset(assets, name) {
                let k = choose|k: int|
                    0 <= k < rest.len() && rest[k] == (name, u) && forall|j: int|
                        0 <= j < k ==> rest[j].0 != name;
                assert(assets[k + 1] == (name, u));
                assert forall|j: int| 0 <= j < k + 1 implies assets[j].0 != name by {
                    if j > 0 {
                        assert(rest[j - 1] == assets[j]);
                    }
                }
            }
            assert forall|i: int|
                0 <= i < assets.len() && assets[i].0 == name && (forall|j: int|
                    0 <= j < i ==> assets[j].0 != name) implies spec_find_asset(assets, name)
                == Some(assets[i].1) by {
                assert(i >= 1);
                assert(rest[i - 1] == assets[i]);
                assert forall|j: int| 0 <= j < i - 1 implies rest[j].0 != name by {
                    assert(rest[j] == assets[j + 1]);
                }
            }
            if forall|j: int| 0 <= j < rest.len() ==> rest[j].0 != name {
                assert forall|j: int| 0 <= j < assets.len() implies assets[j].0 != name by {
                    if j > 0 {
                        assert(rest[j - 1] == assets[j]);
                    }
                }
            }
        } else {
            assert(assets[0] == (name, assets[0].1));
        }
    }
}

proof fn lemma_version_core_split(v: Seq<char>) -> (k: int)
    ensures
        0 <= k <= v.len(),
        forall|j: int| 0 <= j < k ==> v[j] == 'v',
        spec_version_core(v) == v.skip(k),
        k < v.len() ==> v[k] != 'v',
    decreases v.len(),
{
    if v.len() > 0 && v[0] == 'v' {
        let k1 = lemma_version_core_split(v.drop_first());
        assert(v.drop_first().skip(k1) =~= v.skip(k1 + 1));
        assert forall|j: int| 0 <= j < k1 + 1 implies v[j] == 'v' by {
            if j > 0 {
                assert(v[j] == v.drop_first()[j - 1]);
            }
        }
        k1 + 1
    } else {
        assert(v.skip(0) =~= v);
        0
    }
}

/// The version core only removes the leading `v`s: the version is a run of `v`s followed
/// by its core, and the core does not start with `v`.
pub proof fn lemma_version_core_strips_leading_vs(v: Seq<char>)
    ensures
        exists|k: int|
            0 <= k <= v.len() && (forall|j: int| 0 <= j < k ==> v[j] == 'v') && spec_version_core(
                v,
            ) == v.skip(k),
        !(spec_version_core(v).len() > 0 && spec_version_core(v)[0] == 'v'),
{
    let k = lemma_version_core_split(v);
    if k < v.len() {
        assert(spec_version_core(v)[0] == v[k]);
    }
}

/// A release is no update exactly when its tag and the running version are the same once
/// each loses its leading `v`s.
pub proof fn lemma_update_needed_unless_same_version(current: Seq<char>, latest: Seq<char>)
    ensures
        !spec_needs_update(current, latest) <==> exists|kc: int, kl: int|
            #![trigger current.skip(kc), latest.skip(kl)]
            0 <= kc <= current.len() && 0 <= kl <= latest.len() && (forall|j: int|
                0 <= j < kc ==> current[j] == 'v') && (forall|j: int|
                0 <= j < kl ==> latest[j] == 'v') && (kc < current.len() ==> current[kc] != 'v')
                && (kl < latest.len() ==> latest[kl] != 'v') && current.skip(kc) == latest.skip(
                kl,
            ),
{
    let kc = lemma_version_core_split(current);
    let kl = lemma_version_core_split(latest);
    if !spec_needs_update(current, latest) {
        assert(0 <= kc <= current.len() && 0 <= kl <= latest.len() && (forall|j: int|
            0 <= j < kc ==> current[j] == 'v') && (forall|j: int| 0 <= j < kl ==> latest[j] == 'v')
            && (kc < current.len() ==> current[kc] != 'v') && (kl < latest.len() ==> latest[kl]
            != 'v') && current.skip(kc) == latest.skip(kl));
    }
    assert forall|a: int, b: int|
        0 <= a <= current.len() && 0 <= b <= latest.len() && (forall|j: int|
            0 <= j < a ==> current[j] == 'v') && (forall|j: int| 0 <= j < b ==> latest[j] == 'v')
            && (a < current.len() ==> current[a] != 'v') && (b < latest.len() ==> latest[b]
            != 'v') && current.skip(a) == latest.skip(b) implies !spec_needs_update(
        current,
        latest,
    ) by {
        lemma_leading_run_unique(current, a, kc);
        lemma_leading_run_unique(latest, b, kl);
    }
}

proof fn lemma_leading_run_unique(v: Seq<char>, a: int, b: int)
    requires
        0 <= a <= v.len(),
        0 <= b <= v.len(),
        forall|j: int| 0 <= j < a ==> v[j] == 'v',
        forall|j: int| 0 <= j < b ==> v[j] == 'v',
        a < v.len() ==> v[a] != 'v',
        b < v.len() ==> v[b] != 'v',
    ensures
        a == b,
{
    if a < b {
        assert(v[a] == 'v');
    }
    if b < a {
        assert(v[b] == 'v');
    }
}

} // verus!
