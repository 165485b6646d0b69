use vstd::prelude::*;

verus! {

// The cache resolver names on-disk locations for downloaded driver
// binaries.  It is purely deterministic: the path is a function of the
// cache root, the driver name, the platform label and the driver version,
// so resolving the same key twice names the same path.  A download is
// first written to a temporary location and only published to its final
// path once complete; the laws below show that the locations used for
// different driver versions are pairwise disjoint, so concurrent
// temp-then-publish sequences for different versions cannot corrupt each
// other's artifacts.

/// The final cache path of a driver binary.
pub open spec fn cache_path(
    root: Seq<char>,
    driver: Seq<char>,
    platform: Seq<char>,
    version: Seq<char>,
) -> Seq<char> {
    root + "/"@ + driver + "/"@ + platform + "/"@ + version + "/"@ + driver
}

/// The temporary location an artifact is downloaded to before being
/// published atomically to its final cache path.
pub open spec fn temp_path(
    root: Seq<char>,
    driver: Seq<char>,
    platform: Seq<char>,
    version: Seq<char>,
) -> Seq<char> {
    cache_path(root, driver, platform, version) + ".part"@
}

/// A string fit for one segment of a cache path: non-empty and free of
/// path separators.
pub open spec fn segment_wf(s: Seq<char>) -> bool {
    s.len() > 0 && forall|i: int| 0 <= i < s.len() ==> (#[trigger] s[i]) != '/'
}

/// The choice the resolver makes once it knows whether a well-formed
/// artifact is already present at the cache path.
#[derive(Clone, Copy, Debug, PartialEq, Eq, Structural)]
pub enum CacheAction {
    /// The cached artifact is complete: hand its path out, download nothing.
    UseCached,
    /// Nothing usable is cached: fetch into the temporary location, then
    /// publish it to the final path.
    FetchToTemp,
}

pub open spec fn cache_decision(artifact_present: bool) -> CacheAction {
    if artifact_present {
        CacheAction::UseCached
    } else {
        CacheAction::FetchToTemp
    }
}

/// Builds the final cache path for a driver version.
pub fn driver_cache_path(root: &str, driver: &str, platform: &str, version: &str) -> (r: String)
    ensures
        r@ == cache_path(root@, driver@, platform@, version@),
{
    let mut p = root.to_owned();
    p.append("/");
    p.append(driver);
    p.append("/");
    p.append(platform);
    p.append("/");
    p.append(version);
    p.append("/");
    p.append(driver);
    p
}

/// Builds the temporary download path for a driver version.
pub fn driver_temp_path(root: &str, driver: &str, platform: &str, version: &str) -> (r: String)
    ensures
        r@ == temp_path(root@, driver@, platform@, version@),
{
    let mut p = driver_cache_path(root, driver, platform, version);
    p.append(".part");
    p
}

/// Resolves a driver version in the cache.  The named path depends on the
/// key alone — resolving the same (driver, version, platform) twice under
/// the same root yields the same path — and an artifact already present
/// is used as it stands, never downloaded again.
pub fn resolve_in_cache(
    root: &str,
    driver: &str,
    platform: &str,
    version: &str,
    artifact_present: bool,
) -> (r: (String, CacheAction))
    ensures
        r.0@ == cache_path(root@, driver@, platform@, version@),
        r.1 == cache_decision(artifact_present),
        artifact_present ==> r.1 == CacheAction::UseCached,
{
    let path = driver_cache_path(root, driver, platform, version);
    let action = if artifact_present {
        CacheAction::UseCached
    } else {
        CacheAction::FetchToTemp
    };
    (path, action)
}

/// Law: cache resolution is idempotent.  Any two resolutions of the same
/// (driver, version, platform) key under the same root name the same
/// path, and once the artifact is present a resolution decides to use it
/// as it stands rather than fetch it again.
pub proof fn lemma_cache_resolution_idempotent(
    root: Seq<char>,
    driver: Seq<char>,
    platform: Seq<char>,
    version: Seq<char>,
    first: Seq<char>,
    second: Seq<char>,
)
    requires
        first == cache_path(root, driver, platform, version),
        second == cache_path(root, driver, platform, version),
    ensures
        first == second,
        cache_decision(true) == CacheAction::UseCached,
{
}

proof fn lemma_mid_segment_determined(p: Seq<char>, a: Seq<char>, b: Seq<char>, s: Seq<char>)
    requires
        p + a + s == p + b + s,
    ensures
        a == b,
{
    assert((p + a + s).len() == p.len() + a.len() + s.len());
    assert((p + b + s).len() == p.len() + b.len() + s.len());
    assert(a.len() == b.len());
    assert forall|j: int| 0 <= j < a.len() implies a[j] == b[j] by {
        assert((p + a + s)[p.len() + j] == a[j]);
        assert((p + b + s)[p.len() + j] == b[j]);
    }
    assert(a =~= b);
}

/// Law: resolutions of two different driver versions under the same cache
/// root never touch each other's files.  Their final paths differ, their
/// temporary paths differ, and neither one's temporary path is the
/// other's (or its own) final path, so two concurrent temp-then-publish
/// sequences for different versions write to disjoint locations and
/// cannot corrupt either artifact.
pub proof fn lemma_distinct_versions_use_disjoint_paths(
    root: Seq<char>,
    driver: Seq<char>,
    platform: Seq<char>,
    v1: Seq<char>,
    v2: Seq<char>,
)
    requires
        segment_wf(v1),
        segment_wf(v2),
        v1 != v2,
    ensures
        cache_path(root, driver, platform, v1) != cache_path(root, driver, platform, v2),
        temp_path(root, driver, platform, v1) != temp_path(root, driver, platform, v2),
        temp_path(root, driver, platform, v1) != cache_path(root, driver, platform, v2),
        temp_path(root, driver, platform, v2) != cache_path(root, driver, platform, v1),
        temp_path(root, driver, platform, v1) != cache_path(root, driver, platform, v1),
        temp_path(root, driver, platform, v2) != cache_path(root, driver, platform, v2),
{
    reveal_strlit("/");
    reveal_strlit(".part");
    let pre = root + "/"@ + driver + "/"@ + platform + "/"@;
    let suf = "/"@ + driver;
    assert(cache_path(root, driver, platform, v1) =~= pre + v1 + suf);
    assert(cache_path(root, driver, platform, v2) =~= pre + v2 + suf);
    assert(temp_path(root, driver, platform, v1) =~= pre + v1 + (suf + ".part"@));
    assert(temp_path(root, driver, platform, v2) =~= pre + v2 + (suf + ".part"@));
    if cache_path(root, driver, platform, v1) == cache_path(root, driver, platform, v2) {
        lemma_mid_segment_determined(pre, v1, v2, suf);
    }
    if temp_path(root, driver, platform, v1) == temp_path(root, driver, platform, v2) {
        lemma_mid_segment_determined(pre, v1, v2, suf + ".part"@);
    }
    lemma_temp_is_not_final(pre, suf, v1, v2);
    lemma_temp_is_not_final(pre, suf, v2, v1);
    lemma_temp_is_not_final(pre, suf, v1, v1);
    lemma_temp_is_not_final(pre, suf, v2, v2);
}

proof fn lemma_temp_is_not_final(pre: Seq<char>, suf: Seq<char>, va: Seq<char>, vb: Seq<char>)
    requires
        segment_wf(va),
        segment_wf(vb),
        suf.len() > 0,
        suf[0] == '/',
    ensures
        pre + va + (suf + ".part"@) != pre + vb + suf,
{
    reveal_strlit(".part");
    let t = pre + va + (suf + ".part"@);
    let f = pre + vb + suf;
    if t == f {
        assert(t.len() == pre.len() + va.len() + suf.len() + 5);
        assert(f.len() == pre.len() + vb.len() + suf.len());
        assert(vb.len() == va.len() + 5);
        let q: int = pre.len() as int + va.len() as int;
        assert(t[q] == (suf + ".part"@)[0]);
        assert(t[q] == '/');
        assert(f[q] == vb[va.len() as int]);
        assert(f[q] != '/');
    }
}

} // verus!
