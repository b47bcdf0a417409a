//! Resolving an artifact root: an explicit local path wins, an existing
//! cache directory is trusted as-is, and only when neither is present is
//! a download of the versioned archive called for.  The resolver itself
//! performs no I/O — the caller reports whether the cache directory
//! exists and carries out a requested download.

use vstd::prelude::*;
use vstd::string::StringExecFns;

use crate::strutil::{path_join, spec_path_join};

verus! {

/// The bound on one artifact request, in seconds: ten minutes, so a
/// stalled download fails the pass instead of hanging it indefinitely.
/// The caller that performs a requested download applies it to the
/// fetch.
pub const DOWNLOAD_TIMEOUT_SECS: u64 = 600;

/// Where an artifact root comes from in one configuration pass.
#[derive(Debug, PartialEq, Eq)]
pub enum ArtifactSource {
    /// An explicitly named local directory, returned unchanged and
    /// unvalidated; no network is touched.
    Local(String),
    /// The cache directory for this version already exists; its content
    /// is trusted as-is and no network is touched.
    Cached(String),
    /// Fetch the archive at `url` and extract it into `unpack_dir` — the
    /// one step of the pass with observable external effects.
    Download { url: String, unpack_dir: String },
}

/// The URL a needed download fetches: the override when one is set, the
/// fixed default otherwise.
pub open spec fn spec_download_url(env_url: Option<Seq<char>>, default_url: Seq<char>) -> Seq<
    char,
> {
    match env_url {
        Some(u) => u,
        None => default_url,
    }
}

/// Resolve an artifact root from the caller's overrides and the state of
/// the cache.
///
/// An explicit local path is returned unchanged.  Otherwise the cache
/// subdirectory is derived from the cache root and the version-qualified
/// name; when it exists it is returned as-is, and when it does not, the
/// single download that the pass may perform is requested, into exactly
/// that subdirectory.
pub fn resolve_artifact_root(
    env_path: Option<String>,
    env_url: Option<String>,
    default_url: &str,
    out_dir: &str,
    unpack_name: &str,
    cache_present: bool,
) -> (r: ArtifactSource)
    ensures
        env_path matches Some(p) ==> (r matches ArtifactSource::Local(l) && l@ == p@),
        env_path is None && cache_present ==> (r matches ArtifactSource::Cached(c) && c@
            == spec_path_join(out_dir@, unpack_name@)),
        env_path is None && !cache_present ==> (r matches ArtifactSource::Download {
            url,
            unpack_dir,
        } && url@ == spec_download_url(env_url.deep_view(), default_url@) && unpack_dir@
            == spec_path_join(out_dir@, unpack_name@)),
{
    match env_path {
        Some(p) => ArtifactSource::Local(p),
        None => {
            let unpack_dir = path_join(out_dir, unpack_name);
            if cache_present {
                ArtifactSource::Cached(unpack_dir)
            } else {
                let url = match env_url {
                    Some(u) => u,
                    None => String::from_str(default_url),
                };
                ArtifactSource::Download { url, unpack_dir }
            }
        },
    }
}

/// The version of the compatibility library fetched when no override is
/// given.
pub fn default_vc_ltl_version() -> (r: &'static str)
    ensures
        r@ == "5.2.2-Beta2"@,
{
    "5.2.2-Beta2"
}

/// The version of the shim-object archive fetched when no override is
/// given.
pub fn default_yy_thunks_version() -> (r: &'static str)
    ensures
        r@ == "1.1.7"@,
{
    "1.1.7"
}

/// The download URL of the compatibility-library archive for a version.
pub open spec fn spec_vc_ltl_url(version: Seq<char>) -> Seq<char> {
    "https://github.com/Chuyu-Team/VC-LTL5/releases/download/v"@ + version + "/VC-LTL-Binary.7z"@
}

/// The download URL of the compatibility-library archive for a version:
/// a 7-zip container on the upstream release page.
pub fn vc_ltl_default_url(version: &str) -> (r: String)
    ensures
        r@ == spec_vc_ltl_url(version@),
{
    String::from_str("https://github.com/Chuyu-Team/VC-LTL5/releases/download/v").concat(
        version,
    ).concat("/VC-LTL-Binary.7z")
}

/// The download URL of the shim-object archive for a version.
pub open spec fn spec_yy_thunks_url(version: Seq<char>) -> Seq<char> {
    "https://github.com/Chuyu-Team/YY-Thunks/releases/download/v"@ + version + "/YY-Thunks-Objs.zip"@
}

/// The download URL of the shim-object archive for a version: a zip
/// container on the upstream release page.
pub fn yy_thunks_default_url(version: &str) -> (r: String)
    ensures
        r@ == spec_yy_thunks_url(version@),
{
    String::from_str("https://github.com/Chuyu-Team/YY-Thunks/releases/download/v").concat(
        version,
    ).concat("/YY-Thunks-Objs.zip")
}

/// The version-qualified cache directory name of the compatibility
/// library, so a changed version never hits an older cache entry.
pub fn vc_ltl_cache_name(version: &str) -> (r: String)
    ensures
        r@ == "VC-LTL-"@ + version@,
{
    String::from_str("VC-LTL-").concat(version)
}

/// The version-qualified cache directory name of the shim-object archive.
pub fn yy_thunks_cache_name(version: &str) -> (r: String)
    ensures
        r@ == "YY-Thunks-"@ + version@,
{
    String::from_str("YY-Thunks-").concat(version)
}

/// The two artifact families never share a cache directory name,
/// whatever versions are chosen, so their acquisitions write to disjoint
/// places and need no coordination.
pub proof fn lemma_artifact_caches_are_distinct(va: Seq<char>, vb: Seq<char>)
    ensures
        "VC-LTL-"@ + va != "YY-Thunks-"@ + vb,
{
    reveal_strlit("VC-LTL-");
    reveal_strlit("YY-Thunks-");
    let a = "VC-LTL-"@ + va;
    let b = "YY-Thunks-"@ + vb;
    assert(a[0] == 'V');
    assert(b[0] == 'Y');
}

} // verus!
