//! The version catalog: decodes the remote build-listing response and
//! filters it into the installable versions.
//!
//! A build is kept only when its status is `completed`, its result is
//! `succeeded`, and its trigger reason is `manual` or `individualCI`; a kept
//! build becomes a version whose branch is the build's source branch with
//! the `refs/heads/` prefix stripped, whose download URL templates the
//! build id into a fixed artifact pattern, and whose number is the build id
//! plus a fixed offset.  A failure to fetch or to decode the listing yields
//! an empty catalog, never an error.

use vstd::prelude::*;
use vstd::string::*;

use serde_json::Value;

use crate::text::{
    spec_decimal, spec_starts_with, str_eq, str_starts_with, u64_to_decimal,
};

verus! {

/// One installable version of the mod loader, as the selection surface and
/// the pipeline consume it.
#[derive(Clone, Debug)]
pub struct EverestVersion {
    pub branch: String,
    pub url: String,
    pub ver: usize,
}

/// The mathematical content of an [`EverestVersion`].
pub ghost struct VersionFields {
    pub branch: Seq<char>,
    pub url: Seq<char>,
    pub ver: int,
}

impl View for EverestVersion {
    type V = VersionFields;

    open spec fn view(&self) -> VersionFields {
        VersionFields { branch: self.branch@, url: self.url@, ver: self.ver as int }
    }
}

/// The fields of one build of the remote listing, each absent when the
/// build object lacks it or gives it another type.
pub struct BuildRecord {
    pub status: Option<String>,
    pub result: Option<String>,
    pub reason: Option<String>,
    pub id: Option<u64>,
    pub source_branch: Option<String>,
}

/// The mathematical content of a [`BuildRecord`].
pub ghost struct BuildFields {
    pub status: Option<Seq<char>>,
    pub result: Option<Seq<char>>,
    pub reason: Option<Seq<char>>,
    pub id: Option<u64>,
    pub source_branch: Option<Seq<char>>,
}

impl View for BuildRecord {
    type V = BuildFields;

    open spec fn view(&self) -> BuildFields {
        BuildFields {
            status: match self.status {
                Some(s) => Some(s@),
                None => None,
            },
            result: match self.result {
                Some(s) => Some(s@),
                None => None,
            },
            reason: match self.reason {
                Some(s) => Some(s@),
                None => None,
            },
            id: self.id,
            source_branch: match self.source_branch {
                Some(s) => Some(s@),
                None => None,
            },
        }
    }
}

/// The offset between an upstream build id and the version number shown.
pub const VERSION_OFFSET: u64 = 700;

/// What the build-listing body decodes to: the builds of its `value`
/// array, in listing order, or nothing when the body is not such a
/// listing.
pub uninterp spec fn parsed_builds(body: Seq<u8>) -> Option<Seq<BuildFields>>;

/// Relies on `serde_json::from_slice` and `serde_json::Value`'s accessors:
/// the body parses to JSON whose `value` array holds one object per build,
/// of which this reads the `status`, `result`, `reason`, `id` and
/// `sourceBranch` fields; the outcome depends on the bytes alone.
#[verifier::external_body]
fn decode_build_list(body: &Vec<u8>) -> (r: Option<Vec<BuildRecord>>)
    ensures
        match r {
            Some(builds) => parsed_builds(body@) == Some(
                builds@.map_values(|b: BuildRecord| b@),
            ),
            None => parsed_builds(body@) is None,
        },
{
    let root: Value = serde_json::from_slice(body).ok()?;
    let list = root.get("value")?.as_array()?;
    let mut out = Vec::new();
    for b in list {
        let text = |k: &str| b.get(k).and_then(Value::as_str).map(str::to_owned);
        let id = b.get("id").and_then(Value::as_u64);
        out.push(BuildRecord {
            status: text("status"), result: text("result"), reason: text("reason"),
            id, source_branch: text("sourceBranch"),
        });
    }
    Some(out)
}

/// Whether a listed build is kept in the catalog.  Besides the filter on
/// status, result and trigger reason, a build needs an id whose version
/// number still fits the platform's word, and a source branch.
pub open spec fn spec_included(b: BuildFields) -> bool {
    &&& b.status == Some("completed"@)
    &&& b.result == Some("succeeded"@)
    &&& (b.reason == Some("manual"@) || b.reason == Some("individualCI"@))
    &&& b.id is Some
    &&& b.id->Some_0 + VERSION_OFFSET <= usize::MAX
    &&& b.source_branch is Some
}

/// The source branch with the fixed `refs/heads/` prefix stripped.
pub open spec fn spec_strip_ref_prefix(s: Seq<char>) -> Seq<char> {
    if spec_starts_with(s, "refs/heads/"@) {
        s.skip("refs/heads/"@.len() as int)
    } else {
        s
    }
}

/// The artifact-download URL for a build id.
pub open spec fn spec_download_url(id: u64) -> Seq<char> {
    "https://dev.azure.com/EverestAPI/Everest/_apis/build/builds/"@ + spec_decimal(id as nat)
        + "/artifacts?artifactName=main&api-version=5.0&%24format=zip"@
}

/// The version a kept build maps to.
pub open spec fn spec_version_of(b: BuildFields) -> VersionFields {
    VersionFields {
        branch: spec_strip_ref_prefix(b.source_branch->Some_0),
        url: spec_download_url(b.id->Some_0),
        ver: b.id->Some_0 + VERSION_OFFSET,
    }
}

/// The catalog a sequence of builds filters and maps to, in listing order.
pub open spec fn spec_versions(builds: Seq<BuildFields>) -> Seq<VersionFields>
    decreases builds.len(),
{
    if builds.len() == 0 {
        Seq::empty()
    } else {
        let rest = spec_versions(builds.drop_last());
        if spec_included(builds.last()) {
            rest.push(spec_version_of(builds.last()))
        } else {
            rest
        }
    }
}

/// The catalog an optional response body yields: empty when the fetch
/// failed or the body does not decode.
pub open spec fn spec_catalog(body: Option<Seq<u8>>) -> Seq<VersionFields> {
    match body {
        None => Seq::empty(),
        Some(b) => match parsed_builds(b) {
            None => Seq::empty(),
            Some(builds) => spec_versions(builds),
        },
    }
}

/// Every kept build contributes its version to the catalog.
pub proof fn lemma_included_build_yields_version(builds: Seq<BuildFields>, i: int)
    requires
        0 <= i < builds.len(),
        spec_included(builds[i]),
    ensures
        spec_versions(builds).contains(spec_version_of(builds[i])),
    decreases builds.len(),
{
    if i == builds.len() - 1 {
        assert(spec_versions(builds).last() == spec_version_of(builds[i]));
    } else {
        lemma_included_build_yields_version(builds.drop_last(), i);
        let v = spec_version_of(builds[i]);
        let j = choose|j: int|
            0 <= j < spec_versions(builds.drop_last()).len() && spec_versions(
                builds.drop_last(),
            )[j] == v;
        assert(spec_versions(builds)[j] == v);
    }
}

/// Every version of the catalog comes from a kept build; a build that
/// fails the filter contributes nothing.
pub proof fn lemma_version_comes_from_included_build(builds: Seq<BuildFields>, v: VersionFields)
    requires
        spec_versions(builds).contains(v),
    ensures
        exists|i: int|
            0 <= i < builds.len() && spec_included(builds[i]) && v == spec_version_of(builds[i]),
    decreases builds.len(),
{
    if builds.len() == 0 {
    } else {
        let prefix = spec_versions(builds.drop_last());
        if spec_included(builds.last()) && v == spec_version_of(builds.last()) {
            assert(spec_included(builds[builds.len() - 1]));
        } else {
            assert(prefix.contains(v)) by {
                let j = choose|j: int|
                    0 <= j < spec_versions(builds).len() && spec_versions(builds)[j] == v;
                assert(prefix[j] == v);
            }
            lemma_version_comes_from_included_build(builds.drop_last(), v);
            let i = choose|i: int|
                0 <= i < builds.drop_last().len() && spec_included(builds.drop_last()[i]) && v
                    == spec_version_of(builds.drop_last()[i]);
            assert(builds[i] == builds.drop_last()[i]);
        }
    }
}

/// Whether a decoded build passes the catalog filter.
fn build_included(b: &BuildRecord) -> (r: bool)
    ensures
        r == spec_included(b@),
{
    let status_ok = match &b.status {
        Some(s) => str_eq(s.as_str(), "completed"),
        None => false,
    };
    let result_ok = match &b.result {
        Some(s) => str_eq(s.as_str(), "succeeded"),
        None => false,
    };
    let reason_ok = match &b.reason {
        Some(s) => str_eq(s.as_str(), "manual") || str_eq(s.as_str(), "individualCI"),
        None => false,
    };
    let id_ok = match b.id {
        Some(id) => id <= (usize::MAX - VERSION_OFFSET as usize) as u64,
        None => false,
    };
    status_ok && result_ok && reason_ok && id_ok && b.source_branch.is_some()
}

/// Strips the fixed `refs/heads/` prefix from a branch reference; a
/// reference without it passes through unchanged.
pub fn strip_ref_prefix(s: &str) -> (r: String)
    ensures
        r@ == spec_strip_ref_prefix(s@),
{
    let p = "refs/heads/";
    if str_starts_with(s, p) {
        let plen = p.unicode_len();
        let len = s.unicode_len();
        let r = s.substring_char(plen, len).to_owned();
        proof {
            assert(r@ =~= s@.skip(p@.len() as int));
        }
        r
    } else {
        s.to_owned()
    }
}

/// Builds the artifact-download URL for a build id.
pub fn build_download_url(id: u64) -> (r: String)
    ensures
        r@ == spec_download_url(id),
{
    let mut s = String::from_str(
        "https://dev.azure.com/EverestAPI/Everest/_apis/build/builds/",
    );
    let digits = u64_to_decimal(id);
    s.append(digits.as_str());
    s.append("/artifacts?artifactName=main&api-version=5.0&%24format=zip");
    s
}

/// The fixed build-listing endpoint the catalog is fetched from.
pub fn catalog_url() -> (r: String)
    ensures
        r@ == "https://dev.azure.com/EverestAPI/Everest/_apis/build/builds?api-version=5.0"@,
{
    String::from_str("https://dev.azure.com/EverestAPI/Everest/_apis/build/builds?api-version=5.0")
}

/// Filters and maps decoded builds into the catalog, in listing order.
pub fn versions_from_builds(builds: &Vec<BuildRecord>) -> (r: Vec<EverestVersion>)
    ensures
        r@.map_values(|v: EverestVersion| v@) == spec_versions(
            builds@.map_values(|b: BuildRecord| b@),
        ),
{
    let ghost all = builds@.map_values(|b: BuildRecord| b@);
    let mut out: Vec<EverestVersion> = Vec::new();
    let mut i: usize = 0;
    while i < builds.len()
        invariant
            0 <= i <= builds@.len(),
            all == builds@.map_values(|b: BuildRecord| b@),
            out@.map_values(|v: EverestVersion| v@) == spec_versions(all.take(i as int)),
        decreases builds@.len() - i,
    {
        let b = &builds[i];
        proof {
            assert(all.take(i + 1).drop_last() =~= all.take(i as int));
            assert(all.take(i + 1).last() == b@);
        }
        if build_included(b) {
            let id = match b.id {
                Some(id) => id,
                None => {
                    proof {
                        assert(false);
                    }
                    0
                },
            };
            let branch = match &b.source_branch {
                Some(s) => strip_ref_prefix(s.as_str()),
                None => {
                    proof {
                        assert(false);
                    }
                    String::new()
                },
            };
            let v = EverestVersion {
                branch,
                url: build_download_url(id),
                ver: (id + VERSION_OFFSET) as usize,
            };
            out.push(v);
            proof {
                assert(out@.map_values(|v: EverestVersion| v@) =~= spec_versions(
                    all.take(i + 1),
                ));
            }
        } else {
            proof {
                assert(out@.map_values(|v: EverestVersion| v@) =~= spec_versions(
                    all.take(i + 1),
                ));
            }
        }
        i = i + 1;
    }
    proof {
        assert(all.take(builds@.len() as int) =~= all);
    }
    out
}

/// Turns the fetched build-listing body into the catalog.  A fetch that
/// failed is handed in as `None`; it and a body that does not decode both
/// yield an empty catalog, never an error.
pub fn get_versions(body: &Option<Vec<u8>>) -> (r: Vec<EverestVersion>)
    ensures
        r@.map_values(|v: EverestVersion| v@) == spec_catalog(
            match body {
                Some(b) => Some(b@),
                None => None,
            },
        ),
{
    match body {
        None => Vec::new(),
        Some(bytes) => match decode_build_list(bytes) {
            None => Vec::new(),
            Some(builds) => versions_from_builds(&builds),
        },
    }
}

} // verus!
