//! Per-channel orchestration.
//!
//! A channel's sync runs in stages: the request is validated once, the
//! channel manifest and its digest record are fetched, the manifest's
//! own integrity and version marker are checked, the filter determines
//! the mutated manifest and the complete required-artifact set, every
//! artifact is brought current through the cache layer, and only then
//! is the manifest published.  A failure at any stage aborts the
//! channel's remaining work; nothing already written is rolled back.

use vstd::prelude::*;
use crate::filter::spec_filter;
use crate::manifest::{ArtifactRef, ArtifactRefV, Manifest, ManifestV, SyncError, SyncErrorV};
use crate::request::Request;
use crate::strutil;

verus! {

/// The one supported manifest version marker.
pub open spec fn supported_version() -> Seq<char> {
    "2"@
}

/// Checks the manifest's version marker against the one supported
/// value; any other marker is fatal for the channel.
pub fn check_manifest_version(m: &Manifest) -> (r: Result<(), SyncError>)
    ensures
        r is Ok <==> m@.version == supported_version(),
        r matches Err(e) ==> e@ == (SyncErrorV::UnsupportedManifestVersion { found: m@.version }),
{
    if strutil::str_eq(m.version.as_str(), "2") {
        Ok(())
    } else {
        Err(
            SyncError::UnsupportedManifestVersion {
                found: strutil::to_owned_string(m.version.as_str()),
            },
        )
    }
}

/// Whether a digest-record text confirms a computed digest: its first
/// 64 characters must be exactly that digest.
pub open spec fn record_confirms(record: Seq<char>, computed: Seq<char>) -> bool {
    record.len() >= 64 && record.subrange(0, 64) == computed
}

/// Checks the manifest's own integrity: the fetched digest record must
/// start with the digest computed from the fetched manifest bytes.
pub fn check_manifest_integrity(computed: &str, record: &str, name: &str) -> (r: Result<
    (),
    SyncError,
>)
    ensures
        r is Ok <==> record_confirms(record@, computed@),
        r matches Err(e) ==> e@ == (SyncErrorV::IntegrityMismatch {
            path: name@,
            expected: if record@.len() >= 64 {
                record@.subrange(0, 64)
            } else {
                record@
            },
            actual: computed@,
        }),
{
    let n = record.unicode_len();
    if n < 64 {
        return Err(
            SyncError::IntegrityMismatch {
                path: strutil::to_owned_string(name),
                expected: strutil::to_owned_string(record),
                actual: strutil::to_owned_string(computed),
            },
        );
    }
    let head = record.substring_char(0, 64);
    if strutil::str_eq(head, computed) {
        Ok(())
    } else {
        Err(
            SyncError::IntegrityMismatch {
                path: strutil::to_owned_string(name),
                expected: strutil::to_owned_string(head),
                actual: strutil::to_owned_string(computed),
            },
        )
    }
}

/// What one channel's plan is: the version marker is checked first,
/// then the filter runs.
pub open spec fn spec_plan_channel(
    m: ManifestV,
    req: crate::request::RequestV,
    upstream: Seq<char>,
) -> Result<(ManifestV, Seq<ArtifactRefV>), SyncErrorV> {
    if m.version != supported_version() {
        Err(SyncErrorV::UnsupportedManifestVersion { found: m.version })
    } else {
        spec_filter(m, req, upstream)
    }
}

/// Plans one channel's sync from its parsed manifest and the validated
/// request: checks the version marker, then filters.  What comes back
/// is the manifest to publish and every artifact to bring current; on
/// an error nothing is to be written for the channel.
pub fn plan_channel(m: &Manifest, req: &Request, upstream_url: &str) -> (r: Result<
    (Manifest, Vec<ArtifactRef>),
    SyncError,
>)
    ensures
        match r {
            Ok(p) => spec_plan_channel(m@, req@, upstream_url@) == Ok::<
                (ManifestV, Seq<ArtifactRefV>),
                SyncErrorV,
            >((p.0@, p.1@.map_values(|a: ArtifactRef| a@))),
            Err(err) => spec_plan_channel(m@, req@, upstream_url@) == Err::<
                (ManifestV, Seq<ArtifactRefV>),
                SyncErrorV,
            >(err@),
        },
{
    match check_manifest_version(m) {
        Err(e) => Err(e),
        Ok(()) => crate::filter::filter_manifest(m, req, upstream_url),
    }
}

/// Law: against the same request and the same upstream manifest, two
/// runs plan the same published manifest -- hence byte-identical
/// serialized text -- and the same required artifacts; and since a
/// completed run leaves each artifact's companion record equal to its
/// declared digest, the second run plans no fetch and rewrites no
/// record for any of them.
pub proof fn lemma_rerun_identical(
    m: ManifestV,
    req: crate::request::RequestV,
    upstream: Seq<char>,
    r1: Result<(ManifestV, Seq<ArtifactRefV>), SyncErrorV>,
    r2: Result<(ManifestV, Seq<ArtifactRefV>), SyncErrorV>,
)
    requires
        r1 == spec_plan_channel(m, req, upstream),
        r2 == spec_plan_channel(m, req, upstream),
    ensures
        r1 == r2,
        r1 matches Ok(p) ==> crate::publish::spec_manifest_toml(p.0)
            == crate::publish::spec_manifest_toml(r2->Ok_0.0),
        r1 matches Ok(p) ==> forall|i: int| 0 <= i < p.1.len() ==> {
            let plan = #[trigger] crate::cache::spec_cache_plan(
                Some(p.1[i].hash),
                None,
                p.1[i].hash,
            );
            !plan.fetch && !plan.write_record
        },
{
}

} // verus!
