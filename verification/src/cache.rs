//! The hash-based cache decision.
//!
//! Every mirrored artifact carries a companion record holding the
//! digest its bytes were last verified against.  An artifact is current
//! exactly when the digest resolved locally -- the record, or failing
//! that a fresh digest of the bytes -- equals the digest the manifest
//! declares; only then is no fetch issued.  After a fetch the fresh
//! bytes are digested again and must match, or the channel fails.

use vstd::prelude::*;
use crate::manifest::{SyncError, SyncErrorV, opt_view};
use crate::strutil;

verus! {

/// What the cache layer decides for one artifact.
#[derive(Debug, Clone, Copy, PartialEq, Eq, Structural)]
pub struct CachePlan {
    /// Whether the artifact must be fetched.
    pub fetch: bool,
    /// Whether the companion record must be written even though no
    /// fetch happens (the bytes were verified but the record is absent).
    pub write_record: bool,
}

/// The digest the mirror already holds for an artifact: its companion
/// record where one exists, else a fresh digest of the local bytes
/// where the file exists.
pub open spec fn resolved_digest(
    record: Option<Seq<char>>,
    local: Option<Seq<char>>,
) -> Option<Seq<char>> {
    if record is Some {
        record
    } else {
        local
    }
}

/// The cache decision: fetch exactly when no locally held digest equals
/// the declared one; write the record without fetching exactly when the
/// bytes match but the record itself was absent.
pub open spec fn spec_cache_plan(
    record: Option<Seq<char>>,
    local: Option<Seq<char>>,
    expected: Seq<char>,
) -> CachePlan {
    let fetch = resolved_digest(record, local) != Some(expected);
    CachePlan { fetch, write_record: !fetch && record is None }
}

/// Decides whether an artifact must be fetched, from its companion
/// record, a digest of the local bytes (consulted only when the record
/// is absent), and the digest the manifest declares.
pub fn cache_plan(record: &Option<String>, local: &Option<String>, expected: &str) -> (r:
    CachePlan)
    ensures
        r == spec_cache_plan(opt_view(*record), opt_view(*local), expected@),
        r.fetch <==> resolved_digest(opt_view(*record), opt_view(*local)) != Some(expected@),
        r.write_record <==> !r.fetch && record is None,
{
    match record {
        Some(rec) => CachePlan { fetch: !strutil::str_eq(rec.as_str(), expected), write_record: false },
        None => match local {
            Some(digest) => {
                let matches_expected = strutil::str_eq(digest.as_str(), expected);
                CachePlan { fetch: !matches_expected, write_record: matches_expected }
            },
            None => CachePlan { fetch: true, write_record: false },
        },
    }
}

/// Checks a freshly fetched artifact: the digest of its bytes must
/// exist and equal the declared one; the matching digest then becomes
/// the new companion record.  A mismatch is fatal and never retried.
pub fn check_fetched(actual: &Option<String>, expected: &str, path: &str) -> (r: Result<
    String,
    SyncError,
>)
    ensures
        r is Ok <==> opt_view(*actual) == Some(expected@),
        r matches Ok(rec) ==> rec@ == expected@,
        r matches Err(e) ==> e@ == (SyncErrorV::IntegrityMismatch {
            path: path@,
            expected: expected@,
            actual: match opt_view(*actual) {
                Some(a) => a,
                None => Seq::empty(),
            },
        }),
{
    match actual {
        Some(digest) => {
            if strutil::str_eq(digest.as_str(), expected) {
                Ok(strutil::to_owned_string(digest.as_str()))
            } else {
                Err(
                    SyncError::IntegrityMismatch {
                        path: strutil::to_owned_string(path),
                        expected: strutil::to_owned_string(expected),
                        actual: strutil::to_owned_string(digest.as_str()),
                    },
                )
            }
        },
        None => {
            let empty = String::new();
            Err(
                SyncError::IntegrityMismatch {
                    path: strutil::to_owned_string(path),
                    expected: strutil::to_owned_string(expected),
                    actual: empty,
                },
            )
        },
    }
}

/// Law: an artifact whose companion record equals the declared digest
/// is never fetched and its record is left alone; one whose record
/// differs is fetched, whatever the local bytes would digest to.
pub proof fn lemma_cache_correctness(
    record: Seq<char>,
    local: Option<Seq<char>>,
    expected: Seq<char>,
)
    ensures
        spec_cache_plan(Some(record), local, expected).fetch <==> record != expected,
        !spec_cache_plan(Some(record), local, expected).write_record,
{
}

/// Law: a run that completed leaves every required artifact with a
/// companion record equal to its declared digest, so a second run over
/// the same references plans no fetch and rewrites no record.
pub proof fn lemma_sync_idempotent(refs: Seq<crate::manifest::ArtifactRefV>, local: Option<
    Seq<char>,
>)
    ensures
        forall|i: int| 0 <= i < refs.len() ==> !(#[trigger] spec_cache_plan(
            Some(refs[i].hash),
            local,
            refs[i].hash,
        )).fetch,
        forall|i: int| 0 <= i < refs.len() ==> !(#[trigger] spec_cache_plan(
            Some(refs[i].hash),
            local,
            refs[i].hash,
        )).write_record,
{
}

} // verus!
