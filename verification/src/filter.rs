//! The manifest filter.
//!
//! Given a manifest and a validated request, the filter decides per
//! component and target what stays available, collects every artifact
//! the mirror must hold current, and rewrites the registered variant
//! URLs to hang off the upstream base again.  No component/target key is
//! ever removed: out-of-scope rows are only marked unavailable, because
//! downstream consumers expect every key to exist.

use vstd::prelude::*;
use crate::format::FormatV;
use crate::manifest::{
    ArtifactRef, ArtifactRefV, InstallerArtifactV, Manifest, ManifestV, Package, PackageV,
    SyncError, SyncErrorV, TargetEntry, TargetEntryV, lookup_installer,
};
use crate::paths::{spec_normalize, spec_rel_of_url};
use crate::request::{FormatAssignment, FormatAssignmentV, Request, RequestV};
use crate::strutil;

verus! {

/// The two single-file installer families, unified behind one tag.
#[derive(Debug, Clone, Copy, PartialEq, Eq, Structural)]
pub enum InstallerKind {
    /// The windows-family installer.
    WindowsMsi,
    /// The apple-family installer.
    ApplePkg,
}

/// Whether the triple belongs to the windows family.
pub open spec fn is_windows_family(t: Seq<char>) -> bool {
    strutil::contains_seq(t, "windows"@)
}

/// Whether the triple belongs to the apple family.
pub open spec fn is_apple_family(t: Seq<char>) -> bool {
    strutil::contains_seq(t, "apple"@)
}

/// The installer family a platform gets, the windows marker winning
/// where a triple carries both.
pub open spec fn family_of(t: Seq<char>) -> Option<InstallerKind> {
    if is_windows_family(t) {
        Some(InstallerKind::WindowsMsi)
    } else if is_apple_family(t) {
        Some(InstallerKind::ApplePkg)
    } else {
        None
    }
}

/// The manifest's installer artifacts for one family.
pub open spec fn installer_list(m: ManifestV, k: InstallerKind) -> Seq<InstallerArtifactV> {
    match k {
        InstallerKind::WindowsMsi => m.installer_msi,
        InstallerKind::ApplePkg => m.installer_pkg,
    }
}

/// The artifact references one platform's installer contributes: none
/// for a platform outside both families, and exactly one otherwise --
/// or what went wrong resolving it.
pub open spec fn installer_ref(m: ManifestV, p: Seq<char>) -> Result<
    Seq<ArtifactRefV>,
    SyncErrorV,
> {
    match family_of(p) {
        None => Ok(Seq::empty()),
        Some(k) => match crate::manifest::find_installer(installer_list(m, k), p) {
            None => Err(SyncErrorV::MissingInstaller { target: p }),
            Some(a) => match spec_rel_of_url(a.url) {
                None => Err(SyncErrorV::BadUrl { url: a.url }),
                Some(rel) => Ok(
                    seq![
                        ArtifactRefV {
                            path: spec_normalize(rel),
                            upstream: rel,
                            hash: a.hash,
                        },
                    ],
                ),
            },
        },
    }
}

/// The installer references of all platforms, in order, or the first
/// failure.
pub open spec fn installer_refs(m: ManifestV, ps: Seq<Seq<char>>) -> Result<
    Seq<ArtifactRefV>,
    SyncErrorV,
>
    decreases ps.len(),
{
    if ps.len() == 0 {
        Ok(Seq::empty())
    } else {
        match installer_ref(m, ps.first()) {
            Err(e) => Err(e),
            Ok(rs) => match installer_refs(m, ps.drop_first()) {
                Err(e) => Err(e),
                Ok(rest) => Ok(rs + rest),
            },
        }
    }
}

/// `cs` with every occurrence of `name` removed, order kept.
pub open spec fn remove_comp(cs: Seq<Seq<char>>, name: Seq<char>) -> Seq<Seq<char>>
    decreases cs.len(),
{
    if cs.len() == 0 {
        Seq::empty()
    } else if cs.first() == name {
        remove_comp(cs.drop_first(), name)
    } else {
        seq![cs.first()] + remove_comp(cs.drop_first(), name)
    }
}

/// Whether any platform gets a single-file installer.
pub open spec fn has_installer_platform(ps: Seq<Seq<char>>) -> bool {
    exists|i: int| 0 <= i < ps.len() && family_of(#[trigger] ps[i]) is Some
}

/// The components the package walk keeps current: where an installer
/// already covers the host toolchain, its components drop out; the
/// baseline component is forced back in if nothing else pulls it in.
pub open spec fn effective_components(cs: Seq<Seq<char>>, ps: Seq<Seq<char>>) -> Seq<Seq<char>> {
    let base = if has_installer_platform(ps) {
        remove_comp(
            remove_comp(remove_comp(remove_comp(cs, "rustc"@), "cargo"@), "rustdoc"@),
            "rust-std"@,
        )
    } else {
        cs
    };
    if base.contains("rust-std"@) {
        base
    } else {
        base.push("rust-std"@)
    }
}

/// The format list assigned to `t`, or empty without an assignment.
pub open spec fn formats_of(fmap: Seq<FormatAssignmentV>, t: Seq<char>) -> Seq<FormatV>
    decreases fmap.len(),
{
    if fmap.len() == 0 {
        Seq::empty()
    } else if fmap.first().target == t {
        fmap.first().formats
    } else {
        formats_of(fmap.drop_first(), t)
    }
}

/// Whether the list carries format `f`.
pub open spec fn has_format(fs: Seq<FormatV>, f: Seq<char>) -> bool {
    exists|i: int| 0 <= i < fs.len() && (#[trigger] fs[i]).format == f
}

/// Whether a variant of format `fmt` must be mirrored for target `t`:
/// always for a cross-use target, and for a host platform only where
/// its format assignment carries the matching format.
pub open spec fn variant_wanted(
    t: Seq<char>,
    targets: Seq<Seq<char>>,
    fmap: Seq<FormatAssignmentV>,
    fmt: Seq<char>,
) -> bool {
    targets.contains(t) || has_format(formats_of(fmap, t), fmt)
}

/// Whether the row for target `t` stays available: it must be a host
/// platform, a cross-use target, or the wildcard marker.
pub open spec fn entry_in_scope(
    t: Seq<char>,
    targets: Seq<Seq<char>>,
    platforms: Seq<Seq<char>>,
) -> bool {
    platforms.contains(t) || t == "*"@ || targets.contains(t)
}

/// Resolves one variant of an available row: its rewritten URL and its
/// artifact reference, or what went wrong.
pub open spec fn variant_result(
    u: Option<Seq<char>>,
    h: Option<Seq<char>>,
    comp: Seq<char>,
    t: Seq<char>,
    upstream: Seq<char>,
) -> Result<(Seq<char>, ArtifactRefV), SyncErrorV> {
    match (u, h) {
        (Some(u0), Some(h0)) => match spec_rel_of_url(u0) {
            None => Err(SyncErrorV::BadUrl { url: u0 }),
            Some(rel) => Ok(
                (
                    upstream + rel,
                    ArtifactRefV { path: spec_normalize(rel), upstream: rel, hash: h0 },
                ),
            ),
        },
        _ => Err(SyncErrorV::IncompleteEntry { component: comp, target: t }),
    }
}

/// One row after filtering, with the references it contributes: an
/// out-of-scope row is only marked unavailable, an unavailable row is
/// left alone, and an available in-scope row has each wanted variant
/// registered and its URL rewritten against the upstream base.
pub open spec fn filter_entry(
    e: TargetEntryV,
    comp: Seq<char>,
    targets: Seq<Seq<char>>,
    platforms: Seq<Seq<char>>,
    fmap: Seq<FormatAssignmentV>,
    upstream: Seq<char>,
) -> Result<(TargetEntryV, Seq<ArtifactRefV>), SyncErrorV> {
    if !entry_in_scope(e.target, targets, platforms) {
        Ok((TargetEntryV { available: false, ..e }, Seq::empty()))
    } else if !e.available {
        Ok((e, Seq::empty()))
    } else {
        let want_gz = variant_wanted(e.target, targets, fmap, "gz"@);
        let want_xz = variant_wanted(e.target, targets, fmap, "xz"@);
        if want_gz {
            match variant_result(e.url, e.hash, comp, e.target, upstream) {
                Err(err) => Err(err),
                Ok((nu, r1)) => if want_xz {
                    match variant_result(e.xz_url, e.xz_hash, comp, e.target, upstream) {
                        Err(err) => Err(err),
                        Ok((nxu, r2)) => Ok(
                            (
                                TargetEntryV { url: Some(nu), xz_url: Some(nxu), ..e },
                                seq![r1, r2],
                            ),
                        ),
                    }
                } else {
                    Ok((TargetEntryV { url: Some(nu), ..e }, seq![r1]))
                },
            }
        } else if want_xz {
            match variant_result(e.xz_url, e.xz_hash, comp, e.target, upstream) {
                Err(err) => Err(err),
                Ok((nxu, r2)) => Ok((TargetEntryV { xz_url: Some(nxu), ..e }, seq![r2])),
            }
        } else {
            Ok((e, Seq::empty()))
        }
    }
}

/// All rows of one component after filtering, with their references,
/// or the first failure.
pub open spec fn filter_entries(
    es: Seq<TargetEntryV>,
    comp: Seq<char>,
    targets: Seq<Seq<char>>,
    platforms: Seq<Seq<char>>,
    fmap: Seq<FormatAssignmentV>,
    upstream: Seq<char>,
) -> Result<(Seq<TargetEntryV>, Seq<ArtifactRefV>), SyncErrorV>
    decreases es.len(),
{
    if es.len() == 0 {
        Ok((Seq::empty(), Seq::empty()))
    } else {
        match filter_entry(es.first(), comp, targets, platforms, fmap, upstream) {
            Err(e) => Err(e),
            Ok((e1, r1)) => match filter_entries(
                es.drop_first(),
                comp,
                targets,
                platforms,
                fmap,
                upstream,
            ) {
                Err(e) => Err(e),
                Ok((rest, rr)) => Ok((seq![e1] + rest, r1 + rr)),
            },
        }
    }
}

/// One component's table after filtering: untouched where the component
/// is not kept current, filtered row by row otherwise.
pub open spec fn filter_package(
    p: PackageV,
    comps: Seq<Seq<char>>,
    targets: Seq<Seq<char>>,
    platforms: Seq<Seq<char>>,
    fmap: Seq<FormatAssignmentV>,
    upstream: Seq<char>,
) -> Result<(PackageV, Seq<ArtifactRefV>), SyncErrorV> {
    if !comps.contains(p.name) {
        Ok((p, Seq::empty()))
    } else {
        match filter_entries(p.targets, p.name, targets, platforms, fmap, upstream) {
            Err(e) => Err(e),
            Ok((es, rs)) => Ok((PackageV { name: p.name, targets: es }, rs)),
        }
    }
}

/// All package tables after filtering, with their references, or the
/// first failure.
pub open spec fn filter_packages(
    ps: Seq<PackageV>,
    comps: Seq<Seq<char>>,
    targets: Seq<Seq<char>>,
    platforms: Seq<Seq<char>>,
    fmap: Seq<FormatAssignmentV>,
    upstream: Seq<char>,
) -> Result<(Seq<PackageV>, Seq<ArtifactRefV>), SyncErrorV>
    decreases ps.len(),
{
    if ps.len() == 0 {
        Ok((Seq::empty(), Seq::empty()))
    } else {
        match filter_package(ps.first(), comps, targets, platforms, fmap, upstream) {
            Err(e) => Err(e),
            Ok((p1, r1)) => match filter_packages(
                ps.drop_first(),
                comps,
                targets,
                platforms,
                fmap,
                upstream,
            ) {
                Err(e) => Err(e),
                Ok((rest, rr)) => Ok((seq![p1] + rest, r1 + rr)),
            },
        }
    }
}

/// The whole filter: the installer references of every platform, then
/// the package walk under the effective component set; the result is
/// the mutated manifest and every reference to keep current, or the
/// first failure, in which case nothing is to be written.
pub open spec fn spec_filter(m: ManifestV, req: RequestV, upstream: Seq<char>) -> Result<
    (ManifestV, Seq<ArtifactRefV>),
    SyncErrorV,
> {
    match installer_refs(m, req.platforms) {
        Err(e) => Err(e),
        Ok(irs) => {
            let comps = effective_components(req.components, req.platforms);
            match filter_packages(
                m.packages,
                comps,
                req.targets,
                req.platforms,
                req.format_map,
                upstream,
            ) {
                Err(e) => Err(e),
                Ok((pks, prs)) => Ok((ManifestV { packages: pks, ..m }, irs + prs)),
            }
        },
    }
}

/// Copies an optional string.
fn clone_opt_string(o: &Option<String>) -> (r: Option<String>)
    ensures
        crate::manifest::opt_view(r) == crate::manifest::opt_view(*o),
{
    match o {
        Some(s) => Some(strutil::to_owned_string(s.as_str())),
        None => None,
    }
}

/// Copies a vector of installer artifacts.
fn clone_installer_vec(v: &Vec<crate::manifest::InstallerArtifact>) -> (r: Vec<
    crate::manifest::InstallerArtifact,
>)
    ensures
        r@.map_values(|a: crate::manifest::InstallerArtifact| a@) == v@.map_values(
            |a: crate::manifest::InstallerArtifact| a@,
        ),
{
    let mut out: Vec<crate::manifest::InstallerArtifact> = Vec::new();
    let n = v.len();
    for i in 0..n
        invariant
            n == v@.len(),
            out@.len() == i,
            forall|j: int| 0 <= j < i ==> #[trigger] out@[j]@ == v@[j]@,
    {
        let a = &v[i];
        out.push(
            crate::manifest::InstallerArtifact {
                target: strutil::to_owned_string(a.target.as_str()),
                url: strutil::to_owned_string(a.url.as_str()),
                hash: strutil::to_owned_string(a.hash.as_str()),
            },
        );
    }
    proof {
        assert(out@.map_values(|a: crate::manifest::InstallerArtifact| a@) =~= v@.map_values(
            |a: crate::manifest::InstallerArtifact| a@,
        ));
    }
    out
}

/// Resolves one artifact reference from a URL and its declared digest.
fn make_ref(url: &str, hash: &str) -> (r: Option<ArtifactRef>)
    ensures
        match r {
            Some(a) => {
                &&& spec_rel_of_url(url@) == Some(a@.upstream)
                &&& a@.path == spec_normalize(a@.upstream)
                &&& a@.hash == hash@
            },
            None => spec_rel_of_url(url@) is None,
        },
{
    match crate::paths::rel_path_of_url(url) {
        None => None,
        Some(rel) => {
            let normalized = crate::paths::normalize_path(rel.as_str());
            Some(
                ArtifactRef {
                    path: normalized,
                    upstream: rel,
                    hash: strutil::to_owned_string(hash),
                },
            )
        },
    }
}

/// Collects the installer references of every platform, the windows
/// family first where a triple is in both, or reports the first
/// platform whose installer cannot be resolved.
fn collect_installer_refs(m: &Manifest, platforms: &Vec<String>) -> (r: Result<
    Vec<ArtifactRef>,
    SyncError,
>)
    ensures
        match r {
            Ok(refs) => installer_refs(m@, platforms@.map_values(|s: String| s@)) == Ok::<
                Seq<ArtifactRefV>,
                SyncErrorV,
            >(refs@.map_values(|a: ArtifactRef| a@)),
            Err(e) => installer_refs(m@, platforms@.map_values(|s: String| s@)) == Err::<
                Seq<ArtifactRefV>,
                SyncErrorV,
            >(e@),
        },
{
    let ghost ps = platforms@.map_values(|s: String| s@);
    let mut out: Vec<ArtifactRef> = Vec::new();
    let n = platforms.len();
    proof {
        assert(ps.skip(0) =~= ps);
        assert(out@.map_values(|a: ArtifactRef| a@) =~= Seq::<ArtifactRefV>::empty());
    }
    for i in 0..n
        invariant
            n == platforms@.len(),
            ps == platforms@.map_values(|s: String| s@),
            installer_refs(m@, ps) == match installer_refs(m@, ps.skip(i as int)) {
                Err(e) => Err(e),
                Ok(rest) => Ok(out@.map_values(|a: ArtifactRef| a@) + rest),
            },
    {
        let ghost out0 = out@.map_values(|a: ArtifactRef| a@);
        let p = &platforms[i];
        proof {
            assert(ps.skip(i as int).first() == platforms@[i as int]@);
            assert(ps.skip(i as int).drop_first() =~= ps.skip(i + 1));
        }
        let family = if strutil::contains(p.as_str(), "windows") {
            Some(InstallerKind::WindowsMsi)
        } else if strutil::contains(p.as_str(), "apple") {
            Some(InstallerKind::ApplePkg)
        } else {
            None
        };
        match family {
            None => {
                proof {
                    assert(installer_ref(m@, p@) == Ok::<Seq<ArtifactRefV>, SyncErrorV>(
                        Seq::empty(),
                    ));
                    assert(out0 + (Seq::<ArtifactRefV>::empty() + installer_refs(
                        m@,
                        ps.skip(i + 1),
                    )->Ok_0) =~= out0 + installer_refs(m@, ps.skip(i + 1))->Ok_0);
                }
            },
            Some(k) => {
                let list = match k {
                    InstallerKind::WindowsMsi => &m.installer_msi,
                    InstallerKind::ApplePkg => &m.installer_pkg,
                };
                match lookup_installer(list, p.as_str()) {
                    None => {
                        return Err(
                            SyncError::MissingInstaller {
                                target: strutil::to_owned_string(p.as_str()),
                            },
                        );
                    },
                    Some(a) => {
                        match make_ref(a.url.as_str(), a.hash.as_str()) {
                            None => {
                                return Err(
                                    SyncError::BadUrl {
                                        url: strutil::to_owned_string(a.url.as_str()),
                                    },
                                );
                            },
                            Some(one) => {
                                let ghost onev = one@;
                                out.push(one);
                                proof {
                                    assert(out@.map_values(|x: ArtifactRef| x@) =~= out0 + seq![
                                        onev,
                                    ]);
                                    assert(installer_ref(m@, p@) == Ok::<
                                        Seq<ArtifactRefV>,
                                        SyncErrorV,
                                    >(seq![onev]));
                                    assert(out0 + (seq![onev] + installer_refs(
                                        m@,
                                        ps.skip(i + 1),
                                    )->Ok_0) =~= (out0 + seq![onev]) + installer_refs(
                                        m@,
                                        ps.skip(i + 1),
                                    )->Ok_0);
                                }
                            },
                        }
                    },
                }
            },
        }
    }
    proof {
        assert(ps.skip(n as int) =~= Seq::<Seq<char>>::empty());
        assert(out@.map_values(|a: ArtifactRef| a@) + Seq::<ArtifactRefV>::empty()
            =~= out@.map_values(|a: ArtifactRef| a@));
    }
    Ok(out)
}

/// Whether any platform belongs to an installer family.
fn any_installer_platform(ps: &Vec<String>) -> (r: bool)
    ensures
        r == has_installer_platform(ps@.map_values(|s: String| s@)),
{
    let n = ps.len();
    for i in 0..n
        invariant
            n == ps@.len(),
            forall|j: int| 0 <= j < i ==> family_of(#[trigger] ps@[j]@) is None,
    {
        if strutil::contains(ps[i].as_str(), "windows") || strutil::contains(
            ps[i].as_str(),
            "apple",
        ) {
            proof {
                assert(family_of(ps@.map_values(|s: String| s@)[i as int]) is Some);
            }
            return true;
        }
    }
    proof {
        assert forall|j: int| #![trigger ps@[j]] 0 <= j < ps@.len() implies family_of(
            ps@.map_values(|s: String| s@)[j],
        ) is None by {
            assert(family_of(ps@[j]@) is None);
        }
    }
    false
}

/// Removes every occurrence of `name` from `cs`, keeping order.
fn remove_component(cs: &Vec<String>, name: &str) -> (r: Vec<String>)
    ensures
        r@.map_values(|s: String| s@) == remove_comp(cs@.map_values(|s: String| s@), name@),
{
    let ghost all = cs@.map_values(|s: String| s@);
    let mut out: Vec<String> = Vec::new();
    let n = cs.len();
    proof {
        assert(all.skip(0) =~= all);
        assert(out@.map_values(|s: String| s@) =~= Seq::<Seq<char>>::empty());
    }
    for i in 0..n
        invariant
            n == cs@.len(),
            all == cs@.map_values(|s: String| s@),
            remove_comp(all, name@) == out@.map_values(|s: String| s@) + remove_comp(
                all.skip(i as int),
                name@,
            ),
    {
        let ghost out0 = out@.map_values(|s: String| s@);
        proof {
            assert(all.skip(i as int).first() == cs@[i as int]@);
            assert(all.skip(i as int).drop_first() =~= all.skip(i + 1));
        }
        if !strutil::str_eq(cs[i].as_str(), name) {
            out.push(strutil::to_owned_string(cs[i].as_str()));
            proof {
                assert(out@.map_values(|s: String| s@) =~= out0 + seq![cs@[i as int]@]);
                assert(out0 + (seq![cs@[i as int]@] + remove_comp(all.skip(i + 1), name@)) =~= (out0
                    + seq![cs@[i as int]@]) + remove_comp(all.skip(i + 1), name@));
            }
        }
    }
    proof {
        assert(all.skip(n as int) =~= Seq::<Seq<char>>::empty());
        assert(out@.map_values(|s: String| s@) + Seq::<Seq<char>>::empty() =~= out@.map_values(
            |s: String| s@,
        ));
    }
    out
}

/// Computes the components the package walk keeps current.
fn compute_effective_components(cs: &Vec<String>, ps: &Vec<String>) -> (r: Vec<String>)
    ensures
        r@.map_values(|s: String| s@) == effective_components(
            cs@.map_values(|s: String| s@),
            ps@.map_values(|s: String| s@),
        ),
{
    let mut base: Vec<String> = if any_installer_platform(ps) {
        let a = remove_component(cs, "rustc");
        let b = remove_component(&a, "cargo");
        let c = remove_component(&b, "rustdoc");
        remove_component(&c, "rust-std")
    } else {
        crate::request::clone_string_vec(cs)
    };
    if !crate::request::vec_contains_str(&base, "rust-std") {
        let ghost base0 = base@.map_values(|s: String| s@);
        base.push(strutil::to_owned_string("rust-std"));
        proof {
            assert(base@.map_values(|s: String| s@) =~= base0.push("rust-std"@));
        }
    }
    base
}

/// Whether the format list assigned to `t` carries format `f`.
fn assigned_format(fmap: &Vec<FormatAssignment>, t: &str, f: &str) -> (r: bool)
    ensures
        r == has_format(formats_of(fmap@.map_values(|a: FormatAssignment| a@), t@), f@),
{
    let ghost all = fmap@.map_values(|a: FormatAssignment| a@);
    let n = fmap.len();
    proof {
        assert(all.skip(0) =~= all);
    }
    for i in 0..n
        invariant
            n == fmap@.len(),
            all == fmap@.map_values(|a: FormatAssignment| a@),
            formats_of(all.skip(i as int), t@) == formats_of(all, t@),
    {
        proof {
            assert(all.skip(i as int).first() == fmap@[i as int]@);
            assert(all.skip(i as int).drop_first() =~= all.skip(i + 1));
        }
        if strutil::str_eq(fmap[i].target.as_str(), t) {
            let fs = &fmap[i].formats;
            let ghost fsv = fmap@[i as int]@.formats;
            let k = fs.len();
            for j in 0..k
                invariant
                    k == fs@.len(),
                    all == fmap@.map_values(|a: FormatAssignment| a@),
                    fsv == fs@.map_values(|x: crate::format::Format| x@),
                    formats_of(all, t@) == fsv,
                    forall|q: int| 0 <= q < j ==> (#[trigger] fsv[q]).format != f@,
            {
                proof {
                    assert(fsv[j as int] == fs@[j as int]@);
                }
                if strutil::str_eq(fs[j].format.as_str(), f) {
                    proof {
                        assert((fsv[j as int]).format == f@);
                        assert(has_format(fsv, f@));
                    }
                    return true;
                }
            }
            proof {
                assert(!has_format(fsv, f@));
            }
            return false;
        }
    }
    proof {
        assert(all.skip(n as int) =~= Seq::<FormatAssignmentV>::empty());
    }
    false
}

/// Whether a variant of format `fmt` must be mirrored for target `t`.
fn variant_wanted_exec(
    t: &str,
    targets: &Vec<String>,
    fmap: &Vec<FormatAssignment>,
    fmt: &str,
) -> (r: bool)
    ensures
        r == variant_wanted(
            t@,
            targets@.map_values(|s: String| s@),
            fmap@.map_values(|a: FormatAssignment| a@),
            fmt@,
        ),
{
    crate::request::vec_contains_str(targets, t) || assigned_format(fmap, t, fmt)
}

/// Resolves one variant of an available row, or reports what is wrong
/// with it.
fn resolve_variant(
    u: &Option<String>,
    h: &Option<String>,
    comp: &str,
    t: &str,
    upstream: &str,
) -> (r: Result<(String, ArtifactRef), SyncError>)
    ensures
        match r {
            Ok(p) => variant_result(
                crate::manifest::opt_view(*u),
                crate::manifest::opt_view(*h),
                comp@,
                t@,
                upstream@,
            ) == Ok::<(Seq<char>, ArtifactRefV), SyncErrorV>((p.0@, p.1@)),
            Err(e) => variant_result(
                crate::manifest::opt_view(*u),
                crate::manifest::opt_view(*h),
                comp@,
                t@,
                upstream@,
            ) == Err::<(Seq<char>, ArtifactRefV), SyncErrorV>(e@),
        },
{
    match (u, h) {
        (Some(u0), Some(h0)) => {
            match make_ref(u0.as_str(), h0.as_str()) {
                None => Err(SyncError::BadUrl { url: strutil::to_owned_string(u0.as_str()) }),
                Some(a) => {
                    let rewritten = strutil::concat_str(
                        strutil::to_owned_string(upstream),
                        a.upstream.as_str(),
                    );
                    Ok((rewritten, a))
                },
            }
        },
        _ => Err(
            SyncError::IncompleteEntry {
                component: strutil::to_owned_string(comp),
                target: strutil::to_owned_string(t),
            },
        ),
    }
}

/// Filters one row: marks it unavailable when out of scope, leaves it
/// alone when already unavailable, and otherwise registers the wanted
/// variants and rewrites their URLs.
fn filter_entry_exec(
    e: &TargetEntry,
    comp: &str,
    targets: &Vec<String>,
    fmap: &Vec<FormatAssignment>,
    platforms: &Vec<String>,
    upstream: &str,
) -> (r: Result<(TargetEntry, Vec<ArtifactRef>), SyncError>)
    ensures
        match r {
            Ok(p) => filter_entry(
                e@,
                comp@,
                targets@.map_values(|s: String| s@),
                platforms@.map_values(|s: String| s@),
                fmap@.map_values(|a: FormatAssignment| a@),
                upstream@,
            ) == Ok::<(TargetEntryV, Seq<ArtifactRefV>), SyncErrorV>(
                (p.0@, p.1@.map_values(|a: ArtifactRef| a@)),
            ),
            Err(err) => filter_entry(
                e@,
                comp@,
                targets@.map_values(|s: String| s@),
                platforms@.map_values(|s: String| s@),
                fmap@.map_values(|a: FormatAssignment| a@),
                upstream@,
            ) == Err::<(TargetEntryV, Seq<ArtifactRefV>), SyncErrorV>(err@),
        },
{
    let in_scope = crate::request::vec_contains_str(platforms, e.target.as_str())
        || strutil::str_eq(e.target.as_str(), "*") || crate::request::vec_contains_str(
        targets,
        e.target.as_str(),
    );
    if !in_scope {
        let out = TargetEntry {
            target: strutil::to_owned_string(e.target.as_str()),
            available: false,
            url: clone_opt_string(&e.url),
            hash: clone_opt_string(&e.hash),
            xz_url: clone_opt_string(&e.xz_url),
            xz_hash: clone_opt_string(&e.xz_hash),
        };
        let refs: Vec<ArtifactRef> = Vec::new();
        proof {
            assert(refs@.map_values(|a: ArtifactRef| a@) =~= Seq::<ArtifactRefV>::empty());
        }
        return Ok((out, refs));
    }
    if !e.available {
        let out = TargetEntry {
            target: strutil::to_owned_string(e.target.as_str()),
            available: e.available,
            url: clone_opt_string(&e.url),
            hash: clone_opt_string(&e.hash),
            xz_url: clone_opt_string(&e.xz_url),
            xz_hash: clone_opt_string(&e.xz_hash),
        };
        let refs: Vec<ArtifactRef> = Vec::new();
        proof {
            assert(refs@.map_values(|a: ArtifactRef| a@) =~= Seq::<ArtifactRefV>::empty());
        }
        return Ok((out, refs));
    }
    let want_gz = variant_wanted_exec(e.target.as_str(), targets, fmap, "gz");
    let want_xz = variant_wanted_exec(e.target.as_str(), targets, fmap, "xz");
    if want_gz {
        match resolve_variant(&e.url, &e.hash, comp, e.target.as_str(), upstream) {
            Err(err) => Err(err),
            Ok((nu, r1)) => {
                if want_xz {
                    match resolve_variant(&e.xz_url, &e.xz_hash, comp, e.target.as_str(), upstream)
                        {
                        Err(err) => Err(err),
                        Ok((nxu, r2)) => {
                            let out = TargetEntry {
                                target: strutil::to_owned_string(e.target.as_str()),
                                available: e.available,
                                url: Some(nu),
                                hash: clone_opt_string(&e.hash),
                                xz_url: Some(nxu),
                                xz_hash: clone_opt_string(&e.xz_hash),
                            };
                            let ghost r1v = r1@;
                            let ghost r2v = r2@;
                            let mut refs: Vec<ArtifactRef> = Vec::new();
                            refs.push(r1);
                            refs.push(r2);
                            proof {
                                assert(refs@.map_values(|a: ArtifactRef| a@) =~= seq![r1v, r2v]);
                            }
                            Ok((out, refs))
                        },
                    }
                } else {
                    let out = TargetEntry {
                        target: strutil::to_owned_string(e.target.as_str()),
                        available: e.available,
                        url: Some(nu),
                        hash: clone_opt_string(&e.hash),
                        xz_url: clone_opt_string(&e.xz_url),
                        xz_hash: clone_opt_string(&e.xz_hash),
                    };
                    let ghost r1v = r1@;
                    let mut refs: Vec<ArtifactRef> = Vec::new();
                    refs.push(r1);
                    proof {
                        assert(refs@.map_values(|a: ArtifactRef| a@) =~= seq![r1v]);
                    }
                    Ok((out, refs))
                }
            },
        }
    } else if want_xz {
        match resolve_variant(&e.xz_url, &e.xz_hash, comp, e.target.as_str(), upstream) {
            Err(err) => Err(err),
            Ok((nxu, r2)) => {
                let out = TargetEntry {
                    target: strutil::to_owned_string(e.target.as_str()),
                    available: e.available,
                    url: clone_opt_string(&e.url),
                    hash: clone_opt_string(&e.hash),
                    xz_url: Some(nxu),
                    xz_hash: clone_opt_string(&e.xz_hash),
                };
                let ghost r2v = r2@;
                let mut refs: Vec<ArtifactRef> = Vec::new();
                refs.push(r2);
                proof {
                    assert(refs@.map_values(|a: ArtifactRef| a@) =~= seq![r2v]);
                }
                Ok((out, refs))
            },
        }
    } else {
        let out = TargetEntry {
            target: strutil::to_owned_string(e.target.as_str()),
            available: e.available,
            url: clone_opt_string(&e.url),
            hash: clone_opt_string(&e.hash),
            xz_url: clone_opt_string(&e.xz_url),
            xz_hash: clone_opt_string(&e.xz_hash),
        };
        let refs: Vec<ArtifactRef> = Vec::new();
        proof {
            assert(refs@.map_values(|a: ArtifactRef| a@) =~= Seq::<ArtifactRefV>::empty());
        }
        Ok((out, refs))
    }
}

/// Filters every row of one component's table, collecting references.
fn filter_entries_exec(
    es: &Vec<TargetEntry>,
    comp: &str,
    targets: &Vec<String>,
    fmap: &Vec<FormatAssignment>,
    platforms: &Vec<String>,
    upstream: &str,
) -> (r: Result<(Vec<TargetEntry>, Vec<ArtifactRef>), SyncError>)
    ensures
        match r {
            Ok(p) => filter_entries(
                es@.map_values(|e: TargetEntry| e@),
                comp@,
                targets@.map_values(|s: String| s@),
                platforms@.map_values(|s: String| s@),
                fmap@.map_values(|a: FormatAssignment| a@),
                upstream@,
            ) == Ok::<(Seq<TargetEntryV>, Seq<ArtifactRefV>), SyncErrorV>(
                (
                    p.0@.map_values(|e: TargetEntry| e@),
                    p.1@.map_values(|a: ArtifactRef| a@),
                ),
            ),
            Err(err) => filter_entries(
                es@.map_values(|e: TargetEntry| e@),
                comp@,
                targets@.map_values(|s: String| s@),
                platforms@.map_values(|s: String| s@),
                fmap@.map_values(|a: FormatAssignment| a@),
                upstream@,
            ) == Err::<(Seq<TargetEntryV>, Seq<ArtifactRefV>), SyncErrorV>(err@),
        },
{
    let ghost all = es@.map_values(|e: TargetEntry| e@);
    let ghost tv = targets@.map_values(|s: String| s@);
    let ghost pv = platforms@.map_values(|s: String| s@);
    let ghost fv = fmap@.map_values(|a: FormatAssignment| a@);
    let mut out_entries: Vec<TargetEntry> = Vec::new();
    let mut out_refs: Vec<ArtifactRef> = Vec::new();
    let n = es.len();
    proof {
        assert(all.skip(0) =~= all);
        assert(out_entries@.map_values(|e: TargetEntry| e@) =~= Seq::<TargetEntryV>::empty());
        assert(out_refs@.map_values(|a: ArtifactRef| a@) =~= Seq::<ArtifactRefV>::empty());
    }
    for i in 0..n
        invariant
            n == es@.len(),
            all == es@.map_values(|e: TargetEntry| e@),
            tv == targets@.map_values(|s: String| s@),
            pv == platforms@.map_values(|s: String| s@),
            fv == fmap@.map_values(|a: FormatAssignment| a@),
            filter_entries(all, comp@, tv, pv, fv, upstream@) == match filter_entries(
                all.skip(i as int),
                comp@,
                tv,
                pv,
                fv,
                upstream@,
            ) {
                Err(e) => Err::<(Seq<TargetEntryV>, Seq<ArtifactRefV>), SyncErrorV>(e),
                Ok(rest) => Ok(
                    (
                        out_entries@.map_values(|e: TargetEntry| e@) + rest.0,
                        out_refs@.map_values(|a: ArtifactRef| a@) + rest.1,
                    ),
                ),
            },
    {
        let ghost oe0 = out_entries@.map_values(|e: TargetEntry| e@);
        let ghost or0 = out_refs@.map_values(|a: ArtifactRef| a@);
        proof {
            assert(all.skip(i as int).first() == es@[i as int]@);
            assert(all.skip(i as int).drop_first() =~= all.skip(i + 1));
        }
        match filter_entry_exec(&es[i], comp, targets, fmap, platforms, upstream) {
            Err(err) => {
                return Err(err);
            },
            Ok((e1, mut r1)) => {
                let ghost e1v = e1@;
                let ghost r1v = r1@.map_values(|a: ArtifactRef| a@);
                out_entries.push(e1);
                out_refs.append(&mut r1);
                proof {
                    assert(out_entries@.map_values(|e: TargetEntry| e@) =~= oe0 + seq![e1v]);
                    assert(out_refs@.map_values(|a: ArtifactRef| a@) =~= or0 + r1v);
                    let tail = filter_entries(all.skip(i + 1), comp@, tv, pv, fv, upstream@);
                    if tail is Ok {
                        assert(oe0 + (seq![e1v] + tail->Ok_0.0) =~= (oe0 + seq![e1v])
                            + tail->Ok_0.0);
                        assert(or0 + (r1v + tail->Ok_0.1) =~= (or0 + r1v) + tail->Ok_0.1);
                    }
                }
            },
        }
    }
    proof {
        assert(all.skip(n as int) =~= Seq::<TargetEntryV>::empty());
        assert(out_entries@.map_values(|e: TargetEntry| e@) + Seq::<TargetEntryV>::empty()
            =~= out_entries@.map_values(|e: TargetEntry| e@));
        assert(out_refs@.map_values(|a: ArtifactRef| a@) + Seq::<ArtifactRefV>::empty()
            =~= out_refs@.map_values(|a: ArtifactRef| a@));
    }
    Ok((out_entries, out_refs))
}

/// Filters every package table, collecting references.
fn filter_packages_exec(
    pkgs: &Vec<Package>,
    comps: &Vec<String>,
    targets: &Vec<String>,
    fmap: &Vec<FormatAssignment>,
    platforms: &Vec<String>,
    upstream: &str,
) -> (r: Result<(Vec<Package>, Vec<ArtifactRef>), SyncError>)
    ensures
        match r {
            Ok(p) => filter_packages(
                pkgs@.map_values(|x: Package| x@),
                comps@.map_values(|s: String| s@),
                targets@.map_values(|s: String| s@),
                platforms@.map_values(|s: String| s@),
                fmap@.map_values(|a: FormatAssignment| a@),
                upstream@,
            ) == Ok::<(Seq<PackageV>, Seq<ArtifactRefV>), SyncErrorV>(
                (
                    p.0@.map_values(|x: Package| x@),
                    p.1@.map_values(|a: ArtifactRef| a@),
                ),
            ),
            Err(err) => filter_packages(
                pkgs@.map_values(|x: Package| x@),
                comps@.map_values(|s: String| s@),
                targets@.map_values(|s: String| s@),
                platforms@.map_values(|s: String| s@),
                fmap@.map_values(|a: FormatAssignment| a@),
                upstream@,
            ) == Err::<(Seq<PackageV>, Seq<ArtifactRefV>), SyncErrorV>(err@),
        },
{
    let ghost all = pkgs@.map_values(|x: Package| x@);
    let ghost cv = comps@.map_values(|s: String| s@);
    let ghost tv = targets@.map_values(|s: String| s@);
    let ghost pv = platforms@.map_values(|s: String| s@);
    let ghost fv = fmap@.map_values(|a: FormatAssignment| a@);
    let mut out_pkgs: Vec<Package> = Vec::new();
    let mut out_refs: Vec<ArtifactRef> = Vec::new();
    let n = pkgs.len();
    proof {
        assert(all.skip(0) =~= all);
        assert(out_pkgs@.map_values(|x: Package| x@) =~= Seq::<PackageV>::empty());
        assert(out_refs@.map_values(|a: ArtifactRef| a@) =~= Seq::<ArtifactRefV>::empty());
    }
    for i in 0..n
        invariant
            n == pkgs@.len(),
            all == pkgs@.map_values(|x: Package| x@),
            cv == comps@.map_values(|s: String| s@),
            tv == targets@.map_values(|s: String| s@),
            pv == platforms@.map_values(|s: String| s@),
            fv == fmap@.map_values(|a: FormatAssignment| a@),
            filter_packages(all, cv, tv, pv, fv, upstream@) == match filter_packages(
                all.skip(i as int),
                cv,
                tv,
                pv,
                fv,
                upstream@,
            ) {
                Err(e) => Err::<(Seq<PackageV>, Seq<ArtifactRefV>), SyncErrorV>(e),
                Ok(rest) => Ok(
                    (
                        out_pkgs@.map_values(|x: Package| x@) + rest.0,
                        out_refs@.map_values(|a: ArtifactRef| a@) + rest.1,
                    ),
                ),
            },
    {
        let ghost op0 = out_pkgs@.map_values(|x: Package| x@);
        let ghost or0 = out_refs@.map_values(|a: ArtifactRef| a@);
        let p = &pkgs[i];
        proof {
            assert(all.skip(i as int).first() == pkgs@[i as int]@);
            assert(all.skip(i as int).drop_first() =~= all.skip(i + 1));
        }
        let selected = crate::request::vec_contains_str(comps, p.name.as_str());
        if !selected {
            let kept = Package {
                name: strutil::to_owned_string(p.name.as_str()),
                targets: clone_entry_vec(&p.targets),
            };
            let ghost keptv = kept@;
            out_pkgs.push(kept);
            proof {
                assert(keptv == all.skip(i as int).first());
                assert(out_pkgs@.map_values(|x: Package| x@) =~= op0 + seq![keptv]);
                let tail = filter_packages(all.skip(i + 1), cv, tv, pv, fv, upstream@);
                if tail is Ok {
                    assert(op0 + (seq![keptv] + tail->Ok_0.0) =~= (op0 + seq![keptv])
                        + tail->Ok_0.0);
                    assert(or0 + (Seq::<ArtifactRefV>::empty() + tail->Ok_0.1) =~= or0
                        + tail->Ok_0.1);
                }
            }
        } else {
            match filter_entries_exec(&p.targets, p.name.as_str(), targets, fmap, platforms,
                upstream) {
                Err(err) => {
                    return Err(err);
                },
                Ok((es, mut rs)) => {
                    let kept = Package {
                        name: strutil::to_owned_string(p.name.as_str()),
                        targets: es,
                    };
                    let ghost keptv = kept@;
                    let ghost rsv = rs@.map_values(|a: ArtifactRef| a@);
                    out_pkgs.push(kept);
                    out_refs.append(&mut rs);
                    proof {
                        assert(out_pkgs@.map_values(|x: Package| x@) =~= op0 + seq![keptv]);
                        assert(out_refs@.map_values(|a: ArtifactRef| a@) =~= or0 + rsv);
                        let tail = filter_packages(all.skip(i + 1), cv, tv, pv, fv, upstream@);
                        if tail is Ok {
                            assert(op0 + (seq![keptv] + tail->Ok_0.0) =~= (op0 + seq![keptv])
                                + tail->Ok_0.0);
                            assert(or0 + (rsv + tail->Ok_0.1) =~= (or0 + rsv) + tail->Ok_0.1);
                        }
                    }
                },
            }
        }
    }
    proof {
        assert(all.skip(n as int) =~= Seq::<PackageV>::empty());
        assert(out_pkgs@.map_values(|x: Package| x@) + Seq::<PackageV>::empty()
            =~= out_pkgs@.map_values(|x: Package| x@));
        assert(out_refs@.map_values(|a: ArtifactRef| a@) + Seq::<ArtifactRefV>::empty()
            =~= out_refs@.map_values(|a: ArtifactRef| a@));
    }
    Ok((out_pkgs, out_refs))
}

/// Copies a vector of rows.
fn clone_entry_vec(v: &Vec<TargetEntry>) -> (r: Vec<TargetEntry>)
    ensures
        r@.map_values(|e: TargetEntry| e@) == v@.map_values(|e: TargetEntry| e@),
{
    let mut out: Vec<TargetEntry> = Vec::new();
    let n = v.len();
    for i in 0..n
        invariant
            n == v@.len(),
            out@.len() == i,
            forall|j: int| 0 <= j < i ==> #[trigger] out@[j]@ == v@[j]@,
    {
        let e = &v[i];
        out.push(
            TargetEntry {
                target: strutil::to_owned_string(e.target.as_str()),
                available: e.available,
                url: clone_opt_string(&e.url),
                hash: clone_opt_string(&e.hash),
                xz_url: clone_opt_string(&e.xz_url),
                xz_hash: clone_opt_string(&e.xz_hash),
            },
        );
    }
    proof {
        assert(out@.map_values(|e: TargetEntry| e@) =~= v@.map_values(|e: TargetEntry| e@));
    }
    out
}

/// Filters a manifest against a request: resolves every platform's
/// installer artifact, walks the package tables under the effective
/// component set, and hands back the rewritten manifest together with
/// every artifact reference the mirror must hold current.  On an error
/// nothing is handed back and nothing is to be written.
pub fn filter_manifest(m: &Manifest, req: &Request, upstream_url: &str) -> (r: Result<
    (Manifest, Vec<ArtifactRef>),
    SyncError,
>)
    ensures
        match r {
            Ok(p) => spec_filter(m@, req@, upstream_url@) == Ok::<
                (ManifestV, Seq<ArtifactRefV>),
                SyncErrorV,
            >((p.0@, p.1@.map_values(|a: ArtifactRef| a@))),
            Err(err) => spec_filter(m@, req@, upstream_url@) == Err::<
                (ManifestV, Seq<ArtifactRefV>),
                SyncErrorV,
            >(err@),
        },
{
    let mut refs = match collect_installer_refs(m, &req.platforms) {
        Err(e) => {
            return Err(e);
        },
        Ok(rs) => rs,
    };
    let comps = compute_effective_components(&req.components, &req.platforms);
    match filter_packages_exec(
        &m.packages,
        &comps,
        &req.targets,
        &req.format_map,
        &req.platforms,
        upstream_url,
    ) {
        Err(e) => Err(e),
        Ok((pkgs, mut prs)) => {
            let ghost refs0 = refs@.map_values(|a: ArtifactRef| a@);
            let ghost prsv = prs@.map_values(|a: ArtifactRef| a@);
            refs.append(&mut prs);
            let out = Manifest {
                version: strutil::to_owned_string(m.version.as_str()),
                date: clone_opt_string(&m.date),
                packages: pkgs,
                installer_msi: clone_installer_vec(&m.installer_msi),
                installer_pkg: clone_installer_vec(&m.installer_pkg),
            };
            proof {
                assert(refs@.map_values(|a: ArtifactRef| a@) =~= refs0 + prsv);
            }
            Ok((out, refs))
        },
    }
}

/// One filtered row keeps its key, and is available exactly when it
/// was available upstream and its target is in scope.
proof fn lemma_filter_entry_shape(
    e: TargetEntryV,
    comp: Seq<char>,
    targets: Seq<Seq<char>>,
    platforms: Seq<Seq<char>>,
    fmap: Seq<FormatAssignmentV>,
    upstream: Seq<char>,
)
    requires
        filter_entry(e, comp, targets, platforms, fmap, upstream) is Ok,
    ensures
        ({
            let o = filter_entry(e, comp, targets, platforms, fmap, upstream)->Ok_0.0;
            &&& o.target == e.target
            &&& o.available == (e.available && entry_in_scope(e.target, targets, platforms))
        }),
{
}

/// Every filtered row of a table keeps its key and follows the
/// availability rule.
proof fn lemma_filter_entries_shape(
    es: Seq<TargetEntryV>,
    comp: Seq<char>,
    targets: Seq<Seq<char>>,
    platforms: Seq<Seq<char>>,
    fmap: Seq<FormatAssignmentV>,
    upstream: Seq<char>,
)
    requires
        filter_entries(es, comp, targets, platforms, fmap, upstream) is Ok,
    ensures
        ({
            let out = filter_entries(es, comp, targets, platforms, fmap, upstream)->Ok_0.0;
            &&& out.len() == es.len()
            &&& forall|j: int| 0 <= j < es.len() ==> {
                &&& (#[trigger] out[j]).target == es[j].target
                &&& out[j].available == (es[j].available && entry_in_scope(
                    es[j].target,
                    targets,
                    platforms,
                ))
            }
        }),
    decreases es.len(),
{
    if es.len() > 0 {
        lemma_filter_entry_shape(es.first(), comp, targets, platforms, fmap, upstream);
        lemma_filter_entries_shape(es.drop_first(), comp, targets, platforms, fmap, upstream);
        let head = filter_entry(es.first(), comp, targets, platforms, fmap, upstream)->Ok_0.0;
        let rest = filter_entries(
            es.drop_first(),
            comp,
            targets,
            platforms,
            fmap,
            upstream,
        )->Ok_0.0;
        let out = filter_entries(es, comp, targets, platforms, fmap, upstream)->Ok_0.0;
        assert(out == seq![head] + rest);
        assert forall|j: int| 0 <= j < es.len() implies {
            &&& (#[trigger] out[j]).target == es[j].target
            &&& out[j].available == (es[j].available && entry_in_scope(
                es[j].target,
                targets,
                platforms,
            ))
        } by {
            if j > 0 {
                assert(out[j] == rest[j - 1]);
                assert(es[j] == es.drop_first()[j - 1]);
            }
        }
    }
}

/// Every filtered package table keeps its component key and every row
/// key; rows of kept-current components follow the availability rule,
/// rows of other components are untouched.
proof fn lemma_filter_packages_shape(
    ps: Seq<PackageV>,
    comps: Seq<Seq<char>>,
    targets: Seq<Seq<char>>,
    platforms: Seq<Seq<char>>,
    fmap: Seq<FormatAssignmentV>,
    upstream: Seq<char>,
)
    requires
        filter_packages(ps, comps, targets, platforms, fmap, upstream) is Ok,
    ensures
        ({
            let out = filter_packages(ps, comps, targets, platforms, fmap, upstream)->Ok_0.0;
            &&& out.len() == ps.len()
            &&& forall|i: int| 0 <= i < ps.len() ==> {
                &&& (#[trigger] out[i]).name == ps[i].name
                &&& out[i].targets.len() == ps[i].targets.len()
                &&& (!comps.contains(ps[i].name) ==> out[i] == ps[i])
                &&& forall|j: int| 0 <= j < ps[i].targets.len() ==> {
                    &&& (#[trigger] out[i].targets[j]).target == ps[i].targets[j].target
                    &&& (comps.contains(ps[i].name) ==> out[i].targets[j].available == (
                    ps[i].targets[j].available && entry_in_scope(
                        ps[i].targets[j].target,
                        targets,
                        platforms,
                    )))
                }
            }
        }),
    decreases ps.len(),
{
    if ps.len() > 0 {
        if comps.contains(ps.first().name) {
            lemma_filter_entries_shape(ps.first().targets, ps.first().name, targets, platforms,
                fmap, upstream);
        }
        lemma_filter_packages_shape(ps.drop_first(), comps, targets, platforms, fmap, upstream);
        let head = filter_package(ps.first(), comps, targets, platforms, fmap, upstream)->Ok_0.0;
        let rest = filter_packages(
            ps.drop_first(),
            comps,
            targets,
            platforms,
            fmap,
            upstream,
        )->Ok_0.0;
        let out = filter_packages(ps, comps, targets, platforms, fmap, upstream)->Ok_0.0;
        assert(out == seq![head] + rest);
        assert forall|i: int| 0 <= i < ps.len() implies {
            &&& (#[trigger] out[i]).name == ps[i].name
            &&& out[i].targets.len() == ps[i].targets.len()
            &&& (!comps.contains(ps[i].name) ==> out[i] == ps[i])
            &&& forall|j: int| 0 <= j < ps[i].targets.len() ==> {
                &&& (#[trigger] out[i].targets[j]).target == ps[i].targets[j].target
                &&& (comps.contains(ps[i].name) ==> out[i].targets[j].available == (
                ps[i].targets[j].available && entry_in_scope(
                    ps[i].targets[j].target,
                    targets,
                    platforms,
                )))
            }
        } by {
            if i > 0 {
                assert(out[i] == rest[i - 1]);
                assert(ps[i] == ps.drop_first()[i - 1]);
            }
        }
    }
}

/// Law: the filter deletes no component/target key, and under it a row
/// of a kept-current component is available in the published manifest
/// exactly when it was available upstream and its target is a host
/// platform, a cross-use target, or the wildcard; a row whose component
/// is not kept current is untouched.  In particular an upstream
/// `available = true` row ends up `false` exactly when its target is
/// excluded from both the cross-use targets and the host platforms and
/// is not the wildcard.
pub proof fn lemma_availability_invariant(m: ManifestV, req: RequestV, upstream: Seq<char>)
    requires
        spec_filter(m, req, upstream) is Ok,
    ensures
        ({
            let out = spec_filter(m, req, upstream)->Ok_0.0;
            let comps = effective_components(req.components, req.platforms);
            &&& out.packages.len() == m.packages.len()
            &&& forall|i: int| 0 <= i < m.packages.len() ==> {
                &&& (#[trigger] out.packages[i]).name == m.packages[i].name
                &&& out.packages[i].targets.len() == m.packages[i].targets.len()
                &&& (!comps.contains(m.packages[i].name) ==> out.packages[i] == m.packages[i])
                &&& forall|j: int| 0 <= j < m.packages[i].targets.len() ==> {
                    &&& (#[trigger] out.packages[i].targets[j]).target
                        == m.packages[i].targets[j].target
                    &&& (comps.contains(m.packages[i].name)
                        ==> out.packages[i].targets[j].available == (
                    m.packages[i].targets[j].available && entry_in_scope(
                        m.packages[i].targets[j].target,
                        req.targets,
                        req.platforms,
                    )))
                }
            }
        }),
{
    let comps = effective_components(req.components, req.platforms);
    lemma_filter_packages_shape(
        m.packages,
        comps,
        req.targets,
        req.platforms,
        req.format_map,
        upstream,
    );
}

} // verus!
