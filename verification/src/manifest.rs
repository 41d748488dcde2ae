//! The channel manifest, modelled as plain values.
//!
//! A manifest names its format version, a release date, the per-component
//! package tables (component, then target triple, with an availability
//! flag and the plain and compressed variant URLs and digests), and the
//! per-platform single-file installer artifacts.  Instances are rebuilt
//! from upstream on every run; nothing here persists.

use vstd::prelude::*;
use crate::strutil;

verus! {

/// One single-file installer artifact for one platform.
#[derive(Debug, Clone)]
pub struct InstallerArtifact {
    /// The platform the installer runs on.
    pub target: String,
    /// The artifact URL, as the upstream manifest carries it.
    pub url: String,
    /// The upstream-declared SHA-256 digest, lowercase hex.
    pub hash: String,
}

/// Mathematical model of an [`InstallerArtifact`].
pub struct InstallerArtifactV {
    /// View of the platform.
    pub target: Seq<char>,
    /// View of the URL.
    pub url: Seq<char>,
    /// View of the declared digest.
    pub hash: Seq<char>,
}

impl View for InstallerArtifact {
    type V = InstallerArtifactV;

    open spec fn view(&self) -> InstallerArtifactV {
        InstallerArtifactV { target: self.target@, url: self.url@, hash: self.hash@ }
    }
}

/// One target's row under one component: the availability flag and the
/// plain (`gz`) and compressed (`xz`) variants.
#[derive(Debug, Clone)]
pub struct TargetEntry {
    /// The target triple, or the wildcard marker `*`.
    pub target: String,
    /// Whether the component is available for this target.
    pub available: bool,
    /// URL of the plain variant, where the manifest carries one.
    pub url: Option<String>,
    /// Declared digest of the plain variant.
    pub hash: Option<String>,
    /// URL of the compressed variant.
    pub xz_url: Option<String>,
    /// Declared digest of the compressed variant.
    pub xz_hash: Option<String>,
}

/// Mathematical model of a [`TargetEntry`].
pub struct TargetEntryV {
    /// View of the target triple.
    pub target: Seq<char>,
    /// The availability flag.
    pub available: bool,
    /// View of the plain variant URL.
    pub url: Option<Seq<char>>,
    /// View of the plain variant digest.
    pub hash: Option<Seq<char>>,
    /// View of the compressed variant URL.
    pub xz_url: Option<Seq<char>>,
    /// View of the compressed variant digest.
    pub xz_hash: Option<Seq<char>>,
}

/// The view of an optional string.
pub open spec fn opt_view(o: Option<String>) -> Option<Seq<char>> {
    match o {
        Some(s) => Some(s@),
        None => None,
    }
}

impl View for TargetEntry {
    type V = TargetEntryV;

    open spec fn view(&self) -> TargetEntryV {
        TargetEntryV {
            target: self.target@,
            available: self.available,
            url: opt_view(self.url),
            hash: opt_view(self.hash),
            xz_url: opt_view(self.xz_url),
            xz_hash: opt_view(self.xz_hash),
        }
    }
}

/// One component's package table: its name and its per-target rows.
#[derive(Debug, Clone)]
pub struct Package {
    /// The component name.
    pub name: String,
    /// The rows, one per target triple.
    pub targets: Vec<TargetEntry>,
}

/// Mathematical model of a [`Package`].
pub struct PackageV {
    /// View of the component name.
    pub name: Seq<char>,
    /// Views of the rows.
    pub targets: Seq<TargetEntryV>,
}

impl View for Package {
    type V = PackageV;

    open spec fn view(&self) -> PackageV {
        PackageV { name: self.name@, targets: self.targets@.map_values(|e: TargetEntry| e@) }
    }
}

/// A channel manifest.
#[derive(Debug, Clone)]
pub struct Manifest {
    /// The manifest format version; only one value is supported.
    pub version: String,
    /// The release date, used only to derive the dated snapshot path.
    pub date: Option<String>,
    /// The per-component package tables.
    pub packages: Vec<Package>,
    /// The single-file installer artifacts for the windows family.
    pub installer_msi: Vec<InstallerArtifact>,
    /// The single-file installer artifacts for the apple family.
    pub installer_pkg: Vec<InstallerArtifact>,
}

/// Mathematical model of a [`Manifest`].
pub struct ManifestV {
    /// View of the version marker.
    pub version: Seq<char>,
    /// View of the release date.
    pub date: Option<Seq<char>>,
    /// Views of the package tables.
    pub packages: Seq<PackageV>,
    /// Views of the windows-family installer artifacts.
    pub installer_msi: Seq<InstallerArtifactV>,
    /// Views of the apple-family installer artifacts.
    pub installer_pkg: Seq<InstallerArtifactV>,
}

impl View for Manifest {
    type V = ManifestV;

    open spec fn view(&self) -> ManifestV {
        ManifestV {
            version: self.version@,
            date: opt_view(self.date),
            packages: self.packages@.map_values(|p: Package| p@),
            installer_msi: self.installer_msi@.map_values(|a: InstallerArtifact| a@),
            installer_pkg: self.installer_pkg@.map_values(|a: InstallerArtifact| a@),
        }
    }
}

/// An artifact the mirror must hold current: where it lives locally,
/// where it lives upstream, and the digest it must have.
#[derive(Debug, Clone)]
pub struct ArtifactRef {
    /// The normalized mirror-relative path; two references with the same
    /// normalized path are the same artifact.
    pub path: String,
    /// The upstream-relative path the artifact is fetched from.
    pub upstream: String,
    /// The upstream-declared SHA-256 digest, lowercase hex.
    pub hash: String,
}

/// Mathematical model of an [`ArtifactRef`].
pub struct ArtifactRefV {
    /// View of the normalized local path.
    pub path: Seq<char>,
    /// View of the upstream-relative path.
    pub upstream: Seq<char>,
    /// View of the declared digest.
    pub hash: Seq<char>,
}

impl View for ArtifactRef {
    type V = ArtifactRefV;

    open spec fn view(&self) -> ArtifactRefV {
        ArtifactRefV { path: self.path@, upstream: self.upstream@, hash: self.hash@ }
    }
}

/// What stops a channel's sync once it has begun.
#[derive(Debug, Clone)]
pub enum SyncError {
    /// The bytes at `path` do not carry the declared digest.
    IntegrityMismatch {
        /// The local path checked.
        path: String,
        /// The digest the manifest declares.
        expected: String,
        /// The digest the bytes carry.
        actual: String,
    },
    /// The manifest's version marker is not the supported one.
    UnsupportedManifestVersion {
        /// The marker found.
        found: String,
    },
    /// A platform needs a single-file installer the manifest lacks.
    MissingInstaller {
        /// The platform without an installer entry.
        target: String,
    },
    /// An artifact URL does not parse or has no rooted path.
    BadUrl {
        /// The offending URL.
        url: String,
    },
    /// An available entry lacks the URL or digest of a variant that
    /// must be mirrored.
    IncompleteEntry {
        /// The component the entry belongs to.
        component: String,
        /// The entry's target triple.
        target: String,
    },
    /// The manifest has no release date to derive the snapshot path from.
    MissingDate,
}

/// Mathematical model of a [`SyncError`].
pub enum SyncErrorV {
    /// The bytes at `path` do not carry the declared digest.
    IntegrityMismatch {
        /// View of the local path checked.
        path: Seq<char>,
        /// View of the declared digest.
        expected: Seq<char>,
        /// View of the digest found.
        actual: Seq<char>,
    },
    /// The manifest's version marker is not the supported one.
    UnsupportedManifestVersion {
        /// View of the marker found.
        found: Seq<char>,
    },
    /// A platform needs a single-file installer the manifest lacks.
    MissingInstaller {
        /// View of the platform.
        target: Seq<char>,
    },
    /// An artifact URL does not parse or has no rooted path.
    BadUrl {
        /// View of the URL.
        url: Seq<char>,
    },
    /// An available entry lacks the URL or digest of a variant that
    /// must be mirrored.
    IncompleteEntry {
        /// View of the component name.
        component: Seq<char>,
        /// View of the target triple.
        target: Seq<char>,
    },
    /// The manifest has no release date to derive the snapshot path from.
    MissingDate,
}

impl View for SyncError {
    type V = SyncErrorV;

    open spec fn view(&self) -> SyncErrorV {
        match self {
            SyncError::IntegrityMismatch { path, expected, actual } =>
                SyncErrorV::IntegrityMismatch {
                path: path@,
                expected: expected@,
                actual: actual@,
            },
            SyncError::UnsupportedManifestVersion { found } =>
                SyncErrorV::UnsupportedManifestVersion { found: found@ },
            SyncError::MissingInstaller { target } => SyncErrorV::MissingInstaller {
                target: target@,
            },
            SyncError::BadUrl { url } => SyncErrorV::BadUrl { url: url@ },
            SyncError::IncompleteEntry { component, target } => SyncErrorV::IncompleteEntry {
                component: component@,
                target: target@,
            },
            SyncError::MissingDate => SyncErrorV::MissingDate,
        }
    }
}

/// The first installer artifact recorded for platform `t`, if any.
pub open spec fn find_installer(list: Seq<InstallerArtifactV>, t: Seq<char>) -> Option<
    InstallerArtifactV,
>
    decreases list.len(),
{
    if list.len() == 0 {
        None
    } else if list.first().target == t {
        Some(list.first())
    } else {
        find_installer(list.drop_first(), t)
    }
}

/// Looks up the first installer artifact recorded for platform `t`.
pub fn lookup_installer<'a>(list: &'a Vec<InstallerArtifact>, t: &str) -> (r: Option<
    &'a InstallerArtifact,
>)
    ensures
        match r {
            Some(a) => find_installer(list@.map_values(|x: InstallerArtifact| x@), t@) == Some(a@),
            None => find_installer(list@.map_values(|x: InstallerArtifact| x@), t@) is None,
        },
{
    let ghost all = list@.map_values(|x: InstallerArtifact| x@);
    let n = list.len();
    proof {
        assert(all.skip(0) =~= all);
    }
    for i in 0..n
        invariant
            n == list@.len(),
            all == list@.map_values(|x: InstallerArtifact| x@),
            find_installer(all.skip(i as int), t@) == find_installer(all, t@),
    {
        proof {
            assert(all.skip(i as int).first() == list@[i as int]@);
            assert(all.skip(i as int).drop_first() =~= all.skip(i + 1));
        }
        if strutil::str_eq(list[i].target.as_str(), t) {
            return Some(&list[i]);
        }
    }
    proof {
        assert(all.skip(n as int) =~= Seq::<InstallerArtifactV>::empty());
    }
    None
}

} // verus!
