//! Configuration-layer types.
//!
//! A configuration file names, per named configuration, the toolchains
//! to mirror, the crate lists a local registry is built from, and the
//! named format lists the toolchains refer to.  Reading the file is the
//! caller's affair; the types here are its validated shape, and the
//! serialization of a crate dependency back to manifest form is
//! verified against its specification.

use vstd::prelude::*;
use crate::format::Format;
use crate::strutil;

verus! {

/// `s` wrapped in double quotes, as the dependency serializer writes
/// values: verbatim, nothing escaped.
pub open spec fn raw_quote(s: Seq<char>) -> Seq<char> {
    "\""@ + s + "\""@
}

/// One crate dependency, as a dependency table of a build manifest
/// holds it.  The crate's name is kept beside it, not in it.
#[derive(Debug, Clone)]
pub enum Crate {
    /// A bare version requirement.
    Version(String),
    /// Detailed information: a version, features, a path, and/or a
    /// git repository.
    Detailed {
        /// The version requirement.
        version: Option<String>,
        /// The required features.
        features: Option<Vec<String>>,
        /// The path to the crate.
        path: Option<String>,
        /// The git repository of the crate.
        git: Option<String>,
    },
}

/// Mathematical model of a [`Crate`].
pub enum CrateV {
    /// A bare version requirement.
    Version(Seq<char>),
    /// Detailed information.
    Detailed {
        /// View of the version requirement.
        version: Option<Seq<char>>,
        /// Views of the required features.
        features: Option<Seq<Seq<char>>>,
        /// View of the path.
        path: Option<Seq<char>>,
        /// View of the git repository.
        git: Option<Seq<char>>,
    },
}

/// The view of an optional list of strings.
pub open spec fn opt_seq_view(o: Option<Vec<String>>) -> Option<Seq<Seq<char>>> {
    match o {
        Some(v) => Some(v@.map_values(|s: String| s@)),
        None => None,
    }
}

impl View for Crate {
    type V = CrateV;

    open spec fn view(&self) -> CrateV {
        match self {
            Crate::Version(s) => CrateV::Version(s@),
            Crate::Detailed { version, features, path, git } => CrateV::Detailed {
                version: crate::manifest::opt_view(*version),
                features: opt_seq_view(*features),
                path: crate::manifest::opt_view(*path),
                git: crate::manifest::opt_view(*git),
            },
        }
    }
}

/// The feature list as serialized: each feature quoted, joined with
/// comma-space; helper carrying what is built so far.
pub open spec fn quoted_join_acc(acc: Seq<char>, rest: Seq<Seq<char>>) -> Seq<char>
    decreases rest.len(),
{
    if rest.len() == 0 {
        acc
    } else {
        quoted_join_acc(acc + ", "@ + raw_quote(rest.first()), rest.drop_first())
    }
}

/// The feature list as serialized: each feature quoted, joined with
/// comma-space.
pub open spec fn quoted_join(fs: Seq<Seq<char>>) -> Seq<char> {
    if fs.len() == 0 {
        Seq::empty()
    } else {
        quoted_join_acc(raw_quote(fs.first()), fs.drop_first())
    }
}

/// The inside of a detailed dependency table: each present field as
/// `name = value,`, the feature list bracketed, values unquoted as the
/// manifest convention has them.
pub open spec fn spec_detailed_body(
    version: Option<Seq<char>>,
    features: Option<Seq<Seq<char>>>,
    path: Option<Seq<char>>,
    git: Option<Seq<char>>,
) -> Seq<char> {
    (match version {
        Some(v) => "version = "@ + v + ","@,
        None => Seq::empty(),
    }) + (match features {
        Some(fs) => "features = ["@ + quoted_join(fs) + "],"@,
        None => Seq::empty(),
    }) + (match path {
        Some(p) => "path = "@ + p + ","@,
        None => Seq::empty(),
    }) + (match git {
        Some(g) => "git = "@ + g + ","@,
        None => Seq::empty(),
    })
}

/// A dependency as a build manifest's dependency section holds it: a
/// bare version in quotes, or a braced table of the present fields.
pub open spec fn spec_serialize(c: CrateV) -> Seq<char> {
    match c {
        CrateV::Version(s) => raw_quote(s),
        CrateV::Detailed { version, features, path, git } => "{ "@ + spec_detailed_body(
            version,
            features,
            path,
            git,
        ) + " }"@,
    }
}

/// Joins the quoted features with comma-space separators.
fn join_quoted(fs: &Vec<String>) -> (r: String)
    ensures
        r@ == quoted_join(fs@.map_values(|s: String| s@)),
{
    let ghost all = fs@.map_values(|s: String| s@);
    if fs.len() == 0 {
        let r = String::new();
        return r;
    }
    let mut out = String::new();
    out.append("\"");
    out.append(fs[0].as_str());
    out.append("\"");
    proof {
        assert(out@ =~= raw_quote(all.first()));
    }
    let n = fs.len();
    for k in 1..n
        invariant
            1 <= k <= n,
            n == fs@.len(),
            all == fs@.map_values(|s: String| s@),
            quoted_join_acc(out@, all.skip(k as int)) == quoted_join(all),
    {
        let ghost out0 = out@;
        proof {
            assert(all.skip(k as int).first() == fs@[k as int]@);
            assert(all.skip(k as int).drop_first() =~= all.skip(k + 1));
        }
        out.append(", ");
        out.append("\"");
        out.append(fs[k].as_str());
        out.append("\"");
        proof {
            assert(out@ =~= out0 + ", "@ + raw_quote(all[k as int]));
        }
    }
    proof {
        assert(all.skip(n as int) =~= Seq::<Seq<char>>::empty());
    }
    out
}

impl Crate {
    /// Serializes the dependency to the form a build manifest's
    /// dependency section takes.
    pub fn serialize(self) -> (r: String)
        ensures
            r@ == spec_serialize(self@),
    {
        match self {
            Crate::Version(s) => {
                let mut out = String::new();
                out.append("\"");
                out.append(s.as_str());
                out.append("\"");
                proof {
                    assert(out@ =~= raw_quote(s@));
                }
                out
            },
            Crate::Detailed { version, features, path, git } => {
                let ghost vv = crate::manifest::opt_view(version);
                let ghost fv = opt_seq_view(features);
                let ghost pv = crate::manifest::opt_view(path);
                let ghost gv = crate::manifest::opt_view(git);
                let mut body = String::new();
                match &version {
                    Some(v) => {
                        body.append("version = ");
                        body.append(v.as_str());
                        body.append(",");
                    },
                    None => {},
                }
                proof {
                    assert(body@ =~= (match vv {
                        Some(v) => "version = "@ + v + ","@,
                        None => Seq::<char>::empty(),
                    }));
                }
                let ghost b1 = body@;
                match &features {
                    Some(fs) => {
                        body.append("features = [");
                        let joined = join_quoted(fs);
                        body.append(joined.as_str());
                        body.append("],");
                    },
                    None => {},
                }
                proof {
                    assert(body@ =~= b1 + (match fv {
                        Some(fs) => "features = ["@ + quoted_join(fs) + "],"@,
                        None => Seq::<char>::empty(),
                    }));
                }
                let ghost b2 = body@;
                match &path {
                    Some(p) => {
                        body.append("path = ");
                        body.append(p.as_str());
                        body.append(",");
                    },
                    None => {},
                }
                proof {
                    assert(body@ =~= b2 + (match pv {
                        Some(p) => "path = "@ + p + ","@,
                        None => Seq::<char>::empty(),
                    }));
                }
                let ghost b3 = body@;
                match &git {
                    Some(g) => {
                        body.append("git = ");
                        body.append(g.as_str());
                        body.append(",");
                    },
                    None => {},
                }
                proof {
                    assert(body@ =~= b3 + (match gv {
                        Some(g) => "git = "@ + g + ","@,
                        None => Seq::<char>::empty(),
                    }));
                    assert(body@ =~= spec_detailed_body(vv, fv, pv, gv));
                }
                let mut out = String::new();
                out.append("{ ");
                out.append(body.as_str());
                out.append(" }");
                proof {
                    assert(out@ =~= "{ "@ + spec_detailed_body(vv, fv, pv, gv) + " }"@);
                }
                out
            },
        }
    }
}

/// One named crate dependency of a crate list.
#[derive(Debug, Clone)]
pub struct CrateEntry {
    /// The crate's name.
    pub name: String,
    /// The dependency itself.
    pub value: Crate,
}

/// Mathematical model of a [`CrateEntry`].
pub struct CrateEntryV {
    /// View of the crate's name.
    pub name: Seq<char>,
    /// View of the dependency.
    pub value: CrateV,
}

impl View for CrateEntry {
    type V = CrateEntryV;

    open spec fn view(&self) -> CrateEntryV {
        CrateEntryV { name: self.name@, value: self.value@ }
    }
}

/// One crate list, keyed by the identifier toolchains refer to.
#[derive(Debug, Clone)]
pub struct CrateGroup {
    /// The identifier.
    pub id: String,
    /// The named dependencies.
    pub entries: Vec<CrateEntry>,
}

/// Mathematical model of a [`CrateGroup`].
pub struct CrateGroupV {
    /// View of the identifier.
    pub id: Seq<char>,
    /// Views of the named dependencies.
    pub entries: Seq<CrateEntryV>,
}

impl View for CrateGroup {
    type V = CrateGroupV;

    open spec fn view(&self) -> CrateGroupV {
        CrateGroupV { id: self.id@, entries: self.entries@.map_values(|e: CrateEntry| e@) }
    }
}

/// Many crate lists, each under the identifier toolchains refer to.
pub type Crates = Vec<CrateGroup>;

/// One named format list.
#[derive(Debug, Clone)]
pub struct FormatGroup {
    /// The identifier toolchains refer to.
    pub id: String,
    /// The formats.
    pub formats: Vec<Format>,
}

/// One platform's reference to a named format list.
#[derive(Debug, Clone)]
pub struct FormatRef {
    /// The platform.
    pub platform: String,
    /// The identifier of the format list it uses.
    pub format_id: String,
}

/// Everything one toolchain asks for.
#[derive(Debug, Clone)]
pub struct Toolchain {
    /// The edition of the language to use; kept only for
    /// compatibility, nothing reads it.
    pub edition: Option<String>,
    /// The release channel to mirror.
    pub channel: String,
    /// The components to install.
    pub components: Vec<String>,
    /// The identifier of the crate list to build the local registry
    /// from.
    pub crate_id: String,
    /// The platforms the produced installer runs on.
    pub platforms: Vec<String>,
    /// The targets the platforms may build for.
    pub targets: Vec<String>,
    /// Per-platform references into the named format lists.
    pub format_map: Vec<FormatRef>,
}

/// One whole configuration: its toolchains, crate lists, and format
/// lists.
#[derive(Debug, Clone)]
pub struct RustConfigInner {
    /// The toolchains.
    pub toolchains: Vec<Toolchain>,
    /// The crate lists.
    pub crates: Crates,
    /// The named format lists.
    pub formats: Vec<FormatGroup>,
}

/// A configuration file: named configurations in order.
pub type RustConfig = Vec<(String, RustConfigInner)>;

/// The first crate list under identifier `id`, if any.
pub open spec fn find_crate_group(groups: Seq<CrateGroupV>, id: Seq<char>) -> Option<CrateGroupV>
    decreases groups.len(),
{
    if groups.len() == 0 {
        None
    } else if groups.first().id == id {
        Some(groups.first())
    } else {
        find_crate_group(groups.drop_first(), id)
    }
}

/// The dependency lines of a crate list: one `name = value` line per
/// entry, in order.
pub open spec fn spec_crate_lines(entries: Seq<CrateEntryV>) -> Seq<char>
    decreases entries.len(),
{
    if entries.len() == 0 {
        Seq::empty()
    } else {
        entries.first().name + " = "@ + spec_serialize(entries.first().value) + "\n"@
            + spec_crate_lines(entries.drop_first())
    }
}

/// Copies a dependency, field by field.
fn clone_crate(c: &Crate) -> (r: Crate)
    ensures
        r@ == c@,
{
    match c {
        Crate::Version(s) => Crate::Version(strutil::to_owned_string(s.as_str())),
        Crate::Detailed { version, features, path, git } => {
            let fs = match features {
                Some(v) => Some(crate::request::clone_string_vec(v)),
                None => None,
            };
            proof {
                assert(opt_seq_view(fs) == opt_seq_view(*features));
            }
            Crate::Detailed {
                version: clone_opt(version),
                features: fs,
                path: clone_opt(path),
                git: clone_opt(git),
            }
        },
    }
}

/// Copies an optional string.
fn clone_opt(o: &Option<String>) -> (r: Option<String>)
    ensures
        crate::manifest::opt_view(r) == crate::manifest::opt_view(*o),
{
    match o {
        Some(s) => Some(strutil::to_owned_string(s.as_str())),
        None => None,
    }
}

/// Writes the dependency section a toolchain's local registry is built
/// from: one line per crate of the toolchain's crate list.  The
/// toolchain's crate identifier must name one of the configuration's
/// crate lists.
pub fn generate_crates(cfg: &RustConfigInner, toolchain: &Toolchain) -> (r: String)
    requires
        find_crate_group(
            cfg.crates@.map_values(|g: CrateGroup| g@),
            toolchain.crate_id@,
        ) is Some,
    ensures
        r@ == spec_crate_lines(
            find_crate_group(
                cfg.crates@.map_values(|g: CrateGroup| g@),
                toolchain.crate_id@,
            )->0.entries,
        ),
{
    let ghost groups = cfg.crates@.map_values(|g: CrateGroup| g@);
    let n = cfg.crates.len();
    proof {
        assert(groups.skip(0) =~= groups);
    }
    for i in 0..n
        invariant
            n == cfg.crates@.len(),
            groups == cfg.crates@.map_values(|g: CrateGroup| g@),
            find_crate_group(groups.skip(i as int), toolchain.crate_id@) == find_crate_group(
                groups,
                toolchain.crate_id@,
            ),
            find_crate_group(groups, toolchain.crate_id@) is Some,
    {
        proof {
            assert(groups.skip(i as int).first() == cfg.crates@[i as int]@);
            assert(groups.skip(i as int).drop_first() =~= groups.skip(i + 1));
        }
        if strutil::str_eq(cfg.crates[i].id.as_str(), toolchain.crate_id.as_str()) {
            let group = &cfg.crates[i];
            let ghost entries = groups[i as int].entries;
            let mut out = String::new();
            let m = group.entries.len();
            proof {
                assert(entries.skip(0) =~= entries);
            }
            for j in 0..m
                invariant
                    m == group.entries@.len(),
                    entries == group.entries@.map_values(|e: CrateEntry| e@),
                    out@ + spec_crate_lines(entries.skip(j as int)) == spec_crate_lines(entries),
            {
                let ghost out0 = out@;
                proof {
                    assert(entries.skip(j as int).first() == group.entries@[j as int]@);
                    assert(entries.skip(j as int).drop_first() =~= entries.skip(j + 1));
                }
                let e = &group.entries[j];
                out.append(e.name.as_str());
                out.append(" = ");
                let serialized = clone_crate(&e.value).serialize();
                out.append(serialized.as_str());
                out.append("\n");
                proof {
                    assert(out@ =~= out0 + (entries[j as int].name + " = "@ + spec_serialize(
                        entries[j as int].value,
                    ) + "\n"@));
                }
            }
            proof {
                assert(entries.skip(m as int) =~= Seq::<CrateEntryV>::empty());
            }
            return out;
        }
    }
    proof {
        assert(groups.skip(n as int) =~= Seq::<CrateGroupV>::empty());
        assert(false);
    }
    String::new()
}

} // verus!
