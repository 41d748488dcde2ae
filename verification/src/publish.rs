//! The manifest publisher's computations.
//!
//! Publishing a channel writes the serialized manifest at its canonical
//! path, a companion record holding the manifest's digest and file name
//! (two-space separated, the same convention the artifact records use,
//! minus the file name there), and a dated snapshot of both files named
//! after the manifest's release date.  Everything here computes the
//! paths and bytes; writing them is the caller's affair.

use vstd::prelude::*;
use crate::digest::{content_digest, spec_content_digest};
use crate::manifest::{
    InstallerArtifactV, Manifest, ManifestV, PackageV, SyncError, SyncErrorV, TargetEntryV,
};
use crate::strutil;

verus! {

/// The escaped form of one character inside a quoted value: quote,
/// backslash and newline take a backslash escape, anything else stands
/// as it is.
pub open spec fn escape_char(c: char) -> Seq<char> {
    if c == '"' {
        seq!['\\', '"']
    } else if c == '\\' {
        seq!['\\', '\\']
    } else if c == '\n' {
        seq!['\\', 'n']
    } else {
        seq![c]
    }
}

/// `s` with every quote, backslash and newline escaped.
pub open spec fn toml_escape(s: Seq<char>) -> Seq<char>
    decreases s.len(),
{
    if s.len() == 0 {
        Seq::empty()
    } else {
        escape_char(s.first()) + toml_escape(s.drop_first())
    }
}

/// `s` escaped and wrapped in double quotes.
pub open spec fn toml_quote(s: Seq<char>) -> Seq<char> {
    "\""@ + toml_escape(s) + "\""@
}

/// Appends `v` with every quote, backslash and newline escaped.
fn append_escaped(out: String, v: &str) -> (r: String)
    ensures
        r@ == out@ + toml_escape(v@),
{
    let mut s = out;
    let ghost base = s@;
    let n = v.unicode_len();
    proof {
        assert(v@.skip(0) =~= v@);
    }
    for i in 0..n
        invariant
            n == v@.len(),
            s@ + toml_escape(v@.skip(i as int)) == base + toml_escape(v@),
    {
        let ghost s0 = s@;
        let c = v.get_char(i);
        proof {
            assert(v@.skip(i as int).first() == v@[i as int]);
            assert(v@.skip(i as int).drop_first() =~= v@.skip(i + 1));
        }
        if c == '"' {
            s.append("\\\"");
            proof {
                reveal_strlit("\\\"");
                assert(s@ =~= s0 + escape_char(c));
            }
        } else if c == '\\' {
            s.append("\\\\");
            proof {
                reveal_strlit("\\\\");
                assert(s@ =~= s0 + escape_char(c));
            }
        } else if c == '\n' {
            s.append("\\n");
            proof {
                reveal_strlit("\\n");
                assert(s@ =~= s0 + escape_char(c));
            }
        } else {
            let piece = v.substring_char(i, i + 1);
            proof {
                assert(piece@ =~= seq![v@[i as int]]);
            }
            s.append(piece);
            proof {
                assert(s@ =~= s0 + escape_char(c));
            }
        }
    }
    proof {
        assert(v@.skip(n as int) =~= Seq::<char>::empty());
    }
    s
}

/// A `key = "value"` line for an optional value; nothing when absent.
pub open spec fn opt_kv(key: Seq<char>, v: Option<Seq<char>>) -> Seq<char> {
    match v {
        Some(x) => key + " = "@ + toml_quote(x) + "\n"@,
        None => Seq::empty(),
    }
}

/// The serialized form of one installer artifact under its family key.
pub open spec fn spec_installer_toml(key: Seq<char>, a: InstallerArtifactV) -> Seq<char> {
    "[[artifacts."@ + key + ".target."@ + toml_quote(a.target) + "]]\n"@ + "url = "@ + toml_quote(
        a.url,
    ) + "\n"@ + "hash-sha256 = "@ + toml_quote(a.hash) + "\n"@
}

/// The serialized form of all installer artifacts of one family.
pub open spec fn spec_installers_toml(key: Seq<char>, list: Seq<InstallerArtifactV>) -> Seq<char>
    decreases list.len(),
{
    if list.len() == 0 {
        Seq::empty()
    } else {
        spec_installer_toml(key, list.first()) + spec_installers_toml(key, list.drop_first())
    }
}

/// The serialized form of one component/target row.
pub open spec fn spec_entry_toml(comp: Seq<char>, e: TargetEntryV) -> Seq<char> {
    "[pkg."@ + toml_quote(comp) + ".target."@ + toml_quote(e.target) + "]\n"@ + "available = "@ + (
    if e.available {
        "true"@
    } else {
        "false"@
    }) + "\n"@ + opt_kv("url"@, e.url) + opt_kv("hash"@, e.hash) + opt_kv("xz_url"@, e.xz_url)
        + opt_kv("xz_hash"@, e.xz_hash)
}

/// The serialized form of all rows of one component.
pub open spec fn spec_entries_toml(comp: Seq<char>, es: Seq<TargetEntryV>) -> Seq<char>
    decreases es.len(),
{
    if es.len() == 0 {
        Seq::empty()
    } else {
        spec_entry_toml(comp, es.first()) + spec_entries_toml(comp, es.drop_first())
    }
}

/// The serialized form of all package tables.
pub open spec fn spec_packages_toml(ps: Seq<PackageV>) -> Seq<char>
    decreases ps.len(),
{
    if ps.len() == 0 {
        Seq::empty()
    } else {
        spec_entries_toml(ps.first().name, ps.first().targets) + spec_packages_toml(
            ps.drop_first(),
        )
    }
}

/// The canonical text form of a manifest: the version marker, the
/// release date where one exists, the installer artifacts of both
/// families, then every package table.
pub open spec fn spec_manifest_toml(m: ManifestV) -> Seq<char> {
    "manifest-version = "@ + toml_quote(m.version) + "\n"@ + (match m.date {
        Some(d) => "date = "@ + toml_quote(d) + "\n"@,
        None => Seq::empty(),
    }) + spec_installers_toml("installer-msi"@, m.installer_msi) + spec_installers_toml(
        "installer-pkg"@,
        m.installer_pkg,
    ) + spec_packages_toml(m.packages)
}

/// Appends `key = "value"` for a present value.
fn push_opt_kv(out: String, key: &str, v: &Option<String>) -> (r: String)
    ensures
        r@ == out@ + opt_kv(key@, crate::manifest::opt_view(*v)),
{
    match v {
        Some(x) => {
            let mut s = out;
            s.append(key);
            s.append(" = ");
            s = push_quoted(s, x.as_str());
            s.append("\n");
            proof {
                assert(s@ =~= out@ + opt_kv(key@, crate::manifest::opt_view(*v)));
            }
            s
        },
        None => {
            proof {
                assert(out@ + opt_kv(key@, crate::manifest::opt_view(*v)) =~= out@);
            }
            out
        },
    }
}

/// Appends one quoted value.
fn push_quoted(out: String, v: &str) -> (r: String)
    ensures
        r@ == out@ + toml_quote(v@),
{
    let mut s = out;
    s.append("\"");
    s = append_escaped(s, v);
    s.append("\"");
    proof {
        assert(s@ =~= out@ + toml_quote(v@));
    }
    s
}

/// Serializes one installer family.
fn installers_toml(out: String, key: &str, list: &Vec<crate::manifest::InstallerArtifact>) -> (r:
    String)
    ensures
        r@ == out@ + spec_installers_toml(
            key@,
            list@.map_values(|a: crate::manifest::InstallerArtifact| a@),
        ),
{
    let ghost all = list@.map_values(|a: crate::manifest::InstallerArtifact| a@);
    let mut s = out;
    let n = list.len();
    proof {
        assert(all.skip(0) =~= all);
    }
    for i in 0..n
        invariant
            n == list@.len(),
            all == list@.map_values(|a: crate::manifest::InstallerArtifact| a@),
            s@ + spec_installers_toml(key@, all.skip(i as int)) == out@ + spec_installers_toml(
                key@,
                all,
            ),
    {
        let ghost s0 = s@;
        let a = &list[i];
        proof {
            assert(all.skip(i as int).first() == list@[i as int]@);
            assert(all.skip(i as int).drop_first() =~= all.skip(i + 1));
        }
        s.append("[[artifacts.");
        s.append(key);
        s.append(".target.");
        s = push_quoted(s, a.target.as_str());
        s.append("]]\n");
        s.append("url = ");
        s = push_quoted(s, a.url.as_str());
        s.append("\n");
        s.append("hash-sha256 = ");
        s = push_quoted(s, a.hash.as_str());
        s.append("\n");
        proof {
            assert(s@ =~= s0 + spec_installer_toml(key@, all[i as int]));
        }
    }
    proof {
        assert(all.skip(n as int) =~= Seq::<InstallerArtifactV>::empty());
    }
    s
}

/// Serializes one component/target row.
#[verifier::rlimit(60)]
fn entry_toml(comp: &str, e: &crate::manifest::TargetEntry) -> (r: String)
    ensures
        r@ == spec_entry_toml(comp@, e@),
{
    let mut s = String::new();
    s.append("[pkg.");
    s = push_quoted(s, comp);
    s.append(".target.");
    s = push_quoted(s, e.target.as_str());
    s.append("]\n");
    s.append("available = ");
    if e.available {
        s.append("true");
    } else {
        s.append("false");
    }
    s.append("\n");
    let ghost head = s@;
    proof {
        assert(head =~= "[pkg."@ + toml_quote(comp@) + ".target."@ + toml_quote(e@.target)
            + "]\n"@ + "available = "@ + (if e@.available {
            "true"@
        } else {
            "false"@
        }) + "\n"@);
    }
    s = push_opt_kv(s, "url", &e.url);
    s = push_opt_kv(s, "hash", &e.hash);
    s = push_opt_kv(s, "xz_url", &e.xz_url);
    s = push_opt_kv(s, "xz_hash", &e.xz_hash);
    proof {
        assert(s@ =~= spec_entry_toml(comp@, e@));
    }
    s
}

/// Serializes all rows of one component.
fn entries_toml(out: String, comp: &str, es: &Vec<crate::manifest::TargetEntry>) -> (r: String)
    ensures
        r@ == out@ + spec_entries_toml(
            comp@,
            es@.map_values(|e: crate::manifest::TargetEntry| e@),
        ),
{
    let ghost all = es@.map_values(|e: crate::manifest::TargetEntry| e@);
    let mut s = out;
    let n = es.len();
    proof {
        assert(all.skip(0) =~= all);
    }
    for i in 0..n
        invariant
            n == es@.len(),
            all == es@.map_values(|e: crate::manifest::TargetEntry| e@),
            s@ + spec_entries_toml(comp@, all.skip(i as int)) == out@ + spec_entries_toml(
                comp@,
                all,
            ),
    {
        let ghost s0 = s@;
        proof {
            assert(all.skip(i as int).first() == es@[i as int]@);
            assert(all.skip(i as int).drop_first() =~= all.skip(i + 1));
        }
        let line = entry_toml(comp, &es[i]);
        s.append(line.as_str());
        proof {
            assert(s0 + (spec_entry_toml(comp@, all[i as int]) + spec_entries_toml(
                comp@,
                all.skip(i + 1),
            )) =~= (s0 + spec_entry_toml(comp@, all[i as int])) + spec_entries_toml(
                comp@,
                all.skip(i + 1),
            ));
        }
    }
    proof {
        assert(all.skip(n as int) =~= Seq::<TargetEntryV>::empty());
    }
    s
}

/// Serializes a manifest to its canonical text form.
pub fn manifest_to_toml(m: &Manifest) -> (r: String)
    ensures
        r@ == spec_manifest_toml(m@),
{
    let mut s = String::new();
    s.append("manifest-version = ");
    s = push_quoted(s, m.version.as_str());
    s.append("\n");
    let ghost before_date = s@;
    match &m.date {
        Some(d) => {
            s.append("date = ");
            s = push_quoted(s, d.as_str());
            s.append("\n");
            proof {
                assert(s@ =~= before_date + ("date = "@ + toml_quote(m@.date->0) + "\n"@));
            }
        },
        None => {},
    }
    let ghost before_installers = s@;
    s = installers_toml(s, "installer-msi", &m.installer_msi);
    s = installers_toml(s, "installer-pkg", &m.installer_pkg);
    let ghost before_packages = s@;
    let ghost all = m.packages@.map_values(|p: crate::manifest::Package| p@);
    let n = m.packages.len();
    proof {
        assert(all.skip(0) =~= all);
    }
    for i in 0..n
        invariant
            n == m.packages@.len(),
            all == m.packages@.map_values(|p: crate::manifest::Package| p@),
            s@ + spec_packages_toml(all.skip(i as int)) == before_packages + spec_packages_toml(
                all,
            ),
    {
        let ghost s0 = s@;
        let p = &m.packages[i];
        proof {
            assert(all.skip(i as int).first() == m.packages@[i as int]@);
            assert(all.skip(i as int).drop_first() =~= all.skip(i + 1));
        }
        s = entries_toml(s, p.name.as_str(), &p.targets);
        proof {
            assert(s@ =~= s0 + spec_entries_toml(all[i as int].name, all[i as int].targets));
        }
    }
    proof {
        assert(all.skip(n as int) =~= Seq::<PackageV>::empty());
        assert(s@ =~= spec_manifest_toml(m@));
    }
    s
}

/// The canonical mirror-relative path of a channel's manifest.
pub fn channel_manifest_rel(channel: &str) -> (r: String)
    ensures
        r@ == "dist/channel-rust-"@ + channel@ + ".toml"@,
{
    let mut s = String::new();
    s.append("dist/channel-rust-");
    s.append(channel);
    s.append(".toml");
    proof {
        assert(s@ =~= "dist/channel-rust-"@ + channel@ + ".toml"@);
    }
    s
}

/// A path with the companion-record suffix attached.
pub fn with_record_suffix(path: &str) -> (r: String)
    ensures
        r@ == path@ + ".sha256"@,
{
    let mut s = strutil::to_owned_string(path);
    s.append(".sha256");
    s
}

/// The mirror-relative path of a channel's dated manifest snapshot.
pub fn dated_manifest_rel(date: &str, channel: &str) -> (r: String)
    ensures
        r@ == "dist/"@ + date@ + "/channel-rust-"@ + channel@ + ".toml"@,
{
    let mut s = String::new();
    s.append("dist/");
    s.append(date);
    s.append("/channel-rust-");
    s.append(channel);
    s.append(".toml");
    proof {
        assert(s@ =~= "dist/"@ + date@ + "/channel-rust-"@ + channel@ + ".toml"@);
    }
    s
}

/// The text of the manifest's companion record: the digest, two
/// spaces, and the manifest's file name.
pub fn manifest_record_line(digest: &str, channel: &str) -> (r: String)
    ensures
        r@ == digest@ + "  channel-rust-"@ + channel@ + ".toml"@,
{
    let mut s = strutil::to_owned_string(digest);
    s.append("  channel-rust-");
    s.append(channel);
    s.append(".toml");
    proof {
        assert(s@ =~= digest@ + "  channel-rust-"@ + channel@ + ".toml"@);
    }
    s
}

/// Everything the publisher writes for one channel: two canonical
/// files and their two byte-identical dated copies.
#[derive(Debug, Clone)]
pub struct PublishPlan {
    /// Canonical path of the serialized manifest.
    pub manifest_path: String,
    /// The serialized manifest text.
    pub manifest_text: String,
    /// Canonical path of the manifest's companion record.
    pub record_path: String,
    /// The companion record's text.
    pub record_text: String,
    /// Dated-snapshot path of the manifest.
    pub dated_manifest_path: String,
    /// Dated-snapshot path of the companion record.
    pub dated_record_path: String,
}

/// Computes everything the publisher writes for one channel: the
/// serialized manifest at its canonical path, the companion record
/// holding the manifest's digest, and the dated snapshot paths the two
/// are copied to unchanged.  Fails exactly when the manifest carries no
/// release date.
pub fn publish_plan(m: &Manifest, channel: &str) -> (r: Result<PublishPlan, SyncError>)
    ensures
        r is Ok <==> m@.date is Some,
        r matches Err(e) ==> e@ == SyncErrorV::MissingDate,
        r matches Ok(p) ==> {
            &&& p.manifest_path@ == "dist/channel-rust-"@ + channel@ + ".toml"@
            &&& p.manifest_text@ == spec_manifest_toml(m@)
            &&& p.record_path@ == p.manifest_path@ + ".sha256"@
            &&& p.record_text@ == spec_content_digest(
                vstd::utf8::encode_utf8(spec_manifest_toml(m@)),
            ) + "  channel-rust-"@ + channel@ + ".toml"@
            &&& p.dated_manifest_path@ == "dist/"@ + m@.date->0 + "/channel-rust-"@ + channel@
                + ".toml"@
            &&& p.dated_record_path@ == p.dated_manifest_path@ + ".sha256"@
        },
{
    let date = match &m.date {
        Some(d) => strutil::to_owned_string(d.as_str()),
        None => {
            return Err(SyncError::MissingDate);
        },
    };
    let manifest_text = manifest_to_toml(m);
    let digest = content_digest(manifest_text.as_str().as_bytes());
    let manifest_path = channel_manifest_rel(channel);
    let record_path = with_record_suffix(manifest_path.as_str());
    let record_text = manifest_record_line(digest.as_str(), channel);
    let dated_manifest_path = dated_manifest_rel(date.as_str(), channel);
    let dated_record_path = with_record_suffix(dated_manifest_path.as_str());
    Ok(
        PublishPlan {
            manifest_path,
            manifest_text,
            record_path,
            record_text,
            dated_manifest_path,
            dated_record_path,
        },
    )
}

} // verus!
