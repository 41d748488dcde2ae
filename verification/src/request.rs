//! Mirror requests and their validation.
//!
//! A request names the channels to mirror, the target triples whose
//! binaries are wanted, the host platforms a single-file installer is
//! wanted for, the components to keep, and per-platform packaging-format
//! assignments.  Before any network or disk activity, every one of those
//! fields is validated against the closed vocabularies; the first
//! violation is reported and nothing is mirrored.

use vstd::prelude::*;
use crate::format::{Format, FormatV, Suffix, is_known_format};
use crate::strutil;

verus! {

/// Membership in the closed release-channel vocabulary.
pub open spec fn is_known_channel(c: Seq<char>) -> bool {
    ||| c == "stable"@
    ||| c == "beta"@
    ||| c == "nightly"@
}

/// Decides membership in the closed release-channel vocabulary.
pub fn is_valid_channel(c: &str) -> (r: bool)
    ensures
        r == is_known_channel(c@),
{
    strutil::str_eq(c, "stable") || strutil::str_eq(c, "beta") || strutil::str_eq(c, "nightly")
}

/// Membership in the closed target-triple vocabulary.
pub open spec fn is_known_target(t: Seq<char>) -> bool {
    ||| t == "x86_64-unknown-linux-gnu"@
    ||| t == "x86_64-unknown-linux-musl"@
    ||| t == "i686-unknown-linux-gnu"@
    ||| t == "aarch64-unknown-linux-gnu"@
    ||| t == "aarch64-unknown-linux-musl"@
    ||| t == "armv7-unknown-linux-gnueabihf"@
    ||| t == "arm-unknown-linux-gnueabi"@
    ||| t == "arm-unknown-linux-gnueabihf"@
    ||| t == "riscv64gc-unknown-linux-gnu"@
    ||| t == "powerpc64le-unknown-linux-gnu"@
    ||| t == "s390x-unknown-linux-gnu"@
    ||| t == "loongarch64-unknown-linux-gnu"@
    ||| t == "x86_64-apple-darwin"@
    ||| t == "aarch64-apple-darwin"@
    ||| t == "x86_64-pc-windows-msvc"@
    ||| t == "x86_64-pc-windows-gnu"@
    ||| t == "i686-pc-windows-msvc"@
    ||| t == "i686-pc-windows-gnu"@
    ||| t == "aarch64-pc-windows-msvc"@
    ||| t == "wasm32-unknown-unknown"@
    ||| t == "x86_64-unknown-freebsd"@
    ||| t == "x86_64-unknown-netbsd"@
    ||| t == "x86_64-unknown-illumos"@
    ||| t == "aarch64-linux-android"@
    ||| t == "x86_64-linux-android"@
}

/// Decides membership in the closed target-triple vocabulary.
pub fn is_valid_target(t: &str) -> (r: bool)
    ensures
        r == is_known_target(t@),
{
    strutil::str_eq(t, "x86_64-unknown-linux-gnu") || strutil::str_eq(t, "x86_64-unknown-linux-musl")
        || strutil::str_eq(t, "i686-unknown-linux-gnu") || strutil::str_eq(
        t,
        "aarch64-unknown-linux-gnu",
    ) || strutil::str_eq(t, "aarch64-unknown-linux-musl") || strutil::str_eq(
        t,
        "armv7-unknown-linux-gnueabihf",
    ) || strutil::str_eq(t, "arm-unknown-linux-gnueabi") || strutil::str_eq(
        t,
        "arm-unknown-linux-gnueabihf",
    ) || strutil::str_eq(t, "riscv64gc-unknown-linux-gnu") || strutil::str_eq(
        t,
        "powerpc64le-unknown-linux-gnu",
    ) || strutil::str_eq(t, "s390x-unknown-linux-gnu") || strutil::str_eq(
        t,
        "loongarch64-unknown-linux-gnu",
    ) || strutil::str_eq(t, "x86_64-apple-darwin") || strutil::str_eq(t, "aarch64-apple-darwin")
        || strutil::str_eq(t, "x86_64-pc-windows-msvc") || strutil::str_eq(
        t,
        "x86_64-pc-windows-gnu",
    ) || strutil::str_eq(t, "i686-pc-windows-msvc") || strutil::str_eq(t, "i686-pc-windows-gnu")
        || strutil::str_eq(t, "aarch64-pc-windows-msvc") || strutil::str_eq(
        t,
        "wasm32-unknown-unknown",
    ) || strutil::str_eq(t, "x86_64-unknown-freebsd") || strutil::str_eq(t, "x86_64-unknown-netbsd")
        || strutil::str_eq(t, "x86_64-unknown-illumos") || strutil::str_eq(
        t,
        "aarch64-linux-android",
    ) || strutil::str_eq(t, "x86_64-linux-android")
}

/// A per-platform packaging-format assignment.
#[derive(Debug, Clone)]
pub struct FormatAssignment {
    /// The platform the assignment is for.
    pub target: String,
    /// The ordered format list; the first entry drives the
    /// format/platform check.
    pub formats: Vec<Format>,
}

/// Mathematical model of a [`FormatAssignment`].
pub struct FormatAssignmentV {
    /// View of the platform.
    pub target: Seq<char>,
    /// Views of the assigned formats.
    pub formats: Seq<FormatV>,
}

impl View for FormatAssignment {
    type V = FormatAssignmentV;

    open spec fn view(&self) -> FormatAssignmentV {
        FormatAssignmentV {
            target: self.target@,
            formats: self.formats@.map_values(|f: Format| f@),
        }
    }
}

/// What one mirror run is asked to do.
#[derive(Debug, Clone)]
pub struct Request {
    /// The release channels to mirror.
    pub channels: Vec<String>,
    /// The target triples whose binaries are wanted for cross-use.
    pub targets: Vec<String>,
    /// The target triples the host installer runs on.
    pub platforms: Vec<String>,
    /// The components to keep current.
    pub components: Vec<String>,
    /// Per-platform packaging-format assignments.
    pub format_map: Vec<FormatAssignment>,
    /// Suppresses informational reporting when set.
    pub quiet: bool,
}

/// Mathematical model of a [`Request`].
pub struct RequestV {
    /// Views of the channels.
    pub channels: Seq<Seq<char>>,
    /// Views of the cross-use targets.
    pub targets: Seq<Seq<char>>,
    /// Views of the host platforms.
    pub platforms: Seq<Seq<char>>,
    /// Views of the components.
    pub components: Seq<Seq<char>>,
    /// Views of the format assignments.
    pub format_map: Seq<FormatAssignmentV>,
    /// Whether reporting is suppressed.
    pub quiet: bool,
}

impl View for Request {
    type V = RequestV;

    open spec fn view(&self) -> RequestV {
        RequestV {
            channels: self.channels@.map_values(|s: String| s@),
            targets: self.targets@.map_values(|s: String| s@),
            platforms: self.platforms@.map_values(|s: String| s@),
            components: self.components@.map_values(|s: String| s@),
            format_map: self.format_map@.map_values(|f: FormatAssignment| f@),
            quiet: self.quiet,
        }
    }
}

/// Why a request was rejected before any I/O.
#[derive(Debug, Clone)]
pub enum ConfigError {
    /// A channel outside the channel vocabulary.
    UnknownChannel(String),
    /// A cross-use target outside the target vocabulary.
    UnknownTarget(String),
    /// A host platform outside the target vocabulary.
    UnknownPlatform(String),
    /// A format assignment for a target that is not a host platform.
    TargetNotPlatform(String),
    /// A format assignment with no formats at all.
    EmptyFormatList(String),
    /// A mandatory format that the platform cannot carry.
    FormatPlatformMismatch {
        /// The offending platform.
        target: String,
        /// The format demanded of it.
        format: String,
    },
    /// An assigned format outside the format vocabulary.
    UnknownFormat(String),
}

/// Mathematical model of a [`ConfigError`].
pub enum ConfigErrorV {
    /// A channel outside the channel vocabulary.
    UnknownChannel(Seq<char>),
    /// A cross-use target outside the target vocabulary.
    UnknownTarget(Seq<char>),
    /// A host platform outside the target vocabulary.
    UnknownPlatform(Seq<char>),
    /// A format assignment for a target that is not a host platform.
    TargetNotPlatform(Seq<char>),
    /// A format assignment with no formats at all.
    EmptyFormatList(Seq<char>),
    /// A mandatory format that the platform cannot carry.
    FormatPlatformMismatch {
        /// The offending platform.
        target: Seq<char>,
        /// The format demanded of it.
        format: Seq<char>,
    },
    /// An assigned format outside the format vocabulary.
    UnknownFormat(Seq<char>),
}

impl View for ConfigError {
    type V = ConfigErrorV;

    open spec fn view(&self) -> ConfigErrorV {
        match self {
            ConfigError::UnknownChannel(s) => ConfigErrorV::UnknownChannel(s@),
            ConfigError::UnknownTarget(s) => ConfigErrorV::UnknownTarget(s@),
            ConfigError::UnknownPlatform(s) => ConfigErrorV::UnknownPlatform(s@),
            ConfigError::TargetNotPlatform(s) => ConfigErrorV::TargetNotPlatform(s@),
            ConfigError::EmptyFormatList(s) => ConfigErrorV::EmptyFormatList(s@),
            ConfigError::FormatPlatformMismatch { target, format } =>
                ConfigErrorV::FormatPlatformMismatch { target: target@, format: format@ },
            ConfigError::UnknownFormat(s) => ConfigErrorV::UnknownFormat(s@),
        }
    }
}

/// The first channel outside the channel vocabulary, if any.
pub open spec fn first_unknown_channel(xs: Seq<Seq<char>>) -> Option<Seq<char>>
    decreases xs.len(),
{
    if xs.len() == 0 {
        None
    } else if !is_known_channel(xs.first()) {
        Some(xs.first())
    } else {
        first_unknown_channel(xs.drop_first())
    }
}

/// The first triple outside the target vocabulary, if any.
pub open spec fn first_unknown_target(xs: Seq<Seq<char>>) -> Option<Seq<char>>
    decreases xs.len(),
{
    if xs.len() == 0 {
        None
    } else if !is_known_target(xs.first()) {
        Some(xs.first())
    } else {
        first_unknown_target(xs.drop_first())
    }
}

/// The first format of the list outside the format vocabulary, if any.
pub open spec fn first_unknown_format(fs: Seq<FormatV>) -> Option<Seq<char>>
    decreases fs.len(),
{
    if fs.len() == 0 {
        None
    } else if !is_known_format(fs.first().format) {
        Some(fs.first().format)
    } else {
        first_unknown_format(fs.drop_first())
    }
}

/// Whether a format whose first entry demands `fmt` with policy `Only`
/// may stand on a platform lacking `marker` in its triple.
pub open spec fn mandatory_mismatch(
    fa: FormatAssignmentV,
    fmt: Seq<char>,
    marker: Seq<char>,
) -> bool {
    &&& fa.formats.len() > 0
    &&& fa.formats.first().format == fmt
    &&& !strutil::contains_seq(fa.target, marker)
    &&& fa.formats.first().suffix == Suffix::Only
}

/// The error one format assignment gives rise to, if any.
pub open spec fn assignment_error(fa: FormatAssignmentV, platforms: Seq<Seq<char>>) -> Option<
    ConfigErrorV,
> {
    if !platforms.contains(fa.target) {
        Some(ConfigErrorV::TargetNotPlatform(fa.target))
    } else if fa.formats.len() == 0 {
        Some(ConfigErrorV::EmptyFormatList(fa.target))
    } else if mandatory_mismatch(fa, "msi"@, "windows"@) {
        Some(ConfigErrorV::FormatPlatformMismatch { target: fa.target, format: "msi"@ })
    } else if mandatory_mismatch(fa, "pkg"@, "apple"@) {
        Some(ConfigErrorV::FormatPlatformMismatch { target: fa.target, format: "pkg"@ })
    } else {
        match first_unknown_format(fa.formats) {
            Some(f) => Some(ConfigErrorV::UnknownFormat(f)),
            None => None,
        }
    }
}

/// The first error among the format assignments, in order, if any.
pub open spec fn first_assignment_error(
    fas: Seq<FormatAssignmentV>,
    platforms: Seq<Seq<char>>,
) -> Option<ConfigErrorV>
    decreases fas.len(),
{
    if fas.len() == 0 {
        None
    } else if assignment_error(fas.first(), platforms) is Some {
        assignment_error(fas.first(), platforms)
    } else {
        first_assignment_error(fas.drop_first(), platforms)
    }
}

/// The first violation a request holds against the closed vocabularies,
/// checked in order: channels, cross-use targets, host platforms, then
/// each format assignment.
pub open spec fn spec_validate(r: RequestV) -> Option<ConfigErrorV> {
    if first_unknown_channel(r.channels) is Some {
        Some(ConfigErrorV::UnknownChannel(first_unknown_channel(r.channels)->0))
    } else if first_unknown_target(r.targets) is Some {
        Some(ConfigErrorV::UnknownTarget(first_unknown_target(r.targets)->0))
    } else if first_unknown_target(r.platforms) is Some {
        Some(ConfigErrorV::UnknownPlatform(first_unknown_target(r.platforms)->0))
    } else {
        first_assignment_error(r.format_map, r.platforms)
    }
}

/// The cross-use targets with the host platforms taken out.
pub open spec fn minus_platforms(ts: Seq<Seq<char>>, ps: Seq<Seq<char>>) -> Seq<Seq<char>>
    decreases ts.len(),
{
    if ts.len() == 0 {
        Seq::empty()
    } else if ps.contains(ts.first()) {
        minus_platforms(ts.drop_first(), ps)
    } else {
        seq![ts.first()] + minus_platforms(ts.drop_first(), ps)
    }
}

/// Whether `v` holds a string whose view is `s@`.
pub fn vec_contains_str(v: &Vec<String>, s: &str) -> (r: bool)
    ensures
        r == v@.map_values(|x: String| x@).contains(s@),
{
    let n = v.len();
    for i in 0..n
        invariant
            n == v@.len(),
            forall|j: int| 0 <= j < i ==> #[trigger] v@[j]@ != s@,
    {
        if strutil::str_eq(v[i].as_str(), s) {
            proof {
                assert(v@.map_values(|x: String| x@)[i as int] == s@);
            }
            return true;
        }
    }
    proof {
        assert forall|j: int| #![trigger v@[j]] 0 <= j < v@.len() implies v@.map_values(
            |x: String| x@,
        )[j] != s@ by {
            assert(v@[j]@ != s@);
        }
    }
    false
}

/// Copies a vector of strings.
pub fn clone_string_vec(v: &Vec<String>) -> (r: Vec<String>)
    ensures
        r@.map_values(|x: String| x@) == v@.map_values(|x: String| x@),
{
    let mut out: Vec<String> = Vec::new();
    let n = v.len();
    for i in 0..n
        invariant
            n == v@.len(),
            out@.len() == i,
            forall|j: int| 0 <= j < i ==> #[trigger] out@[j]@ == v@[j]@,
    {
        out.push(strutil::to_owned_string(v[i].as_str()));
    }
    proof {
        assert(out@.map_values(|x: String| x@) =~= v@.map_values(|x: String| x@));
    }
    out
}

/// Copies a format, field by field.
pub fn clone_format(f: &Format) -> (r: Format)
    ensures
        r@ == f@,
{
    Format { format: strutil::to_owned_string(f.format.as_str()), suffix: f.suffix }
}

/// Copies a vector of formats.
pub fn clone_format_vec(v: &Vec<Format>) -> (r: Vec<Format>)
    ensures
        r@.map_values(|f: Format| f@) == v@.map_values(|f: Format| f@),
{
    let mut out: Vec<Format> = Vec::new();
    let n = v.len();
    for i in 0..n
        invariant
            n == v@.len(),
            out@.len() == i,
            forall|j: int| 0 <= j < i ==> #[trigger] out@[j]@ == v@[j]@,
    {
        out.push(clone_format(&v[i]));
    }
    proof {
        assert(out@.map_values(|f: Format| f@) =~= v@.map_values(|f: Format| f@));
    }
    out
}

/// Copies a vector of format assignments.
pub fn clone_assignment_vec(v: &Vec<FormatAssignment>) -> (r: Vec<FormatAssignment>)
    ensures
        r@.map_values(|f: FormatAssignment| f@) == v@.map_values(|f: FormatAssignment| f@),
{
    let mut out: Vec<FormatAssignment> = Vec::new();
    let n = v.len();
    for i in 0..n
        invariant
            n == v@.len(),
            out@.len() == i,
            forall|j: int| 0 <= j < i ==> #[trigger] out@[j]@ == v@[j]@,
    {
        let fa = &v[i];
        out.push(
            FormatAssignment {
                target: strutil::to_owned_string(fa.target.as_str()),
                formats: clone_format_vec(&fa.formats),
            },
        );
    }
    proof {
        assert(out@.map_values(|f: FormatAssignment| f@) =~= v@.map_values(
            |f: FormatAssignment| f@,
        ));
    }
    out
}

/// Finds the first channel outside the vocabulary.
fn find_unknown_channel(v: &Vec<String>) -> (r: Option<String>)
    ensures
        match r {
            Some(s) => first_unknown_channel(v@.map_values(|x: String| x@)) == Some(s@),
            None => first_unknown_channel(v@.map_values(|x: String| x@)) is None,
        },
{
    let ghost all = v@.map_values(|x: String| x@);
    let n = v.len();
    proof {
        assert(all.skip(0) =~= all);
    }
    for i in 0..n
        invariant
            n == v@.len(),
            all == v@.map_values(|x: String| x@),
            first_unknown_channel(all.skip(i as int)) == first_unknown_channel(all),
    {
        proof {
            assert(all.skip(i as int).first() == v@[i as int]@);
            assert(all.skip(i as int).drop_first() =~= all.skip(i + 1));
        }
        if !is_valid_channel(v[i].as_str()) {
            return Some(strutil::to_owned_string(v[i].as_str()));
        }
    }
    proof {
        assert(all.skip(n as int) =~= Seq::<Seq<char>>::empty());
    }
    None
}

/// Finds the first triple outside the target vocabulary.
fn find_unknown_target(v: &Vec<String>) -> (r: Option<String>)
    ensures
        match r {
            Some(s) => first_unknown_target(v@.map_values(|x: String| x@)) == Some(s@),
            None => first_unknown_target(v@.map_values(|x: String| x@)) is None,
        },
{
    let ghost all = v@.map_values(|x: String| x@);
    let n = v.len();
    proof {
        assert(all.skip(0) =~= all);
    }
    for i in 0..n
        invariant
            n == v@.len(),
            all == v@.map_values(|x: String| x@),
            first_unknown_target(all.skip(i as int)) == first_unknown_target(all),
    {
        proof {
            assert(all.skip(i as int).first() == v@[i as int]@);
            assert(all.skip(i as int).drop_first() =~= all.skip(i + 1));
        }
        if !is_valid_target(v[i].as_str()) {
            return Some(strutil::to_owned_string(v[i].as_str()));
        }
    }
    proof {
        assert(all.skip(n as int) =~= Seq::<Seq<char>>::empty());
    }
    None
}

/// Finds the first assigned format outside the format vocabulary.
fn find_unknown_format(v: &Vec<Format>) -> (r: Option<String>)
    ensures
        match r {
            Some(s) => first_unknown_format(v@.map_values(|f: Format| f@)) == Some(s@),
            None => first_unknown_format(v@.map_values(|f: Format| f@)) is None,
        },
{
    let ghost all = v@.map_values(|f: Format| f@);
    let n = v.len();
    proof {
        assert(all.skip(0) =~= all);
    }
    for i in 0..n
        invariant
            n == v@.len(),
            all == v@.map_values(|f: Format| f@),
            first_unknown_format(all.skip(i as int)) == first_unknown_format(all),
    {
        proof {
            assert(all.skip(i as int).first() == v@[i as int]@);
            assert(all.skip(i as int).drop_first() =~= all.skip(i + 1));
        }
        if !crate::format::is_valid_format(v[i].format.as_str()) {
            return Some(strutil::to_owned_string(v[i].format.as_str()));
        }
    }
    proof {
        assert(all.skip(n as int) =~= Seq::<FormatV>::empty());
    }
    None
}

/// Checks one format assignment against the platforms it may stand on.
fn check_assignment(fa: &FormatAssignment, platforms: &Vec<String>) -> (r: Option<ConfigError>)
    ensures
        match r {
            Some(e) => assignment_error(fa@, platforms@.map_values(|x: String| x@)) == Some(e@),
            None => assignment_error(fa@, platforms@.map_values(|x: String| x@)) is None,
        },
{
    if !vec_contains_str(platforms, fa.target.as_str()) {
        return Some(ConfigError::TargetNotPlatform(strutil::to_owned_string(fa.target.as_str())));
    }
    if fa.formats.len() == 0 {
        return Some(ConfigError::EmptyFormatList(strutil::to_owned_string(fa.target.as_str())));
    }
    let head = &fa.formats[0];
    proof {
        assert(fa@.formats.first() == fa.formats@[0]@);
    }
    if strutil::str_eq(head.format.as_str(), "msi") && !strutil::contains(
        fa.target.as_str(),
        "windows",
    ) {
        if head.suffix == Suffix::Only {
            return Some(
                ConfigError::FormatPlatformMismatch {
                    target: strutil::to_owned_string(fa.target.as_str()),
                    format: strutil::to_owned_string("msi"),
                },
            );
        }
    }
    if strutil::str_eq(head.format.as_str(), "pkg") && !strutil::contains(
        fa.target.as_str(),
        "apple",
    ) {
        if head.suffix == Suffix::Only {
            return Some(
                ConfigError::FormatPlatformMismatch {
                    target: strutil::to_owned_string(fa.target.as_str()),
                    format: strutil::to_owned_string("pkg"),
                },
            );
        }
    }
    match find_unknown_format(&fa.formats) {
        Some(f) => Some(ConfigError::UnknownFormat(f)),
        None => None,
    }
}

/// Removes the host platforms from the cross-use targets.
fn targets_minus_platforms(ts: &Vec<String>, ps: &Vec<String>) -> (r: Vec<String>)
    ensures
        r@.map_values(|x: String| x@) == minus_platforms(
            ts@.map_values(|x: String| x@),
            ps@.map_values(|x: String| x@),
        ),
{
    let ghost all = ts@.map_values(|x: String| x@);
    let ghost pall = ps@.map_values(|x: String| x@);
    let mut out: Vec<String> = Vec::new();
    let n = ts.len();
    proof {
        assert(all.skip(0) =~= all);
        assert(out@.map_values(|x: String| x@) =~= Seq::<Seq<char>>::empty());
    }
    for i in 0..n
        invariant
            n == ts@.len(),
            all == ts@.map_values(|x: String| x@),
            pall == ps@.map_values(|x: String| x@),
            minus_platforms(all, pall) == out@.map_values(|x: String| x@) + minus_platforms(
                all.skip(i as int),
                pall,
            ),
    {
        let ghost out0 = out@.map_values(|x: String| x@);
        proof {
            assert(all.skip(i as int).first() == ts@[i as int]@);
            assert(all.skip(i as int).drop_first() =~= all.skip(i + 1));
        }
        if !vec_contains_str(ps, ts[i].as_str()) {
            out.push(strutil::to_owned_string(ts[i].as_str()));
            proof {
                assert(out@.map_values(|x: String| x@) =~= out0 + seq![ts@[i as int]@]);
                assert(out0 + (seq![ts@[i as int]@] + minus_platforms(all.skip(i + 1), pall))
                    =~= (out0 + seq![ts@[i as int]@]) + minus_platforms(all.skip(i + 1), pall));
            }
        }
    }
    proof {
        assert(all.skip(n as int) =~= Seq::<Seq<char>>::empty());
        assert(out@.map_values(|x: String| x@) + Seq::<Seq<char>>::empty() =~= out@.map_values(
            |x: String| x@,
        ));
    }
    out
}

/// Validates a request against the closed vocabularies, in order:
/// channels, cross-use targets, host platforms, then every format
/// assignment.  On success the request comes back with the host
/// platforms removed from the cross-use targets; the first violation
/// otherwise, before any network or disk activity.
pub fn validate_request(req: &Request) -> (r: Result<Request, ConfigError>)
    ensures
        match r {
            Ok(v) => {
                &&& spec_validate(req@) is None
                &&& v@.channels == req@.channels
                &&& v@.targets == minus_platforms(req@.targets, req@.platforms)
                &&& v@.platforms == req@.platforms
                &&& v@.components == req@.components
                &&& v@.format_map == req@.format_map
                &&& v@.quiet == req@.quiet
            },
            Err(e) => spec_validate(req@) == Some(e@),
        },
{
    if let Some(c) = find_unknown_channel(&req.channels) {
        return Err(ConfigError::UnknownChannel(c));
    }
    if let Some(t) = find_unknown_target(&req.targets) {
        return Err(ConfigError::UnknownTarget(t));
    }
    if let Some(p) = find_unknown_target(&req.platforms) {
        return Err(ConfigError::UnknownPlatform(p));
    }
    let ghost fas = req@.format_map;
    let ghost pall = req@.platforms;
    let n = req.format_map.len();
    proof {
        assert(fas.skip(0) =~= fas);
    }
    for i in 0..n
        invariant
            n == req.format_map@.len(),
            fas == req@.format_map,
            pall == req@.platforms,
            first_unknown_channel(req@.channels) is None,
            first_unknown_target(req@.targets) is None,
            first_unknown_target(req@.platforms) is None,
            first_assignment_error(fas.skip(i as int), pall) == first_assignment_error(fas, pall),
    {
        proof {
            assert(fas.skip(i as int).first() == req.format_map@[i as int]@);
            assert(fas.skip(i as int).drop_first() =~= fas.skip(i + 1));
        }
        if let Some(e) = check_assignment(&req.format_map[i], &req.platforms) {
            return Err(e);
        }
    }
    proof {
        assert(fas.skip(n as int) =~= Seq::<FormatAssignmentV>::empty());
    }
    Ok(
        Request {
            channels: clone_string_vec(&req.channels),
            targets: targets_minus_platforms(&req.targets, &req.platforms),
            platforms: clone_string_vec(&req.platforms),
            components: clone_string_vec(&req.components),
            format_map: clone_assignment_vec(&req.format_map),
            quiet: req.quiet,
        },
    )
}

} // verus!
