//! Packaging formats.
//!
//! A format string names one of the closed set of packaging formats
//! (`msi`, `pkg`, `gz`, `xz`), optionally followed by a dash and an
//! availability policy: `-only` makes the format mandatory, `-if-available`
//! (or no suffix at all) makes it best-effort.

use vstd::prelude::*;
use crate::strutil;

verus! {

/// The availability policy carried by a [`Format`].
#[derive(Debug, Clone, Copy, PartialEq, Eq, Structural)]
pub enum Suffix {
    /// Use the format if it's available, but continue if it's not.
    IfAvailable,
    /// Use the provided format or stop building the package.
    Only,
}

/// A packaging format together with its availability policy.
#[derive(Debug, Clone)]
pub struct Format {
    /// The format proper; a valid one is in the closed format vocabulary.
    pub format: String,
    /// The availability policy.
    pub suffix: Suffix,
}

/// Mathematical model of a [`Format`].
pub struct FormatV {
    /// View of the format string.
    pub format: Seq<char>,
    /// The availability policy.
    pub suffix: Suffix,
}

impl View for Format {
    type V = FormatV;

    open spec fn view(&self) -> FormatV {
        FormatV { format: self.format@, suffix: self.suffix }
    }
}

impl PartialEq for Format {
    fn eq(&self, other: &Format) -> (r: bool) {
        self.format == other.format && self.suffix == other.suffix
    }
}

impl vstd::std_specs::cmp::PartialEqSpecImpl for Format {
    open spec fn obeys_eq_spec() -> bool {
        true
    }

    open spec fn eq_spec(&self, other: &Format) -> bool {
        self@ == other@
    }
}

/// Index of the first `-` in `s`, or a negative value if there is none.
pub open spec fn dash_index(s: Seq<char>) -> int {
    strutil::first_index(s, '-')
}

/// What stands before the first `-`, or the whole string without one.
pub open spec fn dash_prefix(s: Seq<char>) -> Seq<char> {
    if dash_index(s) < 0 {
        s
    } else {
        s.subrange(0, dash_index(s))
    }
}

/// What stands after the first `-`; empty without one.
pub open spec fn dash_suffix(s: Seq<char>) -> Seq<char> {
    if dash_index(s) < 0 {
        Seq::empty()
    } else {
        s.subrange(dash_index(s) + 1, s.len() as int)
    }
}

/// Membership in the closed format vocabulary.
pub open spec fn is_known_format(f: Seq<char>) -> bool {
    ||| f == "msi"@
    ||| f == "pkg"@
    ||| f == "gz"@
    ||| f == "xz"@
}

/// A suffix string the strict parser accepts.
pub open spec fn is_known_suffix(s: Seq<char>) -> bool {
    ||| s == "only"@
    ||| s == ""@
    ||| s == "if-available"@
}

/// The policy a suffix string denotes: `only` is mandatory, anything
/// else is best-effort.
pub open spec fn suffix_policy(s: Seq<char>) -> Suffix {
    if s == "only"@ {
        Suffix::Only
    } else {
        Suffix::IfAvailable
    }
}

/// Why a format string was rejected.
#[derive(Debug, Clone)]
pub enum FormatError {
    /// The part after the first dash is neither empty, `if-available`,
    /// nor `only`.  Carries that part.
    InvalidSuffix(String),
    /// The part before the first dash is not in the format vocabulary.
    /// Carries that part.
    InvalidFormat(String),
}

/// Mathematical model of a [`FormatError`].
pub struct FormatErrorV {
    /// Whether the suffix (rather than the format) was at fault.
    pub suffix_fault: bool,
    /// The offending part of the input.
    pub text: Seq<char>,
}

impl View for FormatError {
    type V = FormatErrorV;

    open spec fn view(&self) -> FormatErrorV {
        match self {
            FormatError::InvalidSuffix(s) => FormatErrorV { suffix_fault: true, text: s@ },
            FormatError::InvalidFormat(s) => FormatErrorV { suffix_fault: false, text: s@ },
        }
    }
}

/// Splits `s` at its first `-`: the pair of what stands before and after
/// it, or (`s`, empty) when there is none.
fn split_dash(s: &str) -> (r: (String, String))
    ensures
        r.0@ == dash_prefix(s@),
        r.1@ == dash_suffix(s@),
{
    proof {
        strutil::lemma_first_index(s@, '-');
    }
    match strutil::find_char(s, '-') {
        Some(i) => {
            proof {
                assert(dash_index(s@) >= 0);
                assert(!(dash_index(s@) < i)) by {
                    if dash_index(s@) < i {
                        assert(s@[dash_index(s@)] == '-');
                    }
                }
                assert(!(i < dash_index(s@)));
                assert(dash_index(s@) == i);
            }
            let n = s.unicode_len();
            let before = s.substring_char(0, i);
            let after = s.substring_char(i + 1, n);
            (strutil::to_owned_string(before), strutil::to_owned_string(after))
        },
        None => {
            proof {
                reveal_strlit("");
                assert(""@ =~= Seq::<char>::empty());
            }
            (strutil::to_owned_string(s), strutil::to_owned_string(""))
        },
    }
}

impl Format {
    /// Basic wrapper around, and with the same meaning as,
    /// [`Format::from_string`].
    pub fn from_str(base_string: &str) -> (r: Result<Format, FormatError>)
        ensures
            r is Ok <==> is_known_suffix(dash_suffix(base_string@)) && is_known_format(
                dash_prefix(base_string@),
            ),
            r matches Ok(f) ==> f@.format == dash_prefix(base_string@) && f@.suffix
                == suffix_policy(dash_suffix(base_string@)),
            r matches Err(e) ==> if e@.suffix_fault {
                !is_known_suffix(dash_suffix(base_string@)) && e@.text == dash_suffix(
                    base_string@,
                )
            } else {
                is_known_suffix(dash_suffix(base_string@)) && !is_known_format(
                    dash_prefix(base_string@),
                ) && e@.text == dash_prefix(base_string@)
            },
    {
        Format::from_string(strutil::to_owned_string(base_string))
    }

    /// Basic wrapper around, and with the same meaning as,
    /// [`Format::from_string_no_err`].
    pub fn from_str_no_err(base_string: &str) -> (r: Format)
        ensures
            r@.format == dash_prefix(base_string@),
            r@.suffix == suffix_policy(dash_suffix(base_string@)),
    {
        Format::from_string_no_err(strutil::to_owned_string(base_string))
    }

    /// Parses a format string strictly: the part before the first dash
    /// must be in the format vocabulary and the part after it must be a
    /// known policy suffix.
    pub fn from_string(base_string: String) -> (r: Result<Format, FormatError>)
        ensures
            r is Ok <==> is_known_suffix(dash_suffix(base_string@)) && is_known_format(
                dash_prefix(base_string@),
            ),
            r matches Ok(f) ==> f@.format == dash_prefix(base_string@) && f@.suffix
                == suffix_policy(dash_suffix(base_string@)),
            r matches Err(e) ==> if e@.suffix_fault {
                !is_known_suffix(dash_suffix(base_string@)) && e@.text == dash_suffix(
                    base_string@,
                )
            } else {
                is_known_suffix(dash_suffix(base_string@)) && !is_known_format(
                    dash_prefix(base_string@),
                ) && e@.text == dash_prefix(base_string@)
            },
    {
        let (before, after) = split_dash(base_string.as_str());
        let real_suffix = if strutil::str_eq(after.as_str(), "only") {
            Suffix::Only
        } else if strutil::str_eq(after.as_str(), "") || strutil::str_eq(
            after.as_str(),
            "if-available",
        ) {
            Suffix::IfAvailable
        } else {
            return Err(FormatError::InvalidSuffix(after));
        };
        if !(strutil::str_eq(before.as_str(), "msi") || strutil::str_eq(before.as_str(), "pkg")
            || strutil::str_eq(before.as_str(), "gz") || strutil::str_eq(before.as_str(), "xz")) {
            return Err(FormatError::InvalidFormat(before));
        }
        Ok(Format { format: before, suffix: real_suffix })
    }

    /// Parses a format string leniently: any input yields a value, split
    /// at its first dash; every suffix but `only` means best-effort.
    pub fn from_string_no_err(base_string: String) -> (r: Format)
        ensures
            r@.format == dash_prefix(base_string@),
            r@.suffix == suffix_policy(dash_suffix(base_string@)),
    {
        let (before, after) = split_dash(base_string.as_str());
        let real_suffix = if strutil::str_eq(after.as_str(), "only") {
            Suffix::Only
        } else {
            Suffix::IfAvailable
        };
        Format { format: before, suffix: real_suffix }
    }
}

/// Decides membership in the closed format vocabulary.
pub fn is_valid_format(f: &str) -> (r: bool)
    ensures
        r == is_known_format(f@),
{
    strutil::str_eq(f, "msi") || strutil::str_eq(f, "pkg") || strutil::str_eq(f, "gz")
        || strutil::str_eq(f, "xz")
}

} // verus!
