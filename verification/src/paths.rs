//! Lexical path handling.
//!
//! Mirrored artifacts live at the same relative path they have upstream.
//! That path is taken from the artifact URL embedded in the manifest:
//! the URL's path component, with `%20` decoded to a space and the
//! leading slash removed.  Paths are compared after purely lexical
//! normalization, which collapses `.` and `..` components without
//! touching the filesystem.

use vstd::prelude::*;
use crate::strutil;

verus! {

/// The components of `s`, split on `/`.
pub open spec fn split_path(s: Seq<char>) -> Seq<Seq<char>>
    decreases s.len(),
{
    let i = strutil::first_index(s, '/');
    if i < 0 || i >= s.len() {
        seq![s]
    } else {
        seq![s.subrange(0, i)] + split_path(s.subrange(i + 1, s.len() as int))
    }
}

/// One step of lexical normalization: empty and `.` components vanish,
/// `..` pops the last kept component (never popping past the root), and
/// any other component is kept.
pub open spec fn norm_step(acc: Seq<Seq<char>>, c: Seq<char>) -> Seq<Seq<char>> {
    if c.len() == 0 || c == seq!['.'] {
        acc
    } else if c == seq!['.', '.'] {
        if acc.len() > 0 {
            acc.drop_last()
        } else {
            acc
        }
    } else {
        acc.push(c)
    }
}

/// Folds `norm_step` over the components still to process.
pub open spec fn norm_from(acc: Seq<Seq<char>>, cs: Seq<Seq<char>>) -> Seq<Seq<char>>
    decreases cs.len(),
{
    if cs.len() == 0 {
        acc
    } else {
        norm_from(norm_step(acc, cs.first()), cs.drop_first())
    }
}

/// Joining helper: the components of `rest` appended to `acc`, separated
/// by `/`.
pub open spec fn join_acc(acc: Seq<char>, rest: Seq<Seq<char>>) -> Seq<char>
    decreases rest.len(),
{
    if rest.len() == 0 {
        acc
    } else {
        join_acc(acc + seq!['/'] + rest.first(), rest.drop_first())
    }
}

/// The components joined with `/` separators.
pub open spec fn join_path(parts: Seq<Seq<char>>) -> Seq<char> {
    if parts.len() == 0 {
        Seq::empty()
    } else {
        join_acc(parts.first(), parts.drop_first())
    }
}

/// The lexical normal form of `s`: its components with empty and `.`
/// entries dropped and `..` entries popping their predecessor, joined
/// back with `/`; a leading root is preserved, and `..` never pops
/// past it.
pub open spec fn spec_normalize(s: Seq<char>) -> Seq<char> {
    let joined = join_path(norm_from(Seq::empty(), split_path(s)));
    if s.len() > 0 && s.first() == '/' {
        seq!['/'] + joined
    } else {
        joined
    }
}

/// Splits `s` into its `/`-separated components.
fn split_slash(s: &str) -> (r: Vec<String>)
    ensures
        r@.map_values(|p: String| p@) == split_path(s@),
{
    let mut parts: Vec<String> = Vec::new();
    let mut rest: String = strutil::to_owned_string(s);
    loop
        invariant
            split_path(s@) == parts@.map_values(|p: String| p@) + split_path(rest@),
        decreases rest@.len(),
    {
        proof {
            strutil::lemma_first_index(rest@, '/');
        }
        match strutil::find_char(rest.as_str(), '/') {
            Some(i) => {
                proof {
                    assert(strutil::first_index(rest@, '/') == i) by {
                        if strutil::first_index(rest@, '/') < i {
                            assert(rest@[strutil::first_index(rest@, '/')] == '/');
                        }
                    }
                }
                let n = rest.as_str().unicode_len();
                let head = strutil::to_owned_string(rest.as_str().substring_char(0, i));
                let tail = strutil::to_owned_string(rest.as_str().substring_char(i + 1, n));
                let ghost old_parts = parts@;
                parts.push(head);
                proof {
                    assert(parts@.map_values(|p: String| p@) =~= old_parts.map_values(
                        |p: String| p@,
                    ).push(rest@.subrange(0, i as int)));
                    assert(old_parts.map_values(|p: String| p@) + split_path(rest@)
                        =~= parts@.map_values(|p: String| p@) + split_path(tail@));
                }
                rest = tail;
            },
            None => {
                let ghost old_parts = parts@;
                let ghost tail_view = rest@;
                parts.push(rest);
                proof {
                    assert(split_path(tail_view) =~= seq![tail_view]);
                    assert(parts@.map_values(|p: String| p@) =~= old_parts.map_values(
                        |p: String| p@,
                    ) + seq![tail_view]);
                    assert(parts@.map_values(|p: String| p@) =~= split_path(s@));
                }
                return parts;
            },
        }
    }
}

/// Applies `norm_step` to every component in order.
fn normalize_components(parts: Vec<String>) -> (r: Vec<String>)
    ensures
        r@.map_values(|p: String| p@) == norm_from(
            Seq::empty(),
            parts@.map_values(|p: String| p@),
        ),
{
    let ghost all = parts@.map_values(|p: String| p@);
    let mut acc: Vec<String> = Vec::new();
    let n = parts.len();
    proof {
        assert(acc@.map_values(|p: String| p@) =~= Seq::<Seq<char>>::empty());
        assert(all.skip(0) =~= all);
    }
    for k in 0..n
        invariant
            n == parts@.len(),
            all == parts@.map_values(|p: String| p@),
            norm_from(acc@.map_values(|p: String| p@), all.skip(k as int)) == norm_from(
                Seq::empty(),
                all,
            ),
    {
        let ghost acc0 = acc@.map_values(|p: String| p@);
        let c = &parts[k];
        proof {
            reveal_strlit(".");
            reveal_strlit("..");
            assert("."@ =~= seq!['.']);
            assert(".."@ =~= seq!['.', '.']);
            assert(all.skip(k as int).first() == c@);
            assert(all.skip(k as int).drop_first() =~= all.skip(k + 1));
        }
        if c.as_str().unicode_len() == 0 || strutil::str_eq(c.as_str(), ".") {
            proof {
                assert(norm_step(acc0, c@) == acc0);
            }
        } else if strutil::str_eq(c.as_str(), "..") {
            if acc.len() > 0 {
                acc.pop();
                proof {
                    assert(acc@.map_values(|p: String| p@) =~= acc0.drop_last());
                }
            }
        } else {
            let owned = strutil::to_owned_string(c.as_str());
            acc.push(owned);
            proof {
                assert(acc@.map_values(|p: String| p@) =~= acc0.push(c@));
            }
        }
    }
    proof {
        assert(all.skip(n as int) =~= Seq::<Seq<char>>::empty());
    }
    acc
}

/// Joins components with `/` separators.
fn join_components(parts: &Vec<String>) -> (r: String)
    ensures
        r@ == join_path(parts@.map_values(|p: String| p@)),
{
    let ghost all = parts@.map_values(|p: String| p@);
    if parts.len() == 0 {
        let r = String::new();
        return r;
    }
    let mut out = strutil::to_owned_string(parts[0].as_str());
    let n = parts.len();
    proof {
        reveal_strlit("/");
    }
    for k in 1..n
        invariant
            1 <= k <= n,
            n == parts@.len(),
            all == parts@.map_values(|p: String| p@),
            n >= 1,
            join_acc(out@, all.skip(k as int)) == join_path(all),
    {
        proof {
            reveal_strlit("/");
            assert("/"@ =~= seq!['/']);
            assert(all.skip(k as int).first() == parts@[k as int]@);
            assert(all.skip(k as int).drop_first() =~= all.skip(k + 1));
        }
        out = strutil::concat_str(out, "/");
        out = strutil::concat_str(out, parts[k].as_str());
    }
    proof {
        assert(all.skip(n as int) =~= Seq::<Seq<char>>::empty());
    }
    out
}

/// Normalizes a path lexically: splits on `/`, drops empty and `.`
/// components, lets `..` pop the previous component without ever
/// popping past the start, and joins what is left with `/`; a path
/// that starts at the root keeps its leading slash.
pub fn normalize_path(path: &str) -> (r: String)
    ensures
        r@ == spec_normalize(path@),
{
    let parts = split_slash(path);
    let kept = normalize_components(parts);
    let joined = join_components(&kept);
    let n = path.unicode_len();
    if n > 0 && path.get_char(0) == '/' {
        let mut rooted = strutil::to_owned_string("/");
        proof {
            reveal_strlit("/");
            assert("/"@ =~= seq!['/']);
        }
        rooted.append(joined.as_str());
        proof {
            assert(rooted@ =~= spec_normalize(path@));
        }
        rooted
    } else {
        joined
    }
}

/// `s` with every `%20` replaced by a space, scanning left to right.
pub open spec fn spec_decode(s: Seq<char>) -> Seq<char>
    decreases s.len(),
{
    if s.len() == 0 {
        Seq::empty()
    } else if s.len() >= 3 && s.subrange(0, 3) == seq!['%', '2', '0'] {
        seq![' '] + spec_decode(s.skip(3))
    } else {
        seq![s.first()] + spec_decode(s.drop_first())
    }
}

/// Replaces every `%20` in `s` by a space.
pub fn decode_percent20(s: &str) -> (r: String)
    ensures
        r@ == spec_decode(s@),
{
    let mut out = String::new();
    let n = s.unicode_len();
    let mut i: usize = 0;
    proof {
        reveal_strlit(" ");
        assert(" "@ =~= seq![' ']);
        assert(s@.skip(0) =~= s@);
    }
    while i < n
        invariant
            i <= n,
            n == s@.len(),
            out@ + spec_decode(s@.skip(i as int)) == spec_decode(s@),
        decreases n - i,
    {
        let ghost rem = s@.skip(i as int);
        if n - i >= 3 && s.get_char(i) == '%' && s.get_char(i + 1) == '2' && s.get_char(i + 2)
            == '0' {
            proof {
                reveal_strlit(" ");
                assert(rem.subrange(0, 3) =~= seq!['%', '2', '0']);
                assert(rem.skip(3) =~= s@.skip(i + 3));
                assert(" "@ =~= seq![' ']);
            }
            out.append(" ");
            i = i + 3;
        } else {
            proof {
                if rem.len() >= 3 {
                    assert(rem.subrange(0, 3)[0] == s@[i as int]);
                    assert(rem.subrange(0, 3)[1] == s@[i + 1]);
                    assert(rem.subrange(0, 3)[2] == s@[i + 2]);
                }
                assert(rem.first() == s@[i as int]);
                assert(rem.drop_first() =~= s@.skip(i + 1));
            }
            let piece = s.substring_char(i, i + 1);
            proof {
                assert(piece@ =~= seq![s@[i as int]]);
            }
            out.append(piece);
            i = i + 1;
        }
    }
    proof {
        assert(s@.skip(n as int) =~= Seq::<char>::empty());
    }
    out
}

/// The path component of URL `u`, as `url::Url::parse` and `Url::path`
/// yield it: a percent-encoded string, a function of the URL alone; or
/// nothing where the URL does not parse.
pub uninterp spec fn url_path_of(u: Seq<char>) -> Option<Seq<char>>;

/// Relies on `url::Url::parse` and `url::Url::path`: parsing either
/// fails or yields the URL's percent-encoded path, both depending on
/// the URL string alone.
#[verifier::external_body]
fn parse_url_path(u: &str) -> (r: Option<String>)
    ensures
        match r {
            Some(p) => url_path_of(u@) == Some(p@),
            None => url_path_of(u@) is None,
        },
{
    match url::Url::parse(u) {
        Ok(parsed) => Some(parsed.path().to_string()),
        Err(_) => None,
    }
}

/// The mirror-relative location an artifact URL maps to: the URL's path
/// with `%20` decoded and the leading slash removed; nothing where the
/// URL does not parse or its path does not start with a slash.
pub open spec fn spec_rel_of_url(u: Seq<char>) -> Option<Seq<char>> {
    match url_path_of(u) {
        None => None,
        Some(p) => if p.len() >= 1 && p.first() == '/' {
            Some(spec_decode(p.subrange(1, p.len() as int)))
        } else {
            None
        },
    }
}

/// Turns an artifact URL into its mirror-relative path, if the URL
/// parses and has a rooted path.
pub fn rel_path_of_url(u: &str) -> (r: Option<String>)
    ensures
        match r {
            Some(p) => spec_rel_of_url(u@) == Some(p@),
            None => spec_rel_of_url(u@) is None,
        },
{
    match parse_url_path(u) {
        None => None,
        Some(p) => {
            let n = p.as_str().unicode_len();
            if n >= 1 && p.as_str().get_char(0) == '/' {
                let tail = p.as_str().substring_char(1, n);
                Some(decode_percent20(tail))
            } else {
                None
            }
        },
    }
}

} // verus!
