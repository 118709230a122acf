//! Parsing the managed binary's self-reported version: the first
//! whitespace-delimited token of its output whose text, after leading `v`s,
//! is dotted-numeric, normalized to carry a leading `v`.

use crate::strutil::is_digit;
use crate::vercmp::{spec_trim_v, trim_leading_v};
use vstd::prelude::*;
use vstd::string::StrSliceExecFns;
use vstd::string::StringExecFns;

verus! {

/// Whitespace that separates tokens of the binary's output.
pub open spec fn is_space(c: char) -> bool {
    c == ' ' || c == '\t' || c == '\n' || c == '\r'
}

/// How many dots stand in a text.
pub open spec fn dot_count(s: Seq<char>) -> nat
    decreases s.len(),
{
    if s.len() == 0 {
        0
    } else {
        dot_count(s.drop_last()) + if s.last() == '.' {
            1nat
        } else {
            0nat
        }
    }
}

/// A dotted-numeric text: it holds a dot, and every character standing
/// before its third dot is a digit or a dot — that is, its first three
/// dot-separated parts consist of digits alone.
pub open spec fn spec_dotted_numeric(t: Seq<char>) -> bool {
    &&& exists|k: int| 0 <= k < t.len() && t[k] == '.'
    &&& forall|k: int|
        0 <= k < t.len() && dot_count(t.take(k)) < 3 ==> is_digit(#[trigger] t[k]) || t[k] == '.'
}

/// A version token: dotted-numeric once leading `v`s are removed.
pub open spec fn spec_version_token(t: Seq<char>) -> bool {
    spec_dotted_numeric(spec_trim_v(t))
}

/// A tag normalized to carry a leading `v`.
pub open spec fn spec_normalize_tag(t: Seq<char>) -> Seq<char> {
    if t.len() > 0 && t[0] == 'v' {
        t
    } else {
        "v"@ + t
    }
}

/// A maximal run of non-whitespace characters of `s`, spanning `[i, j)`.
pub open spec fn token_at(s: Seq<char>, i: int, j: int) -> bool {
    &&& 0 <= i < j <= s.len()
    &&& forall|k: int| i <= k < j ==> !is_space(#[trigger] s[k])
    &&& i == 0 || is_space(s[i - 1])
    &&& j == s.len() || is_space(s[j])
}

/// No token ending at or before `end` is a version token.
pub open spec fn no_version_token_before(s: Seq<char>, end: int) -> bool {
    forall|i: int, j: int|
        #[trigger] token_at(s, i, j) && j <= end ==> !spec_version_token(s.subrange(i, j))
}

/// Decide [`spec_dotted_numeric`].
fn is_dotted_numeric(t: &str) -> (r: bool)
    ensures
        r == spec_dotted_numeric(t@),
{
    let n = t.unicode_len();
    let mut dots: usize = 0;
    let mut has_dot = false;
    let mut i: usize = 0;
    while i < n
        invariant
            n == t@.len(),
            0 <= i <= n,
            dots <= i,
            dots == dot_count(t@.take(i as int)),
            has_dot == exists|k: int| 0 <= k < i && t@[k] == '.',
            forall|k: int|
                0 <= k < i && dot_count(t@.take(k)) < 3 ==> is_digit(#[trigger] t@[k]) || t@[k]
                    == '.',
        decreases n - i,
    {
        let c = t.get_char(i);
        if dots < 3 && !(('0' <= c && c <= '9') || c == '.') {
            return false;
        }
        proof {
            assert(t@.take(i + 1).drop_last() =~= t@.take(i as int));
            assert(t@.take(i + 1).last() == t@[i as int]);
        }
        if c == '.' {
            dots = dots + 1;
            has_dot = true;
        }
        i = i + 1;
    }
    proof {
        assert(t@.take(n as int) =~= t@);
    }
    has_dot
}

/// Decide [`spec_version_token`].
pub fn is_version_token(t: &str) -> (r: bool)
    ensures
        r == spec_version_token(t@),
{
    let trimmed = trim_leading_v(t);
    is_dotted_numeric(trimmed)
}

/// Normalize a tag to carry a leading `v`.
pub fn normalize_tag(t: &str) -> (r: String)
    ensures
        r@ == spec_normalize_tag(t@),
{
    let n = t.unicode_len();
    if n > 0 && t.get_char(0) == 'v' {
        t.to_owned()
    } else {
        let mut r = String::from_str("v");
        r.append(t);
        r
    }
}

/// Extract the version the binary reports: the first whitespace-delimited
/// token of `s` that is a version token, normalized; nothing when no token
/// qualifies.
pub fn parse_version_from_output(s: &str) -> (r: Option<String>)
    ensures
        r is None ==> no_version_token_before(s@, s@.len() as int),
        r matches Some(v) ==> exists|i: int, j: int|
            #[trigger] token_at(s@, i, j) && spec_version_token(s@.subrange(i, j)) && v@
                == spec_normalize_tag(s@.subrange(i, j)) && no_version_token_before(s@, i),
{
    let n = s.unicode_len();
    let mut i: usize = 0;
    while i < n
        invariant
            n == s@.len(),
            0 <= i <= n,
            no_version_token_before(s@, i as int),
            i == 0 || i == n || is_space(s@[i - 1]) || is_space(s@[i as int]),
        decreases n - i,
    {
        let c = s.get_char(i);
        if c == ' ' || c == '\t' || c == '\n' || c == '\r' {
            proof {
                assert forall|a: int, b: int|
                    #[trigger] token_at(s@, a, b) && b <= i + 1 implies !spec_version_token(
                    s@.subrange(a, b),
                ) by {
                    if b == i + 1 {
                        assert(!is_space(s@[b - 1]));
                    }
                }
            }
            i = i + 1;
        } else {
            // A token starts here: find its end.
            let ghost start = i as int;
            let mut j: usize = i + 1;
            while j < n
                invariant
                    n == s@.len(),
                    i < j <= n,
                    forall|k: int| i <= k < j ==> !is_space(#[trigger] s@[k]),
                ensures
                    i < j <= n,
                    forall|k: int| i <= k < j ==> !is_space(#[trigger] s@[k]),
                    j == n || is_space(s@[j as int]),
                decreases n - j,
            {
                let d = s.get_char(j);
                if d == ' ' || d == '\t' || d == '\n' || d == '\r' {
                    break;
                }
                j = j + 1;
            }
            proof {
                assert(token_at(s@, i as int, j as int));
            }
            let token = s.substring_char(i, j);
            if is_version_token(token) {
                let v = normalize_tag(token);
                proof {
                    assert(token_at(s@, i as int, j as int) && spec_version_token(
                        s@.subrange(i as int, j as int),
                    ) && v@ == spec_normalize_tag(s@.subrange(i as int, j as int))
                        && no_version_token_before(s@, i as int));
                }
                return Some(v);
            }
            // The only token ending in (i, j] is (i, j) itself, and it does
            // not qualify.
            proof {
                assert forall|a: int, b: int|
                    #[trigger] token_at(s@, a, b) && b <= j implies !spec_version_token(
                    s@.subrange(a, b),
                ) by {
                    if b <= i {
                    } else if b < j {
                        assert(!is_space(s@[b]));
                    } else {
                        if a < i {
                            assert(i >= 1 && is_space(s@[i - 1]));
                            assert(!is_space(s@[i - 1]));
                        } else if a > i {
                            assert(!is_space(s@[a - 1]));
                        } else {
                            assert(s@.subrange(a, b) == s@.subrange(i as int, j as int));
                        }
                    }
                }
            }
            i = j;
        }
    }
    None
}

} // verus!
