//! Character-level text primitives shared by the parsers and detectors.
//!
//! Every function here works on the `Seq<char>` view of a string: positions are
//! character positions, and the spec functions say what a value is in terms of
//! that sequence.
use vstd::prelude::*;
use vstd::string::{StrSliceExecFns, StringExecFns};

verus! {

broadcast use vstd::string::group_string_axioms;

// ---------------------------------------------------------------------------
// Character classes
// ---------------------------------------------------------------------------

/// The Unicode `White_Space` property: the characters that `char::is_whitespace`
/// accepts, and therefore the characters that `str::trim` removes.
pub open spec fn is_white_space(c: char) -> bool {
    ||| ('\u{9}' <= c && c <= '\u{d}')
    ||| c == ' '
    ||| c == '\u{85}'
    ||| c == '\u{a0}'
    ||| c == '\u{1680}'
    ||| ('\u{2000}' <= c && c <= '\u{200a}')
    ||| c == '\u{2028}'
    ||| c == '\u{2029}'
    ||| c == '\u{202f}'
    ||| c == '\u{205f}'
    ||| c == '\u{3000}'
}

/// Decides `is_white_space`.
pub fn is_whitespace(c: char) -> (r: bool)
    ensures
        r == is_white_space(c),
{
    ('\u{9}' <= c && c <= '\u{d}') || c == ' ' || c == '\u{85}' || c == '\u{a0}' || c
        == '\u{1680}' || ('\u{2000}' <= c && c <= '\u{200a}') || c == '\u{2028}' || c
        == '\u{2029}' || c == '\u{202f}' || c == '\u{205f}' || c == '\u{3000}'
}

/// A character above Latin-1, U+00FF.
pub open spec fn is_high(c: char) -> bool {
    c as u32 > 0xFF
}

/// A regional indicator, U+1F1E6 to U+1F1FF: two of them make a flag.
pub open spec fn is_regional_indicator(c: char) -> bool {
    0x1f1e6 <= c as u32 && c as u32 <= 0x1f1ff
}

/// Whether `c` is a regional indicator.
pub fn regional_indicator(c: char) -> (r: bool)
    ensures
        r == is_regional_indicator(c),
{
    0x1f1e6 <= c as u32 && c as u32 <= 0x1f1ff
}

/// A skin-tone modifier, U+1F3FB to U+1F3FF.
pub open spec fn is_skin_tone(c: char) -> bool {
    0x1f3fb <= c as u32 && c as u32 <= 0x1f3ff
}

/// Whether `c` is a skin-tone modifier.
pub fn skin_tone(c: char) -> (r: bool)
    ensures
        r == is_skin_tone(c),
{
    0x1f3fb <= c as u32 && c as u32 <= 0x1f3ff
}

/// An emoji code point: a character of Unicode's `Extended_Pictographic`
/// property above Latin-1 (the property's `©` and `®` are left out, as they
/// are ordinary text), a regional indicator or a skin-tone modifier.
pub open spec fn is_pictographic(c: char) -> bool {
    let x = c as u32;
    ||| x == 0x203c
    ||| x == 0x2049
    ||| x == 0x2122
    ||| x == 0x2139
    ||| (0x2194 <= x && x <= 0x2199)
    ||| (0x21a9 <= x && x <= 0x21aa)
    ||| (0x231a <= x && x <= 0x231b)
    ||| x == 0x2328
    ||| x == 0x2388
    ||| x == 0x23cf
    ||| (0x23e9 <= x && x <= 0x23f3)
    ||| (0x23f8 <= x && x <= 0x23fa)
    ||| x == 0x24c2
    ||| (0x25aa <= x && x <= 0x25ab)
    ||| x == 0x25b6
    ||| x == 0x25c0
    ||| (0x25fb <= x && x <= 0x25fe)
    ||| (0x2600 <= x && x <= 0x2605)
    ||| (0x2607 <= x && x <= 0x2612)
    ||| (0x2614 <= x && x <= 0x2685)
    ||| (0x2690 <= x && x <= 0x2705)
    ||| (0x2708 <= x && x <= 0x2712)
    ||| x == 0x2714
    ||| x == 0x2716
    ||| x == 0x271d
    ||| x == 0x2721
    ||| x == 0x2728
    ||| (0x2733 <= x && x <= 0x2734)
    ||| x == 0x2744
    ||| x == 0x2747
    ||| x == 0x274c
    ||| x == 0x274e
    ||| (0x2753 <= x && x <= 0x2755)
    ||| x == 0x2757
    ||| (0x2763 <= x && x <= 0x2767)
    ||| (0x2795 <= x && x <= 0x2797)
    ||| x == 0x27a1
    ||| x == 0x27b0
    ||| x == 0x27bf
    ||| (0x2934 <= x && x <= 0x2935)
    ||| (0x2b05 <= x && x <= 0x2b07)
    ||| (0x2b1b <= x && x <= 0x2b1c)
    ||| x == 0x2b50
    ||| x == 0x2b55
    ||| x == 0x3030
    ||| x == 0x303d
    ||| x == 0x3297
    ||| x == 0x3299
    ||| (0x1f000 <= x && x <= 0x1f0ff)
    ||| (0x1f10d <= x && x <= 0x1f10f)
    ||| x == 0x1f12f
    ||| (0x1f16c <= x && x <= 0x1f171)
    ||| (0x1f17e <= x && x <= 0x1f17f)
    ||| x == 0x1f18e
    ||| (0x1f191 <= x && x <= 0x1f19a)
    ||| (0x1f1ad <= x && x <= 0x1f1e5)
    ||| (0x1f1e6 <= x && x <= 0x1f1ff)
    ||| (0x1f201 <= x && x <= 0x1f20f)
    ||| x == 0x1f21a
    ||| x == 0x1f22f
    ||| (0x1f232 <= x && x <= 0x1f23a)
    ||| (0x1f23c <= x && x <= 0x1f23f)
    ||| (0x1f249 <= x && x <= 0x1f3fa)
    ||| (0x1f3fb <= x && x <= 0x1f3ff)
    ||| (0x1f400 <= x && x <= 0x1f53d)
    ||| (0x1f546 <= x && x <= 0x1f64f)
    ||| (0x1f680 <= x && x <= 0x1f6ff)
    ||| (0x1f774 <= x && x <= 0x1f77f)
    ||| (0x1f7d5 <= x && x <= 0x1f7ff)
    ||| (0x1f80c <= x && x <= 0x1f80f)
    ||| (0x1f848 <= x && x <= 0x1f84f)
    ||| (0x1f85a <= x && x <= 0x1f85f)
    ||| (0x1f888 <= x && x <= 0x1f88f)
    ||| (0x1f8ae <= x && x <= 0x1f8ff)
    ||| (0x1f90c <= x && x <= 0x1f93a)
    ||| (0x1f93c <= x && x <= 0x1f945)
    ||| (0x1f947 <= x && x <= 0x1faff)
    ||| (0x1fc00 <= x && x <= 0x1fffd)
}

/// Whether `c` is an emoji code point.
pub fn pictographic(c: char) -> (r: bool)
    ensures
        r == is_pictographic(c),
{
    let x = c as u32;
    x == 0x203c
        || x == 0x2049
        || x == 0x2122
        || x == 0x2139
        || (0x2194 <= x && x <= 0x2199)
        || (0x21a9 <= x && x <= 0x21aa)
        || (0x231a <= x && x <= 0x231b)
        || x == 0x2328
        || x == 0x2388
        || x == 0x23cf
        || (0x23e9 <= x && x <= 0x23f3)
        || (0x23f8 <= x && x <= 0x23fa)
        || x == 0x24c2
        || (0x25aa <= x && x <= 0x25ab)
        || x == 0x25b6
        || x == 0x25c0
        || (0x25fb <= x && x <= 0x25fe)
        || (0x2600 <= x && x <= 0x2605)
        || (0x2607 <= x && x <= 0x2612)
        || (0x2614 <= x && x <= 0x2685)
        || (0x2690 <= x && x <= 0x2705)
        || (0x2708 <= x && x <= 0x2712)
        || x == 0x2714
        || x == 0x2716
        || x == 0x271d
        || x == 0x2721
        || x == 0x2728
        || (0x2733 <= x && x <= 0x2734)
        || x == 0x2744
        || x == 0x2747
        || x == 0x274c
        || x == 0x274e
        || (0x2753 <= x && x <= 0x2755)
        || x == 0x2757
        || (0x2763 <= x && x <= 0x2767)
        || (0x2795 <= x && x <= 0x2797)
        || x == 0x27a1
        || x == 0x27b0
        || x == 0x27bf
        || (0x2934 <= x && x <= 0x2935)
        || (0x2b05 <= x && x <= 0x2b07)
        || (0x2b1b <= x && x <= 0x2b1c)
        || x == 0x2b50
        || x == 0x2b55
        || x == 0x3030
        || x == 0x303d
        || x == 0x3297
        || x == 0x3299
        || (0x1f000 <= x && x <= 0x1f0ff)
        || (0x1f10d <= x && x <= 0x1f10f)
        || x == 0x1f12f
        || (0x1f16c <= x && x <= 0x1f171)
        || (0x1f17e <= x && x <= 0x1f17f)
        || x == 0x1f18e
        || (0x1f191 <= x && x <= 0x1f19a)
        || (0x1f1ad <= x && x <= 0x1f1e5)
        || (0x1f1e6 <= x && x <= 0x1f1ff)
        || (0x1f201 <= x && x <= 0x1f20f)
        || x == 0x1f21a
        || x == 0x1f22f
        || (0x1f232 <= x && x <= 0x1f23a)
        || (0x1f23c <= x && x <= 0x1f23f)
        || (0x1f249 <= x && x <= 0x1f3fa)
        || (0x1f3fb <= x && x <= 0x1f3ff)
        || (0x1f400 <= x && x <= 0x1f53d)
        || (0x1f546 <= x && x <= 0x1f64f)
        || (0x1f680 <= x && x <= 0x1f6ff)
        || (0x1f774 <= x && x <= 0x1f77f)
        || (0x1f7d5 <= x && x <= 0x1f7ff)
        || (0x1f80c <= x && x <= 0x1f80f)
        || (0x1f848 <= x && x <= 0x1f84f)
        || (0x1f85a <= x && x <= 0x1f85f)
        || (0x1f888 <= x && x <= 0x1f88f)
        || (0x1f8ae <= x && x <= 0x1f8ff)
        || (0x1f90c <= x && x <= 0x1f93a)
        || (0x1f93c <= x && x <= 0x1f945)
        || (0x1f947 <= x && x <= 0x1faff)
        || (0x1fc00 <= x && x <= 0x1fffd)
}

/// An ASCII lowercase letter, `'a'..='z'`.
pub open spec fn is_ascii_lower(c: char) -> bool {
    'a' <= c && c <= 'z'
}

/// An ASCII letter or digit: `'a'..='z'`, `'A'..='Z'` or `'0'..='9'`.
pub open spec fn is_ascii_alphanumeric(c: char) -> bool {
    ||| ('a' <= c && c <= 'z')
    ||| ('A' <= c && c <= 'Z')
    ||| ('0' <= c && c <= '9')
}

/// What `char::is_alphanumeric` returns for `c` (the Unicode `Alphabetic`
/// property or a numeric general category).
pub uninterp spec fn alphanumeric(c: char) -> bool;

/// Calls `char::is_alphanumeric`. Its contract claims that the answer is a
/// function of `c` alone, named `alphanumeric(c)`, and, as std documents it
/// (alphabetic or numeric), that on ASCII it holds of the letters and digits
/// and of nothing else. Which characters above ASCII the Unicode tables admit
/// is not stated.
#[verifier::external_body]
pub(crate) fn is_alphanumeric(c: char) -> (r: bool)
    ensures
        r == alphanumeric(c),
        (c as u32) < 128 ==> (r <==> is_ascii_alphanumeric(c)),
{
    c.is_alphanumeric()
}

// ---------------------------------------------------------------------------
// Searching
// ---------------------------------------------------------------------------

/// Position of the first `c` in `s`, if any.
pub open spec fn first_index_of(s: Seq<char>, c: char) -> Option<int>
    decreases s.len(),
{
    if s.len() == 0 {
        None
    } else if s[0] == c {
        Some(0)
    } else {
        match first_index_of(s.drop_first(), c) {
            Some(i) => Some(i + 1),
            None => None,
        }
    }
}

/// `a` stands at position `j` of `s` and `b` right after it.
pub open spec fn pair_at(s: Seq<char>, j: int, a: char, b: char) -> bool {
    s[j] == a && s[j + 1] == b
}

/// Position of the first occurrence of the two characters `a`, `b` in a row.
pub open spec fn first_index_of_pair(s: Seq<char>, a: char, b: char) -> Option<int>
    decreases s.len(),
{
    if s.len() < 2 {
        None
    } else if s[0] == a && s[1] == b {
        Some(0)
    } else {
        match first_index_of_pair(s.drop_first(), a, b) {
            Some(i) => Some(i + 1),
            None => None,
        }
    }
}

/// `first_index_of` is the least position holding `c`.
pub proof fn lemma_first_index_of(s: Seq<char>, c: char)
    ensures
        match first_index_of(s, c) {
            Some(i) => 0 <= i < s.len() && s[i] == c && forall|j: int| 0 <= j < i ==> s[j] != c,
            None => forall|j: int| 0 <= j < s.len() ==> s[j] != c,
        },
    decreases s.len(),
{
    if s.len() > 0 && s[0] != c {
        lemma_first_index_of(s.drop_first(), c);
        match first_index_of(s.drop_first(), c) {
            Some(i) => {
                assert forall|j: int| 0 <= j < i + 1 implies s[j] != c by {
                    if j > 0 {
                        assert(s[j] == s.drop_first()[j - 1]);
                    }
                }
            },
            None => {
                assert forall|j: int| 0 <= j < s.len() implies s[j] != c by {
                    if j > 0 {
                        assert(s[j] == s.drop_first()[j - 1]);
                    }
                }
            },
        }
    }
}

/// `first_index_of_pair` is the least position where `a` is followed by `b`.
pub proof fn lemma_first_index_of_pair(s: Seq<char>, a: char, b: char)
    ensures
        match first_index_of_pair(s, a, b) {
            Some(i) => 0 <= i && i + 1 < s.len() && s[i] == a && s[i + 1] == b && forall|j: int|
                0 <= j < i ==> !#[trigger] pair_at(s, j, a, b),
            None => forall|j: int| 0 <= j && j + 1 < s.len() ==> !#[trigger] pair_at(s, j, a, b),
        },
    decreases s.len(),
{
    if s.len() >= 2 && !(s[0] == a && s[1] == b) {
        let t = s.drop_first();
        lemma_first_index_of_pair(t, a, b);
        assert forall|j: int| 0 < j && j + 1 < s.len() implies #[trigger] pair_at(s, j, a, b)
            == pair_at(t, j - 1, a, b) by {
            assert(s[j] == t[j - 1] && s[j + 1] == t[j]);
        }
    }
}

/// Finds the first `c` among `v[lo..hi]`, as a position in `v`.
pub(crate) fn find_char(v: &Vec<char>, lo: usize, hi: usize, c: char) -> (r: Option<usize>)
    requires
        lo <= hi <= v.len(),
    ensures
        match first_index_of(v@.subrange(lo as int, hi as int), c) {
            Some(i) => r == Some((lo + i) as usize),
            None => r is None,
        },
        r matches Some(k) ==> lo <= k < hi && v@[k as int] == c,
{
    let ghost s = v@.subrange(lo as int, hi as int);
    proof {
        lemma_first_index_of(s, c);
    }
    let mut i = lo;
    while i < hi
        invariant
            lo <= i <= hi <= v.len(),
            s == v@.subrange(lo as int, hi as int),
            forall|j: int| lo <= j < i ==> v@[j] != c,
            match first_index_of(s, c) {
                Some(k) => 0 <= k < s.len() && s[k] == c && forall|j: int| 0 <= j < k ==> s[j] != c,
                None => forall|j: int| 0 <= j < s.len() ==> s[j] != c,
            },
        decreases hi - i,
    {
        if v[i] == c {
            proof {
                assert(s[i - lo] == c);
                assert forall|j: int| 0 <= j < i - lo implies s[j] != c by {
                    assert(s[j] == v@[lo + j]);
                }
                match first_index_of(s, c) {
                    Some(k) => {
                        if k < i - lo {
                            assert(s[k] == v@[lo + k]);
                        }
                    },
                    None => {},
                }
            }
            return Some(i);
        }
        i = i + 1;
    }
    proof {
        match first_index_of(s, c) {
            Some(k) => {
                assert(s[k] == v@[lo + k]);
            },
            None => {},
        }
    }
    None
}

/// Finds the first `a` directly followed by `b` within `v[lo..hi]`, as a
/// position in `v`.
pub(crate) fn find_pair(v: &Vec<char>, lo: usize, hi: usize, a: char, b: char) -> (r: Option<usize>)
    requires
        lo <= hi <= v.len(),
    ensures
        match first_index_of_pair(v@.subrange(lo as int, hi as int), a, b) {
            Some(i) => r == Some((lo + i) as usize),
            None => r is None,
        },
        r matches Some(k) ==> lo <= k && k + 1 < hi && pair_at(v@, k as int, a, b),
{
    let ghost s = v@.subrange(lo as int, hi as int);
    proof {
        lemma_first_index_of_pair(s, a, b);
    }
    let mut i = lo;
    while hi - i >= 2
        invariant
            lo <= i <= hi <= v.len(),
            s == v@.subrange(lo as int, hi as int),
            forall|j: int| lo <= j < i ==> !#[trigger] pair_at(v@, j, a, b),
            match first_index_of_pair(s, a, b) {
                Some(k) => 0 <= k && k + 1 < s.len() && s[k] == a && s[k + 1] == b && forall|j: int|
                    0 <= j < k ==> !#[trigger] pair_at(s, j, a, b),
                None => forall|j: int| 0 <= j && j + 1 < s.len() ==> !#[trigger] pair_at(s, j, a, b),
            },
        decreases hi - i,
    {
        if v[i] == a && v[i + 1] == b {
            proof {
                assert(s[i - lo] == a && s[i - lo + 1] == b);
                assert(pair_at(s, i - lo, a, b));
                match first_index_of_pair(s, a, b) {
                    Some(k) => {
                        if k < i - lo {
                            assert(s[k] == v@[lo + k] && s[k + 1] == v@[lo + k + 1]);
                            assert(pair_at(s, k, a, b) == pair_at(v@, lo + k, a, b));
                        }
                    },
                    None => {},
                }
            }
            return Some(i);
        }
        i = i + 1;
    }
    proof {
        match first_index_of_pair(s, a, b) {
            Some(k) => {
                assert(s[k] == v@[lo + k] && s[k + 1] == v@[lo + k + 1]);
                assert(pair_at(s, k, a, b) == pair_at(v@, lo + k, a, b));
            },
            None => {},
        }
    }
    None
}

// ---------------------------------------------------------------------------
// Trimming
// ---------------------------------------------------------------------------

/// `s` without its leading white space.
pub open spec fn trim_start(s: Seq<char>) -> Seq<char>
    decreases s.len(),
{
    if s.len() > 0 && is_white_space(s[0]) {
        trim_start(s.drop_first())
    } else {
        s
    }
}

/// `s` without its trailing white space.
pub open spec fn trim_end(s: Seq<char>) -> Seq<char>
    decreases s.len(),
{
    if s.len() > 0 && is_white_space(s.last()) {
        trim_end(s.drop_last())
    } else {
        s
    }
}

/// `s` without leading and trailing white space, as `str::trim` gives it.
pub open spec fn trim(s: Seq<char>) -> Seq<char> {
    trim_end(trim_start(s))
}

/// `s` without its trailing run of `c`, as `str::trim_end_matches(c)` gives it.
pub open spec fn trim_end_char(s: Seq<char>, c: char) -> Seq<char>
    decreases s.len(),
{
    if s.len() > 0 && s.last() == c {
        trim_end_char(s.drop_last(), c)
    } else {
        s
    }
}

/// Bounds of `trim(v[lo..hi])` within `v`.
pub(crate) fn trim_bounds(v: &Vec<char>, lo: usize, hi: usize) -> (r: (usize, usize))
    requires
        lo <= hi <= v.len(),
    ensures
        lo <= r.0 <= r.1 <= hi,
        v@.subrange(r.0 as int, r.1 as int) == trim(v@.subrange(lo as int, hi as int)),
{
    let mut a = lo;
    while a < hi && is_whitespace(v[a])
        invariant
            lo <= a <= hi <= v.len(),
            trim_start(v@.subrange(lo as int, hi as int)) == trim_start(
                v@.subrange(a as int, hi as int),
            ),
        decreases hi - a,
    {
        assert(v@.subrange(a as int, hi as int).drop_first() =~= v@.subrange(
            a + 1,
            hi as int,
        ));
        a = a + 1;
    }
    let mut b = hi;
    while b > a && is_whitespace(v[b - 1])
        invariant
            lo <= a <= b <= hi <= v.len(),
            trim(v@.subrange(lo as int, hi as int)) == trim_end(v@.subrange(a as int, b as int)),
        decreases b - a,
    {
        assert(v@.subrange(a as int, b as int).drop_last() =~= v@.subrange(
            a as int,
            b - 1,
        ));
        b = b - 1;
    }
    (a, b)
}

/// End of `trim_end_char(v[lo..hi], c)` within `v`.
pub(crate) fn trim_end_char_bound(v: &Vec<char>, lo: usize, hi: usize, c: char) -> (r: usize)
    requires
        lo <= hi <= v.len(),
    ensures
        lo <= r <= hi,
        v@.subrange(lo as int, r as int) == trim_end_char(v@.subrange(lo as int, hi as int), c),
{
    let mut b = hi;
    while b > lo && v[b - 1] == c
        invariant
            lo <= b <= hi <= v.len(),
            trim_end_char(v@.subrange(lo as int, hi as int), c) == trim_end_char(
                v@.subrange(lo as int, b as int),
                c,
            ),
        decreases b - lo,
    {
        assert(v@.subrange(lo as int, b as int).drop_last() =~= v@.subrange(
            lo as int,
            b - 1,
        ));
        b = b - 1;
    }
    b
}

// ---------------------------------------------------------------------------
// First line
// ---------------------------------------------------------------------------

/// The first line of `s`, as `str::lines().next().unwrap_or("")` gives it: the
/// characters before the first `'\n'`, without a `'\r'` right before it.
pub open spec fn first_line(s: Seq<char>) -> Seq<char> {
    match first_index_of(s, '\n') {
        Some(k) => if k > 0 && s[k - 1] == '\r' {
            s.subrange(0, k - 1)
        } else {
            s.subrange(0, k)
        },
        None => s,
    }
}

/// The trimmed first line of `s`: what every parser and detector looks at.
pub open spec fn head(s: Seq<char>) -> Seq<char> {
    trim(first_line(s))
}

/// Bounds of `head(v)` within `v`.
pub(crate) fn head_bounds(v: &Vec<char>) -> (r: (usize, usize))
    ensures
        r.0 <= r.1 <= v.len(),
        v@.subrange(r.0 as int, r.1 as int) == head(v@),
{
    let n = v.len();
    assert(v@.subrange(0, n as int) =~= v@);
    let found = find_char(v, 0, n, '\n');
    let end = match found {
        Some(k) => if k > 0 && v[k - 1] == '\r' {
            k - 1
        } else {
            k
        },
        None => n,
    };
    proof {
        lemma_first_index_of(v@, '\n');
        match first_index_of(v@, '\n') {
            Some(k) => {
                assert(found == Some(k as usize));
                if k > 0 && v@[k - 1] == '\r' {
                    assert(end == k - 1);
                } else {
                    assert(end == k);
                }
            },
            None => {
                assert(found is None);
                assert(end == n);
            },
        }
    }
    assert(v@.subrange(0, end as int) == first_line(v@));
    trim_bounds(v, 0, end)
}

// ---------------------------------------------------------------------------
// Splitting
// ---------------------------------------------------------------------------

/// The pieces of `s` between occurrences of `c`, as `str::split(c)` yields
/// them: one more piece than there are `c`s, empty pieces included.
pub open spec fn split_on(s: Seq<char>, c: char) -> Seq<Seq<char>>
    decreases s.len(),
{
    if s.len() == 0 {
        seq![Seq::<char>::empty()]
    } else {
        let init = split_on(s.drop_last(), c);
        if s.last() == c {
            init.push(Seq::<char>::empty())
        } else {
            init.update(init.len() - 1, init.last().push(s.last()))
        }
    }
}

/// `split_on` always yields at least one piece.
pub proof fn lemma_split_on_nonempty(s: Seq<char>, c: char)
    ensures
        split_on(s, c).len() >= 1,
    decreases s.len(),
{
    if s.len() > 0 {
        lemma_split_on_nonempty(s.drop_last(), c);
    }
}

/// The trimmed pieces of `ps` that are not empty, in order.
pub open spec fn nonempty_trimmed(ps: Seq<Seq<char>>) -> Seq<Seq<char>>
    decreases ps.len(),
{
    if ps.len() == 0 {
        Seq::empty()
    } else {
        let init = nonempty_trimmed(ps.drop_last());
        let t = trim(ps.last());
        if t.len() == 0 {
            init
        } else {
            init.push(t)
        }
    }
}

/// The views of a list of strings.
pub open spec fn views(v: Seq<String>) -> Seq<Seq<char>> {
    v.map_values(|s: String| s@)
}

/// Pushing a string pushes its view.
pub proof fn lemma_views_push(v: Seq<String>, s: String)
    ensures
        views(v.push(s)) == views(v).push(s@),
{
    assert(views(v.push(s)) =~= views(v).push(s@));
}

/// Splits the characters `v[lo..hi]` of `s` at every `sep`, trims each piece
/// and keeps the pieces that are not empty.
pub(crate) fn split_trimmed(s: &str, v: &Vec<char>, lo: usize, hi: usize, sep: char) -> (r: Vec<String>)
    requires
        v@ == s@,
        lo <= hi <= v.len(),
    ensures
        views(r@) == nonempty_trimmed(split_on(v@.subrange(lo as int, hi as int), sep)),
{
    let mut out: Vec<String> = Vec::new();
    let mut st = lo;
    let mut i = lo;
    proof {
        assert(v@.subrange(lo as int, lo as int) =~= Seq::<char>::empty());
        assert(views(out@) =~= Seq::<Seq<char>>::empty());
    }
    while i < hi
        invariant
            v@ == s@,
            lo <= st <= i <= hi <= v.len(),
            split_on(v@.subrange(lo as int, i as int), sep).len() >= 1,
            split_on(v@.subrange(lo as int, i as int), sep).last() == v@.subrange(
                st as int,
                i as int,
            ),
            views(out@) == nonempty_trimmed(
                split_on(v@.subrange(lo as int, i as int), sep).drop_last(),
            ),
        decreases hi - i,
    {
        let ghost pieces = split_on(v@.subrange(lo as int, i as int), sep);
        let ghost next = v@.subrange(lo as int, i + 1);
        assert(next.drop_last() =~= v@.subrange(lo as int, i as int));
        assert(next.last() == v@[i as int]);
        if v[i] == sep {
            let (a, b) = trim_bounds(v, st, i);
            proof {
                assert(split_on(next, sep) == pieces.push(Seq::<char>::empty()));
                assert(split_on(next, sep).drop_last() =~= pieces);
                assert(pieces =~= pieces.drop_last().push(pieces.last()));
            }
            if a < b {
                let piece = owned_range(s, a, b);
                proof {
                    lemma_views_push(out@, piece);
                }
                out.push(piece);
            }
            st = i + 1;
            proof {
                assert(v@.subrange(st as int, i + 1) =~= Seq::<char>::empty());
            }
        } else {
            proof {
                let upd = pieces.update(pieces.len() - 1, pieces.last().push(v@[i as int]));
                assert(split_on(next, sep) == upd);
                assert(upd.drop_last() =~= pieces.drop_last());
                assert(upd.last() =~= v@.subrange(st as int, i + 1));
            }
        }
        i = i + 1;
    }
    let ghost pieces = split_on(v@.subrange(lo as int, hi as int), sep);
    assert(pieces =~= pieces.drop_last().push(pieces.last()));
    let (a, b) = trim_bounds(v, st, hi);
    if a < b {
        let piece = owned_range(s, a, b);
        proof {
            lemma_views_push(out@, piece);
        }
        out.push(piece);
    }
    out
}

// ---------------------------------------------------------------------------
// Conversions between `str`, `String` and `Vec<char>`
// ---------------------------------------------------------------------------

/// The characters of `s`.
pub fn chars_of(s: &str) -> (r: Vec<char>)
    ensures
        r@ == s@,
{
    let mut v: Vec<char> = Vec::new();
    for c in it: s.chars()
        invariant
            v@ == it.seq().take(it.index()),
    {
        v.push(c);
    }
    v
}

/// An owned copy of the characters `lo..hi` of `s`.
pub(crate) fn owned_range(s: &str, lo: usize, hi: usize) -> (r: String)
    requires
        lo <= hi <= s@.len(),
    ensures
        r@ == s@.subrange(lo as int, hi as int),
{
    s.substring_char(lo, hi).to_owned()
}

/// `s` trimmed, as an owned string.
pub fn trimmed(s: &str) -> (r: String)
    ensures
        r@ == trim(s@),
{
    let v = chars_of(s);
    let (a, b) = trim_bounds(&v, 0, v.len());
    assert(v@.subrange(0, v.len() as int) =~= v@);
    owned_range(s, a, b)
}

/// Whether the first character of `s` is `c`.
pub(crate) fn starts_with_char(s: &str, c: char) -> (r: bool)
    ensures
        r == (s@.len() > 0 && s@[0] == c),
{
    let v = chars_of(s);
    v.len() > 0 && v[0] == c
}

/// `parts` joined with `sep` between each two of them.
pub open spec fn join(parts: Seq<Seq<char>>, sep: Seq<char>) -> Seq<char>
    decreases parts.len(),
{
    if parts.len() == 0 {
        Seq::empty()
    } else if parts.len() == 1 {
        parts[0]
    } else {
        join(parts.drop_last(), sep) + sep + parts.last()
    }
}

/// Appends `parts`, joined with `sep`, to `out`.
pub(crate) fn append_joined(out: &mut String, parts: &Vec<String>, sep: &str)
    ensures
        final(out)@ == old(out)@ + join(views(parts@), sep@),
{
    let ghost start = out@;
    let mut i: usize = 0;
    assert(views(parts@).subrange(0, 0) =~= Seq::<Seq<char>>::empty());
    while i < parts.len()
        invariant
            0 <= i <= parts.len(),
            out@ == start + join(views(parts@).subrange(0, i as int), sep@),
        decreases parts.len() - i,
    {
        let ghost done = views(parts@).subrange(0, i as int);
        let ghost next = views(parts@).subrange(0, i + 1);
        assert(next.drop_last() =~= done);
        assert(next.last() == parts@[i as int]@);
        if i > 0 {
            out.append(sep);
        }
        out.append(parts[i].as_str());
        proof {
            if i == 0 {
                assert(next.len() == 1);
                assert(out@ =~= start + join(next, sep@));
            } else {
                assert(out@ =~= start + join(next, sep@));
            }
        }
        i = i + 1;
    }
    assert(views(parts@).subrange(0, parts.len() as int) =~= views(parts@));
}

/// The decimal digit for `d < 10`.
pub open spec fn digit_char(d: nat) -> char {
    (48 + d) as char
}

/// The decimal notation of `n`, without leading zeros.
pub open spec fn decimal(n: nat) -> Seq<char>
    decreases n,
{
    if n < 10 {
        seq![digit_char(n)]
    } else {
        decimal(n / 10).push(digit_char(n % 10))
    }
}

/// The one-character string for the digit `d`.
fn digit_str(d: usize) -> (r: &'static str)
    requires
        d < 10,
    ensures
        r@ == seq![digit_char(d as nat)],
{
    proof {
        reveal_strlit("0");
        reveal_strlit("1");
        reveal_strlit("2");
        reveal_strlit("3");
        reveal_strlit("4");
        reveal_strlit("5");
        reveal_strlit("6");
        reveal_strlit("7");
        reveal_strlit("8");
        reveal_strlit("9");
    }
    let r = if d == 0 {
        "0"
    } else if d == 1 {
        "1"
    } else if d == 2 {
        "2"
    } else if d == 3 {
        "3"
    } else if d == 4 {
        "4"
    } else if d == 5 {
        "5"
    } else if d == 6 {
        "6"
    } else if d == 7 {
        "7"
    } else if d == 8 {
        "8"
    } else {
        "9"
    };
    assert(r@ =~= seq![digit_char(d as nat)]);
    r
}

/// Appends the decimal notation of `n` to `out`.
pub(crate) fn append_decimal(out: &mut String, n: usize)
    ensures
        final(out)@ == old(out)@ + decimal(n as nat),
    decreases n,
{
    if n >= 10 {
        append_decimal(out, n / 10);
    }
    out.append(digit_str(n % 10));
    assert(out@ =~= old(out)@ + decimal(n as nat));
}

/// Whether `a` and `b` hold the same characters.
pub fn str_eq(a: &str, b: &str) -> (r: bool)
    ensures
        r == (a@ == b@),
{
    let va = chars_of(a);
    let vb = chars_of(b);
    if va.len() != vb.len() {
        return false;
    }
    let mut i: usize = 0;
    while i < va.len()
        invariant
            va@ == a@,
            vb@ == b@,
            va.len() == vb.len(),
            0 <= i <= va.len(),
            forall|j: int| 0 <= j < i ==> va@[j] == vb@[j],
        decreases va.len() - i,
    {
        if va[i] != vb[i] {
            return false;
        }
        i = i + 1;
    }
    assert(va@ =~= vb@);
    true
}

// ---------------------------------------------------------------------------
// Facts used by the laws
// ---------------------------------------------------------------------------

/// `c` does not occur in `s`.
pub open spec fn lacks(s: Seq<char>, c: char) -> bool {
    forall|j: int| 0 <= j < s.len() ==> #[trigger] s[j] != c
}

/// Trimming never lengthens, and shortens whenever an end is white space.
pub proof fn lemma_trim_len(s: Seq<char>)
    ensures
        trim_start(s).len() <= s.len(),
        s.len() > 0 && is_white_space(s[0]) ==> trim_start(s).len() < s.len(),
        trim_end(s).len() <= s.len(),
        s.len() > 0 && is_white_space(s.last()) ==> trim_end(s).len() < s.len(),
    decreases s.len(),
{
    if s.len() > 0 {
        lemma_trim_len(s.drop_first());
        lemma_trim_len(s.drop_last());
    }
}

/// A non-empty sequence that trimming leaves alone starts and ends with
/// characters other than white space.
pub proof fn lemma_trimmed_ends(s: Seq<char>)
    requires
        trim(s) == s,
        s.len() > 0,
    ensures
        !is_white_space(s[0]),
        !is_white_space(s.last()),
{
    lemma_trim_len(s);
    lemma_trim_len(trim_start(s));
    if !is_white_space(s[0]) {
        assert(trim_start(s) == s);
    }
}

/// A sequence whose ends are not white space is its own trim.
pub proof fn lemma_trim_of_clean_ends(s: Seq<char>)
    requires
        s.len() > 0,
        !is_white_space(s[0]),
        !is_white_space(s.last()),
    ensures
        trim(s) == s,
{
    assert(trim_start(s) == s);
}

/// A single line whose ends are not white space is its own head.
pub proof fn lemma_head_of_clean_line(s: Seq<char>)
    requires
        s.len() > 0,
        lacks(s, '\n'),
        !is_white_space(s[0]),
        !is_white_space(s.last()),
    ensures
        head(s) == s,
{
    lemma_first_index_of(s, '\n');
    assert(first_line(s) == s);
    lemma_trim_of_clean_ends(s);
}

/// Splitting text without separators gives the text back as the only piece.
pub proof fn lemma_split_without_sep(s: Seq<char>, c: char)
    requires
        lacks(s, c),
    ensures
        split_on(s, c) == seq![s],
    decreases s.len(),
{
    if s.len() > 0 {
        let init = s.drop_last();
        assert(lacks(init, c)) by {
            assert forall|j: int| 0 <= j < init.len() implies #[trigger] init[j] != c by {
                assert(init[j] == s[j]);
            }
        }
        lemma_split_without_sep(init, c);
        assert(s[s.len() - 1] != c);
        assert(init.push(s.last()) =~= s);
        assert(seq![init].update(0, init.push(s.last())) =~= seq![s]);
    } else {
        assert(s =~= Seq::<char>::empty());
    }
}

/// Text without separators appended to `x` extends the last piece of `x`.
pub proof fn lemma_split_extend(x: Seq<char>, y: Seq<char>, c: char)
    requires
        lacks(y, c),
    ensures
        split_on(x + y, c) == split_on(x, c).update(
            split_on(x, c).len() - 1,
            split_on(x, c).last() + y,
        ),
    decreases y.len(),
{
    lemma_split_on_nonempty(x, c);
    let sx = split_on(x, c);
    if y.len() == 0 {
        assert(x + y =~= x);
        assert(sx.last() + y =~= sx.last());
        assert(sx.update(sx.len() - 1, sx.last()) =~= sx);
    } else {
        let y0 = y.drop_last();
        assert(lacks(y0, c)) by {
            assert forall|j: int| 0 <= j < y0.len() implies #[trigger] y0[j] != c by {
                assert(y0[j] == y[j]);
            }
        }
        lemma_split_extend(x, y0, c);
        assert((x + y).drop_last() =~= x + y0);
        assert((x + y).last() == y[y.len() - 1]);
        let mid = sx.update(sx.len() - 1, sx.last() + y0);
        assert(mid.last() == sx.last() + y0);
        assert(y[y.len() - 1] != c);
        assert((sx.last() + y0).push(y.last()) =~= sx.last() + y);
        assert(mid.update(mid.len() - 1, mid.last().push(y.last())) =~= sx.update(
            sx.len() - 1,
            sx.last() + y,
        ));
    }
}

/// Splitting pieces joined with a single separator gives the pieces back.
pub proof fn lemma_split_join(parts: Seq<Seq<char>>, c: char)
    requires
        parts.len() >= 1,
        forall|i: int| 0 <= i < parts.len() ==> lacks(#[trigger] parts[i], c),
    ensures
        split_on(join(parts, seq![c]), c) == parts,
    decreases parts.len(),
{
    if parts.len() == 1 {
        lemma_split_without_sep(parts[0], c);
        assert(seq![parts[0]] =~= parts);
    } else {
        let init = parts.drop_last();
        assert(forall|i: int| 0 <= i < init.len() ==> #[trigger] init[i] == parts[i]);
        lemma_split_join(init, c);
        let x = join(init, seq![c]);
        assert(x.push(c) =~= x + seq![c]);
        assert(split_on(x.push(c), c) == split_on(x, c).push(Seq::<char>::empty())) by {
            assert(x.push(c).drop_last() =~= x);
        }
        assert(lacks(parts.last(), c));
        lemma_split_extend(x.push(c), parts.last(), c);
        let sp = init.push(Seq::<char>::empty());
        assert(Seq::<char>::empty() + parts.last() =~= parts.last());
        assert(sp.update(sp.len() - 1, parts.last()) =~= parts);
        assert(join(parts, seq![c]) == x + seq![c] + parts.last());
    }
}

/// Pieces that are all trimmed and non-empty are kept as they are.
pub proof fn lemma_nonempty_trimmed_keeps(ps: Seq<Seq<char>>)
    requires
        forall|i: int| 0 <= i < ps.len() ==> (#[trigger] ps[i]).len() > 0 && trim(ps[i]) == ps[i],
    ensures
        nonempty_trimmed(ps) == ps,
    decreases ps.len(),
{
    if ps.len() > 0 {
        let init = ps.drop_last();
        assert(forall|i: int| 0 <= i < init.len() ==> #[trigger] init[i] == ps[i]);
        lemma_nonempty_trimmed_keeps(init);
        assert(ps.last() == ps[ps.len() - 1]);
        assert(init.push(ps.last()) =~= ps);
    }
}

/// The joined text has one character per piece character and one per
/// separator, and ends with the last piece.
pub proof fn lemma_join_shape(parts: Seq<Seq<char>>, c: char)
    requires
        parts.len() >= 1,
    ensures
        join(parts, seq![c]).len() >= parts.last().len(),
        join(parts, seq![c]).subrange(
            join(parts, seq![c]).len() - parts.last().len(),
            join(parts, seq![c]).len() as int,
        ) == parts.last(),
    decreases parts.len(),
{
    let j = join(parts, seq![c]);
    if parts.len() == 1 {
        assert(j.subrange(0, j.len() as int) =~= j);
    } else {
        let x = join(parts.drop_last(), seq![c]);
        assert(j == x + seq![c] + parts.last());
        assert(j.subrange(j.len() - parts.last().len(), j.len() as int) =~= parts.last());
    }
}

/// The two characters `a`, `b` never stand in a row in `s`.
pub open spec fn lacks_pair(s: Seq<char>, a: char, b: char) -> bool {
    forall|j: int| 0 <= j && j + 1 < s.len() ==> !#[trigger] pair_at(s, j, a, b)
}

/// Joining with a separator other than `x` brings in no `x`.
pub proof fn lemma_join_lacks(parts: Seq<Seq<char>>, c: char, x: char)
    requires
        x != c,
        forall|i: int| 0 <= i < parts.len() ==> lacks(#[trigger] parts[i], x),
    ensures
        lacks(join(parts, seq![c]), x),
    decreases parts.len(),
{
    if parts.len() == 1 {
        assert(lacks(parts[0], x));
    } else if parts.len() > 1 {
        let init = parts.drop_last();
        assert(forall|i: int| 0 <= i < init.len() ==> #[trigger] init[i] == parts[i]);
        lemma_join_lacks(init, c, x);
        let xs = join(init, seq![c]);
        let l = parts.last();
        assert(lacks(parts[parts.len() - 1], x));
        let j = join(parts, seq![c]);
        assert(j == xs + seq![c] + l);
        assert forall|k: int| 0 <= k < j.len() implies #[trigger] j[k] != x by {
            if k < xs.len() {
                assert(j[k] == xs[k]);
            } else if k == xs.len() {
                assert(j[k] == c);
            } else {
                assert(j[k] == l[k - xs.len() - 1]);
            }
        }
    }
}

/// Joining with a separator that is neither `a` nor `b` brings in no `a`
/// followed by `b`.
pub proof fn lemma_join_lacks_pair(parts: Seq<Seq<char>>, c: char, a: char, b: char)
    requires
        c != a,
        c != b,
        forall|i: int| 0 <= i < parts.len() ==> lacks_pair(#[trigger] parts[i], a, b),
    ensures
        lacks_pair(join(parts, seq![c]), a, b),
    decreases parts.len(),
{
    if parts.len() == 1 {
        assert(lacks_pair(parts[0], a, b));
    } else if parts.len() > 1 {
        let init = parts.drop_last();
        assert(forall|i: int| 0 <= i < init.len() ==> #[trigger] init[i] == parts[i]);
        lemma_join_lacks_pair(init, c, a, b);
        let xs = join(init, seq![c]);
        let l = parts.last();
        assert(lacks_pair(parts[parts.len() - 1], a, b));
        let j = join(parts, seq![c]);
        assert(j == xs + seq![c] + l);
        assert forall|k: int| 0 <= k && k + 1 < j.len() implies !#[trigger] pair_at(j, k, a, b) by {
            if k + 1 < xs.len() {
                assert(j[k] == xs[k] && j[k + 1] == xs[k + 1]);
                assert(!pair_at(xs, k, a, b));
            } else if k + 1 == xs.len() {
                assert(j[k + 1] == c);
            } else if k == xs.len() {
                assert(j[k] == c);
            } else {
                assert(j[k] == l[k - xs.len() - 1] && j[k + 1] == l[k - xs.len()]);
                assert(!pair_at(l, k - xs.len() - 1, a, b));
            }
        }
    }
}

/// `trim_end` cuts off a run of white space at the end and nothing else.
pub proof fn lemma_trim_end_shape(s: Seq<char>)
    ensures
        trim_end(s).len() <= s.len(),
        trim_end(s) == s.subrange(0, trim_end(s).len() as int),
        forall|j: int| trim_end(s).len() <= j < s.len() ==> is_white_space(#[trigger] s[j]),
    decreases s.len(),
{
    if s.len() > 0 && is_white_space(s.last()) {
        let t = s.drop_last();
        lemma_trim_end_shape(t);
        assert(trim_end(t) =~= s.subrange(0, trim_end(t).len() as int));
        assert forall|j: int| trim_end(s).len() <= j < s.len() implies is_white_space(
            #[trigger] s[j],
        ) by {
            if j < t.len() {
                assert(s[j] == t[j]);
            }
        }
    } else {
        assert(s.subrange(0, s.len() as int) =~= s);
    }
}

/// `trim_start` cuts off a run of white space at the start and nothing else.
pub proof fn lemma_trim_start_shape(s: Seq<char>)
    ensures
        trim_start(s).len() <= s.len(),
        trim_start(s) == s.subrange(s.len() - trim_start(s).len(), s.len() as int),
        forall|j: int| 0 <= j < s.len() - trim_start(s).len() ==> is_white_space(#[trigger] s[j]),
        trim_start(s).len() > 0 ==> !is_white_space(trim_start(s)[0]),
    decreases s.len(),
{
    if s.len() > 0 && is_white_space(s[0]) {
        let t = s.drop_first();
        lemma_trim_start_shape(t);
        assert(trim_start(t) =~= s.subrange(s.len() - trim_start(t).len(), s.len() as int));
        assert forall|j: int| 0 <= j < s.len() - trim_start(s).len() implies is_white_space(
            #[trigger] s[j],
        ) by {
            if j > 0 {
                assert(s[j] == t[j - 1]);
            }
        }
    } else {
        assert(s.subrange(0, s.len() as int) =~= s);
    }
}

/// Text whose trim is not empty holds a character other than white space.
pub proof fn lemma_trim_nonempty(s: Seq<char>)
    requires
        trim(s).len() > 0,
    ensures
        exists|j: int| 0 <= j < s.len() && !is_white_space(#[trigger] s[j]),
{
    lemma_trim_start_shape(s);
    lemma_trim_end_shape(trim_start(s));
    let n = s.len() - trim_start(s).len();
    assert(trim_start(s).len() > 0);
    assert(s[n] == trim_start(s)[0]);
    assert(!is_white_space(s[n]));
}

/// The first line of `s` is a prefix of `s` without line breaks, and holds
/// every character before the first line break other than a `'\r'` right
/// before it.
pub proof fn lemma_first_line_shape(s: Seq<char>)
    ensures
        first_line(s).len() <= s.len(),
        first_line(s) == s.subrange(0, first_line(s).len() as int),
        lacks(first_line(s), '\n'),
{
    lemma_first_index_of(s, '\n');
    let f = first_line(s);
    match first_index_of(s, '\n') {
        Some(k) => {
            assert forall|j: int| 0 <= j < f.len() implies #[trigger] f[j] != '\n' by {
                assert(f[j] == s[j]);
            }
        },
        None => {
            assert(s.subrange(0, s.len() as int) =~= s);
        },
    }
}

/// The first line holds every character before the first line break, other
/// than a `'\r'` right before it.
pub proof fn lemma_first_line_keeps(s: Seq<char>, q: int)
    requires
        0 <= q <= s.len(),
        forall|j: int| 0 <= j < q ==> #[trigger] s[j] != '\n',
        q == 0 || s[q - 1] != '\r',
    ensures
        q <= first_line(s).len(),
{
    lemma_first_index_of(s, '\n');
    match first_index_of(s, '\n') {
        Some(k) => {
            if q > k {
                assert(s[k] == '\n');
            }
        },
        None => {},
    }
}

/// A message whose first `q` characters hold no line break and start and end
/// with characters other than white space keeps them at the start of its head.
pub proof fn lemma_head_keeps_prefix(m: Seq<char>, q: int)
    requires
        0 < q <= m.len(),
        forall|j: int| 0 <= j < q ==> #[trigger] m[j] != '\n',
        !is_white_space(m[0]),
        !is_white_space(m[q - 1]),
    ensures
        q <= head(m).len() <= m.len(),
        head(m) == m.subrange(0, head(m).len() as int),
{
    lemma_first_line_shape(m);
    let f = first_line(m);
    assert(m[q - 1] != '\r');
    lemma_first_line_keeps(m, q);
    assert(f[0] == m[0]);
    assert(trim_start(f) == f);
    lemma_trim_end_shape(f);
    let h = trim_end(f);
    if h.len() < q {
        assert(f[q - 1] == m[q - 1]);
    }
    assert(h =~= m.subrange(0, h.len() as int));
}

/// `trim_end_char` keeps a prefix of `s`, and keeps the first character when
/// it is not `c`.
pub proof fn lemma_trim_end_char_shape(s: Seq<char>, c: char)
    ensures
        trim_end_char(s, c).len() <= s.len(),
        trim_end_char(s, c) == s.subrange(0, trim_end_char(s, c).len() as int),
        s.len() > 0 && s[0] != c ==> trim_end_char(s, c).len() > 0,
    decreases s.len(),
{
    if s.len() > 0 && s.last() == c {
        let t = s.drop_last();
        lemma_trim_end_char_shape(t, c);
        assert(trim_end_char(t, c) =~= s.subrange(0, trim_end_char(t, c).len() as int));
        if s.len() == 1 {
            assert(s[0] == s.last());
        } else {
            assert(t[0] == s[0]);
        }
    } else {
        assert(s.subrange(0, s.len() as int) =~= s);
    }
}


/// Appending white space to text whose start trimming leaves something keeps
/// it at the end; otherwise nothing is left.
proof fn lemma_trim_start_push_white(s: Seq<char>, c: char)
    requires
        is_white_space(c),
    ensures
        trim_start(s.push(c)) == (if trim_start(s).len() == 0 {
            Seq::<char>::empty()
        } else {
            trim_start(s).push(c)
        }),
    decreases s.len(),
{
    assert(s.push(c)[0] == if s.len() == 0 { c } else { s[0] });
    if s.len() == 0 {
        assert(s.push(c).drop_first() =~= Seq::<char>::empty());
        assert(trim_start(s.push(c).drop_first()) == Seq::<char>::empty());
    } else if is_white_space(s[0]) {
        assert(s.push(c).drop_first() =~= s.drop_first().push(c));
        lemma_trim_start_push_white(s.drop_first(), c);
    }
}

/// Trailing white space does not change the trimmed text.
pub proof fn lemma_trim_push_white(s: Seq<char>, c: char)
    requires
        is_white_space(c),
    ensures
        trim(s.push(c)) == trim(s),
{
    lemma_trim_start_push_white(s, c);
    let t = trim_start(s);
    if t.len() > 0 {
        assert(t.push(c).drop_last() =~= t);
    }
}

/// Only the first line of a message counts: whatever follows its first line
/// break leaves the head unchanged.
pub proof fn lemma_head_ignores_later_lines(m: Seq<char>, rest: Seq<char>)
    requires
        lacks(m, '\n'),
    ensures
        head(m + seq!['\n'] + rest) == head(m),
{
    let s = m + seq!['\n'] + rest;
    let n = m.len() as int;
    lemma_first_index_of(m, '\n');
    lemma_first_index_of(s, '\n');
    assert forall|j: int| 0 <= j < n implies s[j] != '\n' by {
        assert(s[j] == m[j]);
    }
    assert(s[n] == '\n');
    assert(first_index_of(s, '\n') == Some(n));
    assert(first_line(m) == m);
    if n > 0 && s[n - 1] == '\r' {
        assert(s.subrange(0, n - 1) =~= m.drop_last());
        assert(m.drop_last().push('\r') =~= m);
        lemma_trim_push_white(m.drop_last(), '\r');
    } else {
        assert(s.subrange(0, n) =~= m);
    }
}

} // verus!
