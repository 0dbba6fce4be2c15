//! Recognising a Conventional Commits message.
use vstd::prelude::*;

use crate::text::{
    chars_of, find_char, first_index_of, head, head_bounds, is_ascii_lower,
    lemma_first_index_of, trim_end_char, trim_end_char_bound,
};

verus! {

/// The type word of a prefix: what comes before its `(`, or, without a scope,
/// the prefix without its trailing `!`.
pub open spec fn type_word(prefix: Seq<char>) -> Seq<char> {
    match first_index_of(prefix, '(') {
        Some(o) => prefix.subrange(0, o),
        None => trim_end_char(prefix, '!'),
    }
}

/// A non-empty word of ASCII lowercase letters and `-`.
pub open spec fn is_type_word(s: Seq<char>) -> bool {
    s.len() > 0 && forall|j: int| 0 <= j < s.len() ==> is_ascii_lower(#[trigger] s[j]) || s[j]
        == '-'
}

/// The message follows Conventional Commits: its trimmed first line reads
/// `type(optional-scope)!: description`, that is a non-empty lowercase type
/// word (before any `(`), then anything up to the first `:`, which a space
/// follows.
pub open spec fn follows_conventional(message: Seq<char>) -> bool {
    let line = head(message);
    match first_index_of(line, ':') {
        None => false,
        Some(i) => is_type_word(type_word(line.subrange(0, i))) && i + 1 < line.len() && line[i
            + 1] == ' ',
    }
}

/// Whether `v[lo..hi]` is a type word.
fn check_type_word(v: &Vec<char>, lo: usize, hi: usize) -> (r: bool)
    requires
        lo <= hi <= v.len(),
    ensures
        r == is_type_word(v@.subrange(lo as int, hi as int)),
{
    let ghost s = v@.subrange(lo as int, hi as int);
    if lo == hi {
        return false;
    }
    let mut i = lo;
    while i < hi
        invariant
            lo <= i <= hi <= v.len(),
            s == v@.subrange(lo as int, hi as int),
            forall|j: int| 0 <= j < i - lo ==> is_ascii_lower(#[trigger] s[j]) || s[j] == '-',
        decreases hi - i,
    {
        let c = v[i];
        if !(('a' <= c && c <= 'z') || c == '-') {
            assert(s[i - lo] == c);
            return false;
        }
        i = i + 1;
    }
    true
}

/// Returns `true` if the message follows the Conventional Commits spec.
/// Pattern: `type(optional-scope)!: description`
pub fn is_conventional(msg: &str) -> (r: bool)
    ensures
        r == follows_conventional(msg@),
{
    let v = chars_of(msg);
    let (lo, hi) = head_bounds(&v);
    let ghost line = v@.subrange(lo as int, hi as int);
    proof {
        lemma_first_index_of(line, ':');
    }
    match find_char(&v, lo, hi, ':') {
        None => false,
        Some(i) => {
            let ghost prefix = line.subrange(0, i - lo);
            assert(prefix =~= v@.subrange(lo as int, i as int));
            proof {
                lemma_first_index_of(prefix, '(');
            }
            let base_end = match find_char(&v, lo, i, '(') {
                Some(o) => {
                    assert(prefix.subrange(0, o - lo) =~= v@.subrange(lo as int, o as int));
                    o
                },
                None => trim_end_char_bound(&v, lo, i, '!'),
            };
            check_type_word(&v, lo, base_end) && i + 1 < hi && v[i + 1] == ' '
        },
    }
}

} // verus!
