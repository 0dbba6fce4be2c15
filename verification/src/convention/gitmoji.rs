//! Recognising a Gitmoji message.
use vstd::prelude::*;

use crate::text::{
    alphanumeric, chars_of, find_char, first_index_of, head, head_bounds, is_alphanumeric,
    is_ascii_alphanumeric, is_pictographic, lemma_first_index_of, pictographic,
};

verus! {

/// A character allowed in a shortcode name: alphanumeric (as every ASCII
/// letter and digit is), `_` or `-`.
pub open spec fn is_code_char(c: char) -> bool {
    is_ascii_alphanumeric(c) || alphanumeric(c) || c == '_' || c == '-'
}

/// Whether `name` is a valid shortcode name, given for each of its characters
/// whether it is alphanumeric (`alnum`): it is non-empty and each character is
/// alphanumeric, `_` or `-`. A character without an answer counts as not
/// alphanumeric.
pub open spec fn code_name_valid(name: Seq<char>, alnum: Seq<bool>) -> bool {
    &&& name.len() > 0
    &&& forall|j: int|
        0 <= j < name.len() ==> (j < alnum.len() && alnum[j]) || #[trigger] name[j] == '_'
            || name[j] == '-'
}

/// The message starts with a gitmoji: its trimmed first line starts with
/// `:name:` where `name` is non-empty and made of shortcode characters, or,
/// when it does not start with `:` and a second `:`, with an emoji code point
/// (see `is_pictographic`).
pub open spec fn follows_gitmoji(message: Seq<char>) -> bool {
    let line = head(message);
    if line.len() > 0 && line[0] == ':' && first_index_of(line.drop_first(), ':') is Some {
        let e = first_index_of(line.drop_first(), ':')->0;
        let name = line.subrange(1, e + 1);
        name.len() > 0 && forall|j: int| 0 <= j < name.len() ==> is_code_char(#[trigger] name[j])
    } else {
        line.len() > 0 && is_pictographic(line[0])
    }
}

/// Decides whether `name` is a valid shortcode name, given for each of its
/// characters whether it is alphanumeric.
pub fn shortcode_name_valid(name: &Vec<char>, alnum: &Vec<bool>) -> (r: bool)
    ensures
        r == code_name_valid(name@, alnum@),
{
    if name.len() == 0 {
        return false;
    }
    let mut i: usize = 0;
    while i < name.len()
        invariant
            0 <= i <= name.len(),
            forall|j: int|
                0 <= j < i ==> (j < alnum.len() && alnum@[j]) || #[trigger] name@[j] == '_'
                    || name@[j] == '-',
        decreases name.len() - i,
    {
        let c = name[i];
        let a = i < alnum.len() && alnum[i];
        if !(a || c == '_' || c == '-') {
            assert(!((i < alnum.len() && alnum@[i as int]) || name@[i as int] == '_'
                || name@[i as int] == '-'));
            return false;
        }
        i = i + 1;
    }
    true
}

/// The characters of `v[lo..hi]`, each with whether it is alphanumeric.
fn name_with_answers(v: &Vec<char>, lo: usize, hi: usize) -> (r: (Vec<char>, Vec<bool>))
    requires
        lo <= hi <= v.len(),
    ensures
        r.0@ == v@.subrange(lo as int, hi as int),
        r.1@.len() == r.0@.len(),
        forall|j: int|
            0 <= j < r.0@.len() ==> r.1@[j] == alphanumeric(#[trigger] r.0@[j]) && (
            is_ascii_alphanumeric(r.0@[j]) ==> r.1@[j]),
{
    let mut name: Vec<char> = Vec::new();
    let mut alnum: Vec<bool> = Vec::new();
    let mut i = lo;
    while i < hi
        invariant
            lo <= i <= hi <= v.len(),
            name@ == v@.subrange(lo as int, i as int),
            alnum@.len() == name@.len(),
            forall|j: int|
                0 <= j < name@.len() ==> alnum@[j] == alphanumeric(#[trigger] name@[j]) && (
                is_ascii_alphanumeric(name@[j]) ==> alnum@[j]),
        decreases hi - i,
    {
        let c = v[i];
        let a = is_alphanumeric(c);
        name.push(c);
        alnum.push(a);
        assert(name@ =~= v@.subrange(lo as int, i + 1));
        i = i + 1;
    }
    (name, alnum)
}

/// Returns `true` if the message starts with a gitmoji (`:name:` or actual
/// emoji codepoint).
pub fn is_gitmoji(msg: &str) -> (r: bool)
    ensures
        r == follows_gitmoji(msg@),
{
    let v = chars_of(msg);
    let (lo, hi) = head_bounds(&v);
    let ghost line = v@.subrange(lo as int, hi as int);
    if lo < hi && v[lo] == ':' {
        assert(line.drop_first() =~= v@.subrange(lo + 1, hi as int));
        proof {
            lemma_first_index_of(line.drop_first(), ':');
        }
        if let Some(k) = find_char(&v, lo + 1, hi, ':') {
            assert(line.subrange(1, k - lo) =~= v@.subrange(lo + 1, k as int));
            let (name, alnum) = name_with_answers(&v, lo + 1, k);
            let r = shortcode_name_valid(&name, &alnum);
            proof {
                assert forall|j: int| 0 <= j < name@.len() implies (j < alnum@.len() && alnum@[j]
                    || name@[j] == '_' || name@[j] == '-') == is_code_char(
                    #[trigger] name@[j],
                ) by {}
            }
            return r;
        }
    }
    lo < hi && pictographic(v[lo])
}

} // verus!
