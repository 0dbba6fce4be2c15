//! Gitmoji messages: `:code: description` or `<emoji> description`.
use vstd::prelude::*;

use super::{nonempty, nonempty_range, CommitMessage, MessageFields};
use super::conventional::is_plain_description;
use crate::types::gitmoji::{
    emoji_shape, find_by_code, find_by_emoji, gitmoji_table, is_table_name_char,
    lemma_table_codes_shaped, lemma_table_emoji_shapes, lemma_table_entries_distinct, GitmojiType,
};
use vstd::string::StringExecFns;
use crate::text::{
    chars_of, find_char, first_index_of, head, head_bounds, is_high, is_pictographic,
    is_regional_indicator, is_skin_tone, is_white_space, pictographic, regional_indicator,
    skin_tone, lacks, lemma_first_index_of, lemma_head_ignores_later_lines, lemma_head_of_clean_line, lemma_trimmed_ends, owned_range,
    starts_with_char, str_eq, trim, trim_bounds, trim_start,
};

verus! {

/// Where an emoji whose characters continue at position `k` of `s` ends: it
/// takes in every variation selector U+FE0F and skin-tone modifier, and every
/// zero-width joiner U+200D together with the character the joiner attaches.
pub open spec fn emoji_end(s: Seq<char>, k: int) -> int
    decreases s.len() - k,
{
    if 0 <= k < s.len() && (s[k] == '\u{fe0f}' || is_skin_tone(s[k])) {
        emoji_end(s, k + 1)
    } else if 0 <= k && k + 1 < s.len() && s[k] == '\u{200d}' {
        emoji_end(s, k + 2)
    } else {
        k
    }
}

/// The fields of a Gitmoji message.
///
/// Only the trimmed first line counts. A line that starts with `:` and has a
/// second `:` carries the shortcode up to and including that second colon; a
/// line whose first character is an emoji code point (`is_pictographic`)
/// carries an emoji that starts with that character (see `emoji_end`). In both cases the trimmed rest is the
/// description, absent when empty. Any other line is all description.
pub open spec fn gitmoji_fields(message: Seq<char>) -> MessageFields {
    let line = head(message);
    if line.len() > 0 && line[0] == ':' && first_index_of(line.drop_first(), ':') is Some {
        let e = first_index_of(line.drop_first(), ':')->0;
        MessageFields {
            commit_type: Some(line.subrange(0, e + 2)),
            scopes: None,
            description: nonempty(trim(line.subrange(e + 2, line.len() as int))),
        }
    } else if line.len() > 0 && is_pictographic(line[0]) {
        let e = emoji_end(line, emoji_start(line));
        MessageFields {
            commit_type: Some(line.subrange(0, e)),
            scopes: None,
            description: nonempty(trim(line.subrange(e, line.len() as int))),
        }
    } else {
        MessageFields { commit_type: None, scopes: None, description: Some(line) }
    }
}

/// Where the characters that may continue the emoji at the start of `line`
/// begin: after a flag, made of two regional indicators, or else after the
/// first character.
pub open spec fn emoji_start(line: Seq<char>) -> int {
    if line.len() > 1 && is_regional_indicator(line[0]) && is_regional_indicator(line[1]) {
        2
    } else {
        1
    }
}

/// Parses a Gitmoji message into its fields.
pub fn parse_gitmoji(message: &str) -> (r: CommitMessage)
    ensures
        r@ == gitmoji_fields(message@),
{
    let v = chars_of(message);
    let (lo, hi) = head_bounds(&v);
    let ghost line = v@.subrange(lo as int, hi as int);
    if lo < hi && v[lo] == ':' {
        assert(line.drop_first() =~= v@.subrange(lo + 1, hi as int));
        proof {
            lemma_first_index_of(line.drop_first(), ':');
        }
        if let Some(k) = find_char(&v, lo + 1, hi, ':') {
            let code = owned_range(message, lo, k + 1);
            assert(line.subrange(0, k + 1 - lo) =~= v@.subrange(lo as int, k + 1));
            let (da, db) = trim_bounds(&v, k + 1, hi);
            assert(line.subrange(k + 1 - lo, line.len() as int) =~= v@.subrange(
                k + 1,
                hi as int,
            ));
            let description = nonempty_range(message, da, db);
            return CommitMessage { commit_type: Some(code), scopes: None, description };
        }
    }
    if lo < hi && pictographic(v[lo]) {
        let mut e = if hi - lo >= 2 && regional_indicator(v[lo]) && regional_indicator(v[lo + 1]) {
            lo + 2
        } else {
            lo + 1
        };
        assert(line[0] == v@[lo as int]);
        assert(hi - lo >= 2 ==> line[1] == v@[lo + 1]);
        assert(emoji_start(line) == e - lo);
        while e < hi && (v[e] == '\u{fe0f}' || skin_tone(v[e]) || (hi - e >= 2 && v[e]
            == '\u{200d}'))
            invariant
                lo < e <= hi <= v.len(),
                line == v@.subrange(lo as int, hi as int),
                emoji_end(line, emoji_start(line)) == emoji_end(line, e - lo),
            decreases hi - e,
        {
            assert(line[e - lo] == v@[e as int]);
            if v[e] == '\u{fe0f}' || skin_tone(v[e]) {
                e = e + 1;
            } else {
                e = e + 2;
            }
        }
        proof {
            if e < hi {
                assert(line[e - lo] == v@[e as int]);
            }
            assert(emoji_end(line, e - lo) == e - lo);
        }
        let emoji = owned_range(message, lo, e);
        assert(line.subrange(0, e - lo) =~= v@.subrange(lo as int, e as int));
        let (da, db) = trim_bounds(&v, e, hi);
        assert(line.subrange(e - lo, line.len() as int) =~= v@.subrange(e as int, hi as int));
        let description = nonempty_range(message, da, db);
        return CommitMessage { commit_type: Some(emoji), scopes: None, description };
    }
    let description = owned_range(message, lo, hi);
    CommitMessage { commit_type: None, scopes: None, description: Some(description) }
}

/// The message `<emoji> description`.
pub open spec fn gitmoji_message(gitmoji: GitmojiType, description: Seq<char>) -> Seq<char> {
    gitmoji.emoji@ + seq![' '] + description
}

/// Builds the final Gitmoji message.
pub fn format_gitmoji(gitmoji: &GitmojiType, description: &str) -> (r: String)
    ensures
        r@ == gitmoji_message(*gitmoji, description@),
{
    proof {
        reveal_strlit(" ");
        assert(" "@ =~= seq![' ']);
    }
    let mut r = String::from_str(gitmoji.emoji);
    r.append(" ");
    r.append(description);
    r
}

/// The entry a pre-filled type names: looked up by shortcode when it starts
/// with `:`, by emoji otherwise.
pub open spec fn prefilled_gitmoji(prefill: Seq<char>) -> Option<GitmojiType> {
    if prefill.len() > 0 && prefill[0] == ':' {
        find_by_code(gitmoji_table(), prefill)
    } else {
        find_by_emoji(gitmoji_table(), prefill)
    }
}

/// Position of the first entry of `t` whose shortcode is `code`.
pub open spec fn code_position(t: Seq<GitmojiType>, code: Seq<char>) -> Option<int>
    decreases t.len(),
{
    if t.len() == 0 {
        None
    } else if t[0].code@ == code {
        Some(0)
    } else {
        match code_position(t.drop_first(), code) {
            Some(i) => Some(i + 1),
            None => None,
        }
    }
}

/// Where the Gitmoji prompt's cursor starts: on the entry the pre-filled type
/// names, otherwise on the first entry.
pub open spec fn gitmoji_cursor_of(prefill: Option<Seq<char>>) -> int {
    match prefill {
        Some(s) => match prefilled_gitmoji(s) {
            Some(g) => match code_position(gitmoji_table(), g.code@) {
                Some(i) => i,
                None => 0,
            },
            None => 0,
        },
        None => 0,
    }
}

/// The position of the first entry of `all` whose shortcode is `code`, or 0.
fn position_by_code(all: &Vec<GitmojiType>, code: &str) -> (r: usize)
    ensures
        r == match code_position(all@, code@) {
            Some(i) => i,
            None => 0,
        },
{
    let mut i: usize = 0;
    assert(all@.subrange(0, all.len() as int) =~= all@);
    while i < all.len()
        invariant
            0 <= i <= all.len(),
            code_position(all@, code@) == match code_position(
                all@.subrange(i as int, all.len() as int),
                code@,
            ) {
                Some(k) => Some(k + i),
                None => None,
            },
        decreases all.len() - i,
    {
        let ghost rest = all@.subrange(i as int, all.len() as int);
        assert(rest.drop_first() =~= all@.subrange(i + 1, all.len() as int));
        if str_eq(all[i].code, code) {
            return i;
        }
        i = i + 1;
    }
    0
}

/// The starting cursor of the Gitmoji prompt for a pre-filled type.
pub fn gitmoji_cursor(prefill: Option<&str>) -> (r: usize)
    ensures
        r == gitmoji_cursor_of(
            match prefill {
                Some(s) => Some(s@),
                None => None,
            },
        ),
{
    let found = match prefill {
        Some(s) => if starts_with_char(s, ':') {
            GitmojiType::from_code(s)
        } else {
            GitmojiType::from_emoji(s)
        },
        None => None,
    };
    match found {
        Some(g) => {
            let options = GitmojiType::all();
            position_by_code(&options, g.code)
        },
        None => 0,
    }
}

/// An emoji of that shape followed by a space ends where the space starts.
pub proof fn lemma_emoji_end_of_shape(e: Seq<char>, rest: Seq<char>)
    requires
        emoji_shape(e),
        rest.len() > 0,
        rest[0] == ' ',
    ensures
        emoji_end(e + rest, 1) == e.len(),
{
    let s = e + rest;
    let n = e.len() as int;
    assert(s[n] == ' ');
    assert(emoji_end(s, n) == n);
    if n == 2 {
        assert(s[1] == '\u{fe0f}');
    } else if n == 3 {
        assert(s[1] == '\u{200d}');
    }
}

/// A message built from an emoji of the table's shape, starting with a
/// character that is not white space, and a plain description reads back as
/// that emoji and description.
proof fn lemma_shaped_emoji_round_trip(gitmoji: GitmojiType, description: Seq<char>)
    requires
        emoji_shape(gitmoji.emoji@),
        is_pictographic(gitmoji.emoji@[0]),
        !is_white_space(gitmoji.emoji@[0]),
        is_plain_description(description),
    ensures
        gitmoji_fields(gitmoji_message(gitmoji, description)) == (MessageFields {
            commit_type: Some(gitmoji.emoji@),
            scopes: None,
            description: Some(description),
        }),
{
    let e = gitmoji.emoji@;
    let d = description;
    let n = e.len() as int;
    let m = gitmoji_message(gitmoji, d);
    lemma_trimmed_ends(d);
    assert(m =~= e + (seq![' '] + d));
    assert(is_high(e[0]));
    assert forall|k: int| 0 <= k < m.len() implies #[trigger] m[k] != '\n' by {
        if k < n {
            assert(m[k] == e[k]);
            assert(is_high(e[k]));
        } else if k > n {
            assert(m[k] == d[k - n - 1]);
        }
    }
    assert(m.last() == d.last());
    assert(m[0] == e[0]);
    lemma_head_of_clean_line(m);
    lemma_emoji_end_of_shape(e, seq![' '] + d);
    assert(m.subrange(0, n) =~= e);
    let rest = m.subrange(n, m.len() as int);
    assert(rest.drop_first() =~= d);
    assert(trim_start(rest) == trim_start(d));
    assert(trim_start(d) == d);
}

/// Reading back a message built from any entry of the table and a plain
/// description gives back the entry's emoji and the description: what
/// `format_gitmoji` writes, `parse_gitmoji` reads back.
pub proof fn lemma_gitmoji_round_trip(i: int, description: Seq<char>)
    requires
        0 <= i < gitmoji_table().len(),
        is_plain_description(description),
    ensures
        gitmoji_fields(gitmoji_message(gitmoji_table()[i], description)) == (MessageFields {
            commit_type: Some(gitmoji_table()[i].emoji@),
            scopes: None,
            description: Some(description),
        }),
{
    lemma_table_emoji_shapes();
    lemma_shaped_emoji_round_trip(gitmoji_table()[i], description);
}

/// Reading back a message made of the shortcode of any entry of the table, a
/// space and a plain description gives back that shortcode and description;
/// the shortcode puts the Gitmoji prompt on that entry.
pub proof fn lemma_gitmoji_code_round_trip(i: int, description: Seq<char>)
    requires
        0 <= i < gitmoji_table().len(),
        is_plain_description(description),
    ensures
        gitmoji_fields(gitmoji_table()[i].code@ + seq![' '] + description) == (MessageFields {
            commit_type: Some(gitmoji_table()[i].code@),
            scopes: None,
            description: Some(description),
        }),
        gitmoji_cursor_of(Some(gitmoji_table()[i].code@)) == i,
{
    lemma_table_codes_shaped();
    lemma_gitmoji_cursor_on_entry(i);
    let c = gitmoji_table()[i].code@;
    let d = description;
    let n = c.len() as int;
    let m = c + seq![' '] + d;
    lemma_trimmed_ends(d);
    assert forall|k: int| 0 <= k < m.len() implies #[trigger] m[k] != '\n' by {
        if k < n {
            assert(m[k] == c[k]);
            if 0 < k < n - 1 {
                assert(is_table_name_char(c[k]));
            }
        } else if k > n {
            assert(m[k] == d[k - n - 1]);
        }
    }
    assert(m.last() == d.last());
    assert(m[0] == ':');
    lemma_head_of_clean_line(m);
    let rest = m.drop_first();
    lemma_first_index_of(rest, ':');
    assert forall|j: int| 0 <= j < n - 2 implies rest[j] != ':' by {
        assert(rest[j] == c[j + 1]);
        assert(is_table_name_char(c[j + 1]));
    }
    assert(rest[n - 2] == ':');
    assert(first_index_of(rest, ':') == Some(n - 2));
    assert(m.subrange(0, n) =~= c);
    let tail = m.subrange(n, m.len() as int);
    assert(tail.drop_first() =~= d);
    assert(trim_start(tail) == trim_start(d));
    assert(trim_start(d) == d);
}

/// Only the first line of a message is read: a Gitmoji message followed by
/// further lines gives the same fields as its first line alone.
pub proof fn lemma_gitmoji_reads_first_line(first: Seq<char>, rest: Seq<char>)
    requires
        lacks(first, '\n'),
    ensures
        gitmoji_fields(first + seq!['\n'] + rest) == gitmoji_fields(first),
{
    lemma_head_ignores_later_lines(first, rest);
}

/// `find_by_code` gives the first entry with the shortcode, if there is one.
pub proof fn lemma_find_by_code(t: Seq<GitmojiType>, code: Seq<char>)
    ensures
        match find_by_code(t, code) {
            Some(g) => g.code@ == code && t.contains(g),
            None => forall|j: int| 0 <= j < t.len() ==> (#[trigger] t[j]).code@ != code,
        },
    decreases t.len(),
{
    if t.len() > 0 {
        lemma_find_by_code(t.drop_first(), code);
        assert(forall|j: int| 0 < j < t.len() ==> #[trigger] t[j] == t.drop_first()[j - 1]);
        if t[0].code@ != code {
            match find_by_code(t, code) {
                Some(g) => {
                    let k = choose|k: int| 0 <= k < t.drop_first().len() && t.drop_first()[k] == g;
                    assert(t[k + 1] == g);
                },
                None => {},
            }
        }
    }
}

/// `find_by_emoji` gives the first entry with the emoji, if there is one.
pub proof fn lemma_find_by_emoji(t: Seq<GitmojiType>, emoji: Seq<char>)
    ensures
        match find_by_emoji(t, emoji) {
            Some(g) => g.emoji@ == emoji && t.contains(g),
            None => forall|j: int| 0 <= j < t.len() ==> (#[trigger] t[j]).emoji@ != emoji,
        },
    decreases t.len(),
{
    if t.len() > 0 {
        lemma_find_by_emoji(t.drop_first(), emoji);
        assert(forall|j: int| 0 < j < t.len() ==> #[trigger] t[j] == t.drop_first()[j - 1]);
        if t[0].emoji@ != emoji {
            match find_by_emoji(t, emoji) {
                Some(g) => {
                    let k = choose|k: int| 0 <= k < t.drop_first().len() && t.drop_first()[k] == g;
                    assert(t[k + 1] == g);
                },
                None => {},
            }
        }
    }
}

/// `code_position` is the first position holding the shortcode.
pub proof fn lemma_code_position(t: Seq<GitmojiType>, code: Seq<char>)
    ensures
        match code_position(t, code) {
            Some(k) => 0 <= k < t.len() && t[k].code@ == code,
            None => forall|j: int| 0 <= j < t.len() ==> (#[trigger] t[j]).code@ != code,
        },
    decreases t.len(),
{
    if t.len() > 0 {
        lemma_code_position(t.drop_first(), code);
        assert(forall|j: int| 0 < j < t.len() ==> #[trigger] t[j] == t.drop_first()[j - 1]);
    }
}

/// Pre-filling the Gitmoji prompt with the shortcode or the emoji of a table
/// entry puts the cursor on that entry.
pub proof fn lemma_gitmoji_cursor_on_entry(i: int)
    requires
        0 <= i < gitmoji_table().len(),
    ensures
        gitmoji_cursor_of(Some(gitmoji_table()[i].code@)) == i,
        gitmoji_cursor_of(Some(gitmoji_table()[i].emoji@)) == i,
{
    let t = gitmoji_table();
    lemma_table_entries_distinct();
    lemma_table_emoji_shapes();
    let g = t[i];
    // By shortcode.
    lemma_find_by_code(t, g.code@);
    let found = find_by_code(t, g.code@)->0;
    let k = choose|k: int| 0 <= k < t.len() && t[k] == found;
    assert(t[k].code@ == g.code@);
    assert(k == i);
    lemma_code_position(t, g.code@);
    let m = code_position(t, g.code@)->0;
    assert(t[m].code@ == g.code@);
    assert(m == i);
    assert(gitmoji_cursor_of(Some(g.code@)) == i);
    // By emoji.
    assert(g.emoji@[0] != ':');
    lemma_find_by_emoji(t, g.emoji@);
    let found2 = find_by_emoji(t, g.emoji@)->0;
    let k2 = choose|k: int| 0 <= k < t.len() && t[k] == found2;
    assert(t[k2].emoji@ == g.emoji@);
    assert(t[k2].emoji@[0] == g.emoji@[0]);
    assert(k2 == i);
}

/// Pre-filling from a message the Gitmoji builder wrote for any table entry
/// and a plain description puts the cursor back on that entry.
pub proof fn lemma_prefill_restores_gitmoji(i: int, description: Seq<char>)
    requires
        0 <= i < gitmoji_table().len(),
        is_plain_description(description),
    ensures
        gitmoji_cursor_of(gitmoji_fields(gitmoji_message(gitmoji_table()[i], description)).commit_type)
            == i,
{
    lemma_gitmoji_round_trip(i, description);
    lemma_gitmoji_cursor_on_entry(i);
}

/// Accepting every pre-filled field of a message the Gitmoji builder wrote,
/// for any table entry and a plain description, rebuilds that very message.
pub proof fn lemma_unamended_gitmoji_prefill_rebuilds(i: int, description: Seq<char>)
    requires
        0 <= i < gitmoji_table().len(),
        is_plain_description(description),
    ensures
        ({
            let fields = gitmoji_fields(gitmoji_message(gitmoji_table()[i], description));
            gitmoji_message(gitmoji_table()[gitmoji_cursor_of(fields.commit_type)], fields.description->0)
                == gitmoji_message(gitmoji_table()[i], description)
        }),
{
    lemma_gitmoji_round_trip(i, description);
    lemma_prefill_restores_gitmoji(i, description);
}

} // verus!
