//! Conventional Commits messages: `type(scope1,scope2): description`.
use vstd::prelude::*;

use super::{nonempty, nonempty_range, CommitMessage, MessageFields};
use crate::types::conventional::{
    conventional_types, lemma_keyword_round_trip, lemma_keyword_shape, ConventionalType,
};
use vstd::string::StringExecFns;
use crate::text::{
    append_joined, chars_of, find_char, find_pair, first_index_of, first_index_of_pair, head,
    head_bounds, join, lemma_first_index_of, lemma_first_index_of_pair, nonempty_trimmed,
    owned_range, split_on, split_trimmed, trim, trim_bounds, trim_end_char, trim_end_char_bound,
    views, lacks, lacks_pair, pair_at, is_white_space, lemma_head_of_clean_line, lemma_trimmed_ends,
    lemma_join_lacks, lemma_join_lacks_pair, lemma_join_shape, lemma_split_join,
    lemma_nonempty_trimmed_keeps, lemma_head_ignores_later_lines,
};

verus! {

/// The fields of a Conventional Commits message.
///
/// Only the trimmed first line counts. Everything before the first `": "` is
/// the prefix and everything after it, trimmed, the description; without a
/// `": "` the whole line is the description. A prefix `type(scopes)` has its
/// scopes split at `,`, each trimmed, empty ones dropped, after a trailing
/// breaking-change marker `!`, then the trailing `)`, then a `!` left inside
/// the brackets are removed; a trailing `!` is also removed from the type. Empty types and descriptions are absent.
pub open spec fn conventional_fields(message: Seq<char>) -> MessageFields {
    let line = head(message);
    match first_index_of_pair(line, ':', ' ') {
        None => MessageFields { commit_type: None, scopes: None, description: Some(line) },
        Some(p) => {
            let prefix = line.subrange(0, p);
            let description = nonempty(trim(line.subrange(p + 2, line.len() as int)));
            match first_index_of(prefix, '(') {
                Some(o) => MessageFields {
                    commit_type: nonempty(trim_end_char(prefix.subrange(0, o), '!')),
                    scopes: Some(
                        nonempty_trimmed(
                            split_on(
                                trim_end_char(
                                    trim_end_char(
                                        trim_end_char(prefix.subrange(o + 1, p), '!'),
                                        ')',
                                    ),
                                    '!',
                                ),
                                ',',
                            ),
                        ),
                    ),
                    description,
                },
                None => MessageFields {
                    commit_type: nonempty(trim_end_char(prefix, '!')),
                    scopes: None,
                    description,
                },
            }
        },
    }
}

/// Parses a Conventional Commits message into its fields.
pub fn parse_conventional(message: &str) -> (r: CommitMessage)
    ensures
        r@ == conventional_fields(message@),
{
    let v = chars_of(message);
    let (lo, hi) = head_bounds(&v);
    let ghost line = v@.subrange(lo as int, hi as int);
    proof {
        lemma_first_index_of_pair(line, ':', ' ');
    }
    let colon = find_pair(&v, lo, hi, ':', ' ');
    match colon {
        None => {
            let description = owned_range(message, lo, hi);
            CommitMessage { commit_type: None, scopes: None, description: Some(description) }
        },
        Some(p) => {
            let ghost prefix = line.subrange(0, p - lo);
            assert(prefix =~= v@.subrange(lo as int, p as int));
            let (da, db) = trim_bounds(&v, p + 2, hi);
            assert(line.subrange(p - lo + 2, line.len() as int) =~= v@.subrange(
                p + 2,
                hi as int,
            ));
            let description = nonempty_range(message, da, db);
            proof {
                lemma_first_index_of(prefix, '(');
            }
            match find_char(&v, lo, p, '(') {
                Some(o) => {
                    assert(prefix.subrange(0, o - lo) =~= v@.subrange(lo as int, o as int));
                    assert(prefix.subrange(o - lo + 1, p - lo) =~= v@.subrange(
                        o + 1,
                        p as int,
                    ));
                    let te = trim_end_char_bound(&v, lo, o, '!');
                    let commit_type = nonempty_range(message, lo, te);
                    let e1 = trim_end_char_bound(&v, o + 1, p, '!');
                    let e2 = trim_end_char_bound(&v, o + 1, e1, ')');
                    let e3 = trim_end_char_bound(&v, o + 1, e2, '!');
                    let scopes = split_trimmed(message, &v, o + 1, e3, ',');
                    CommitMessage { commit_type, scopes: Some(scopes), description }
                },
                None => {
                    let te = trim_end_char_bound(&v, lo, p, '!');
                    let commit_type = nonempty_range(message, lo, te);
                    CommitMessage { commit_type, scopes: None, description }
                },
            }
        },
    }
}

/// Only the first line of a message is read: a Conventional Commits message
/// followed by further lines gives the same fields as its first line alone.
pub proof fn lemma_conventional_reads_first_line(first: Seq<char>, rest: Seq<char>)
    requires
        lacks(first, '\n'),
    ensures
        conventional_fields(first + seq!['\n'] + rest) == conventional_fields(first),
{
    lemma_head_ignores_later_lines(first, rest);
}

/// The message `type: description`, or `type(scope1,scope2): description`
/// when there are scopes.
pub open spec fn conventional_message(
    commit_type: ConventionalType,
    scopes: Seq<Seq<char>>,
    description: Seq<char>,
) -> Seq<char> {
    if scopes.len() == 0 {
        commit_type.keyword() + seq![':', ' '] + description
    } else {
        commit_type.keyword() + seq!['('] + join(scopes, seq![',']) + seq![')', ':', ' ']
            + description
    }
}

/// Builds the final Conventional Commits message.
pub fn format_conventional(
    commit_type: ConventionalType,
    scopes: &Vec<String>,
    description: &str,
) -> (r: String)
    ensures
        r@ == conventional_message(commit_type, views(scopes@), description@),
{
    proof {
        reveal_strlit(": ");
        reveal_strlit("(");
        reveal_strlit(",");
        reveal_strlit("): ");
        assert(": "@ =~= seq![':', ' ']);
        assert("("@ =~= seq!['(']);
        assert(","@ =~= seq![',']);
        assert("): "@ =~= seq![')', ':', ' ']);
    }
    let mut r = String::from_str(commit_type.as_str());
    if scopes.len() == 0 {
        r.append(": ");
    } else {
        r.append("(");
        append_joined(&mut r, scopes, ",");
        r.append("): ");
    }
    r.append(description);
    assert(r@ =~= conventional_message(commit_type, views(scopes@), description@));
    r
}

impl ConventionalType {
    /// The position of the type in the type prompt.
    pub open spec fn position(self) -> int {
        match self {
            ConventionalType::Feat => 0,
            ConventionalType::Fix => 1,
            ConventionalType::Chore => 2,
            ConventionalType::Docs => 3,
            ConventionalType::Style => 4,
            ConventionalType::Refactor => 5,
            ConventionalType::Perf => 6,
            ConventionalType::Test => 7,
            ConventionalType::Build => 8,
            ConventionalType::Ci => 9,
            ConventionalType::Revert => 10,
        }
    }
}

/// A type sits at its own position in the type list, and nowhere else.
pub proof fn lemma_position(t: ConventionalType)
    ensures
        0 <= t.position() < conventional_types().len(),
        conventional_types()[t.position()] == t,
        forall|i: int|
            0 <= i < conventional_types().len() && #[trigger] conventional_types()[i] == t ==> i
                == t.position(),
{
}

/// Where the type prompt's cursor starts: on the pre-filled type when it names
/// a known type, otherwise on the first entry.
pub open spec fn type_cursor(prefill: Option<Seq<char>>) -> int {
    match prefill {
        Some(s) => match ConventionalType::from_keyword(s) {
            Some(t) => t.position(),
            None => 0,
        },
        None => 0,
    }
}

/// The starting cursor of the type prompt for a pre-filled type.
pub fn conventional_type_cursor(prefill: Option<&str>) -> (r: usize)
    ensures
        r == type_cursor(
            match prefill {
                Some(s) => Some(s@),
                None => None,
            },
        ),
{
    let wanted = match prefill {
        Some(s) => ConventionalType::from_str(s),
        None => None,
    };
    match wanted {
        None => 0,
        Some(t) => {
            let options = ConventionalType::all();
            proof {
                lemma_position(t);
            }
            let mut i: usize = 0;
            while i < options.len()
                invariant
                    options@ == conventional_types(),
                    0 <= i <= options.len(),
                    forall|j: int| 0 <= j < i ==> options@[j] != t,
                    type_cursor(
                        match prefill {
                            Some(s) => Some(s@),
                            None => None,
                        },
                    ) == t.position(),
                decreases options.len() - i,
            {
                if options[i] == t {
                    assert(conventional_types()[i as int] == t);
                    assert(i == t.position());
                    return i;
                }
                i = i + 1;
            }
            0
        },
    }
}

/// How the commit type is settled.
#[derive(Debug, Clone, Copy, PartialEq, Eq, Structural)]
pub enum TypeChoice {
    /// Given on the command line: the type prompt is skipped.
    Given(ConventionalType),
    /// Asked with the type prompt, its cursor starting at this position.
    Ask(usize),
}

/// How the commit type is settled: a type given with `--type` is taken as it
/// is; otherwise the type prompt asks, starting on the pre-filled type.
pub fn type_choice(given: Option<ConventionalType>, prefill: Option<&str>) -> (r: TypeChoice)
    ensures
        r == match given {
            Some(t) => TypeChoice::Given(t),
            None => TypeChoice::Ask(
                type_cursor(
                    match prefill {
                        Some(s) => Some(s@),
                        None => None,
                    },
                ) as usize,
            ),
        },
{
    match given {
        Some(t) => TypeChoice::Given(t),
        None => TypeChoice::Ask(conventional_type_cursor(prefill)),
    }
}

/// A scope as the scope prompt keeps it (non-empty and trimmed) that reads
/// back as itself: no `,` (which would split it), no line break and no `": "`
/// (which would end the prefix).
pub open spec fn is_plain_scope(s: Seq<char>) -> bool {
    &&& s.len() > 0
    &&& trim(s) == s
    &&& lacks(s, ',')
    &&& lacks(s, '\n')
    &&& lacks_pair(s, ':', ' ')
}

/// A description as the description prompt keeps it (non-empty and trimmed),
/// on a single line.
pub open spec fn is_plain_description(d: Seq<char>) -> bool {
    &&& d.len() > 0
    &&& trim(d) == d
    &&& lacks(d, '\n')
}

/// The last scope, if any, does not end with `)` or `!`, which reading the
/// message back would strip.
pub open spec fn ends_cleanly(scopes: Seq<Seq<char>>) -> bool {
    scopes.len() > 0 ==> scopes.last().last() != ')' && scopes.last().last() != '!'
}

/// Where the `": "` that ends the prefix of a built message stands.
pub open spec fn prefix_len(commit_type: ConventionalType, scopes: Seq<Seq<char>>) -> int {
    if scopes.len() == 0 {
        commit_type.keyword().len() as int
    } else {
        (commit_type.keyword().len() + 1 + join(scopes, seq![',']).len() + 1) as int
    }
}

/// The shape of a built message that reading it back relies on.
proof fn lemma_built_message_shape(
    commit_type: ConventionalType,
    scopes: Seq<Seq<char>>,
    description: Seq<char>,
)
    requires
        forall|i: int| 0 <= i < scopes.len() ==> is_plain_scope(#[trigger] scopes[i]),
        is_plain_description(description),
    ensures
        ({
            let m = conventional_message(commit_type, scopes, description);
            let p = prefix_len(commit_type, scopes);
            &&& head(m) == m
            &&& 0 <= p && p + 2 <= m.len()
            &&& first_index_of_pair(m, ':', ' ') == Some(p)
            &&& m.subrange(p + 2, m.len() as int) == description
        }),
{
    let kw = commit_type.keyword();
    let m = conventional_message(commit_type, scopes, description);
    let p = prefix_len(commit_type, scopes);
    let d = description;
    lemma_keyword_shape(commit_type);
    lemma_trimmed_ends(d);
    let j = join(scopes, seq![',']);
    assert forall|i: int| 0 <= i < scopes.len() implies lacks(#[trigger] scopes[i], '\n') by {
        assert(is_plain_scope(scopes[i]));
    }
    assert forall|i: int| 0 <= i < scopes.len() implies lacks_pair(
        #[trigger] scopes[i],
        ':',
        ' ',
    ) by {
        assert(is_plain_scope(scopes[i]));
    }
    lemma_join_lacks(scopes, ',', '\n');
    lemma_join_lacks_pair(scopes, ',', ':', ' ');
    // The message, piece by piece.
    let front = if scopes.len() == 0 {
        kw
    } else {
        kw + seq!['('] + j + seq![')']
    };
    assert(front.len() == p);
    assert(m =~= front + seq![':', ' '] + d);
    // One line, with ends that are not white space.
    assert(m[0] == kw[0]);
    assert(!is_white_space(kw[0]));
    assert(m.last() == d.last());
    assert forall|k: int| 0 <= k < m.len() implies #[trigger] m[k] != '\n' by {
        if k < kw.len() {
            assert(m[k] == kw[k]);
        } else if k >= p + 2 {
            assert(m[k] == d[k - p - 2]);
        } else if scopes.len() > 0 && kw.len() + 1 <= k < kw.len() + 1 + j.len() {
            assert(m[k] == j[k - kw.len() - 1]);
        }
    }
    lemma_head_of_clean_line(m);
    // The first `": "` is the one after the prefix.
    assert(pair_at(m, p, ':', ' '));
    lemma_first_index_of_pair(m, ':', ' ');
    assert forall|k: int| 0 <= k < p implies !#[trigger] pair_at(m, k, ':', ' ') by {
        if k < kw.len() {
            assert(m[k] == kw[k]);
        } else if scopes.len() > 0 {
            if k == kw.len() {
                assert(m[k] == '(');
            } else if k + 1 < kw.len() + 1 + j.len() {
                assert(m[k] == j[k - kw.len() - 1] && m[k + 1] == j[k - kw.len()]);
                assert(!pair_at(j, k - kw.len() - 1, ':', ' '));
            } else if k + 1 == kw.len() + 1 + j.len() {
                assert(m[k + 1] == ')');
            } else {
                assert(m[k] == ')');
            }
        }
    }
    assert(m.subrange(p + 2, m.len() as int) =~= d);
    assert(head(m) == m);
    assert(0 <= p && p + 2 <= m.len());
    match first_index_of_pair(m, ':', ' ') {
        Some(i) => {
            if i < p {
                assert(!pair_at(m, i, ':', ' '));
            } else if i > p {
                assert(!pair_at(m, p, ':', ' '));
            }
        },
        None => {
            assert(!pair_at(m, p, ':', ' '));
        },
    }
}

/// Reading back a message built from a type, plain scopes and a plain
/// description gives back the keyword of the type, the scopes (none when
/// there are none) and the description: what `format_conventional` writes,
/// `parse_conventional` reads back field by field.
pub proof fn lemma_conventional_round_trip(
    commit_type: ConventionalType,
    scopes: Seq<Seq<char>>,
    description: Seq<char>,
)
    requires
        forall|i: int| 0 <= i < scopes.len() ==> is_plain_scope(#[trigger] scopes[i]),
        ends_cleanly(scopes),
        is_plain_description(description),
    ensures
        conventional_fields(conventional_message(commit_type, scopes, description)) == (
        MessageFields {
            commit_type: Some(commit_type.keyword()),
            scopes: if scopes.len() == 0 {
                None
            } else {
                Some(scopes)
            },
            description: Some(description),
        }),
{
    let kw = commit_type.keyword();
    let m = conventional_message(commit_type, scopes, description);
    let p = prefix_len(commit_type, scopes);
    lemma_built_message_shape(commit_type, scopes, description);
    lemma_keyword_shape(commit_type);
    let prefix = m.subrange(0, p);
    assert(kw[kw.len() - 1] != '!');
    if scopes.len() == 0 {
        assert(prefix =~= kw);
        lemma_first_index_of(kw, '(');
        assert forall|k: int| 0 <= k < kw.len() implies #[trigger] kw[k] != '(' by {}
        assert(first_index_of(prefix, '(') is None);
        assert(trim_end_char(prefix, '!') == prefix);
    } else {
        let j = join(scopes, seq![',']);
        assert(prefix =~= kw + seq!['('] + j + seq![')']);
        // The first `(` follows the keyword.
        lemma_first_index_of(prefix, '(');
        assert(prefix[kw.len() as int] == '(');
        assert forall|k: int| 0 <= k < kw.len() implies #[trigger] prefix[k] != '(' by {
            assert(prefix[k] == kw[k]);
        }
        assert(first_index_of(prefix, '(') == Some(kw.len() as int));
        assert(prefix.subrange(0, kw.len() as int) =~= kw);
        assert(trim_end_char(kw, '!') == kw);
        // The scope list reads back.
        let inner = prefix.subrange(kw.len() + 1int, p);
        assert(inner =~= j.push(')'));
        assert(inner.drop_last() =~= j);
        lemma_join_shape(scopes, ',');
        let last = scopes.last();
        assert(is_plain_scope(scopes[scopes.len() - 1]));
        assert(j.last() == last.last()) by {
            assert(j.subrange(j.len() - last.len(), j.len() as int)[last.len() - 1] == j.last());
        }
        assert(j.len() > 0);
        assert(inner.last() == ')');
        assert(trim_end_char(inner, '!') == inner);
        assert(trim_end_char(j, ')') == j);
        assert(trim_end_char(inner, ')') == trim_end_char(inner.drop_last(), ')'));
        assert(trim_end_char(inner, ')') == j);
        assert forall|i: int| 0 <= i < scopes.len() implies lacks(#[trigger] scopes[i], ',') by {
            assert(is_plain_scope(scopes[i]));
        }
        lemma_split_join(scopes, ',');
        assert forall|i: int| 0 <= i < scopes.len() implies (#[trigger] scopes[i]).len() > 0
            && trim(scopes[i]) == scopes[i] by {
            assert(is_plain_scope(scopes[i]));
        }
        lemma_nonempty_trimmed_keeps(scopes);
    }
}

/// Pre-filling the type prompt with a type's keyword puts the cursor on that
/// type.
pub proof fn lemma_type_cursor_on_keyword(commit_type: ConventionalType)
    ensures
        0 <= type_cursor(Some(commit_type.keyword())) < conventional_types().len(),
        conventional_types()[type_cursor(Some(commit_type.keyword()))] == commit_type,
{
    lemma_keyword_round_trip(commit_type);
    lemma_position(commit_type);
}

/// Pre-filling from a message the builder wrote puts the type prompt's cursor
/// on the message's type, for plain scopes and a plain description.
pub proof fn lemma_prefill_restores_type(
    commit_type: ConventionalType,
    scopes: Seq<Seq<char>>,
    description: Seq<char>,
)
    requires
        forall|i: int| 0 <= i < scopes.len() ==> is_plain_scope(#[trigger] scopes[i]),
        ends_cleanly(scopes),
        is_plain_description(description),
    ensures
        conventional_types()[type_cursor(
            conventional_fields(conventional_message(commit_type, scopes, description)).commit_type,
        )] == commit_type,
{
    lemma_conventional_round_trip(commit_type, scopes, description);
    lemma_type_cursor_on_keyword(commit_type);
}

/// Accepting every pre-filled field of a message the builder wrote rebuilds
/// that very message: the type prompt starts on its type, the scope prompt on
/// its scopes, the description prompt on its description, and formatting them
/// again gives the message back.
pub proof fn lemma_unamended_prefill_rebuilds(
    commit_type: ConventionalType,
    scopes: Seq<Seq<char>>,
    description: Seq<char>,
)
    requires
        forall|i: int| 0 <= i < scopes.len() ==> is_plain_scope(#[trigger] scopes[i]),
        ends_cleanly(scopes),
        is_plain_description(description),
    ensures
        ({
            let fields = conventional_fields(conventional_message(commit_type, scopes, description));
            conventional_message(
                conventional_types()[type_cursor(fields.commit_type)],
                match fields.scopes {
                    Some(parsed) => parsed,
                    None => Seq::empty(),
                },
                fields.description->0,
            ) == conventional_message(commit_type, scopes, description)
        }),
{
    lemma_conventional_round_trip(commit_type, scopes, description);
    lemma_type_cursor_on_keyword(commit_type);
    if scopes.len() == 0 {
        assert(scopes =~= Seq::<Seq<char>>::empty());
    }
}

} // verus!
