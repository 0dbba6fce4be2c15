//! The two supported conventions, and detection of the one a history follows.
pub mod conventional;
pub mod gitmoji;

use vstd::prelude::*;

use conventional::{follows_conventional, is_conventional};
use gitmoji::{follows_gitmoji, is_gitmoji};
use crate::commit::conventional::conventional_message;
use crate::commit::nonempty;
use crate::commit::gitmoji::gitmoji_message;
use crate::text::{
    append_decimal, decimal, first_index_of, first_line, head, is_pictographic, is_white_space, join, lacks,
    lemma_first_index_of, lemma_first_line_shape, lemma_head_ignores_later_lines,
    lemma_head_keeps_prefix, lemma_join_lacks,
    lemma_trim_end_char_shape, lemma_trim_end_shape, lemma_trim_nonempty, lemma_trim_start_shape,
    trim, trim_end_char, trim_start,
};
use crate::types::conventional::{lemma_keyword_shape, ConventionalType};
use crate::types::gitmoji::{
    gitmoji_table, is_table_name_char, lemma_table_codes_shaped, lemma_table_emoji_shapes,
    GitmojiType,
};
use conventional::{is_type_word, type_word};
use vstd::string::StringExecFns;

verus! {

/// How many recent commits convention detection looks at.
pub const DETECTION_WINDOW: usize = 10;

/// A commit message convention.
#[derive(Debug, Clone, Copy, PartialEq, Eq, Structural)]
pub enum Convention {
    Conventional,
    Gitmoji,
}

/// Why no convention could be detected.
#[derive(Debug, Clone, Copy, PartialEq, Eq, Structural)]
pub enum DetectError {
    /// No commit adheres to a known convention.
    NoConvention,
    /// Both conventions are followed by the same number of commits.
    Tie { conventional: usize, gitmoji: usize },
}

impl DetectError {
    /// The text the error is reported with.
    pub open spec fn text(self) -> Seq<char> {
        match self {
            DetectError::NoConvention => "No commit adheres to a known convention (conventional commits or gitmoji)."@,
            DetectError::Tie { conventional, gitmoji } => "Cannot detect convention: tie between conventional commits ("@
                + decimal(conventional as nat) + ") and gitmoji ("@ + decimal(gitmoji as nat)
                + ")."@,
        }
    }

    /// The text the error is reported with.
    pub fn message(&self) -> (r: String)
        ensures
            r@ == self.text(),
    {
        match self {
            DetectError::NoConvention => String::from_str(
                "No commit adheres to a known convention (conventional commits or gitmoji).",
            ),
            DetectError::Tie { conventional, gitmoji } => {
                let mut r = String::from_str(
                    "Cannot detect convention: tie between conventional commits (",
                );
                append_decimal(&mut r, *conventional);
                r.append(") and gitmoji (");
                append_decimal(&mut r, *gitmoji);
                r.append(").");
                r
            },
        }
    }
}

/// How many of `messages` follow Conventional Commits.
pub open spec fn count_conventional(messages: Seq<String>) -> nat
    decreases messages.len(),
{
    if messages.len() == 0 {
        0
    } else {
        count_conventional(messages.drop_last()) + if follows_conventional(messages.last()@) {
            1nat
        } else {
            0nat
        }
    }
}

/// How many of `messages` start with a gitmoji.
pub open spec fn count_gitmoji(messages: Seq<String>) -> nat
    decreases messages.len(),
{
    if messages.len() == 0 {
        0
    } else {
        count_gitmoji(messages.drop_last()) + if follows_gitmoji(messages.last()@) {
            1nat
        } else {
            0nat
        }
    }
}

/// A count never exceeds the number of messages.
pub proof fn lemma_counts_bounded(messages: Seq<String>)
    ensures
        count_conventional(messages) <= messages.len(),
        count_gitmoji(messages) <= messages.len(),
    decreases messages.len(),
{
    if messages.len() > 0 {
        lemma_counts_bounded(messages.drop_last());
    }
}

/// The convention the majority of `messages` follows: an error when none
/// follows either, or when both are followed equally often.
pub open spec fn detected(messages: Seq<String>) -> Result<Convention, DetectError> {
    let c = count_conventional(messages);
    let g = count_gitmoji(messages);
    if c == 0 && g == 0 {
        Err(DetectError::NoConvention)
    } else if c == g {
        Err(DetectError::Tie { conventional: c as usize, gitmoji: g as usize })
    } else if c > g {
        Ok(Convention::Conventional)
    } else {
        Ok(Convention::Gitmoji)
    }
}

/// Detect the dominant commit convention from a slice of commit messages.
///
/// - Returns `Err` if no commit matches any convention.
/// - Returns `Err` if both conventions are tied.
/// - Returns the convention with the highest match count otherwise.
pub fn detect_convention(messages: &[String]) -> (r: Result<Convention, DetectError>)
    ensures
        r == detected(messages@),
{
    let mut c: usize = 0;
    let mut g: usize = 0;
    let mut i: usize = 0;
    while i < messages.len()
        invariant
            0 <= i <= messages@.len(),
            c == count_conventional(messages@.subrange(0, i as int)),
            g == count_gitmoji(messages@.subrange(0, i as int)),
        decreases messages@.len() - i,
    {
        let ghost done = messages@.subrange(0, i as int);
        let ghost next = messages@.subrange(0, i + 1);
        assert(next.drop_last() =~= done);
        proof {
            lemma_counts_bounded(done);
        }
        if is_conventional(messages[i].as_str()) {
            c = c + 1;
        }
        if is_gitmoji(messages[i].as_str()) {
            g = g + 1;
        }
        i = i + 1;
    }
    assert(messages@.subrange(0, messages@.len() as int) =~= messages@);
    if c == 0 && g == 0 {
        Err(DetectError::NoConvention)
    } else if c == g {
        Err(DetectError::Tie { conventional: c, gitmoji: g })
    } else if c > g {
        Ok(Convention::Conventional)
    } else {
        Ok(Convention::Gitmoji)
    }
}

/// The convention to use: the one given explicitly, or else the one detected
/// from the recent commit `messages`.
pub fn resolve_convention(convention: Option<Convention>, messages: &[String]) -> (r: Result<
    Convention,
    DetectError,
>)
    ensures
        r == match convention {
            Some(c) => Ok(c),
            None => detected(messages@),
        },
{
    match convention {
        Some(c) => Ok(c),
        None => detect_convention(messages),
    }
}

/// The messages that follow Conventional Commits, in order.
pub open spec fn conventional_messages(messages: Seq<String>) -> Seq<String> {
    messages.filter(|m: String| follows_conventional(m@))
}

/// The messages that start with a gitmoji, in order.
pub open spec fn gitmoji_messages(messages: Seq<String>) -> Seq<String> {
    messages.filter(|m: String| follows_gitmoji(m@))
}

proof fn lemma_counts_are_filters(messages: Seq<String>)
    ensures
        count_conventional(messages) == conventional_messages(messages).len(),
        count_gitmoji(messages) == gitmoji_messages(messages).len(),
    decreases messages.len(),
{
    reveal(Seq::filter);
    if messages.len() > 0 {
        lemma_counts_are_filters(messages.drop_last());
    }
}

/// Detection picks the convention that more of the messages follow, whatever
/// the mix: more Conventional Commits messages than Gitmoji ones gives
/// Conventional Commits, fewer gives Gitmoji, as many (and some) is a tie
/// reporting both numbers, and none of either is an error.
pub proof fn lemma_detection_follows_majority(messages: Seq<String>)
    ensures
        conventional_messages(messages).len() > gitmoji_messages(messages).len() ==> detected(
            messages,
        ) == Ok::<Convention, DetectError>(Convention::Conventional),
        conventional_messages(messages).len() < gitmoji_messages(messages).len() ==> detected(
            messages,
        ) == Ok::<Convention, DetectError>(Convention::Gitmoji),
        conventional_messages(messages).len() == gitmoji_messages(messages).len()
            && gitmoji_messages(messages).len() > 0 ==> detected(messages) == Err::<
            Convention,
            DetectError,
        >(
            DetectError::Tie {
                conventional: conventional_messages(messages).len() as usize,
                gitmoji: gitmoji_messages(messages).len() as usize,
            },
        ),
        conventional_messages(messages).len() == 0 && gitmoji_messages(messages).len() == 0
            ==> detected(messages) == Err::<Convention, DetectError>(DetectError::NoConvention),
{
    lemma_counts_are_filters(messages);
}

/// Only the first line of a message decides its convention.
pub proof fn lemma_detection_reads_first_line(first: Seq<char>, rest: Seq<char>)
    requires
        lacks(first, '\n'),
    ensures
        follows_conventional(first + seq!['\n'] + rest) == follows_conventional(first),
        follows_gitmoji(first + seq!['\n'] + rest) == follows_gitmoji(first),
{
    lemma_head_ignores_later_lines(first, rest);
}

/// The text before `: ` of a Conventional Commits message: the keyword, the
/// bracketed scopes joined by `,` when there are any, and a breaking-change
/// marker `!` when `breaking`.
pub open spec fn message_prefix(
    commit_type: ConventionalType,
    scopes: Seq<Seq<char>>,
    breaking: bool,
) -> Seq<char> {
    let front = if scopes.len() == 0 {
        commit_type.keyword()
    } else {
        commit_type.keyword() + seq!['('] + join(scopes, seq![',']) + seq![')']
    };
    if breaking {
        front + seq!['!']
    } else {
        front
    }
}

/// A message `type(scopes)!: description`, with or without scopes and with or
/// without the breaking-change marker, is recognised as Conventional Commits
/// and not as Gitmoji, whatever its type, provided no scope holds a `:` or a
/// line break and the description's first line is not blank.
pub proof fn lemma_prefixed_message_detected(
    commit_type: ConventionalType,
    scopes: Seq<Seq<char>>,
    breaking: bool,
    description: Seq<char>,
)
    requires
        forall|i: int| 0 <= i < scopes.len() ==> lacks(#[trigger] scopes[i], ':') && lacks(scopes[i], '\n'),
        head(description).len() > 0,
    ensures
        follows_conventional(message_prefix(commit_type, scopes, breaking) + seq![':', ' '] + description),
        !follows_gitmoji(message_prefix(commit_type, scopes, breaking) + seq![':', ' '] + description),
{
    let kw = commit_type.keyword();
    let d = description;
    let front = message_prefix(commit_type, scopes, breaking);
    let m = front + seq![':', ' '] + d;
    lemma_keyword_shape(commit_type);
    let j = join(scopes, seq![',']);
    assert forall|i: int| 0 <= i < scopes.len() implies lacks(#[trigger] scopes[i], ':') by {}
    assert forall|i: int| 0 <= i < scopes.len() implies lacks(#[trigger] scopes[i], '\n') by {}
    lemma_join_lacks(scopes, ',', ':');
    lemma_join_lacks(scopes, ',', '\n');
    let base = if scopes.len() == 0 {
        kw
    } else {
        kw + seq!['('] + j + seq![')']
    };
    assert(front == if breaking { base + seq!['!'] } else { base });
    let p = front.len() as int;
    assert forall|k: int| 0 <= k < p implies #[trigger] front[k] != ':' && front[k] != '\n' by {
        if k < base.len() {
            assert(front[k] == base[k]);
            if k < kw.len() {
                assert(base[k] == kw[k]);
            } else if scopes.len() > 0 && kw.len() < k < kw.len() + 1 + j.len() {
                assert(base[k] == j[k - kw.len() - 1]);
            }
        }
    }
    // A character of the description's first line that is not white space.
    let f = first_line(d);
    lemma_first_line_shape(d);
    lemma_trim_nonempty(f);
    let r = choose|r: int| 0 <= r < f.len() && !is_white_space(#[trigger] f[r]);
    assert(f[r] == d[r]);
    let q = p + 2 + r + 1;
    assert forall|k: int| 0 <= k < q implies #[trigger] m[k] != '\n' by {
        if k < p {
            assert(m[k] == front[k]);
        } else if k >= p + 2 {
            assert(m[k] == d[k - p - 2]);
            assert(f[k - p - 2] == d[k - p - 2]);
        }
    }
    assert(front[0] == base[0]);
    assert(base[0] == kw[0]);
    assert(m[0] == kw[0]);
    assert(m[q - 1] == d[r]);
    lemma_head_keeps_prefix(m, q);
    let line = head(m);
    let sub = m.subrange(0, line.len() as int);
    assert(line == sub);
    assert(sub[0] == m[0]);
    assert(sub[p] == m[p]);
    assert(sub[p + 1] == m[p + 1]);
    assert(line[0] == kw[0]);
    // The first `:` of the line ends the prefix, and a space follows it.
    lemma_first_index_of(line, ':');
    assert(line[p] == ':');
    assert(line[p + 1] == ' ');
    assert forall|k: int| 0 <= k < p implies #[trigger] line[k] != ':' by {
        assert(sub[k] == m[k]);
        assert(m[k] == front[k]);
    }
    assert(first_index_of(line, ':') == Some(p));
    let prefix = line.subrange(0, p);
    assert(prefix =~= front);
    // The type word is the keyword.
    lemma_first_index_of(front, '(');
    if scopes.len() == 0 {
        assert forall|k: int| 0 <= k < p implies #[trigger] front[k] != '(' by {
            if k < kw.len() {
                assert(front[k] == kw[k]);
            }
        }
        assert(first_index_of(front, '(') is None);
        assert(kw[kw.len() - 1] != '!');
        assert(trim_end_char(kw, '!') == kw);
        if breaking {
            assert(front.drop_last() =~= kw);
            assert(front.last() == '!');
            assert(trim_end_char(front, '!') == trim_end_char(kw, '!'));
        }
        assert(type_word(prefix) == kw);
    } else {
        assert(front[kw.len() as int] == '(');
        assert forall|k: int| 0 <= k < kw.len() implies #[trigger] front[k] != '(' by {
            assert(front[k] == kw[k]);
        }
        assert(first_index_of(front, '(') == Some(kw.len() as int));
        assert(front.subrange(0, kw.len() as int) =~= kw);
        assert(type_word(prefix) == kw);
    }
    assert(is_type_word(kw));
}

/// Every message the Conventional Commits builder writes is recognised as
/// Conventional Commits and not as Gitmoji, whatever its type, provided no
/// scope holds a `:` or a line break and the description's first line is not
/// blank.
pub proof fn lemma_conventional_message_detected(
    commit_type: ConventionalType,
    scopes: Seq<Seq<char>>,
    description: Seq<char>,
)
    requires
        forall|i: int| 0 <= i < scopes.len() ==> lacks(#[trigger] scopes[i], ':') && lacks(scopes[i], '\n'),
        head(description).len() > 0,
    ensures
        follows_conventional(conventional_message(commit_type, scopes, description)),
        !follows_gitmoji(conventional_message(commit_type, scopes, description)),
{
    lemma_prefixed_message_detected(commit_type, scopes, false, description);
    assert(conventional_message(commit_type, scopes, description) =~= message_prefix(
        commit_type,
        scopes,
        false,
    ) + seq![':', ' '] + description);
}

/// A message that starts with an emoji code point, not white space,
/// followed by anything, is recognised as Gitmoji and not as Conventional
/// Commits.
proof fn lemma_emoji_start_detected(gitmoji: GitmojiType, description: Seq<char>)
    requires
        gitmoji.emoji@.len() > 0,
        is_pictographic(gitmoji.emoji@[0]),
        !is_white_space(gitmoji.emoji@[0]),
    ensures
        follows_gitmoji(gitmoji_message(gitmoji, description)),
        !follows_conventional(gitmoji_message(gitmoji, description)),
{
    let e = gitmoji.emoji@;
    let m = gitmoji_message(gitmoji, description);
    assert(m[0] == e[0]);
    lemma_head_keeps_prefix(m, 1);
    let line = head(m);
    let sub = m.subrange(0, line.len() as int);
    assert(line == sub);
    assert(sub[0] == m[0]);
    assert(line[0] == e[0]);
    lemma_first_index_of(line, ':');
    match first_index_of(line, ':') {
        None => {},
        Some(i) => {
            let prefix = line.subrange(0, i);
            assert(i > 0);
            assert(prefix[0] == e[0]);
            lemma_first_index_of(prefix, '(');
            lemma_trim_end_char_shape(prefix, '!');
            let w = type_word(prefix);
            assert(w.len() > 0 ==> w[0] == e[0]);
            assert(w.len() > 0 ==> !is_type_word(w));
        },
    }
}

/// Every message the Gitmoji builder writes for an entry of the table is
/// recognised as Gitmoji and not as Conventional Commits, whatever the
/// description.
pub proof fn lemma_gitmoji_message_detected(i: int, description: Seq<char>)
    requires
        0 <= i < gitmoji_table().len(),
    ensures
        follows_gitmoji(gitmoji_message(gitmoji_table()[i], description)),
        !follows_conventional(gitmoji_message(gitmoji_table()[i], description)),
{
    lemma_table_emoji_shapes();
    lemma_emoji_start_detected(gitmoji_table()[i], description);
}

/// Every entry of the table is recognised as Gitmoji in both its forms: a
/// message that starts with the entry's shortcode and a space, or with its
/// emoji and a space, starts with a gitmoji, whatever follows.
pub proof fn lemma_table_entry_detected(i: int, description: Seq<char>)
    requires
        0 <= i < gitmoji_table().len(),
    ensures
        follows_gitmoji(gitmoji_table()[i].code@ + seq![' '] + description),
        follows_gitmoji(gitmoji_message(gitmoji_table()[i], description)),
{
    lemma_gitmoji_message_detected(i, description);
    lemma_table_codes_shaped();
    let c = gitmoji_table()[i].code@;
    let n = c.len() as int;
    let m = c + seq![' '] + description;
    assert forall|j: int| 0 <= j < n implies #[trigger] m[j] != '\n' by {
        assert(m[j] == c[j]);
        if 0 < j < n - 1 {
            assert(is_table_name_char(c[j]));
        }
    }
    assert(m[0] == ':');
    assert(m[n - 1] == ':');
    lemma_head_keeps_prefix(m, n);
    let line = head(m);
    assert(line == m.subrange(0, line.len() as int));
    assert(line[0] == ':');
    let rest = line.drop_first();
    lemma_first_index_of(rest, ':');
    assert forall|j: int| 0 <= j < n - 2 implies rest[j] != ':' by {
        assert(rest[j] == c[j + 1]);
        assert(is_table_name_char(c[j + 1]));
    }
    assert(rest[n - 2] == ':');
    assert(first_index_of(rest, ':') == Some(n - 2));
    let name = line.subrange(1, n - 1);
    assert forall|j: int| 0 <= j < name.len() implies gitmoji::is_code_char(#[trigger] name[j]) by {
        assert(name[j] == c[j + 1]);
        assert(is_table_name_char(c[j + 1]));
    }
}

/// What the prompts accept builds a message recognised as the convention it
/// was built for: with the description the description prompt accepts from
/// `input` (its trim, when not empty), the Conventional Commits message for
/// any type and for scopes without `:` or line breaks is Conventional Commits
/// and not Gitmoji, and the Gitmoji message for any entry of the table is
/// Gitmoji and not Conventional Commits.
pub proof fn lemma_accepted_answers_detected(
    commit_type: ConventionalType,
    scopes: Seq<Seq<char>>,
    i: int,
    input: Seq<char>,
)
    requires
        forall|k: int| 0 <= k < scopes.len() ==> lacks(#[trigger] scopes[k], ':') && lacks(scopes[k], '\n'),
        0 <= i < gitmoji_table().len(),
        nonempty(trim(input)) is Some,
    ensures
        follows_conventional(conventional_message(commit_type, scopes, trim(input))),
        !follows_gitmoji(conventional_message(commit_type, scopes, trim(input))),
        follows_gitmoji(gitmoji_message(gitmoji_table()[i], trim(input))),
        !follows_conventional(gitmoji_message(gitmoji_table()[i], trim(input))),
{
    let d = trim(input);
    lemma_trim_start_shape(input);
    lemma_trim_end_shape(trim_start(input));
    assert(d[0] == trim_start(input)[0]);
    lemma_head_keeps_prefix(d, 1);
    lemma_conventional_message_detected(commit_type, scopes, d);
    lemma_gitmoji_message_detected(i, d);
}

/// When every message follows Conventional Commits and none starts with a
/// gitmoji, the counts are all and nothing.
proof fn lemma_counts_all_conventional(messages: Seq<String>)
    requires
        forall|i: int|
            0 <= i < messages.len() ==> follows_conventional(#[trigger] messages[i]@)
                && !follows_gitmoji(messages[i]@),
    ensures
        count_conventional(messages) == messages.len(),
        count_gitmoji(messages) == 0,
    decreases messages.len(),
{
    if messages.len() > 0 {
        let init = messages.drop_last();
        assert(forall|i: int| 0 <= i < init.len() ==> #[trigger] init[i] == messages[i]);
        lemma_counts_all_conventional(init);
        assert(messages.last() == messages[messages.len() - 1]);
    }
}

/// When every message starts with a gitmoji and none follows Conventional
/// Commits, the counts are nothing and all.
proof fn lemma_counts_all_gitmoji(messages: Seq<String>)
    requires
        forall|i: int|
            0 <= i < messages.len() ==> follows_gitmoji(#[trigger] messages[i]@)
                && !follows_conventional(messages[i]@),
    ensures
        count_conventional(messages) == 0,
        count_gitmoji(messages) == messages.len(),
    decreases messages.len(),
{
    if messages.len() > 0 {
        let init = messages.drop_last();
        assert(forall|i: int| 0 <= i < init.len() ==> #[trigger] init[i] == messages[i]);
        lemma_counts_all_gitmoji(init);
        assert(messages.last() == messages[messages.len() - 1]);
    }
}

/// `message` is what the Conventional Commits builder writes for the type,
/// scopes and description, with scopes free of `:` and line breaks and a
/// description whose first line is not blank.
pub open spec fn built_conventional(
    message: Seq<char>,
    commit_type: ConventionalType,
    scopes: Seq<Seq<char>>,
    description: Seq<char>,
) -> bool {
    &&& forall|i: int|
        0 <= i < scopes.len() ==> lacks(#[trigger] scopes[i], ':') && lacks(scopes[i], '\n')
    &&& head(description).len() > 0
    &&& message == conventional_message(commit_type, scopes, description)
}

/// `message` is what the Gitmoji builder writes for an entry of the table and
/// a description.
pub open spec fn built_gitmoji(message: Seq<char>, gitmoji: GitmojiType, description: Seq<char>) -> bool {
    &&& gitmoji_table().contains(gitmoji)
    &&& message == gitmoji_message(gitmoji, description)
}

/// A history written entirely with the Conventional Commits builder is
/// detected as Conventional Commits.
pub proof fn lemma_conventional_history_detected(messages: Seq<String>)
    requires
        messages.len() > 0,
        forall|i: int|
            #![trigger messages[i]]
            0 <= i < messages.len() ==> exists|
                t: ConventionalType,
                s: Seq<Seq<char>>,
                d: Seq<char>,
            | #[trigger] built_conventional(messages[i]@, t, s, d),
    ensures
        detected(messages) == Ok::<Convention, DetectError>(Convention::Conventional),
{
    assert forall|i: int| 0 <= i < messages.len() implies follows_conventional(
        #[trigger] messages[i]@,
    ) && !follows_gitmoji(messages[i]@) by {
        let (t, sc, d) = choose|t: ConventionalType, s: Seq<Seq<char>>, d: Seq<char>|
            built_conventional(messages[i]@, t, s, d);
        lemma_conventional_message_detected(t, sc, d);
    }
    lemma_counts_all_conventional(messages);
}

/// A history written entirely with the Gitmoji builder is detected as
/// Gitmoji.
pub proof fn lemma_gitmoji_history_detected(messages: Seq<String>)
    requires
        messages.len() > 0,
        forall|i: int|
            #![trigger messages[i]]
            0 <= i < messages.len() ==> exists|g: GitmojiType, d: Seq<char>|
                #[trigger] built_gitmoji(messages[i]@, g, d),
    ensures
        detected(messages) == Ok::<Convention, DetectError>(Convention::Gitmoji),
{
    lemma_table_emoji_shapes();
    assert forall|i: int| 0 <= i < messages.len() implies follows_gitmoji(
        #[trigger] messages[i]@,
    ) && !follows_conventional(messages[i]@) by {
        let (g, d) = choose|g: GitmojiType, d: Seq<char>| built_gitmoji(messages[i]@, g, d);
        let k = choose|k: int| 0 <= k < gitmoji_table().len() && gitmoji_table()[k] == g;
        assert(gitmoji_table()[k] == g);
        lemma_emoji_start_detected(g, d);
    }
    lemma_counts_all_gitmoji(messages);
}

} // verus!
