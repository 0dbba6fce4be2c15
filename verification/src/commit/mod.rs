//! Commit messages: parsing a pre-filled message into its fields, and the
//! pieces from which the interactive builder assembles the final message.
pub mod conventional;
pub mod gitmoji;

use vstd::prelude::*;

use crate::convention::Convention;
use crate::text::{append_joined, join, owned_range, trim, trimmed, views};
use vstd::string::StringExecFns;

pub use conventional::parse_conventional;
pub use gitmoji::parse_gitmoji;

verus! {

/// The fields of a commit message, as plain sequences of characters.
pub struct MessageFields {
    pub commit_type: Option<Seq<char>>,
    pub scopes: Option<Seq<Seq<char>>>,
    pub description: Option<Seq<char>>,
}

/// `Some(s)` unless `s` is empty.
pub open spec fn nonempty(s: Seq<char>) -> Option<Seq<char>> {
    if s.len() == 0 {
        None
    } else {
        Some(s)
    }
}

/// The view of an optional string.
pub open spec fn opt_view(o: Option<String>) -> Option<Seq<char>> {
    match o {
        Some(s) => Some(s@),
        None => None,
    }
}

/// The view of an optional list of strings.
pub open spec fn opt_views(o: Option<Vec<String>>) -> Option<Seq<Seq<char>>> {
    match o {
        Some(v) => Some(views(v@)),
        None => None,
    }
}

/// `Some` of an owned copy of `s[lo..hi]`, or `None` when that range is empty.
pub(crate) fn nonempty_range(s: &str, lo: usize, hi: usize) -> (r: Option<String>)
    requires
        lo <= hi <= s@.len(),
    ensures
        opt_view(r) == nonempty(s@.subrange(lo as int, hi as int)),
{
    if lo < hi {
        Some(owned_range(s, lo, hi))
    } else {
        None
    }
}

/// A commit message split into the fields that the prompts pre-fill.
#[derive(Debug, Clone)]
pub struct CommitMessage {
    /// The commit type (stored as the string key, e.g. "feat" or ":sparkles:")
    pub commit_type: Option<String>,
    /// Scopes (only used by Conventional Commits)
    pub scopes: Option<Vec<String>>,
    /// The human-readable description
    pub description: Option<String>,
}

impl View for CommitMessage {
    type V = MessageFields;

    open spec fn view(&self) -> MessageFields {
        MessageFields {
            commit_type: opt_view(self.commit_type),
            scopes: opt_views(self.scopes),
            description: opt_view(self.description),
        }
    }
}

impl CommitMessage {
    /// A message with no field filled in.
    pub fn empty() -> (r: CommitMessage)
        ensures
            r@ == (MessageFields { commit_type: None, scopes: None, description: None }),
    {
        CommitMessage { commit_type: None, scopes: None, description: None }
    }
}

/// The fields that `message` pre-fills under `convention`.
pub open spec fn message_fields(convention: Convention, message: Seq<char>) -> MessageFields {
    match convention {
        Convention::Conventional => conventional::conventional_fields(message),
        Convention::Gitmoji => gitmoji::gitmoji_fields(message),
    }
}

/// Parses a raw `--message` string into a `CommitMessage` based on the active
/// convention.
///
/// Conventional format:  `type(scope1,scope2): description`
/// Gitmoji format:       `:code: description`  or  `<emoji> description`
pub fn parse_message(convention: &Convention, message: &str) -> (r: CommitMessage)
    ensures
        r@ == message_fields(*convention, message@),
{
    match convention {
        Convention::Conventional => parse_conventional(message),
        Convention::Gitmoji => parse_gitmoji(message),
    }
}

/// The fields the prompts start from: those of the `--message` pre-fill when
/// there is one, none otherwise.
pub fn prefill(convention: &Convention, raw_message: Option<&str>) -> (r: CommitMessage)
    ensures
        r@ == match raw_message {
            Some(m) => message_fields(*convention, m@),
            None => MessageFields { commit_type: None, scopes: None, description: None },
        },
{
    match raw_message {
        Some(m) => parse_message(convention, m),
        None => CommitMessage::empty(),
    }
}

/// The scopes the scope prompt starts from: those given on the command line
/// when there are any, otherwise those of the pre-filled message.
pub fn initial_scopes(parsed: Option<Vec<String>>, given: Vec<String>) -> (r: Vec<String>)
    ensures
        r@ == if given@.len() > 0 {
            given@
        } else {
            match parsed {
                Some(p) => p@,
                None => Seq::empty(),
            }
        },
{
    if given.len() > 0 {
        given
    } else {
        match parsed {
            Some(p) => p,
            None => Vec::new(),
        }
    }
}

/// The text of the scope prompt, given the scopes collected so far.
pub open spec fn scope_prompt_text(scopes: Seq<Seq<char>>) -> Seq<char> {
    if scopes.len() == 0 {
        "Scope (leave empty to finish):"@
    } else {
        "Add another scope (current: "@ + join(scopes, ", "@) + ") or press Enter to finish:"@
    }
}

/// Builds the text of the scope prompt.
pub fn scope_prompt(scopes: &Vec<String>) -> (r: String)
    ensures
        r@ == scope_prompt_text(views(scopes@)),
{
    if scopes.len() == 0 {
        String::from_str("Scope (leave empty to finish):")
    } else {
        let mut r = String::from_str("Add another scope (current: ");
        append_joined(&mut r, scopes, ", ");
        r.append(") or press Enter to finish:");
        r
    }
}

/// Takes one answer to the scope prompt. An answer that is blank once trimmed
/// ends the prompting (`true`) and leaves `scopes` as they are; any other answer
/// is added, trimmed, and the prompting goes on (`false`).
pub fn accept_scope(scopes: &mut Vec<String>, input: &str) -> (done: bool)
    ensures
        done == (trim(input@).len() == 0),
        done ==> final(scopes)@ == old(scopes)@,
        !done ==> final(scopes)@.len() == old(scopes)@.len() + 1 && final(scopes)@.drop_last()
            == old(scopes)@ && final(scopes)@.last()@ == trim(input@),
{
    let t = trimmed(input);
    if t.as_str().is_empty() {
        assert(t@.len() == 0);
        true
    } else {
        proof {
            if t@.len() == 0 {
                assert(t@ =~= Seq::<char>::empty());
            }
        }
        scopes.push(t);
        assert(scopes@.drop_last() =~= old(scopes)@);
        false
    }
}

/// Takes one answer to the description prompt: the trimmed answer, or `None`
/// when it is blank and the prompt has to be asked again.
pub fn accept_description(input: &str) -> (r: Option<String>)
    ensures
        opt_view(r) == nonempty(trim(input@)),
{
    let t = trimmed(input);
    if t.as_str().is_empty() {
        None
    } else {
        Some(t)
    }
}

} // verus!
