//! The decisions taken around the Jujutsu repository: which configuration
//! files are read and which overrides apply, which commit descriptions count
//! for detection, where the walk for an ancestor bookmark stops, and what is
//! done with the bookmarks it finds.
use vstd::prelude::*;

use crate::text::{nonempty_trimmed, views};

verus! {

/// The descriptions detection looks at: each trimmed, the blank ones left out,
/// in their original order.
pub fn keep_descriptions(descriptions: &Vec<String>) -> (r: Vec<String>)
    ensures
        views(r@) == nonempty_trimmed(views(descriptions@)),
{
    let mut out: Vec<String> = Vec::new();
    let mut i: usize = 0;
    assert(views(descriptions@).subrange(0, 0) =~= Seq::<Seq<char>>::empty());
    assert(views(out@) =~= Seq::<Seq<char>>::empty());
    while i < descriptions.len()
        invariant
            0 <= i <= descriptions.len(),
            views(out@) == nonempty_trimmed(views(descriptions@).subrange(0, i as int)),
        decreases descriptions.len() - i,
    {
        let ghost done = views(descriptions@).subrange(0, i as int);
        let ghost next = views(descriptions@).subrange(0, i + 1);
        assert(next.drop_last() =~= done);
        assert(next.last() == descriptions@[i as int]@);
        let t = crate::text::trimmed(descriptions[i].as_str());
        if !t.as_str().is_empty() {
            proof {
                crate::text::lemma_views_push(out@, t);
            }
            out.push(t);
        }
        i = i + 1;
    }
    assert(views(descriptions@).subrange(0, descriptions.len() as int) =~= views(descriptions@));
    out
}

/// What the walk up the first-parent chain does at one commit.
#[derive(Debug, Clone, PartialEq, Eq)]
pub enum AncestorStep {
    /// The commit holds these local bookmarks: the walk ends with them.
    Found(Vec<String>),
    /// The commit holds no bookmark and has no parent: the walk ends empty.
    Exhausted,
    /// The commit holds no bookmark: go on with its first parent.
    FirstParent,
}

/// The walk's decision at a commit holding the local bookmarks `names`.
pub fn ancestor_step(names: Vec<String>, has_parent: bool) -> (r: AncestorStep)
    ensures
        names@.len() > 0 ==> r == AncestorStep::Found(names),
        names@.len() == 0 && !has_parent ==> r == AncestorStep::Exhausted,
        names@.len() == 0 && has_parent ==> r == AncestorStep::FirstParent,
{
    if names.len() > 0 {
        AncestorStep::Found(names)
    } else if has_parent {
        AncestorStep::FirstParent
    } else {
        AncestorStep::Exhausted
    }
}

/// What is done with the bookmarks of the nearest ancestor once the commit
/// has landed.
#[derive(Debug, Clone, PartialEq, Eq)]
pub enum BookmarkPlan {
    /// Advance all of them: a single bookmark is taken without asking.
    AdvanceAll(Vec<String>),
    /// Let the user pick which of them to advance.
    Choose(Vec<String>),
    /// Advancing was asked for but no ancestor holds a bookmark: warn.
    Warn,
    /// Advancing was not asked for.
    Nothing,
}

/// The plan for the ancestor bookmarks `found` by the walk (`None` when the
/// walk found none or did not run): one bookmark is advanced at once, several
/// are offered for choice, and none gives a warning when advancing was
/// requested.
pub fn bookmark_plan(found: Option<Vec<String>>, advance_requested: bool) -> (r: BookmarkPlan)
    ensures
        r == match found {
            Some(ns) => if ns@.len() == 1 {
                BookmarkPlan::AdvanceAll(ns)
            } else {
                BookmarkPlan::Choose(ns)
            },
            None => if advance_requested {
                BookmarkPlan::Warn
            } else {
                BookmarkPlan::Nothing
            },
        },
{
    match found {
        Some(ns) => if ns.len() == 1 {
            BookmarkPlan::AdvanceAll(ns)
        } else {
            BookmarkPlan::Choose(ns)
        },
        None => if advance_requested {
            BookmarkPlan::Warn
        } else {
            BookmarkPlan::Nothing
        },
    }
}

} // verus!
