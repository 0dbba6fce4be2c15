//! The commit types of the Conventional Commits specification.
use vstd::prelude::*;

use crate::text::{is_ascii_lower, str_eq};

verus! {

/// A Conventional Commits type, such as `feat` or `fix`.
#[derive(Debug, Clone, Copy, PartialEq, Eq, Structural)]
pub enum ConventionalType {
    Feat,
    Fix,
    Chore,
    Docs,
    Style,
    Refactor,
    Perf,
    Test,
    Build,
    Ci,
    Revert,
}

/// Every type, in the order in which the type prompt lists them.
pub open spec fn conventional_types() -> Seq<ConventionalType> {
    seq![
        ConventionalType::Feat,
        ConventionalType::Fix,
        ConventionalType::Chore,
        ConventionalType::Docs,
        ConventionalType::Style,
        ConventionalType::Refactor,
        ConventionalType::Perf,
        ConventionalType::Test,
        ConventionalType::Build,
        ConventionalType::Ci,
        ConventionalType::Revert,
    ]
}

impl ConventionalType {
    /// The keyword that names the type in a commit message.
    pub open spec fn keyword(self) -> Seq<char> {
        match self {
            ConventionalType::Feat => "feat"@,
            ConventionalType::Fix => "fix"@,
            ConventionalType::Chore => "chore"@,
            ConventionalType::Docs => "docs"@,
            ConventionalType::Style => "style"@,
            ConventionalType::Refactor => "refactor"@,
            ConventionalType::Perf => "perf"@,
            ConventionalType::Test => "test"@,
            ConventionalType::Build => "build"@,
            ConventionalType::Ci => "ci"@,
            ConventionalType::Revert => "revert"@,
        }
    }

    /// The type whose keyword is `s`, if there is one.
    pub open spec fn from_keyword(s: Seq<char>) -> Option<ConventionalType> {
        if s == "build"@ {
            Some(ConventionalType::Build)
        } else if s == "chore"@ {
            Some(ConventionalType::Chore)
        } else if s == "ci"@ {
            Some(ConventionalType::Ci)
        } else if s == "docs"@ {
            Some(ConventionalType::Docs)
        } else if s == "feat"@ {
            Some(ConventionalType::Feat)
        } else if s == "fix"@ {
            Some(ConventionalType::Fix)
        } else if s == "perf"@ {
            Some(ConventionalType::Perf)
        } else if s == "refactor"@ {
            Some(ConventionalType::Refactor)
        } else if s == "revert"@ {
            Some(ConventionalType::Revert)
        } else if s == "style"@ {
            Some(ConventionalType::Style)
        } else if s == "test"@ {
            Some(ConventionalType::Test)
        } else {
            None
        }
    }

    /// Every type, in prompt order.
    pub fn all() -> (r: Vec<ConventionalType>)
        ensures
            r@ == conventional_types(),
    {
        let r = vec![
            ConventionalType::Feat,
            ConventionalType::Fix,
            ConventionalType::Chore,
            ConventionalType::Docs,
            ConventionalType::Style,
            ConventionalType::Refactor,
            ConventionalType::Perf,
            ConventionalType::Test,
            ConventionalType::Build,
            ConventionalType::Ci,
            ConventionalType::Revert,
        ];
        assert(r@ =~= conventional_types());
        r
    }

    /// The keyword of the type.
    pub fn as_str(&self) -> (r: &'static str)
        ensures
            r@ == self.keyword(),
    {
        match self {
            ConventionalType::Feat => "feat",
            ConventionalType::Fix => "fix",
            ConventionalType::Chore => "chore",
            ConventionalType::Docs => "docs",
            ConventionalType::Style => "style",
            ConventionalType::Refactor => "refactor",
            ConventionalType::Perf => "perf",
            ConventionalType::Test => "test",
            ConventionalType::Build => "build",
            ConventionalType::Ci => "ci",
            ConventionalType::Revert => "revert",
        }
    }

    /// The type named by the keyword `s`; `None` for any other text.
    pub fn from_str(s: &str) -> (r: Option<ConventionalType>)
        ensures
            r == ConventionalType::from_keyword(s@),
    {
        if str_eq(s, "build") {
            Some(ConventionalType::Build)
        } else if str_eq(s, "chore") {
            Some(ConventionalType::Chore)
        } else if str_eq(s, "ci") {
            Some(ConventionalType::Ci)
        } else if str_eq(s, "docs") {
            Some(ConventionalType::Docs)
        } else if str_eq(s, "feat") {
            Some(ConventionalType::Feat)
        } else if str_eq(s, "fix") {
            Some(ConventionalType::Fix)
        } else if str_eq(s, "perf") {
            Some(ConventionalType::Perf)
        } else if str_eq(s, "refactor") {
            Some(ConventionalType::Refactor)
        } else if str_eq(s, "revert") {
            Some(ConventionalType::Revert)
        } else if str_eq(s, "style") {
            Some(ConventionalType::Style)
        } else if str_eq(s, "test") {
            Some(ConventionalType::Test)
        } else {
            None
        }
    }
}

/// Reading a type's own keyword gives the type back: `from_str(t.as_str())`
/// is `Some(t)` for every type `t`.
pub proof fn lemma_keyword_round_trip(t: ConventionalType)
    ensures
        ConventionalType::from_keyword(t.keyword()) == Some(t),
{
    reveal_strlit("build");
    assert("build"@.len() == 5 && "build"@[0] == 'b');
    reveal_strlit("chore");
    assert("chore"@.len() == 5 && "chore"@[0] == 'c');
    reveal_strlit("ci");
    assert("ci"@.len() == 2 && "ci"@[0] == 'c');
    reveal_strlit("docs");
    assert("docs"@.len() == 4 && "docs"@[0] == 'd');
    reveal_strlit("feat");
    assert("feat"@.len() == 4 && "feat"@[0] == 'f');
    reveal_strlit("fix");
    assert("fix"@.len() == 3 && "fix"@[0] == 'f');
    reveal_strlit("perf");
    assert("perf"@.len() == 4 && "perf"@[0] == 'p');
    reveal_strlit("refactor");
    assert("refactor"@.len() == 8 && "refactor"@[0] == 'r');
    reveal_strlit("revert");
    assert("revert"@.len() == 6 && "revert"@[0] == 'r');
    reveal_strlit("style");
    assert("style"@.len() == 5 && "style"@[0] == 's');
    reveal_strlit("test");
    assert("test"@.len() == 4 && "test"@[0] == 't');
}

/// The type list names every type exactly once.
pub proof fn lemma_all_types_listed_once(t: ConventionalType)
    ensures
        conventional_types().contains(t),
        forall|i: int, j: int|
            0 <= i < j < conventional_types().len() ==> conventional_types()[i]
                != conventional_types()[j],
{
    let all = conventional_types();
    let k: int = match t {
        ConventionalType::Feat => 0,
        ConventionalType::Fix => 1,
        ConventionalType::Chore => 2,
        ConventionalType::Docs => 3,
        ConventionalType::Style => 4,
        ConventionalType::Refactor => 5,
        ConventionalType::Perf => 6,
        ConventionalType::Test => 7,
        ConventionalType::Build => 8,
        ConventionalType::Ci => 9,
        ConventionalType::Revert => 10,
    };
    assert(all[k] == t);
}

/// A keyword is a non-empty word of ASCII lowercase letters.
pub proof fn lemma_keyword_shape(t: ConventionalType)
    ensures
        t.keyword().len() > 0,
        forall|i: int| 0 <= i < t.keyword().len() ==> is_ascii_lower(#[trigger] t.keyword()[i]),
{
    match t {
        ConventionalType::Build => {
            reveal_strlit("build");
            assert("build"@ =~= seq!['b', 'u', 'i', 'l', 'd']);
        },
        ConventionalType::Chore => {
            reveal_strlit("chore");
            assert("chore"@ =~= seq!['c', 'h', 'o', 'r', 'e']);
        },
        ConventionalType::Ci => {
            reveal_strlit("ci");
            assert("ci"@ =~= seq!['c', 'i']);
        },
        ConventionalType::Docs => {
            reveal_strlit("docs");
            assert("docs"@ =~= seq!['d', 'o', 'c', 's']);
        },
        ConventionalType::Feat => {
            reveal_strlit("feat");
            assert("feat"@ =~= seq!['f', 'e', 'a', 't']);
        },
        ConventionalType::Fix => {
            reveal_strlit("fix");
            assert("fix"@ =~= seq!['f', 'i', 'x']);
        },
        ConventionalType::Perf => {
            reveal_strlit("perf");
            assert("perf"@ =~= seq!['p', 'e', 'r', 'f']);
        },
        ConventionalType::Refactor => {
            reveal_strlit("refactor");
            assert("refactor"@ =~= seq!['r', 'e', 'f', 'a', 'c', 't', 'o', 'r']);
        },
        ConventionalType::Revert => {
            reveal_strlit("revert");
            assert("revert"@ =~= seq!['r', 'e', 'v', 'e', 'r', 't']);
        },
        ConventionalType::Style => {
            reveal_strlit("style");
            assert("style"@ =~= seq!['s', 't', 'y', 'l', 'e']);
        },
        ConventionalType::Test => {
            reveal_strlit("test");
            assert("test"@ =~= seq!['t', 'e', 's', 't']);
        },
    }
}

/// The type prompt lists the keywords in this order: feat, fix, chore, docs,
/// style, refactor, perf, test, build, ci, revert.
pub proof fn lemma_prompt_keywords()
    ensures
        conventional_types().map_values(|t: ConventionalType| t.keyword()) == seq![
            "feat"@,
            "fix"@,
            "chore"@,
            "docs"@,
            "style"@,
            "refactor"@,
            "perf"@,
            "test"@,
            "build"@,
            "ci"@,
            "revert"@,
        ],
{
    assert(conventional_types().map_values(|t: ConventionalType| t.keyword()) =~= seq![
        "feat"@,
        "fix"@,
        "chore"@,
        "docs"@,
        "style"@,
        "refactor"@,
        "perf"@,
        "test"@,
        "build"@,
        "ci"@,
        "revert"@,
    ]);
}

} // verus!
