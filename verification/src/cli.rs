//! The command line, and the rules that tie its flags to the convention.
use vstd::prelude::*;

use crate::convention::Convention;
use crate::types::conventional::ConventionalType;
use vstd::string::StringExecFns;

verus! {

/// The options `jjc` takes.
#[derive(Debug, Clone)]
pub struct Cli {
    /// Commit message convention to use
    pub convention: Option<Convention>,
    /// Commit message (optional pre-fill; format depends on convention)
    pub message: Option<String>,
    /// Conventional commit type, only from the conventional convention
    pub commit_type: Option<ConventionalType>,
    /// Conventional commit scopes, only from the conventional convention (repeatable)
    pub scopes: Vec<String>,
    /// Advance the bookmark from the closest ancestor to point to the newly created commit
    pub advance_bookmark: bool,
    /// Bookmarks to create or move onto the new commit (repeatable)
    pub bookmarks: Vec<String>,
}

/// A flag that the resolved convention does not allow.
#[derive(Debug, Clone, Copy, PartialEq, Eq, Structural)]
pub enum FlagError {
    /// `--type` with a convention other than Conventional Commits.
    TypeNeedsConventional,
    /// `--scopes` with a convention other than Conventional Commits.
    ScopesNeedConventional,
}

impl FlagError {
    /// The text the error is reported with.
    pub open spec fn text(self) -> Seq<char> {
        match self {
            FlagError::TypeNeedsConventional => "--type is only valid when using the conventional commit convention"@,
            FlagError::ScopesNeedConventional => "--scopes is only valid when using the conventional commit convention"@,
        }
    }

    /// The text the error is reported with.
    pub fn message(&self) -> (r: String)
        ensures
            r@ == self.text(),
    {
        match self {
            FlagError::TypeNeedsConventional => String::from_str(
                "--type is only valid when using the conventional commit convention",
            ),
            FlagError::ScopesNeedConventional => String::from_str(
                "--scopes is only valid when using the conventional commit convention",
            ),
        }
    }
}

/// `--type` and `--scopes` are only meaningful for Conventional Commits.
pub fn check_flags(cli: &Cli, convention: Convention) -> (r: Result<(), FlagError>)
    ensures
        r == if cli.commit_type is Some && convention != Convention::Conventional {
            Err(FlagError::TypeNeedsConventional)
        } else if cli.scopes@.len() > 0 && convention != Convention::Conventional {
            Err(FlagError::ScopesNeedConventional)
        } else {
            Ok(())
        },
{
    if cli.commit_type.is_some() && convention != Convention::Conventional {
        Err(FlagError::TypeNeedsConventional)
    } else if cli.scopes.len() > 0 && convention != Convention::Conventional {
        Err(FlagError::ScopesNeedConventional)
    } else {
        Ok(())
    }
}

} // verus!
