//! The fatal error taxonomy. Absence of a tracking branch or of a named
//! remote branch is not an error: those queries return `None` instead.

use vstd::prelude::*;

verus! {

/// A fatal condition: every query either succeeds, reports a normal absence,
/// or fails with one of these.
#[derive(Clone, Copy, Debug, PartialEq, Eq, Structural)]
pub enum GitError {
    /// The directory is not inside a recognized repository.
    NotARepository,
    /// HEAD has no usable short name (detached HEAD or unborn branch).
    DetachedOrUnresolvable,
    /// HEAD cannot be resolved to a commit.
    UnresolvableHead,
    /// The underlying status computation failed.
    StatusQueryFailed,
}

impl GitError {
    /// The diagnostic message reported when the process aborts on this error.
    pub fn message(&self) -> (r: &'static str)
        ensures
            *self == GitError::NotARepository ==> r@ == "failed to open: not a repository"@,
            *self == GitError::DetachedOrUnresolvable ==> r@ == "failed to get name of head"@,
            *self == GitError::UnresolvableHead ==> r@ == "failed to get reference to head"@,
            *self == GitError::StatusQueryFailed ==> r@ == "failed to get statuses"@,
    {
        match self {
            GitError::NotARepository => "failed to open: not a repository",
            GitError::DetachedOrUnresolvable => "failed to get name of head",
            GitError::UnresolvableHead => "failed to get reference to head",
            GitError::StatusQueryFailed => "failed to get statuses",
        }
    }
}

} // verus!
