//! The trusted boundary around the `git2` library. Every item here either
//! declares a `git2` type so that it can stand in signatures, or wraps one
//! `git2` call. All repository reads happen behind these wrappers; the
//! results depend on the on-disk state, so the wrappers promise nothing of
//! the values they return, and the verified callers handle every outcome.

use vstd::prelude::*;

use crate::state::RepoState;

verus! {

#[verifier::external_type_specification]
#[verifier::external_body]
pub struct ExRepository(git2::Repository);

#[verifier::external_type_specification]
#[verifier::external_body]
pub struct ExReference<'a>(git2::Reference<'a>);

#[verifier::external_type_specification]
#[verifier::external_body]
pub struct ExBranch<'a>(git2::Branch<'a>);

#[verifier::external_type_specification]
#[verifier::external_body]
pub struct ExOid(git2::Oid);

#[verifier::external_type_specification]
#[verifier::external_body]
pub struct ExStatuses<'a>(git2::Statuses<'a>);

#[verifier::external_type_specification]
#[verifier::external_body]
pub struct ExStatusEntry<'a>(git2::StatusEntry<'a>);

#[verifier::external_type_specification]
#[verifier::external_body]
pub struct ExGitError(git2::Error);

/// Relies on git2::Repository::open: opens the repository at `path`, failing
/// when the directory is not inside one.
#[verifier::external_body]
pub(crate) fn repo_open(path: &str) -> Result<git2::Repository, git2::Error> {
    git2::Repository::open(path)
}

/// Relies on git2::Repository::head: the reference HEAD points to, failing
/// for example on an unborn branch.
#[verifier::external_body]
pub(crate) fn repo_head<'r>(repo: &'r git2::Repository) -> Result<git2::Reference<'r>, git2::Error> {
    repo.head()
}

/// Relies on git2::Reference::shorthand: the human-readable short name of a
/// reference, failing when the name is not valid UTF-8.
#[verifier::external_body]
pub(crate) fn ref_shorthand(r: &git2::Reference) -> Result<String, git2::Error> {
    match r.shorthand() {
        Ok(s) => Ok(s.to_owned()),
        Err(e) => Err(e),
    }
}

/// Relies on git2::Reference::target: the commit id of a direct reference,
/// `None` for a symbolic one.
#[verifier::external_body]
pub(crate) fn ref_target(r: &git2::Reference) -> Option<git2::Oid> {
    r.target()
}

/// Relies on git2::Branch::wrap: views a branch reference as a branch.
#[verifier::external_body]
pub(crate) fn branch_wrap<'r>(r: git2::Reference<'r>) -> git2::Branch<'r> {
    git2::Branch::wrap(r)
}

/// Relies on git2::Branch::upstream: the configured tracking branch of a
/// local branch, failing when none is configured.
#[verifier::external_body]
pub(crate) fn branch_upstream<'r>(b: &git2::Branch<'r>) -> Result<git2::Branch<'r>, git2::Error> {
    b.upstream()
}

/// Relies on git2::Branch::into_reference: the reference underlying a branch.
#[verifier::external_body]
pub(crate) fn branch_into_reference<'r>(b: git2::Branch<'r>) -> git2::Reference<'r> {
    b.into_reference()
}

/// Relies on git2::Repository::graph_ahead_behind: the number of commits
/// reachable from `local` but not from `upstream`, and the reverse, following
/// the merge-base-based divergence definition.
#[verifier::external_body]
pub(crate) fn graph_ahead_behind(
    repo: &git2::Repository,
    local: git2::Oid,
    upstream: git2::Oid,
) -> Result<(usize, usize), git2::Error> {
    repo.graph_ahead_behind(local, upstream)
}

/// Relies on git2::Repository::find_branch: looks up a remote-tracking
/// branch by its short name, failing when it does not exist.
#[verifier::external_body]
pub(crate) fn find_remote_branch<'r>(
    repo: &'r git2::Repository,
    name: &str,
) -> Result<git2::Branch<'r>, git2::Error> {
    repo.find_branch(name, git2::BranchType::Remote)
}

/// Relies on git2::Repository::statuses, asked for index and working tree
/// combined, untracked files included: the status list in the store's
/// canonical path order.
#[verifier::external_body]
pub(crate) fn repo_statuses<'r>(
    repo: &'r git2::Repository,
) -> Result<git2::Statuses<'r>, git2::Error> {
    let mut opts = git2::StatusOptions::new();
    opts.show(git2::StatusShow::IndexAndWorkdir);
    opts.include_untracked(true);
    repo.statuses(Some(&mut opts))
}

/// Relies on git2::Statuses::len: the number of entries in the status list.
#[verifier::external_body]
pub(crate) fn statuses_len(s: &git2::Statuses) -> usize {
    s.len()
}

/// Relies on git2::Statuses::get: the entry at `i`, `None` out of bounds.
#[verifier::external_body]
pub(crate) fn statuses_get<'s>(s: &'s git2::Statuses, i: usize) -> Option<git2::StatusEntry<'s>> {
    s.get(i)
}

/// Relies on git2::StatusEntry::path: the entry's path, failing when it is
/// not valid UTF-8.
#[verifier::external_body]
pub(crate) fn entry_path(e: &git2::StatusEntry) -> Result<String, git2::Error> {
    match e.path() {
        Ok(p) => Ok(p.to_owned()),
        Err(err) => Err(err),
    }
}

/// Relies on git2::StatusEntry::status and git2::Status::bits: the entry's
/// raw status bitmask, laid out as libgit2 documents it.
#[verifier::external_body]
pub(crate) fn entry_bits(e: &git2::StatusEntry) -> u32 {
    e.status().bits()
}

/// Relies on git2::Repository::state: the control-flow mode read from the
/// repository's marker files, told apart variant by variant.
#[verifier::external_body]
pub(crate) fn repo_state(repo: &git2::Repository) -> RepoState {
    match repo.state() {
        git2::RepositoryState::Clean => RepoState::Clean,
        git2::RepositoryState::Merge => RepoState::Merge,
        git2::RepositoryState::Revert => RepoState::Revert,
        git2::RepositoryState::RevertSequence => RepoState::RevertSequence,
        git2::RepositoryState::CherryPick => RepoState::CherryPick,
        git2::RepositoryState::CherryPickSequence => RepoState::CherryPickSequence,
        git2::RepositoryState::Bisect => RepoState::Bisect,
        git2::RepositoryState::Rebase => RepoState::Rebase,
        git2::RepositoryState::RebaseInteractive => RepoState::RebaseInteractive,
        git2::RepositoryState::RebaseMerge => RepoState::RebaseMerge,
        git2::RepositoryState::ApplyMailbox => RepoState::ApplyMailbox,
        git2::RepositoryState::ApplyMailboxOrRebase => RepoState::ApplyMailboxOrRebase,
    }
}

} // verus!
