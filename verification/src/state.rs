//! The repository's control-flow state: which multi-step operation (merge,
//! rebase, ...) is in progress, if any, and its symbolic name as printed.

use vstd::prelude::*;

verus! {

/// The current control-flow mode of the repository, read from its on-disk
/// marker files. `Clean` means no operation is in progress.
#[derive(Clone, Copy, Debug, PartialEq, Eq, Structural)]
pub enum RepoState {
    Clean,
    Merge,
    Revert,
    RevertSequence,
    CherryPick,
    CherryPickSequence,
    Bisect,
    Rebase,
    RebaseInteractive,
    RebaseMerge,
    ApplyMailbox,
    ApplyMailboxOrRebase,
}

/// The symbolic name under which a state is printed.
pub open spec fn spec_state_name(s: RepoState) -> Seq<char> {
    match s {
        RepoState::Clean => "Clean"@,
        RepoState::Merge => "Merge"@,
        RepoState::Revert => "Revert"@,
        RepoState::RevertSequence => "RevertSequence"@,
        RepoState::CherryPick => "CherryPick"@,
        RepoState::CherryPickSequence => "CherryPickSequence"@,
        RepoState::Bisect => "Bisect"@,
        RepoState::Rebase => "Rebase"@,
        RepoState::RebaseInteractive => "RebaseInteractive"@,
        RepoState::RebaseMerge => "RebaseMerge"@,
        RepoState::ApplyMailbox => "ApplyMailbox"@,
        RepoState::ApplyMailboxOrRebase => "ApplyMailboxOrRebase"@,
    }
}

impl RepoState {
    /// The symbolic name of the state, as the prompt prints it.
    pub fn name(&self) -> (r: &'static str)
        ensures
            r@ == spec_state_name(*self),
    {
        match self {
            RepoState::Clean => "Clean",
            RepoState::Merge => "Merge",
            RepoState::Revert => "Revert",
            RepoState::RevertSequence => "RevertSequence",
            RepoState::CherryPick => "CherryPick",
            RepoState::CherryPickSequence => "CherryPickSequence",
            RepoState::Bisect => "Bisect",
            RepoState::Rebase => "Rebase",
            RepoState::RebaseInteractive => "RebaseInteractive",
            RepoState::RebaseMerge => "RebaseMerge",
            RepoState::ApplyMailbox => "ApplyMailbox",
            RepoState::ApplyMailboxOrRebase => "ApplyMailboxOrRebase",
        }
    }
}

} // verus!
