//! The repository handle and the queries the prompt makes: branch name,
//! divergence against the tracking branch and against a named remote,
//! working-tree/index status, and repository state. Each query re-reads the
//! on-disk state independently; results of successive queries are therefore
//! snapshots and are not guaranteed mutually consistent if the working copy
//! changes between calls.

use vstd::prelude::*;

use crate::error::GitError;
use crate::git;
use crate::render::Report;
use crate::state::RepoState;
use crate::status::{FileStatus, StatusFlags};

verus! {

/// The short name under which a branch is sought on a named remote:
/// `<remote>/<branch>`.
pub open spec fn spec_remote_branch_name(remote: Seq<char>, branch: Seq<char>) -> Seq<char> {
    remote + "/"@ + branch
}

/// Forms the short name `<remote>/<branch>` of a remote-tracking branch.
pub fn remote_branch_name(remote: &str, branch: &str) -> (r: String)
    ensures
        r@ == spec_remote_branch_name(remote@, branch@),
{
    let mut s = remote.to_owned();
    s.append("/");
    s.append(branch);
    proof {
        assert(s@ =~= spec_remote_branch_name(remote@, branch@));
    }
    s
}

/// An opened repository: a read-only handle to the on-disk store, owned for
/// the life of the process and queried many times.
pub struct Program {
    repo: git2::Repository,
}

impl Program {
    /// Opens the repository at `path`. Every failure to open is reported as
    /// `NotARepository`; nothing is read or returned besides the handle, so
    /// a fatal open produces no partial output.
    pub fn open(path: &str) -> (r: Result<Program, GitError>)
        ensures
            r matches Err(e) ==> e == GitError::NotARepository,
    {
        match git::repo_open(path) {
            Ok(repo) => Ok(Program { repo }),
            Err(_) => Err(GitError::NotARepository),
        }
    }

    /// The short name of HEAD. Fails with `DetachedOrUnresolvable`, and with
    /// nothing else, when HEAD has no usable short name.
    pub fn current_branch_name(&self) -> (r: Result<String, GitError>)
        ensures
            r matches Err(e) ==> e == GitError::DetachedOrUnresolvable,
    {
        let head = match git::repo_head(&self.repo) {
            Ok(h) => h,
            Err(_) => {
                return Err(GitError::DetachedOrUnresolvable);
            },
        };
        match git::ref_shorthand(&head) {
            Ok(name) => Ok(name),
            Err(_) => Err(GitError::DetachedOrUnresolvable),
        }
    }

    /// HEAD's target commit id. Fails with `UnresolvableHead`, and with
    /// nothing else, when HEAD does not resolve to a commit (e.g. an unborn
    /// branch).
    pub fn current_branch_commit(&self) -> (r: Result<git2::Oid, GitError>)
        ensures
            r matches Err(e) ==> e == GitError::UnresolvableHead,
    {
        let head = match git::repo_head(&self.repo) {
            Ok(h) => h,
            Err(_) => {
                return Err(GitError::UnresolvableHead);
            },
        };
        match git::ref_target(&head) {
            Some(oid) => Ok(oid),
            None => Err(GitError::UnresolvableHead),
        }
    }

    /// The commit id of the tracking branch configured for HEAD, or `None`
    /// when HEAD cannot be read, no tracking branch is configured, or the
    /// tracking reference has no target. Absence is not an error.
    fn tracking_remote_commit(&self) -> Option<git2::Oid> {
        let head = match git::repo_head(&self.repo) {
            Ok(h) => h,
            Err(_) => {
                return None;
            },
        };
        let branch = git::branch_wrap(head);
        let upstream = match git::branch_upstream(&branch) {
            Ok(u) => u,
            Err(_) => {
                return None;
            },
        };
        let reference = git::branch_into_reference(upstream);
        git::ref_target(&reference)
    }

    /// Ahead/behind divergence between HEAD and its configured tracking
    /// branch: `Ok(None)` when no tracking branch is configured or the graph
    /// computation fails (normal absence), `Err(UnresolvableHead)` — and no
    /// other error — when HEAD itself does not resolve to a commit.
    pub fn tracking_upstream_divergence(&self) -> (r: Result<Option<(usize, usize)>, GitError>)
        ensures
            r matches Err(e) ==> e == GitError::UnresolvableHead,
    {
        let remote = match self.tracking_remote_commit() {
            Some(oid) => oid,
            None => {
                return Ok(None);
            },
        };
        let local = match self.current_branch_commit() {
            Ok(oid) => oid,
            Err(e) => {
                return Err(e);
            },
        };
        match git::graph_ahead_behind(&self.repo, local, remote) {
            Ok(pair) => Ok(Some(pair)),
            Err(_) => Ok(None),
        }
    }

    /// Ahead/behind divergence between HEAD and the remote-tracking branch
    /// `<remote_name>/<current branch>`, looked up explicitly and
    /// independently of any configured tracking. `Ok(None)` when that branch
    /// does not exist or has no target (normal absence); fails only as
    /// `current_branch_name` or `current_branch_commit` do.
    pub fn named_remote_divergence(&self, remote_name: &str) -> (r: Result<
        Option<(usize, usize)>,
        GitError,
    >)
        ensures
            r matches Err(e) ==> (e == GitError::DetachedOrUnresolvable || e
                == GitError::UnresolvableHead),
    {
        let branch_name = match self.current_branch_name() {
            Ok(name) => name,
            Err(e) => {
                return Err(e);
            },
        };
        let full_name = remote_branch_name(remote_name, branch_name.as_str());
        let branch = match git::find_remote_branch(&self.repo, full_name.as_str()) {
            Ok(b) => b,
            Err(_) => {
                return Ok(None);
            },
        };
        let reference = git::branch_into_reference(branch);
        let remote = match git::ref_target(&reference) {
            Some(oid) => oid,
            None => {
                return Ok(None);
            },
        };
        let local = match self.current_branch_commit() {
            Ok(oid) => oid,
            Err(e) => {
                return Err(e);
            },
        };
        match git::graph_ahead_behind(&self.repo, local, remote) {
            Ok(pair) => Ok(Some(pair)),
            Err(_) => Ok(None),
        }
    }

    /// The status of every file that differs between HEAD, the index and the
    /// working tree, untracked files included, in the store's order. Each
    /// entry's flags are the decoded status bitmask of that file. Fails with
    /// `StatusQueryFailed`, and with nothing else, when the underlying status
    /// computation fails or an entry's path cannot be read.
    pub fn working_status(&self) -> (r: Result<Vec<FileStatus>, GitError>)
        ensures
            r matches Err(e) ==> e == GitError::StatusQueryFailed,
    {
        let statuses = match git::repo_statuses(&self.repo) {
            Ok(s) => s,
            Err(_) => {
                return Err(GitError::StatusQueryFailed);
            },
        };
        let n = git::statuses_len(&statuses);
        let mut entries: Vec<FileStatus> = Vec::new();
        let mut i: usize = 0;
        while i < n
            invariant
                i <= n,
            decreases n - i,
        {
            match git::statuses_get(&statuses, i) {
                Some(entry) => {
                    let path = match git::entry_path(&entry) {
                        Ok(p) => p,
                        Err(_) => {
                            return Err(GitError::StatusQueryFailed);
                        },
                    };
                    let bits = git::entry_bits(&entry);
                    entries.push(FileStatus { path, flags: StatusFlags::from_bits(bits) });
                },
                None => {},
            }
            i = i + 1;
        }
        Ok(entries)
    }

    /// The repository's current control-flow mode, read from its on-disk
    /// marker files.
    pub fn repository_state(&self) -> RepoState {
        git::repo_state(&self.repo)
    }

    /// Runs the fixed sequence of queries and gathers the report the prompt
    /// prints. The named remote consulted is `upstream`, as in
    /// `upstream/<branch>`. Fails with the first fatal error a query
    /// reports, one of the taxonomy's categories other than
    /// `NotARepository`, and produces no partial report.
    pub fn collect_report(&self) -> (r: Result<Report, GitError>)
        ensures
            r matches Err(e) ==> (e == GitError::DetachedOrUnresolvable || e
                == GitError::UnresolvableHead || e == GitError::StatusQueryFailed),
    {
        let branch = match self.current_branch_name() {
            Ok(name) => name,
            Err(e) => {
                return Err(e);
            },
        };
        let tracking = match self.tracking_upstream_divergence() {
            Ok(t) => t,
            Err(e) => {
                return Err(e);
            },
        };
        let named_remote = match self.named_remote_divergence("upstream") {
            Ok(u) => u,
            Err(e) => {
                return Err(e);
            },
        };
        let entries = match self.working_status() {
            Ok(s) => s,
            Err(e) => {
                return Err(e);
            },
        };
        let state = self.repository_state();
        Ok(Report { branch, tracking, named_remote, entries, state })
    }
}

} // verus!
