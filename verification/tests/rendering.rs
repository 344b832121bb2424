//! Rendering: decimal formatting, divergence lines, per-entry lines, state
//! names, error messages, and whole reports.

use git_prompt_info::error::GitError;
use git_prompt_info::render::{divergence_line, named_divergence_line, usize_dec, Report};
use git_prompt_info::repo::remote_branch_name;
use git_prompt_info::state::RepoState;
use git_prompt_info::status::{FileStatus, StatusFlags, INDEX_MODIFIED_BIT, WT_MODIFIED_BIT, WT_NEW_BIT};

#[test]
fn decimal_formatting() {
    assert_eq!(usize_dec(0), "0");
    assert_eq!(usize_dec(7), "7");
    assert_eq!(usize_dec(10), "10");
    assert_eq!(usize_dec(23), "23");
    assert_eq!(usize_dec(905), "905");
    assert_eq!(usize_dec(usize::MAX), usize::MAX.to_string());
}

#[test]
fn divergence_lines() {
    assert_eq!(divergence_line(2, 3), "A: 2, B: 3");
    assert_eq!(divergence_line(0, 0), "A: 0, B: 0");
    assert_eq!(named_divergence_line(2, 3), "U A: 2, B: 3");
    assert_eq!(named_divergence_line(12, 0), "U A: 12, B: 0");
}

#[test]
fn remote_branch_names() {
    assert_eq!(remote_branch_name("upstream", "main"), "upstream/main");
    assert_eq!(remote_branch_name("origin", "feature/x"), "origin/feature/x");
}

#[test]
fn state_names() {
    assert_eq!(RepoState::Clean.name(), "Clean");
    assert_eq!(RepoState::Merge.name(), "Merge");
    assert_eq!(RepoState::Rebase.name(), "Rebase");
    assert_eq!(RepoState::RebaseInteractive.name(), "RebaseInteractive");
    assert_eq!(RepoState::CherryPickSequence.name(), "CherryPickSequence");
    assert_eq!(RepoState::ApplyMailboxOrRebase.name(), "ApplyMailboxOrRebase");
}

#[test]
fn error_messages() {
    assert_eq!(GitError::NotARepository.message(), "failed to open: not a repository");
    assert_eq!(GitError::DetachedOrUnresolvable.message(), "failed to get name of head");
    assert_eq!(GitError::UnresolvableHead.message(), "failed to get reference to head");
    assert_eq!(GitError::StatusQueryFailed.message(), "failed to get statuses");
}

#[test]
fn report_with_everything_present() {
    let report = Report {
        branch: "main".to_string(),
        tracking: Some((2, 3)),
        named_remote: Some((1, 0)),
        entries: vec![
            FileStatus { path: "a.txt".to_string(), flags: StatusFlags::from_bits(WT_MODIFIED_BIT) },
            FileStatus { path: "b.txt".to_string(), flags: StatusFlags::from_bits(WT_NEW_BIT) },
            FileStatus {
                path: "c.txt".to_string(),
                flags: StatusFlags::from_bits(INDEX_MODIFIED_BIT | WT_MODIFIED_BIT),
            },
        ],
        state: RepoState::Merge,
    };
    let lines = report.render();
    assert_eq!(
        lines,
        vec![
            "main",
            "A: 2, B: 3",
            "U A: 1, B: 0",
            "a.txt",
            "changes",
            "b.txt",
            "new files",
            "c.txt",
            "changes",
            "index update",
            "Merge",
        ]
    );
}

#[test]
fn report_with_absences() {
    let report = Report {
        branch: "main".to_string(),
        tracking: None,
        named_remote: None,
        entries: vec![],
        state: RepoState::Clean,
    };
    assert_eq!(report.render(), vec!["main", "Clean"]);
}
