//! Read-only inspection of a version-control working copy for a shell
//! prompt: the current branch name, ahead/behind divergence against the
//! configured tracking branch and against an explicitly named remote,
//! per-file working-tree and index status, and the repository's current
//! control-flow state.
//!
//! All repository reads are delegated to the `git2` library; this crate
//! verifies the logic around those reads: decoding and classifying status
//! flags, the error taxonomy, and the rendering of every output line.

pub mod error;
pub mod git;
pub mod render;
pub mod repo;
pub mod state;
pub mod status;
