//! Per-file status: the flag bits reported for an entry, decoded into named
//! booleans, and their classification into the three coarse categories shown
//! in the prompt (`changes`, `new files`, `index update`).

use vstd::prelude::*;

verus! {

/// Bit assigned by libgit2 to "new in index".
pub const INDEX_NEW_BIT: u32 = 1u32 << 0;

/// Bit assigned by libgit2 to "modified in index".
pub const INDEX_MODIFIED_BIT: u32 = 1u32 << 1;

/// Bit assigned by libgit2 to "deleted from index".
pub const INDEX_DELETED_BIT: u32 = 1u32 << 2;

/// Bit assigned by libgit2 to "renamed in index".
pub const INDEX_RENAMED_BIT: u32 = 1u32 << 3;

/// Bit assigned by libgit2 to "type changed in index".
pub const INDEX_TYPECHANGE_BIT: u32 = 1u32 << 4;

/// Bit assigned by libgit2 to "new in working tree" (untracked).
pub const WT_NEW_BIT: u32 = 1u32 << 7;

/// Bit assigned by libgit2 to "modified in working tree".
pub const WT_MODIFIED_BIT: u32 = 1u32 << 8;

/// Bit assigned by libgit2 to "deleted from working tree".
pub const WT_DELETED_BIT: u32 = 1u32 << 9;

/// Bit assigned by libgit2 to "type changed in working tree".
pub const WT_TYPECHANGE_BIT: u32 = 1u32 << 10;

/// Bit assigned by libgit2 to "renamed in working tree".
pub const WT_RENAMED_BIT: u32 = 1u32 << 11;

/// The status flags of one file, as named booleans: one per flag bit that the
/// classification reads, split by scope (working tree vs. index).
#[derive(Clone, Copy, Debug, PartialEq, Eq, Structural)]
pub struct StatusFlags {
    pub index_new: bool,
    pub index_modified: bool,
    pub index_deleted: bool,
    pub index_renamed: bool,
    pub index_typechange: bool,
    pub wt_new: bool,
    pub wt_modified: bool,
    pub wt_deleted: bool,
    pub wt_typechange: bool,
    pub wt_renamed: bool,
}

/// The flags encoded by a raw status bitmask.
pub open spec fn spec_flags_of_bits(bits: u32) -> StatusFlags {
    StatusFlags {
        index_new: bits & INDEX_NEW_BIT != 0,
        index_modified: bits & INDEX_MODIFIED_BIT != 0,
        index_deleted: bits & INDEX_DELETED_BIT != 0,
        index_renamed: bits & INDEX_RENAMED_BIT != 0,
        index_typechange: bits & INDEX_TYPECHANGE_BIT != 0,
        wt_new: bits & WT_NEW_BIT != 0,
        wt_modified: bits & WT_MODIFIED_BIT != 0,
        wt_deleted: bits & WT_DELETED_BIT != 0,
        wt_typechange: bits & WT_TYPECHANGE_BIT != 0,
        wt_renamed: bits & WT_RENAMED_BIT != 0,
    }
}

/// The entry counts as `changes`: some tracked content differs between the
/// working tree and the index (modified, deleted, type-changed or renamed in
/// the working tree; an untracked file does not count).
pub open spec fn spec_is_changed(f: StatusFlags) -> bool {
    f.wt_modified || f.wt_deleted || f.wt_typechange || f.wt_renamed
}

/// The entry counts as `new files`: the file is new in the working tree
/// (untracked).
pub open spec fn spec_is_new(f: StatusFlags) -> bool {
    f.wt_new
}

/// The entry counts as `index update`: something is staged for the next
/// commit (new, modified, deleted, type-changed or renamed in the index).
pub open spec fn spec_is_index_update(f: StatusFlags) -> bool {
    f.index_modified || f.index_deleted || f.index_typechange || f.index_renamed || f.index_new
}

impl StatusFlags {
    /// Decodes a raw status bitmask into named flags.
    pub fn from_bits(bits: u32) -> (r: StatusFlags)
        ensures
            r == spec_flags_of_bits(bits),
    {
        StatusFlags {
            index_new: bits & INDEX_NEW_BIT != 0,
            index_modified: bits & INDEX_MODIFIED_BIT != 0,
            index_deleted: bits & INDEX_DELETED_BIT != 0,
            index_renamed: bits & INDEX_RENAMED_BIT != 0,
            index_typechange: bits & INDEX_TYPECHANGE_BIT != 0,
            wt_new: bits & WT_NEW_BIT != 0,
            wt_modified: bits & WT_MODIFIED_BIT != 0,
            wt_deleted: bits & WT_DELETED_BIT != 0,
            wt_typechange: bits & WT_TYPECHANGE_BIT != 0,
            wt_renamed: bits & WT_RENAMED_BIT != 0,
        }
    }

    /// Does the entry classify as `changes`?
    pub fn is_changed(&self) -> (r: bool)
        ensures
            r == spec_is_changed(*self),
    {
        self.wt_modified || self.wt_deleted || self.wt_typechange || self.wt_renamed
    }

    /// Does the entry classify as `new files`?
    pub fn is_new(&self) -> (r: bool)
        ensures
            r == spec_is_new(*self),
    {
        self.wt_new
    }

    /// Does the entry classify as `index update`?
    pub fn is_index_update(&self) -> (r: bool)
        ensures
            r == spec_is_index_update(*self),
    {
        self.index_modified || self.index_deleted || self.index_typechange || self.index_renamed
            || self.index_new
    }
}

/// One file's status: its path and its decoded flags.
#[derive(Debug, PartialEq, Eq)]
pub struct FileStatus {
    pub path: String,
    pub flags: StatusFlags,
}

/// A file modified in the working tree and not staged in any way classifies
/// as `changes` only: not as `new files`, not as `index update`.
pub proof fn lemma_wt_modified_only_is_changes_only(f: StatusFlags)
    requires
        f.wt_modified,
        !f.wt_new,
        !f.index_new,
        !f.index_modified,
        !f.index_deleted,
        !f.index_renamed,
        !f.index_typechange,
    ensures
        spec_is_changed(f),
        !spec_is_new(f),
        !spec_is_index_update(f),
{
}

/// A newly created, untracked file classifies as `new files` only: not as
/// `changes`, not as `index update`.
pub proof fn lemma_untracked_is_new_only(f: StatusFlags)
    requires
        f.wt_new,
        !f.wt_modified,
        !f.wt_deleted,
        !f.wt_typechange,
        !f.wt_renamed,
        !f.index_new,
        !f.index_modified,
        !f.index_deleted,
        !f.index_renamed,
        !f.index_typechange,
    ensures
        spec_is_new(f),
        !spec_is_changed(f),
        !spec_is_index_update(f),
{
}

/// A modification staged and not touched again classifies as `index update`
/// only; one staged and then modified again in the working tree classifies as
/// both `changes` and `index update`.
pub proof fn lemma_staged_modification_classification(staged: StatusFlags, restaged: StatusFlags)
    requires
        staged.index_modified,
        !staged.wt_new,
        !staged.wt_modified,
        !staged.wt_deleted,
        !staged.wt_typechange,
        !staged.wt_renamed,
        restaged.index_modified,
        restaged.wt_modified,
    ensures
        spec_is_index_update(staged),
        !spec_is_changed(staged),
        !spec_is_new(staged),
        spec_is_index_update(restaged),
        spec_is_changed(restaged),
{
}

} // verus!
