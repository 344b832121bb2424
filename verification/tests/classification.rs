//! Classification and decoding of status flag bits.

use git_prompt_info::status::{
    StatusFlags, INDEX_DELETED_BIT, INDEX_MODIFIED_BIT, INDEX_NEW_BIT,
    INDEX_RENAMED_BIT, INDEX_TYPECHANGE_BIT, WT_DELETED_BIT, WT_MODIFIED_BIT, WT_NEW_BIT,
    WT_RENAMED_BIT, WT_TYPECHANGE_BIT,
};

#[test]
fn from_bits_zero_is_all_clear() {
    let f = StatusFlags::from_bits(0);
    assert!(!f.index_new);
    assert!(!f.index_modified);
    assert!(!f.index_deleted);
    assert!(!f.index_renamed);
    assert!(!f.index_typechange);
    assert!(!f.wt_new);
    assert!(!f.wt_modified);
    assert!(!f.wt_deleted);
    assert!(!f.wt_typechange);
    assert!(!f.wt_renamed);
}

#[test]
fn from_bits_decodes_each_bit() {
    assert!(StatusFlags::from_bits(INDEX_NEW_BIT).index_new);
    assert!(StatusFlags::from_bits(INDEX_MODIFIED_BIT).index_modified);
    assert!(StatusFlags::from_bits(INDEX_DELETED_BIT).index_deleted);
    assert!(StatusFlags::from_bits(INDEX_RENAMED_BIT).index_renamed);
    assert!(StatusFlags::from_bits(INDEX_TYPECHANGE_BIT).index_typechange);
    assert!(StatusFlags::from_bits(WT_NEW_BIT).wt_new);
    assert!(StatusFlags::from_bits(WT_MODIFIED_BIT).wt_modified);
    assert!(StatusFlags::from_bits(WT_DELETED_BIT).wt_deleted);
    assert!(StatusFlags::from_bits(WT_TYPECHANGE_BIT).wt_typechange);
    assert!(StatusFlags::from_bits(WT_RENAMED_BIT).wt_renamed);
}

#[test]
fn bits_match_the_library() {
    assert_eq!(INDEX_NEW_BIT, git2::Status::INDEX_NEW.bits());
    assert_eq!(INDEX_MODIFIED_BIT, git2::Status::INDEX_MODIFIED.bits());
    assert_eq!(INDEX_DELETED_BIT, git2::Status::INDEX_DELETED.bits());
    assert_eq!(INDEX_RENAMED_BIT, git2::Status::INDEX_RENAMED.bits());
    assert_eq!(INDEX_TYPECHANGE_BIT, git2::Status::INDEX_TYPECHANGE.bits());
    assert_eq!(WT_NEW_BIT, git2::Status::WT_NEW.bits());
    assert_eq!(WT_MODIFIED_BIT, git2::Status::WT_MODIFIED.bits());
    assert_eq!(WT_DELETED_BIT, git2::Status::WT_DELETED.bits());
    assert_eq!(WT_TYPECHANGE_BIT, git2::Status::WT_TYPECHANGE.bits());
    assert_eq!(WT_RENAMED_BIT, git2::Status::WT_RENAMED.bits());
}

#[test]
fn wt_modified_only_classifies_as_changes_only() {
    let f = StatusFlags::from_bits(WT_MODIFIED_BIT);
    assert!(f.is_changed());
    assert!(!f.is_new());
    assert!(!f.is_index_update());
}

#[test]
fn untracked_classifies_as_new_only() {
    let f = StatusFlags::from_bits(WT_NEW_BIT);
    assert!(!f.is_changed());
    assert!(f.is_new());
    assert!(!f.is_index_update());
}

#[test]
fn staged_modification_classifies_as_index_update_only() {
    let f = StatusFlags::from_bits(INDEX_MODIFIED_BIT);
    assert!(!f.is_changed());
    assert!(!f.is_new());
    assert!(f.is_index_update());
}

#[test]
fn staged_then_modified_again_classifies_as_both() {
    let f = StatusFlags::from_bits(INDEX_MODIFIED_BIT | WT_MODIFIED_BIT);
    assert!(f.is_changed());
    assert!(!f.is_new());
    assert!(f.is_index_update());
}

#[test]
fn wt_deleted_typechange_renamed_count_as_changes() {
    assert!(StatusFlags::from_bits(WT_DELETED_BIT).is_changed());
    assert!(StatusFlags::from_bits(WT_TYPECHANGE_BIT).is_changed());
    assert!(StatusFlags::from_bits(WT_RENAMED_BIT).is_changed());
    assert!(!StatusFlags::from_bits(WT_NEW_BIT).is_changed());
}

#[test]
fn every_index_bit_counts_as_index_update() {
    assert!(StatusFlags::from_bits(INDEX_NEW_BIT).is_index_update());
    assert!(StatusFlags::from_bits(INDEX_DELETED_BIT).is_index_update());
    assert!(StatusFlags::from_bits(INDEX_RENAMED_BIT).is_index_update());
    assert!(StatusFlags::from_bits(INDEX_TYPECHANGE_BIT).is_index_update());
}
