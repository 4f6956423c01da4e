//! A file as it is on the new side of a comparison, in place of the file on disk.

use crate::path::WorktreeId;
use std::path::PathBuf;
use vstd::prelude::*;

verus! {

/// `std::path::PathBuf`. A value of it is carried and handed back; nothing is claimed of it.
#[verifier::external_type_specification]
#[verifier::external_body]
pub struct ExPathBuf(PathBuf);

/// Whether the file that a buffer shows is on disk.
#[derive(Clone, Copy, Debug, PartialEq, Eq, Structural)]
pub enum DiskState {
    /// The buffer shows a version from the history of the repository.
    Historic { was_deleted: bool },
}

/// A file as it is sent to other instances of the editor.
#[derive(Debug, PartialEq, Eq)]
pub struct FileProto {
    pub worktree_id: u64,
    pub entry_id: Option<u64>,
    pub path: String,
    pub mtime: Option<Timestamp>,
    pub is_deleted: bool,
    pub is_historic: bool,
}

/// A point in time as it is sent to other instances of the editor.
#[derive(Clone, Copy, Debug, PartialEq, Eq, Structural)]
pub struct Timestamp {
    pub seconds: u64,
    pub nanos: u32,
}

/// A file as it is on the new side of a comparison.
#[derive(Debug)]
pub struct ComparisonFile {
    pub path: String,
    pub full_path: PathBuf,
    pub worktree_id: WorktreeId,
    pub display_name: String,
    pub was_deleted: bool,
    pub is_binary: bool,
}

pub struct ComparisonFileView {
    pub path: Seq<char>,
    pub full_path: PathBuf,
    pub worktree_id: WorktreeId,
    pub display_name: Seq<char>,
    pub was_deleted: bool,
    pub is_binary: bool,
}

impl View for ComparisonFile {
    type V = ComparisonFileView;

    open spec fn view(&self) -> ComparisonFileView {
        ComparisonFileView {
            path: self.path@,
            full_path: self.full_path,
            worktree_id: self.worktree_id,
            display_name: self.display_name@,
            was_deleted: self.was_deleted,
            is_binary: self.is_binary,
        }
    }
}

impl ComparisonFile {
    /// The file is a version from the history, deleted if the new side does not have it.
    pub fn disk_state(&self) -> (r: DiskState)
        ensures
            r == (DiskState::Historic { was_deleted: self@.was_deleted }),
    {
        DiskState::Historic { was_deleted: self.was_deleted }
    }

    /// The path relative to the root of the worktree.
    pub fn path(&self) -> (r: &str)
        ensures
            r@ == self@.path,
    {
        self.path.as_str()
    }

    /// The path in the file system.
    pub fn full_path(&self) -> (r: &PathBuf)
        ensures
            *r == self@.full_path,
    {
        &self.full_path
    }

    /// What the file is called in titles.
    pub fn file_name(&self) -> (r: &str)
        ensures
            r@ == self@.display_name,
    {
        self.display_name.as_str()
    }

    pub fn worktree_id(&self) -> (r: WorktreeId)
        ensures
            r == self@.worktree_id,
    {
        self.worktree_id
    }

    /// The file for other instances: a historic version, without entry and modification time.
    pub fn to_proto(&self) -> (r: FileProto)
        ensures
            r.worktree_id == self@.worktree_id.id,
            r.entry_id is None,
            r.path@ == self@.path,
            r.mtime is None,
            r.is_deleted == self@.was_deleted,
            r.is_historic,
    {
        FileProto {
            worktree_id: self.worktree_id.id,
            entry_id: None,
            path: self.path.clone(),
            mtime: None,
            is_deleted: self.was_deleted,
            is_historic: true,
        }
    }

    /// No comparison is private.
    pub fn is_private(&self) -> (r: bool)
        ensures
            !r,
    {
        false
    }

    /// A binary file cannot be opened.
    pub fn can_open(&self) -> (r: bool)
        ensures
            r == !self@.is_binary,
    {
        !self.is_binary
    }
}

} // verus!
