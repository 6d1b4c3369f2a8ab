//! Version-control status shapes.

use vstd::prelude::*;

verus! {

/// The working tree's status, grouped the way the panel shows it.
#[derive(Debug, Clone)]
pub struct GitStatus {
    pub modified_files: Vec<FileStatus>,
    pub staged_files: Vec<FileStatus>,
    pub untracked_files: Vec<FileStatus>,
    pub deleted_files: Vec<FileStatus>,
    pub renamed_files: Vec<FileStatus>,
}

/// One file's status.
#[derive(Debug, Clone)]
pub struct FileStatus {
    pub path: String,
    pub status: FileStatusType,
    pub diff: Option<String>,
}

/// The states a file can be in.
#[derive(Debug, Clone, Copy, PartialEq, Eq, Structural)]
pub enum FileStatusType {
    Modified,
    Added,
    Deleted,
    Renamed,
    Copied,
    Unmerged,
    Untracked,
    Ignored,
}

} // verus!
