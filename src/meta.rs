//! Metadata records of the entries being listed.
use vstd::prelude::*;

verus! {

/// The kind of filesystem object an entry describes.
#[derive(Clone, Copy, Debug, PartialEq, Eq, Structural)]
pub enum FileType {
    File,
    Directory,
    /// A symbolic link; `is_dir` tells whether its target resolves to a directory.
    SymLink { is_dir: bool },
}

/// A modification time: whole seconds since the Unix epoch (negative before
/// it) and the nanoseconds within that second.
#[derive(Clone, Copy, Debug, PartialEq, Eq, Structural)]
pub struct Date {
    pub secs: i64,
    pub nanos: u32,
}

/// One entry of a listing, with the attributes the ordering reads.
#[derive(Debug)]
pub struct Meta {
    pub name: String,
    pub size: u64,
    pub date: Date,
    pub file_type: FileType,
}

impl FileType {
    /// A directory, or a symbolic link whose target is a directory.
    pub open spec fn spec_is_dir_like(self) -> bool {
        match self {
            FileType::Directory => true,
            FileType::SymLink { is_dir } => is_dir,
            FileType::File => false,
        }
    }

    /// Whether the entry is a directory or links to one.
    pub fn is_dir_like(&self) -> (r: bool)
        ensures
            r == self.spec_is_dir_like(),
    {
        match self {
            FileType::Directory => true,
            FileType::SymLink { is_dir } => *is_dir,
            FileType::File => false,
        }
    }
}

} // verus!
