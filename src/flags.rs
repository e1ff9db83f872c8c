//! The resolved sort configuration of one listing.
use vstd::prelude::*;

verus! {

/// Whether, and where, directory-like entries are grouped.
#[derive(Clone, Copy, Debug, PartialEq, Eq, Structural)]
pub enum DirOrderFlag {
    /// Directories are mixed among the other entries.
    Unordered,
    First,
    Last,
}

/// The primary attribute entries are ordered by.
#[derive(Clone, Copy, Debug, PartialEq, Eq, Structural)]
pub enum SortFlag {
    Name,
    Size,
    Time,
}

/// The direction a comparison result is taken in.
#[derive(Clone, Copy, Debug, PartialEq, Eq, Structural)]
pub enum SortOrder {
    Default,
    Reverse,
}

/// A complete sort configuration.
#[derive(Clone, Copy, Debug, PartialEq, Eq, Structural)]
pub struct Flags {
    pub directory_order: DirOrderFlag,
    pub sort_by: SortFlag,
    pub sort_order: SortOrder,
}

impl Default for Flags {
    /// No grouping, by name, in the default direction.
    fn default() -> (r: Flags)
        ensures
            r == (Flags {
                directory_order: DirOrderFlag::Unordered,
                sort_by: SortFlag::Name,
                sort_order: SortOrder::Default,
            }),
    {
        Flags {
            directory_order: DirOrderFlag::Unordered,
            sort_by: SortFlag::Name,
            sort_order: SortOrder::Default,
        }
    }
}

} // verus!
