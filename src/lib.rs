//! Ordering of directory-listing entries: a comparator built from a sort
//! configuration, composed of direction-tagged sub-comparators.

pub mod flags;
pub mod laws;
pub mod meta;
pub mod sort;
