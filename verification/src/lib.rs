//! Finds every file under a directory tree that is storage-identical to a
//! target file: hard links (same inode on the same device) and copy-on-write
//! clones (a different inode with the same physical extent layout).
//!
//! The library holds the decisions; the caller performs the system calls and
//! hands their outcomes over as plain values.

pub mod identity;
pub mod extent;
pub mod path;
pub mod path_set;
pub mod walk;
pub mod hardlink;
pub mod reflink;
pub mod fstype;
pub mod report;
pub mod search;
pub mod laws;
