//! Metadata accessor: the identity record of a file and the failures of the
//! query that produces it.

use vstd::prelude::*;

verus! {

/// How a failed system call is classified by the caller's I/O layer.
#[derive(Clone, Copy, Debug, PartialEq, Eq)]
pub enum FailureKind {
    NotFound,
    PermissionDenied,
    Other,
}

/// A failed system call: its classification and, where the operating system
/// reported one, its error number.
#[derive(Clone, Copy, Debug, PartialEq, Eq)]
pub struct IoFailure {
    pub kind: FailureKind,
    pub os_code: Option<i32>,
}

/// What one metadata query reports about a path.
#[derive(Clone, Copy, Debug, PartialEq, Eq)]
pub struct StatRecord {
    pub inode: u64,
    pub device: u64,
    pub link_count: u64,
    pub size: u64,
    pub is_dir: bool,
}

/// The normalized identity of a file: derived once per path and never changed.
#[derive(Clone, Copy, Debug, PartialEq, Eq)]
pub struct FileIdentity {
    pub inode: u64,
    pub device: u64,
    pub link_count: u64,
    pub size: u64,
}

/// Why the identity of a path could not be determined.
#[derive(Clone, Copy, Debug, PartialEq, Eq)]
pub enum MetadataError {
    NotFound,
    PermissionDenied,
    Other(Option<i32>),
}

impl StatRecord {
    /// The identity that this record describes.
    pub open spec fn identity(self) -> FileIdentity {
        FileIdentity {
            inode: self.inode,
            device: self.device,
            link_count: self.link_count,
            size: self.size,
        }
    }
}

impl IoFailure {
    /// The metadata error that this failure amounts to.
    pub open spec fn as_metadata_error(self) -> MetadataError {
        match self.kind {
            FailureKind::NotFound => MetadataError::NotFound,
            FailureKind::PermissionDenied => MetadataError::PermissionDenied,
            FailureKind::Other => MetadataError::Other(self.os_code),
        }
    }
}

/// The outcome that `get_target_inode_info` owes for each outcome of the query.
pub open spec fn identity_of(stat: Result<StatRecord, IoFailure>) -> Result<
    FileIdentity,
    MetadataError,
> {
    match stat {
        Ok(record) => Ok(record.identity()),
        Err(failure) => Err(failure.as_metadata_error()),
    }
}

/// Turns the outcome of one metadata query into the identity of the file:
/// inode, device, link count and size, or the reason why there is none.
pub fn get_target_inode_info(stat: Result<StatRecord, IoFailure>) -> (info: Result<
    FileIdentity,
    MetadataError,
>)
    ensures
        info == identity_of(stat),
{
    match stat {
        Ok(record) => Ok(
            FileIdentity {
                inode: record.inode,
                device: record.device,
                link_count: record.link_count,
                size: record.size,
            },
        ),
        Err(failure) => match failure.kind {
            FailureKind::NotFound => Err(MetadataError::NotFound),
            FailureKind::PermissionDenied => Err(MetadataError::PermissionDenied),
            FailureKind::Other => Err(MetadataError::Other(failure.os_code)),
        },
    }
}

} // verus!
