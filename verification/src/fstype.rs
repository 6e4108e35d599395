//! Filesystem classifier: whether the file system of the target supports
//! copy-on-write block sharing, told by the magic number of its type.

use vstd::prelude::*;

verus! {

/// The type magic of the one copy-on-write file system that is recognized.
/// A type magic is a number of 32 bits, whatever the width of the word in
/// which a platform reports it.
pub const BTRFS_MAGIC: u32 = 0x9123_683E;

/// The file system could not be queried for its type; `errno` is the error
/// number of the failed query.
#[derive(Clone, Copy, Debug, PartialEq, Eq)]
pub struct FilesystemQueryError {
    pub errno: i32,
}

/// A file system supports block sharing when its type magic is that of the
/// recognized copy-on-write file system.
pub open spec fn supports_cow(fs_type: u32) -> bool {
    fs_type == BTRFS_MAGIC
}

/// What `is_on_btrfs` owes for each outcome of the file system query.
pub open spec fn classified(fs_type: Result<u32, i32>) -> Result<bool, FilesystemQueryError> {
    match fs_type {
        Ok(magic) => Ok(supports_cow(magic)),
        Err(errno) => Err(FilesystemQueryError { errno }),
    }
}

/// Reads the constant `nix::sys::statfs::BTRFS_SUPER_MAGIC` and takes the low
/// 32 bits of its number. Trusted: the constant is `libc::BTRFS_SUPER_MAGIC`,
/// which on every Linux target holds the bit pattern 0x9123683E in its low 32
/// bits, in a signed or unsigned word of 32 or 64 bits.
#[verifier::external_body]
fn btrfs_super_magic() -> (magic: u32)
    ensures
        magic == BTRFS_MAGIC,
{
    nix::sys::statfs::BTRFS_SUPER_MAGIC.0 as u32
}

/// Whether a type magic is that of the recognized copy-on-write file system.
pub fn is_btrfs_magic(fs_type: u32) -> (cow: bool)
    ensures
        cow == supports_cow(fs_type),
{
    fs_type == btrfs_super_magic()
}

/// Classifies the file system of a path from the outcome of the file system
/// query on it: `fs_type` holds the low 32 bits of the type magic that the
/// query reported, or the error number with which it failed. The classification fails exactly
/// when the query did.
pub fn is_on_btrfs(fs_type: Result<u32, i32>) -> (cow: Result<bool, FilesystemQueryError>)
    ensures
        cow == classified(fs_type),
{
    match fs_type {
        Ok(magic) => Ok(is_btrfs_magic(magic)),
        Err(errno) => Err(FilesystemQueryError { errno }),
    }
}

} // verus!
