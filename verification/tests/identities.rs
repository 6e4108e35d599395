use inofd::fstype::{is_btrfs_magic, is_on_btrfs, FilesystemQueryError, BTRFS_MAGIC};
use inofd::identity::{
    get_target_inode_info, FailureKind, FileIdentity, IoFailure, MetadataError, StatRecord,
};
use inofd::walk::{retain_entry, TraversalScope};

fn record(inode: u64, device: u64, link_count: u64, size: u64, is_dir: bool) -> StatRecord {
    StatRecord { inode, device, link_count, size, is_dir }
}

#[test]
fn identity_of_a_readable_target() {
    let info = get_target_inode_info(Ok(record(42, 7, 3, 4096, false)));
    assert_eq!(info, Ok(FileIdentity { inode: 42, device: 7, link_count: 3, size: 4096 }));
}

#[test]
fn identity_keeps_the_largest_numbers() {
    let info = get_target_inode_info(Ok(record(u64::MAX, u64::MAX - 1, u64::MAX - 2, 0, true)));
    assert_eq!(
        info,
        Ok(FileIdentity {
            inode: u64::MAX,
            device: u64::MAX - 1,
            link_count: u64::MAX - 2,
            size: 0
        })
    );
}

#[test]
fn a_missing_target_is_not_found() {
    let info =
        get_target_inode_info(Err(IoFailure { kind: FailureKind::NotFound, os_code: Some(2) }));
    assert_eq!(info, Err(MetadataError::NotFound));
}

#[test]
fn a_forbidden_target_is_permission_denied() {
    let info = get_target_inode_info(Err(IoFailure {
        kind: FailureKind::PermissionDenied,
        os_code: Some(13),
    }));
    assert_eq!(info, Err(MetadataError::PermissionDenied));
}

#[test]
fn any_other_failure_keeps_its_error_number() {
    let info =
        get_target_inode_info(Err(IoFailure { kind: FailureKind::Other, os_code: Some(5) }));
    assert_eq!(info, Err(MetadataError::Other(Some(5))));
    let info = get_target_inode_info(Err(IoFailure { kind: FailureKind::Other, os_code: None }));
    assert_eq!(info, Err(MetadataError::Other(None)));
}

#[test]
fn the_btrfs_magic_is_recognized() {
    assert_eq!(BTRFS_MAGIC, 0x9123683E);
    assert!(is_btrfs_magic(0x9123683E));
    assert_eq!(is_on_btrfs(Ok(0x9123683E)), Ok(true));
}

#[test]
fn other_magics_are_not_copy_on_write() {
    assert!(!is_btrfs_magic(0xEF53));
    assert!(!is_btrfs_magic(0));
    assert!(!is_btrfs_magic(0x9123683D));
    assert!(!is_btrfs_magic(u32::MAX));
    assert!(!is_btrfs_magic(0x9123683F));
    assert_eq!(is_on_btrfs(Ok(0x58465342)), Ok(false));
}

#[test]
fn a_failed_file_system_query_fails_the_classification() {
    assert_eq!(is_on_btrfs(Err(2)), Err(FilesystemQueryError { errno: 2 }));
    assert_eq!(is_on_btrfs(Err(13)), Err(FilesystemQueryError { errno: 13 }));
}

#[test]
fn the_walk_keeps_entries_of_its_device_only() {
    let scope = TraversalScope { root: b"/mnt".to_vec(), device: 7, skip_hidden: false };
    assert!(retain_entry(&Some(record(1, 7, 1, 0, true)), &scope));
    assert!(retain_entry(&Some(record(1, 7, 1, 0, false)), &scope));
    assert!(!retain_entry(&Some(record(1, 8, 1, 0, false)), &scope));
    assert!(!retain_entry(&None, &scope));
}
