//! Hardlink matcher: the entries of a walk that are other names of the
//! target's inode.

use vstd::prelude::*;
use crate::path::{copy_path, rank_paths, Rank};
use crate::path_set::PathSet;
use crate::walk::{
    entry_models, paths_where, paths_where_none, paths_where_push, EntryModel, WalkEntry,
};

verus! {

/// An entry is a hard link of the target when it is no directory, lies on the
/// target's device, has the target's inode, and is not the target's own path.
pub open spec fn is_hard_link(
    entry: EntryModel,
    target_path: Seq<u8>,
    target_inode: u64,
    target_dev: u64,
) -> bool {
    &&& entry.metadata matches Some(record)
    &&& !record.is_dir
    &&& record.device == target_dev
    &&& record.inode == target_inode
    &&& entry.path != target_path
}

/// The paths of the hard links of the target among `entries`.
pub open spec fn hard_link_paths(
    entries: Seq<EntryModel>,
    target_path: Seq<u8>,
    target_inode: u64,
    target_dev: u64,
) -> Set<Seq<u8>> {
    paths_where(
        entries,
        |e: EntryModel| e.path,
        |e: EntryModel| is_hard_link(e, target_path, target_inode, target_dev),
    )
}

/// Whether one entry of the walk is a hard link of the target.
pub fn hard_link_match(
    entry: &WalkEntry,
    target_path: &[u8],
    target_inode: u64,
    target_dev: u64,
) -> (matched: bool)
    ensures
        matched == is_hard_link(entry@, target_path@, target_inode, target_dev),
{
    match entry.metadata {
        Some(record) => {
            if record.is_dir || record.device != target_dev || record.inode != target_inode {
                false
            } else {
                match rank_paths(entry.path.as_slice(), target_path) {
                    Rank::Same => false,
                    _ => true,
                }
            }
        },
        None => false,
    }
}

/// Collects, from the entries of a walk, the paths of the hard links of the
/// target: every path that an entry with the target's inode on the target's
/// device has, directories and the target's own path left out.
pub fn find_hard_links(
    entries: &Vec<WalkEntry>,
    target_path: &[u8],
    target_inode: u64,
    target_dev: u64,
) -> (links: PathSet)
    ensures
        links@ == hard_link_paths(entry_models(entries@), target_path@, target_inode, target_dev),
{
    let mut links = PathSet::new();
    let ghost models = entry_models(entries@);
    let mut i: usize = 0;
    proof {
        assert(models.take(0) =~= Seq::<EntryModel>::empty());
        paths_where_none(
            |e: EntryModel| e.path,
            |e: EntryModel| is_hard_link(e, target_path@, target_inode, target_dev),
        );
    }
    while i < entries.len()
        invariant
            i <= entries.len(),
            models == entry_models(entries@),
            links@ == hard_link_paths(models.take(i as int), target_path@, target_inode, target_dev),
        decreases entries.len() - i,
    {
        let entry = &entries[i];
        proof {
            assert(models.take(i + 1) =~= models.take(i as int).push(entry@));
            paths_where_push(
                models.take(i as int),
                entry@,
                |e: EntryModel| e.path,
                |e: EntryModel| is_hard_link(e, target_path@, target_inode, target_dev),
            );
        }
        if hard_link_match(entry, target_path, target_inode, target_dev) {
            links.insert(copy_path(entry.path.as_slice()));
        }
        i += 1;
    }
    proof {
        assert(models.take(i as int) =~= models);
    }
    links
}

} // verus!
