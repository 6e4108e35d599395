//! What holds of every search, whatever the walk yields.

use vstd::prelude::*;
use crate::extent::{fully_shared, layout, Extent};
use crate::hardlink::{hard_link_paths, is_hard_link};
use crate::identity::{IoFailure, StatRecord};
use crate::reflink::{is_candidate, reflink_paths, verdict_of, CandidateModel, Verdict};
use crate::report::{aggregate_is_unique, is_aggregate, RecordModel};
use crate::search::{
    hardlinks_of, plan_of, reflinks_of, PlanModel, SearchOptions, SkipReason, StageStatus,
};
use crate::walk::{paths_where, EntryModel};

verus! {

/// Two files of one inode on one device find each other: a search for either
/// of them reports the path of the other and never the path searched for.
pub proof fn hard_links_find_each_other(walk: Seq<EntryModel>, a: EntryModel, b: EntryModel)
    requires
        walk.contains(a),
        walk.contains(b),
        a.metadata is Some,
        b.metadata is Some,
        !a.metadata->0.is_dir,
        !b.metadata->0.is_dir,
        a.metadata->0.device == b.metadata->0.device,
        a.metadata->0.inode == b.metadata->0.inode,
        a.path != b.path,
    ensures
        hard_link_paths(walk, a.path, a.metadata->0.inode, a.metadata->0.device).contains(b.path),
        !hard_link_paths(walk, a.path, a.metadata->0.inode, a.metadata->0.device).contains(a.path),
        hard_link_paths(walk, b.path, b.metadata->0.inode, b.metadata->0.device).contains(a.path),
        !hard_link_paths(walk, b.path, b.metadata->0.inode, b.metadata->0.device).contains(b.path),
{
    let inode = a.metadata->0.inode;
    let device = a.metadata->0.device;
    let ia = choose|i: int| 0 <= i < walk.len() && walk[i] == a;
    let ib = choose|i: int| 0 <= i < walk.len() && walk[i] == b;
    assert(is_hard_link(walk[ib], a.path, inode, device));
    assert(is_hard_link(walk[ia], b.path, inode, device));
}

/// An entry on another device than the target's is no hard link and no clone
/// of it, whatever its inode number, its size and its extents are.
pub proof fn other_devices_never_match(
    candidate: CandidateModel,
    target_path: Seq<u8>,
    target_extents: Seq<Extent>,
    target_dev: u64,
    target_inode: u64,
    target_size: u64,
)
    requires
        candidate.entry.metadata is Some ==> candidate.entry.metadata->0.device != target_dev,
    ensures
        !is_hard_link(candidate.entry, target_path, target_inode, target_dev),
        verdict_of(candidate, target_extents, target_dev, target_inode, target_size)
            != Verdict::Match,
{
}

/// Every path that the hardlink matcher reports is the path of an entry of
/// the walk that lies on the target's device and has the target's inode.
pub proof fn hard_links_lie_on_target_device(
    walk: Seq<EntryModel>,
    target_path: Seq<u8>,
    target_inode: u64,
    target_dev: u64,
    path: Seq<u8>,
)
    requires
        hard_link_paths(walk, target_path, target_inode, target_dev).contains(path),
    ensures
        exists|i: int|
            0 <= i < walk.len() && (#[trigger] walk[i]).path == path && walk[i].metadata is Some
                && walk[i].metadata->0.device == target_dev && walk[i].metadata->0.inode
                == target_inode,
{
    let i = choose|i: int|
        0 <= i < walk.len() && (#[trigger] walk[i]).path == path && is_hard_link(
            walk[i],
            target_path,
            target_inode,
            target_dev,
        );
    assert(walk[i].metadata is Some && walk[i].metadata->0.device == target_dev);
}

/// Every path that the reflink matcher reports is the path of a candidate of
/// the walk that lies on the target's device, is another inode than the
/// target's, and has the target's size.
pub proof fn clones_lie_on_target_device(
    walk: Seq<CandidateModel>,
    target_extents: Seq<Extent>,
    target_dev: u64,
    target_inode: u64,
    target_size: u64,
    path: Seq<u8>,
)
    requires
        reflink_paths(walk, target_extents, target_dev, target_inode, target_size).contains(path),
    ensures
        exists|i: int|
            0 <= i < walk.len() && (#[trigger] walk[i]).entry.path == path && is_candidate(
                walk[i].entry,
                target_dev,
                target_inode,
                target_size,
            ),
{
    let i = choose|i: int|
        0 <= i < walk.len() && (#[trigger] walk[i]).entry.path == path && verdict_of(
            walk[i],
            target_extents,
            target_dev,
            target_inode,
            target_size,
        ) == Verdict::Match;
    assert(is_candidate(walk[i].entry, target_dev, target_inode, target_size));
}

/// A file whose size differs from the target's is never a clone of it,
/// whether its extents were read or not and whatever they are.
pub proof fn other_size_never_matches(
    candidate: CandidateModel,
    target_extents: Seq<Extent>,
    target_dev: u64,
    target_inode: u64,
    target_size: u64,
)
    requires
        candidate.entry.metadata is Some ==> candidate.entry.metadata->0.size != target_size,
    ensures
        verdict_of(candidate, target_extents, target_dev, target_inode, target_size)
            != Verdict::Match,
{
}

/// The comparison of extents minds their order: a sequence of extents shares
/// its storage with its own reversal only if its layout reads the same in
/// both directions.
pub proof fn reversed_extents_are_not_shared(extents: Seq<Extent>)
    ensures
        fully_shared(extents.reverse(), extents) <==> layout(extents).reverse() == layout(
            extents,
        ),
        layout(extents).reverse() != layout(extents) ==> !fully_shared(
            extents.reverse(),
            extents,
        ),
{
    assert(layout(extents.reverse()) =~= layout(extents).reverse());
}

/// The paths that a matcher selects depend on which items the walk yields,
/// not on their order nor on how often one is yielded.
pub proof fn selection_ignores_order<T>(
    first: Seq<T>,
    second: Seq<T>,
    path_of: spec_fn(T) -> Seq<u8>,
    wanted: spec_fn(T) -> bool,
)
    requires
        first.to_set() == second.to_set(),
    ensures
        paths_where(first, path_of, wanted) == paths_where(second, path_of, wanted),
{
    let a = paths_where(first, path_of, wanted);
    let b = paths_where(second, path_of, wanted);
    assert forall|p: Seq<u8>| a.contains(p) <==> b.contains(p) by {
        if a.contains(p) {
            let i = choose|i: int|
                0 <= i < first.len() && path_of(#[trigger] first[i]) == p && wanted(first[i]);
            assert(first.contains(first[i]));
            assert(second.to_set().contains(first[i]));
            let j = choose|j: int| 0 <= j < second.len() && second[j] == first[i];
            assert(path_of(second[j]) == p && wanted(second[j]));
        }
        if b.contains(p) {
            let i = choose|i: int|
                0 <= i < second.len() && path_of(#[trigger] second[i]) == p && wanted(second[i]);
            assert(second.contains(second[i]));
            assert(first.to_set().contains(second[i]));
            let j = choose|j: int| 0 <= j < first.len() && first[j] == second[i];
            assert(path_of(first[j]) == p && wanted(first[j]));
        }
    }
    assert(a =~= b);
}

/// A search of an unchanged file system reports the same records every time:
/// two runs under one plan whose walks yield the same entries, in whatever
/// order, find the same hard links and the same clones, and their aggregates
/// are equal record by record.
pub proof fn search_is_repeatable(
    plan: PlanModel,
    target_path: Seq<u8>,
    first_hardlink_walk: Seq<EntryModel>,
    second_hardlink_walk: Seq<EntryModel>,
    first_reflink_walk: Seq<CandidateModel>,
    second_reflink_walk: Seq<CandidateModel>,
    first_records: Seq<RecordModel>,
    second_records: Seq<RecordModel>,
)
    requires
        first_hardlink_walk.to_set() == second_hardlink_walk.to_set(),
        first_reflink_walk.to_set() == second_reflink_walk.to_set(),
        is_aggregate(
            first_records,
            hardlinks_of(plan, target_path, first_hardlink_walk),
            reflinks_of(plan, first_reflink_walk),
        ),
        is_aggregate(
            second_records,
            hardlinks_of(plan, target_path, second_hardlink_walk),
            reflinks_of(plan, second_reflink_walk),
        ),
    ensures
        hardlinks_of(plan, target_path, first_hardlink_walk) == hardlinks_of(
            plan,
            target_path,
            second_hardlink_walk,
        ),
        reflinks_of(plan, first_reflink_walk) == reflinks_of(plan, second_reflink_walk),
        first_records == second_records,
{
    selection_ignores_order(
        first_hardlink_walk,
        second_hardlink_walk,
        |e: EntryModel| e.path,
        |e: EntryModel| is_hard_link(e, target_path, plan.target.inode, plan.target.device),
    );
    if plan.target_extents is Some {
        selection_ignores_order(
            first_reflink_walk,
            second_reflink_walk,
            |c: CandidateModel| c.entry.path,
            |c: CandidateModel|
                verdict_of(
                    c,
                    plan.target_extents->0,
                    plan.target.device,
                    plan.target.inode,
                    plan.target.size,
                ) == Verdict::Match,
        );
    }
    aggregate_is_unique(
        first_records,
        second_records,
        hardlinks_of(plan, target_path, first_hardlink_walk),
        reflinks_of(plan, first_reflink_walk),
    );
}

/// A target with a single link, searched without force, has its hardlink
/// stage skipped, and the search reports no hard link, whatever a walk would
/// have yielded.
pub proof fn single_link_reports_no_hard_links(
    stat: Result<StatRecord, IoFailure>,
    fs_type: Result<u32, i32>,
    options: SearchOptions,
    target_path: Seq<u8>,
    walk: Seq<EntryModel>,
)
    requires
        stat is Ok,
        stat->Ok_0.link_count == 1,
        fs_type is Ok,
        !options.force_hardlink,
    ensures
        plan_of(stat, fs_type, options) is Ok,
        plan_of(stat, fs_type, options)->Ok_0.hardlink == StageStatus::Skipped(
            SkipReason::SingleLink,
        ),
        hardlinks_of(plan_of(stat, fs_type, options)->Ok_0, target_path, walk) == Set::<
            Seq<u8>,
        >::empty(),
{
}

/// A candidate whose extent query fails with a benign failure is dropped
/// without a diagnostic, and the search goes on as if the walk had never
/// yielded it: the clones found among the other candidates are the same.
pub proof fn benign_failure_is_dropped_silently(
    walk: Seq<CandidateModel>,
    place: int,
    candidate: CandidateModel,
    target_extents: Seq<Extent>,
    target_dev: u64,
    target_inode: u64,
    target_size: u64,
)
    requires
        0 <= place <= walk.len(),
        candidate.extents is Some,
        candidate.extents->0 is Err,
        candidate.extents->0->Err_0.benign() is Some,
    ensures
        verdict_of(candidate, target_extents, target_dev, target_inode, target_size)
            != Verdict::Match,
        !(verdict_of(candidate, target_extents, target_dev, target_inode, target_size)
            is Failed),
        reflink_paths(
            walk.insert(place, candidate),
            target_extents,
            target_dev,
            target_inode,
            target_size,
        ) == reflink_paths(walk, target_extents, target_dev, target_inode, target_size),
{
    let more = walk.insert(place, candidate);
    walk.insert_ensures(place, candidate);
    let a = reflink_paths(more, target_extents, target_dev, target_inode, target_size);
    let b = reflink_paths(walk, target_extents, target_dev, target_inode, target_size);
    assert forall|p: Seq<u8>| a.contains(p) <==> b.contains(p) by {
        if a.contains(p) {
            let i = choose|i: int|
                0 <= i < more.len() && (#[trigger] more[i]).entry.path == p && verdict_of(
                    more[i],
                    target_extents,
                    target_dev,
                    target_inode,
                    target_size,
                ) == Verdict::Match;
            if i < place {
                assert(walk[i] == more[i]);
            } else if i > place {
                assert(walk[i - 1] == more[i]);
            }
        }
        if b.contains(p) {
            let i = choose|i: int|
                0 <= i < walk.len() && (#[trigger] walk[i]).entry.path == p && verdict_of(
                    walk[i],
                    target_extents,
                    target_dev,
                    target_inode,
                    target_size,
                ) == Verdict::Match;
            if i < place {
                assert(more[i] == walk[i]);
            } else {
                assert(more[i + 1] == walk[i]);
            }
        }
    }
    assert(a =~= b);
}

} // verus!
