//! Bounded tree walker: what one traversal pass is configured with, what it
//! yields, and the rule by which it prunes entries of other devices.

use vstd::prelude::*;
use crate::identity::StatRecord;

verus! {

/// The configuration of one traversal pass.
#[derive(Clone, Debug, PartialEq, Eq)]
pub struct TraversalScope {
    pub root: Vec<u8>,
    pub device: u64,
    pub skip_hidden: bool,
}

/// One entry that the walker yields: its path and, where it could be read,
/// its metadata.
#[derive(Clone, Debug, PartialEq, Eq)]
pub struct WalkEntry {
    pub path: Vec<u8>,
    pub metadata: Option<StatRecord>,
}

/// A walker entry as a plain value.
pub struct EntryModel {
    pub path: Seq<u8>,
    pub metadata: Option<StatRecord>,
}

impl View for WalkEntry {
    type V = EntryModel;

    open spec fn view(&self) -> EntryModel {
        EntryModel { path: self.path@, metadata: self.metadata }
    }
}

/// The entries of a walk as plain values, in the order of the walk.
pub open spec fn entry_models(entries: Seq<WalkEntry>) -> Seq<EntryModel> {
    entries.map_values(|e: WalkEntry| e@)
}

/// An entry stays in the walk when its metadata could be read and names the
/// device of the scope.
pub open spec fn on_device(metadata: Option<StatRecord>, device: u64) -> bool {
    match metadata {
        Some(record) => record.device == device,
        None => false,
    }
}

/// The paths of those items of `items` that `wanted` accepts.
pub open spec fn paths_where<T>(
    items: Seq<T>,
    path_of: spec_fn(T) -> Seq<u8>,
    wanted: spec_fn(T) -> bool,
) -> Set<Seq<u8>> {
    Set::new(
        |p: Seq<u8>|
            exists|i: int| 0 <= i < items.len() && path_of(#[trigger] items[i]) == p && wanted(items[i]),
    )
}

/// No item, no path.
pub proof fn paths_where_none<T>(path_of: spec_fn(T) -> Seq<u8>, wanted: spec_fn(T) -> bool)
    ensures
        paths_where(Seq::<T>::empty(), path_of, wanted) == Set::<Seq<u8>>::empty(),
{
    assert(paths_where(Seq::<T>::empty(), path_of, wanted) =~= Set::<Seq<u8>>::empty());
}

/// One more item adds its path if it is wanted, and nothing otherwise.
pub proof fn paths_where_push<T>(
    items: Seq<T>,
    item: T,
    path_of: spec_fn(T) -> Seq<u8>,
    wanted: spec_fn(T) -> bool,
)
    ensures
        paths_where(items.push(item), path_of, wanted) == if wanted(item) {
            paths_where(items, path_of, wanted).insert(path_of(item))
        } else {
            paths_where(items, path_of, wanted)
        },
{
    let more = items.push(item);
    let before = paths_where(items, path_of, wanted);
    let after = paths_where(more, path_of, wanted);
    let expected = if wanted(item) {
        before.insert(path_of(item))
    } else {
        before
    };
    assert forall|p: Seq<u8>| after.contains(p) <==> expected.contains(p) by {
        if after.contains(p) {
            let i = choose|i: int|
                0 <= i < more.len() && path_of(#[trigger] more[i]) == p && wanted(more[i]);
            if i < items.len() {
                assert(items[i] == more[i]);
            }
        }
        if before.contains(p) {
            let i = choose|i: int|
                0 <= i < items.len() && path_of(#[trigger] items[i]) == p && wanted(items[i]);
            assert(more[i] == items[i]);
        }
        if wanted(item) && p == path_of(item) {
            assert(more[items.len() as int] == item);
        }
    }
    assert(after =~= expected);
}

/// Whether the walk keeps an entry with this metadata: only entries on the
/// device of the scope are kept, and the walk does not descend into others.
pub fn retain_entry(metadata: &Option<StatRecord>, scope: &TraversalScope) -> (keep: bool)
    ensures
        keep == on_device(*metadata, scope.device),
{
    match metadata {
        Some(record) => record.device == scope.device,
        None => false,
    }
}

} // verus!
