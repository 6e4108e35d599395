//! Result aggregator: merges what the two matchers found into one list of
//! records, each path once, tagged with the relation that produced it, in
//! ascending order of the paths.

use vstd::prelude::*;
use crate::identity::FileIdentity;
use crate::path::{
    copy_path, path_lt, path_lt_asymmetric, path_lt_irreflexive, strictly_sorted,
    strictly_sorted_no_duplicates,
};
use crate::path_set::PathSet;

verus! {

/// The relation in which a found path stands to the target.
#[derive(Clone, Copy, Debug, PartialEq, Eq)]
pub enum Relation {
    /// Another name of the target's inode.
    Hardlink,
    /// A different inode that shares the target's extents.
    Reflink,
    /// Neither could be confirmed.
    Unknown,
}

/// One path of the report with its relation to the target.
#[derive(Clone, Debug, PartialEq, Eq)]
pub struct MatchRecord {
    pub path: Vec<u8>,
    pub relation: Relation,
}

/// A record as a plain value.
pub struct RecordModel {
    pub path: Seq<u8>,
    pub relation: Relation,
}

impl View for MatchRecord {
    type V = RecordModel;

    open spec fn view(&self) -> RecordModel {
        RecordModel { path: self.path@, relation: self.relation }
    }
}

/// The records of a report as plain values, in their order.
pub open spec fn record_models(records: Seq<MatchRecord>) -> Seq<RecordModel> {
    records.map_values(|r: MatchRecord| r@)
}

/// The paths of the records, in their order.
pub open spec fn record_paths(records: Seq<RecordModel>) -> Seq<Seq<u8>> {
    records.map_values(|r: RecordModel| r.path)
}

/// The relation with which a path is tagged: a path that the hardlink matcher
/// found is a hard link, whatever the reflink matcher says of it.
pub open spec fn relation_of(
    path: Seq<u8>,
    hardlinks: Set<Seq<u8>>,
    reflinks: Set<Seq<u8>>,
) -> Relation {
    if hardlinks.contains(path) {
        Relation::Hardlink
    } else if reflinks.contains(path) {
        Relation::Reflink
    } else {
        Relation::Unknown
    }
}

/// `records` is the aggregate of the two match sets: it holds exactly the
/// paths of their union, each once, in ascending order, and each tagged with
/// its relation.
pub open spec fn is_aggregate(
    records: Seq<RecordModel>,
    hardlinks: Set<Seq<u8>>,
    reflinks: Set<Seq<u8>>,
) -> bool {
    &&& strictly_sorted(record_paths(records))
    &&& record_paths(records).to_set() == hardlinks.union(reflinks)
    &&& forall|i: int|
        0 <= i < records.len() ==> (#[trigger] records[i]).relation == relation_of(
            records[i].path,
            hardlinks,
            reflinks,
        )
}

/// The relation that a fresh look at a reported path confirms: a file on
/// another device than the target's confirms nothing; on the target's device
/// the target's inode is a hard link, and any other inode is a clone if the
/// reflink search ran.
pub open spec fn confirmed_relation(
    observed: FileIdentity,
    target: FileIdentity,
    reflink_searched: bool,
) -> Relation {
    if observed.device != target.device {
        Relation::Unknown
    } else if observed.inode == target.inode {
        Relation::Hardlink
    } else if reflink_searched {
        Relation::Reflink
    } else {
        Relation::Unknown
    }
}

/// Two strictly ascending sequences of paths that hold the same paths are the
/// same sequence.
pub proof fn ascending_paths_unique(a: Seq<Seq<u8>>, b: Seq<Seq<u8>>)
    requires
        strictly_sorted(a),
        strictly_sorted(b),
        a.to_set() == b.to_set(),
    ensures
        a == b,
    decreases a.len(),
{
    strictly_sorted_no_duplicates(a);
    strictly_sorted_no_duplicates(b);
    a.unique_seq_to_set();
    b.unique_seq_to_set();
    assert(a.len() == b.len());
    if a.len() > 0 {
        let x = a.last();
        let y = b.last();
        assert(a.contains(x));
        assert(b.contains(y));
        assert(b.to_set().contains(x));
        assert(a.to_set().contains(y));
        let j = choose|j: int| 0 <= j < b.len() && b[j] == x;
        let k = choose|k: int| 0 <= k < a.len() && a[k] == y;
        if j < b.len() - 1 {
            assert(path_lt(b[j], b[b.len() - 1]));
        }
        if k < a.len() - 1 {
            assert(path_lt(a[k], a[a.len() - 1]));
        }
        path_lt_asymmetric(x, y);
        assert(x == y);
        let a0 = a.drop_last();
        let b0 = b.drop_last();
        assert forall|p: Seq<u8>| a0.to_set().contains(p) <==> b0.to_set().contains(p) by {
            if a0.contains(p) {
                let i = choose|i: int| 0 <= i < a0.len() && a0[i] == p;
                assert(a[i] == p);
                assert(a.contains(p));
                assert(b.to_set().contains(p));
                let m = choose|m: int| 0 <= m < b.len() && b[m] == p;
                assert(path_lt(a[i], a[a.len() - 1]));
                path_lt_irreflexive(x);
                assert(m < b.len() - 1);
                assert(b0[m] == p);
            }
            if b0.contains(p) {
                let i = choose|i: int| 0 <= i < b0.len() && b0[i] == p;
                assert(b[i] == p);
                assert(b.contains(p));
                assert(a.to_set().contains(p));
                let m = choose|m: int| 0 <= m < a.len() && a[m] == p;
                assert(path_lt(b[i], b[b.len() - 1]));
                path_lt_irreflexive(x);
                assert(m < a.len() - 1);
                assert(a0[m] == p);
            }
        }
        assert(a0.to_set() =~= b0.to_set());
        assert(strictly_sorted(a0)) by {
            assert forall|i: int, j: int| 0 <= i < j < a0.len() implies path_lt(a0[i], a0[j]) by {
                assert(a0[i] == a[i] && a0[j] == a[j]);
            }
        }
        assert(strictly_sorted(b0)) by {
            assert forall|i: int, j: int| 0 <= i < j < b0.len() implies path_lt(b0[i], b0[j]) by {
                assert(b0[i] == b[i] && b0[j] == b[j]);
            }
        }
        ascending_paths_unique(a0, b0);
        assert(a =~= a0.push(x));
        assert(b =~= b0.push(y));
    } else {
        assert(a =~= b);
    }
}

/// The aggregate of two match sets is determined by the sets: whatever two
/// sequences of records are aggregates of the same sets, they are equal.
pub proof fn aggregate_is_unique(
    first: Seq<RecordModel>,
    second: Seq<RecordModel>,
    hardlinks: Set<Seq<u8>>,
    reflinks: Set<Seq<u8>>,
)
    requires
        is_aggregate(first, hardlinks, reflinks),
        is_aggregate(second, hardlinks, reflinks),
    ensures
        first == second,
{
    ascending_paths_unique(record_paths(first), record_paths(second));
    assert(first.len() == second.len()) by {
        assert(record_paths(first).len() == first.len());
        assert(record_paths(second).len() == second.len());
    }
    assert forall|i: int| 0 <= i < first.len() implies first[i] == second[i] by {
        assert(record_paths(first)[i] == first[i].path);
        assert(record_paths(second)[i] == second[i].path);
    }
    assert(first =~= second);
}

/// Merges the findings of the two matchers: every path of either set once,
/// tagged as a hard link if the hardlink matcher found it and as a clone
/// otherwise, in ascending order of the paths.
pub fn aggregate(hardlinks: &PathSet, reflinks: &PathSet) -> (records: Vec<MatchRecord>)
    ensures
        is_aggregate(record_models(records@), hardlinks@, reflinks@),
        records.len() == hardlinks@.union(reflinks@).len(),
{
    let mut all = PathSet::new();
    all.extend(hardlinks);
    all.extend(reflinks);
    proof {
        assert(all@ =~= hardlinks@.union(reflinks@));
    }
    let n = all.len();
    let ghost paths = all.ordered();
    let mut records: Vec<MatchRecord> = Vec::new();
    let mut i: usize = 0;
    while i < n
        invariant
            i <= n,
            n == paths.len(),
            paths == all.ordered(),
            all@ == hardlinks@.union(reflinks@),
            records.len() == i,
            record_paths(record_models(records@)) == paths.take(i as int),
            forall|j: int|
                0 <= j < i ==> (#[trigger] record_models(records@)[j]).relation == relation_of(
                    record_models(records@)[j].path,
                    hardlinks@,
                    reflinks@,
                ),
        decreases n - i,
    {
        let path = all.get(i);
        let relation = if hardlinks.contains(path.as_slice()) {
            Relation::Hardlink
        } else {
            Relation::Reflink
        };
        let record = MatchRecord { path: copy_path(path.as_slice()), relation };
        let ghost before = record_models(records@);
        records.push(record);
        proof {
            assert(record_models(records@) =~= before.push(record@));
            assert(record_paths(record_models(records@)) =~= paths.take(i + 1));
            assert(all@.contains(path@));
        }
        i += 1;
    }
    proof {
        assert(paths.take(i as int) =~= paths);
    }
    records
}

/// Looks again at a reported path and says which relation its present
/// identity confirms.
pub fn classify(observed: &FileIdentity, target: &FileIdentity, reflink_searched: bool) -> (relation:
    Relation)
    ensures
        relation == confirmed_relation(*observed, *target, reflink_searched),
{
    if observed.device != target.device {
        Relation::Unknown
    } else if observed.inode == target.inode {
        Relation::Hardlink
    } else if reflink_searched {
        Relation::Reflink
    } else {
        Relation::Unknown
    }
}

} // verus!
