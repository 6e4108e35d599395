//! Reflink matcher: the entries of a walk whose data lies in the very extents
//! of the target, as a copy-on-write clone's does.

use vstd::prelude::*;
use crate::extent::{
    benign_failure, fully_shared, fully_shared_pointwise, physical_extents, retain_physical,
    same_extents, BenignFailure, Extent,
};
use crate::identity::IoFailure;
use crate::path::copy_path;
use crate::path_set::PathSet;
use crate::walk::{paths_where, paths_where_none, paths_where_push, EntryModel, WalkEntry};

verus! {

/// An entry of the walk together with the outcome of the extent query on it;
/// `None` where the file was not queried.
#[derive(Clone, Debug, PartialEq, Eq)]
pub struct ReflinkCandidate {
    pub entry: WalkEntry,
    pub extents: Option<Result<Vec<Extent>, IoFailure>>,
}

/// A candidate as a plain value.
pub struct CandidateModel {
    pub entry: EntryModel,
    pub extents: Option<Result<Seq<Extent>, IoFailure>>,
}

impl View for ReflinkCandidate {
    type V = CandidateModel;

    open spec fn view(&self) -> CandidateModel {
        CandidateModel {
            entry: self.entry@,
            extents: match self.extents {
                Some(Ok(mapped)) => Some(Ok(mapped@)),
                Some(Err(failure)) => Some(Err(failure)),
                None => None,
            },
        }
    }
}

/// The candidates of a walk as plain values, in the order of the walk.
pub open spec fn candidate_models(candidates: Seq<ReflinkCandidate>) -> Seq<CandidateModel> {
    candidates.map_values(|c: ReflinkCandidate| c@)
}

/// What the matcher finds about one candidate.
#[derive(Clone, Copy, Debug, PartialEq, Eq)]
pub enum Verdict {
    /// The candidate shares every extent with the target.
    Match,
    /// The candidate is no clone of the target.
    NoMatch,
    /// The candidate could not be compared, for a reason not worth a word.
    Unreadable(BenignFailure),
    /// The candidate could not be compared, and the failure is to be reported.
    Failed(IoFailure),
}

/// An entry is worth an extent query when it lies on the target's device, is
/// no directory, is not the target's own inode, and has the target's size.
pub open spec fn is_candidate(
    entry: EntryModel,
    target_dev: u64,
    target_inode: u64,
    target_size: u64,
) -> bool {
    &&& entry.metadata matches Some(record)
    &&& record.device == target_dev
    &&& !record.is_dir
    &&& record.inode != target_inode
    &&& record.size == target_size
}

/// The verdict on one candidate.
pub open spec fn verdict_of(
    candidate: CandidateModel,
    target_extents: Seq<Extent>,
    target_dev: u64,
    target_inode: u64,
    target_size: u64,
) -> Verdict {
    if !is_candidate(candidate.entry, target_dev, target_inode, target_size) {
        Verdict::NoMatch
    } else {
        match candidate.extents {
            None => Verdict::NoMatch,
            Some(Err(failure)) => match failure.benign() {
                Some(benign) => Verdict::Unreadable(benign),
                None => Verdict::Failed(failure),
            },
            Some(Ok(mapped)) => if fully_shared(physical_extents(mapped), target_extents) {
                Verdict::Match
            } else {
                Verdict::NoMatch
            },
        }
    }
}

/// The paths of the candidates that share every extent with the target.
pub open spec fn reflink_paths(
    candidates: Seq<CandidateModel>,
    target_extents: Seq<Extent>,
    target_dev: u64,
    target_inode: u64,
    target_size: u64,
) -> Set<Seq<u8>> {
    paths_where(
        candidates,
        |c: CandidateModel| c.entry.path,
        |c: CandidateModel|
            verdict_of(c, target_extents, target_dev, target_inode, target_size)
                == Verdict::Match,
    )
}

/// Whether the extents of an entry are worth querying at all: directories,
/// the target's own inode, files of another size and entries of other devices
/// are rejected before any query.
pub fn needs_extents(
    entry: &WalkEntry,
    target_dev: u64,
    target_inode: u64,
    target_size: u64,
) -> (needed: bool)
    ensures
        needed == is_candidate(entry@, target_dev, target_inode, target_size),
{
    match entry.metadata {
        Some(record) => record.device == target_dev && !record.is_dir && record.inode
            != target_inode && record.size == target_size,
        None => false,
    }
}

/// Judges one candidate against the target's extents: rejects it before any
/// comparison where `needs_extents` does, drops it where its extents could
/// not be read, and otherwise compares its physical extents, in order, with
/// the target's.
pub fn reflink_verdict(
    candidate: &ReflinkCandidate,
    target_extents: &[Extent],
    target_dev: u64,
    target_inode: u64,
    target_size: u64,
) -> (verdict: Verdict)
    ensures
        verdict == verdict_of(candidate@, target_extents@, target_dev, target_inode, target_size),
{
    if !needs_extents(&candidate.entry, target_dev, target_inode, target_size) {
        return Verdict::NoMatch;
    }
    match &candidate.extents {
        None => Verdict::NoMatch,
        Some(Err(failure)) => match benign_failure(failure) {
            Some(benign) => Verdict::Unreadable(benign),
            None => Verdict::Failed(*failure),
        },
        Some(Ok(mapped)) => {
            let extents = retain_physical(mapped.as_slice());
            if extents.len() != target_extents.len() {
                proof {
                    fully_shared_pointwise(extents@, target_extents@);
                }
                Verdict::NoMatch
            } else if same_extents(extents.as_slice(), target_extents) {
                Verdict::Match
            } else {
                Verdict::NoMatch
            }
        },
    }
}

/// Collects, from the candidates of a walk, the paths of the files that are
/// clones of the target: those that pass `needs_extents` and whose physical
/// extents equal the target's, pair by pair in order.
pub fn find_reflinked_files_by_extents(
    candidates: &Vec<ReflinkCandidate>,
    target_extents: &[Extent],
    target_dev: u64,
    target_inode: u64,
    target_size: u64,
) -> (clones: PathSet)
    ensures
        clones@ == reflink_paths(
            candidate_models(candidates@),
            target_extents@,
            target_dev,
            target_inode,
            target_size,
        ),
{
    let mut clones = PathSet::new();
    let ghost models = candidate_models(candidates@);
    let mut i: usize = 0;
    proof {
        assert(models.take(0) =~= Seq::<CandidateModel>::empty());
        paths_where_none(
            |c: CandidateModel| c.entry.path,
            |c: CandidateModel|
                verdict_of(c, target_extents@, target_dev, target_inode, target_size)
                    == Verdict::Match,
        );
    }
    while i < candidates.len()
        invariant
            i <= candidates.len(),
            models == candidate_models(candidates@),
            clones@ == reflink_paths(
                models.take(i as int),
                target_extents@,
                target_dev,
                target_inode,
                target_size,
            ),
        decreases candidates.len() - i,
    {
        let candidate = &candidates[i];
        proof {
            assert(models.take(i + 1) =~= models.take(i as int).push(candidate@));
            paths_where_push(
                models.take(i as int),
                candidate@,
                |c: CandidateModel| c.entry.path,
                |c: CandidateModel|
                    verdict_of(c, target_extents@, target_dev, target_inode, target_size)
                        == Verdict::Match,
            );
        }
        match reflink_verdict(candidate, target_extents, target_dev, target_inode, target_size) {
            Verdict::Match => {
                clones.insert(copy_path(candidate.entry.path.as_slice()));
            },
            _ => {},
        }
        i += 1;
    }
    proof {
        assert(models.take(i as int) =~= models);
    }
    clones
}

} // verus!
