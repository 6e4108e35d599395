//! The course of one search: which stages run, what each of them needs from
//! the file system, and the report that their findings amount to.

use vstd::prelude::*;
use crate::extent::{physical_extents, query_view, retain_physical, Extent};
use crate::fstype::{classified, is_on_btrfs, FilesystemQueryError};
use crate::hardlink::{find_hard_links, hard_link_paths};
use crate::identity::{
    get_target_inode_info, identity_of, FileIdentity, IoFailure, MetadataError, StatRecord,
};
use crate::path_set::PathSet;
use crate::reflink::{
    candidate_models, find_reflinked_files_by_extents, reflink_paths, CandidateModel,
    ReflinkCandidate,
};
use crate::report::{aggregate, is_aggregate, record_models, MatchRecord};
use crate::walk::{entry_models, EntryModel, WalkEntry};

verus! {

/// What the caller asks of a search.
#[derive(Clone, Copy, Debug, PartialEq, Eq)]
pub struct SearchOptions {
    /// Do not look for clones, even on a copy-on-write file system.
    pub disable_reflink: bool,
    /// Look for hard links even if the target's link count is one.
    pub force_hardlink: bool,
    /// Leave hidden entries out of the walk.
    pub skip_hidden: bool,
}

/// Why a stage does not run.
#[derive(Clone, Copy, Debug, PartialEq, Eq)]
pub enum SkipReason {
    /// The target has one link, and the search was not forced.
    SingleLink,
    /// The target does not lie on a copy-on-write file system.
    NotCopyOnWrite,
    /// The caller disabled the stage.
    Disabled,
    /// The target's data is stored inline, so its extents say nothing.
    InlineTarget,
}

/// Whether a stage runs.
#[derive(Clone, Copy, Debug, PartialEq, Eq)]
pub enum StageStatus {
    Enabled,
    Skipped(SkipReason),
    /// The stage could not start: the target's extents could not be read.
    Failed(IoFailure),
}

/// The failures that end a search before any stage runs.
#[derive(Clone, Copy, Debug, PartialEq, Eq)]
pub enum FatalError {
    /// The target's metadata could not be read.
    TargetMetadata(MetadataError),
    /// The target's file system could not be queried for its type.
    FilesystemType(FilesystemQueryError),
}

/// The state of a search: the target, the status of the two stages and, once
/// they were read, the target's physical extents.
#[derive(Clone, Debug, PartialEq, Eq)]
pub struct SearchPlan {
    pub target: FileIdentity,
    pub cow_capable: bool,
    pub hardlink: StageStatus,
    pub reflink: StageStatus,
    pub target_extents: Option<Vec<Extent>>,
}

/// A plan as a plain value.
pub struct PlanModel {
    pub target: FileIdentity,
    pub cow_capable: bool,
    pub hardlink: StageStatus,
    pub reflink: StageStatus,
    pub target_extents: Option<Seq<Extent>>,
}

impl View for SearchPlan {
    type V = PlanModel;

    open spec fn view(&self) -> PlanModel {
        PlanModel {
            target: self.target,
            cow_capable: self.cow_capable,
            hardlink: self.hardlink,
            reflink: self.reflink,
            target_extents: match self.target_extents {
                Some(extents) => Some(extents@),
                None => None,
            },
        }
    }
}

/// What a search reports.
#[derive(Clone, Debug, PartialEq, Eq)]
pub struct SearchReport {
    pub target: FileIdentity,
    pub hardlink_status: StageStatus,
    pub reflink_status: StageStatus,
    pub records: Vec<MatchRecord>,
    pub hardlinks_found: usize,
    pub reflinks_found: usize,
    pub total: usize,
}

/// The hardlink stage runs when the target has more than one link, or when
/// it is forced.
pub open spec fn hardlink_status_of(target: FileIdentity, force: bool) -> StageStatus {
    if target.link_count > 1 || force {
        StageStatus::Enabled
    } else {
        StageStatus::Skipped(SkipReason::SingleLink)
    }
}

/// The reflink stage is planned when the target lies on a copy-on-write file
/// system and the stage is not disabled.
pub open spec fn reflink_status_of(cow_capable: bool, disabled: bool) -> StageStatus {
    if !cow_capable {
        StageStatus::Skipped(SkipReason::NotCopyOnWrite)
    } else if disabled {
        StageStatus::Skipped(SkipReason::Disabled)
    } else {
        StageStatus::Enabled
    }
}

/// The plan that follows from the two queries on the target: the failure of
/// the metadata query is fatal, then that of the file system query.
pub open spec fn plan_of(
    stat: Result<StatRecord, IoFailure>,
    fs_type: Result<u32, i32>,
    options: SearchOptions,
) -> Result<PlanModel, FatalError> {
    match identity_of(stat) {
        Err(e) => Err(FatalError::TargetMetadata(e)),
        Ok(target) => match classified(fs_type) {
            Err(e) => Err(FatalError::FilesystemType(e)),
            Ok(cow_capable) => Ok(
                PlanModel {
                    target,
                    cow_capable,
                    hardlink: hardlink_status_of(target, options.force_hardlink),
                    reflink: reflink_status_of(cow_capable, options.disable_reflink),
                    target_extents: None,
                },
            ),
        },
    }
}

/// A target of nonzero size without any physical extent keeps its data
/// inline.
pub open spec fn is_inline_target(extents: Seq<Extent>, target_size: u64) -> bool {
    extents.len() == 0 && target_size > 0
}

/// The plan after the target's extents were queried. A plan whose reflink
/// stage is not enabled, or that holds the extents already, stays as it is.
/// Otherwise a failed query fails the stage, an inline target skips it, and
/// any other target has its physical extents recorded.
pub open spec fn plan_with_extents(
    plan: PlanModel,
    mapped: Result<Seq<Extent>, IoFailure>,
) -> PlanModel {
    if plan.reflink != StageStatus::Enabled || plan.target_extents is Some {
        plan
    } else {
        match mapped {
            Err(failure) => PlanModel { reflink: StageStatus::Failed(failure), ..plan },
            Ok(raw) => if is_inline_target(physical_extents(raw), plan.target.size) {
                PlanModel { reflink: StageStatus::Skipped(SkipReason::InlineTarget), ..plan }
            } else {
                PlanModel { target_extents: Some(physical_extents(raw)), ..plan }
            },
        }
    }
}

/// The hard links that a search reports: those that the matcher finds in the
/// walk if the stage is enabled, and none otherwise.
pub open spec fn hardlinks_of(
    plan: PlanModel,
    target_path: Seq<u8>,
    walk: Seq<EntryModel>,
) -> Set<Seq<u8>> {
    if plan.hardlink == StageStatus::Enabled {
        hard_link_paths(walk, target_path, plan.target.inode, plan.target.device)
    } else {
        Set::empty()
    }
}

/// The clones that a search reports: those that the matcher finds in the walk
/// if the stage is enabled and the target's extents are known, and none
/// otherwise.
pub open spec fn reflinks_of(plan: PlanModel, walk: Seq<CandidateModel>) -> Set<Seq<u8>> {
    if plan.reflink == StageStatus::Enabled && plan.target_extents is Some {
        reflink_paths(
            walk,
            plan.target_extents->0,
            plan.target.device,
            plan.target.inode,
            plan.target.size,
        )
    } else {
        Set::empty()
    }
}

/// Whether the hardlink stage runs for this target.
pub fn hardlink_stage(target: &FileIdentity, force: bool) -> (status: StageStatus)
    ensures
        status == hardlink_status_of(*target, force),
{
    if target.link_count > 1 || force {
        StageStatus::Enabled
    } else {
        StageStatus::Skipped(SkipReason::SingleLink)
    }
}

/// Whether the reflink stage is planned on this file system.
pub fn reflink_stage(cow_capable: bool, disabled: bool) -> (status: StageStatus)
    ensures
        status == reflink_status_of(cow_capable, disabled),
{
    if !cow_capable {
        StageStatus::Skipped(SkipReason::NotCopyOnWrite)
    } else if disabled {
        StageStatus::Skipped(SkipReason::Disabled)
    } else {
        StageStatus::Enabled
    }
}

/// Plans a search from the outcomes of the metadata query and of the file
/// system query on the target. The search cannot proceed exactly when one of
/// the two failed.
pub fn plan_search(
    stat: Result<StatRecord, IoFailure>,
    fs_type: Result<u32, i32>,
    options: &SearchOptions,
) -> (plan: Result<SearchPlan, FatalError>)
    ensures
        match plan {
            Ok(p) => plan_of(stat, fs_type, *options) == Ok::<PlanModel, FatalError>(p@),
            Err(e) => plan_of(stat, fs_type, *options) == Err::<PlanModel, FatalError>(e),
        },
{
    let target = match get_target_inode_info(stat) {
        Ok(target) => target,
        Err(e) => {
            return Err(FatalError::TargetMetadata(e));
        },
    };
    let cow_capable = match is_on_btrfs(fs_type) {
        Ok(cow_capable) => cow_capable,
        Err(e) => {
            return Err(FatalError::FilesystemType(e));
        },
    };
    Ok(
        SearchPlan {
            target,
            cow_capable,
            hardlink: hardlink_stage(&target, options.force_hardlink),
            reflink: reflink_stage(cow_capable, options.disable_reflink),
            target_extents: None,
        },
    )
}

impl SearchPlan {
    /// Whether the tree is to be walked for hard links.
    pub fn wants_hardlink_walk(&self) -> (wanted: bool)
        ensures
            wanted == (self.hardlink == StageStatus::Enabled),
    {
        match self.hardlink {
            StageStatus::Enabled => true,
            _ => false,
        }
    }

    /// Whether the target's extents are to be queried next.
    pub fn wants_target_extents(&self) -> (wanted: bool)
        ensures
            wanted == (self.reflink == StageStatus::Enabled && self.target_extents is None),
    {
        match self.reflink {
            StageStatus::Enabled => self.target_extents.is_none(),
            _ => false,
        }
    }

    /// Whether the tree is to be walked for clones.
    pub fn wants_reflink_walk(&self) -> (wanted: bool)
        ensures
            wanted == (self.reflink == StageStatus::Enabled && self.target_extents is Some),
    {
        match self.reflink {
            StageStatus::Enabled => self.target_extents.is_some(),
            _ => false,
        }
    }

    /// Takes note of the outcome of the extent query on the target.
    pub fn with_target_extents(self, mapped: Result<Vec<Extent>, IoFailure>) -> (plan: SearchPlan)
        ensures
            plan@ == plan_with_extents(self@, query_view(mapped)),
    {
        if !self.wants_target_extents() {
            return self;
        }
        match mapped {
            Err(failure) => SearchPlan {
                target: self.target,
                cow_capable: self.cow_capable,
                hardlink: self.hardlink,
                reflink: StageStatus::Failed(failure),
                target_extents: None,
            },
            Ok(raw) => {
                let extents = retain_physical(raw.as_slice());
                if extents.len() == 0 && self.target.size > 0 {
                    SearchPlan {
                        target: self.target,
                        cow_capable: self.cow_capable,
                        hardlink: self.hardlink,
                        reflink: StageStatus::Skipped(SkipReason::InlineTarget),
                        target_extents: None,
                    }
                } else {
                    SearchPlan {
                        target: self.target,
                        cow_capable: self.cow_capable,
                        hardlink: self.hardlink,
                        reflink: StageStatus::Enabled,
                        target_extents: Some(extents),
                    }
                }
            },
        }
    }
}

/// Runs the two matchers over what the walks yielded, each only if its stage
/// is enabled, and aggregates their findings into the report.
pub fn build_report(
    plan: &SearchPlan,
    target_path: &[u8],
    hardlink_walk: &Vec<WalkEntry>,
    reflink_walk: &Vec<ReflinkCandidate>,
) -> (report: SearchReport)
    ensures
        report.target == plan.target,
        report.hardlink_status == plan.hardlink,
        report.reflink_status == plan.reflink,
        is_aggregate(
            record_models(report.records@),
            hardlinks_of(plan@, target_path@, entry_models(hardlink_walk@)),
            reflinks_of(plan@, candidate_models(reflink_walk@)),
        ),
        report.hardlinks_found == hardlinks_of(
            plan@,
            target_path@,
            entry_models(hardlink_walk@),
        ).len(),
        report.reflinks_found == reflinks_of(plan@, candidate_models(reflink_walk@)).len(),
        report.total == report.records.len(),
        report.total == hardlinks_of(plan@, target_path@, entry_models(hardlink_walk@)).union(
            reflinks_of(plan@, candidate_models(reflink_walk@)),
        ).len(),
{
    let hardlinks = if plan.wants_hardlink_walk() {
        find_hard_links(hardlink_walk, target_path, plan.target.inode, plan.target.device)
    } else {
        PathSet::new()
    };
    let reflinks = match &plan.target_extents {
        Some(extents) => {
            if plan.wants_reflink_walk() {
                find_reflinked_files_by_extents(
                    reflink_walk,
                    extents.as_slice(),
                    plan.target.device,
                    plan.target.inode,
                    plan.target.size,
                )
            } else {
                PathSet::new()
            }
        },
        None => PathSet::new(),
    };
    let records = aggregate(&hardlinks, &reflinks);
    let total = records.len();
    SearchReport {
        target: plan.target,
        hardlink_status: plan.hardlink,
        reflink_status: plan.reflink,
        records,
        hardlinks_found: hardlinks.len(),
        reflinks_found: reflinks.len(),
        total,
    }
}

} // verus!
