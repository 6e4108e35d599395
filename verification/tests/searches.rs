use inofd::extent::{Extent, FIEMAP_EXTENT_FLAG_INLINE};
use inofd::fstype::FilesystemQueryError;
use inofd::identity::{FailureKind, FileIdentity, IoFailure, MetadataError, StatRecord};
use inofd::path_set::PathSet;
use inofd::reflink::ReflinkCandidate;
use inofd::report::{aggregate, classify, MatchRecord, Relation};
use inofd::search::{
    build_report, hardlink_stage, plan_search, reflink_stage, FatalError, SearchOptions,
    SearchPlan, SkipReason, StageStatus,
};
use inofd::walk::WalkEntry;

const BTRFS: u32 = 0x9123683E;
const EXT4: u32 = 0xEF53;

fn p(s: &str) -> Vec<u8> {
    s.as_bytes().to_vec()
}

fn options() -> SearchOptions {
    SearchOptions { disable_reflink: false, force_hardlink: false, skip_hidden: false }
}

fn target(link_count: u64, size: u64) -> StatRecord {
    StatRecord { inode: 42, device: 10, link_count, size, is_dir: false }
}

fn file(path: &str, inode: u64, device: u64, size: u64) -> WalkEntry {
    WalkEntry {
        path: p(path),
        metadata: Some(StatRecord { inode, device, link_count: 1, size, is_dir: false }),
    }
}

fn extent(physical_offset: u64, length: u64) -> Extent {
    Extent { physical_offset, length, flags: 0 }
}

fn mapped(entry: WalkEntry, extents: Vec<Extent>) -> ReflinkCandidate {
    ReflinkCandidate { entry, extents: Some(Ok(extents)) }
}

fn record(path: &str, relation: Relation) -> MatchRecord {
    MatchRecord { path: p(path), relation }
}

fn set_of(paths: &[&str]) -> PathSet {
    let mut set = PathSet::new();
    for path in paths {
        set.insert(p(path));
    }
    set
}

#[test]
fn a_plan_holds_the_identity_and_both_stages() {
    let plan = plan_search(Ok(target(3, 15)), Ok(BTRFS), &options()).unwrap();
    assert_eq!(plan.target, FileIdentity { inode: 42, device: 10, link_count: 3, size: 15 });
    assert!(plan.cow_capable);
    assert_eq!(plan.hardlink, StageStatus::Enabled);
    assert_eq!(plan.reflink, StageStatus::Enabled);
    assert_eq!(plan.target_extents, None);
    assert!(plan.wants_hardlink_walk());
    assert!(plan.wants_target_extents());
    assert!(!plan.wants_reflink_walk());
}

#[test]
fn an_unreadable_target_is_fatal() {
    let stat = Err(IoFailure { kind: FailureKind::NotFound, os_code: Some(2) });
    assert_eq!(
        plan_search(stat, Ok(BTRFS), &options()),
        Err(FatalError::TargetMetadata(MetadataError::NotFound))
    );
    let stat = Err(IoFailure { kind: FailureKind::Other, os_code: Some(5) });
    assert_eq!(
        plan_search(stat, Err(13), &options()),
        Err(FatalError::TargetMetadata(MetadataError::Other(Some(5))))
    );
}

#[test]
fn an_unreadable_file_system_is_fatal() {
    assert_eq!(
        plan_search(Ok(target(3, 15)), Err(13), &options()),
        Err(FatalError::FilesystemType(FilesystemQueryError { errno: 13 }))
    );
}

#[test]
fn a_single_link_skips_the_hardlink_stage() {
    let plan = plan_search(Ok(target(1, 15)), Ok(EXT4), &options()).unwrap();
    assert_eq!(plan.hardlink, StageStatus::Skipped(SkipReason::SingleLink));
    assert!(!plan.wants_hardlink_walk());
    let walk = vec![file("/d/b", 42, 10, 15)];
    let report = build_report(&plan, b"/d/target", &walk, &Vec::new());
    assert_eq!(report.records, Vec::<MatchRecord>::new());
    assert_eq!(report.hardlinks_found, 0);
    assert_eq!(report.total, 0);
    assert_eq!(report.hardlink_status, StageStatus::Skipped(SkipReason::SingleLink));
}

#[test]
fn force_runs_the_hardlink_stage_on_a_single_link() {
    let forced = SearchOptions { force_hardlink: true, ..options() };
    let plan = plan_search(Ok(target(1, 15)), Ok(EXT4), &forced).unwrap();
    assert_eq!(plan.hardlink, StageStatus::Enabled);
    assert_eq!(hardlink_stage(&plan.target, true), StageStatus::Enabled);
    assert_eq!(hardlink_stage(&plan.target, false), StageStatus::Skipped(SkipReason::SingleLink));
    let walk = vec![file("/d/b", 42, 10, 15)];
    let report = build_report(&plan, b"/d/target", &walk, &Vec::new());
    assert_eq!(report.records, vec![record("/d/b", Relation::Hardlink)]);
}

#[test]
fn a_link_count_of_zero_skips_the_hardlink_stage() {
    let identity = FileIdentity { inode: 1, device: 1, link_count: 0, size: 0 };
    assert_eq!(hardlink_stage(&identity, false), StageStatus::Skipped(SkipReason::SingleLink));
    let two = FileIdentity { inode: 1, device: 1, link_count: 2, size: 0 };
    assert_eq!(hardlink_stage(&two, false), StageStatus::Enabled);
}

#[test]
fn the_reflink_stage_needs_a_copy_on_write_file_system() {
    assert_eq!(reflink_stage(false, false), StageStatus::Skipped(SkipReason::NotCopyOnWrite));
    assert_eq!(reflink_stage(false, true), StageStatus::Skipped(SkipReason::NotCopyOnWrite));
    assert_eq!(reflink_stage(true, true), StageStatus::Skipped(SkipReason::Disabled));
    assert_eq!(reflink_stage(true, false), StageStatus::Enabled);
    let plan = plan_search(Ok(target(3, 15)), Ok(EXT4), &options()).unwrap();
    assert!(!plan.cow_capable);
    assert_eq!(plan.reflink, StageStatus::Skipped(SkipReason::NotCopyOnWrite));
    assert!(!plan.wants_target_extents());
    let disabled = SearchOptions { disable_reflink: true, ..options() };
    let plan = plan_search(Ok(target(3, 15)), Ok(BTRFS), &disabled).unwrap();
    assert_eq!(plan.reflink, StageStatus::Skipped(SkipReason::Disabled));
    assert!(!plan.wants_target_extents());
    assert!(!plan.wants_reflink_walk());
}

#[test]
fn two_hard_links_on_the_device_and_one_number_elsewhere() {
    let plan = plan_search(Ok(target(3, 15)), Ok(EXT4), &options()).unwrap();
    let walk = vec![
        file("/d/target", 42, 10, 15),
        file("/d/y", 42, 10, 15),
        file("/d2/z", 42, 20, 15),
        file("/d/x", 42, 10, 15),
    ];
    let report = build_report(&plan, b"/d/target", &walk, &Vec::new());
    assert_eq!(
        report.records,
        vec![record("/d/x", Relation::Hardlink), record("/d/y", Relation::Hardlink)]
    );
    assert_eq!(report.hardlinks_found, 2);
    assert_eq!(report.reflinks_found, 0);
    assert_eq!(report.total, 2);
    assert_eq!(report.target, FileIdentity { inode: 42, device: 10, link_count: 3, size: 15 });
    assert_eq!(report.hardlink_status, StageStatus::Enabled);
    assert_eq!(report.reflink_status, StageStatus::Skipped(SkipReason::NotCopyOnWrite));
}

#[test]
fn a_clone_in_order_is_reported_and_a_reversed_one_is_not() {
    let plan = plan_search(Ok(target(1, 15)), Ok(BTRFS), &options()).unwrap();
    let plan = plan.with_target_extents(Ok(vec![extent(100, 10), extent(200, 5)]));
    assert_eq!(plan.reflink, StageStatus::Enabled);
    assert_eq!(plan.target_extents, Some(vec![extent(100, 10), extent(200, 5)]));
    assert!(plan.wants_reflink_walk());
    assert!(!plan.wants_target_extents());
    let walk = vec![
        mapped(file("/d/e", 51, 10, 15), vec![extent(200, 5), extent(100, 10)]),
        mapped(file("/d/c", 50, 10, 15), vec![extent(100, 10), extent(200, 5)]),
    ];
    let report = build_report(&plan, b"/d/target", &Vec::new(), &walk);
    assert_eq!(report.records, vec![record("/d/c", Relation::Reflink)]);
    assert_eq!(report.hardlinks_found, 0);
    assert_eq!(report.reflinks_found, 1);
    assert_eq!(report.total, 1);
    assert_eq!(report.reflink_status, StageStatus::Enabled);
}

#[test]
fn an_inline_target_skips_the_reflink_stage_only() {
    let plan = plan_search(Ok(target(3, 50)), Ok(BTRFS), &options()).unwrap();
    let plan = plan.with_target_extents(Ok(Vec::new()));
    assert_eq!(plan.reflink, StageStatus::Skipped(SkipReason::InlineTarget));
    assert_eq!(plan.hardlink, StageStatus::Enabled);
    assert!(!plan.wants_reflink_walk());
    assert!(plan.wants_hardlink_walk());
    let hard_walk = vec![file("/d/b", 42, 10, 50)];
    let reflink_walk = vec![mapped(file("/d/c", 50, 10, 50), Vec::new())];
    let report = build_report(&plan, b"/d/target", &hard_walk, &reflink_walk);
    assert_eq!(report.records, vec![record("/d/b", Relation::Hardlink)]);
    assert_eq!(report.reflink_status, StageStatus::Skipped(SkipReason::InlineTarget));
    assert_eq!(report.reflinks_found, 0);
}

#[test]
fn a_target_of_one_inline_extent_is_inline() {
    let plan = plan_search(Ok(target(3, 50)), Ok(BTRFS), &options()).unwrap();
    let plan = plan
        .with_target_extents(Ok(vec![Extent { physical_offset: 0, length: 50, flags: 0x201 }]));
    assert_eq!(plan.reflink, StageStatus::Skipped(SkipReason::InlineTarget));
    assert!(!plan.wants_reflink_walk());
    assert!(plan.wants_hardlink_walk());
}

#[test]
fn reports_are_ordered_name_by_name() {
    let plan = plan_search(Ok(target(3, 15)), Ok(EXT4), &options()).unwrap();
    let walk = vec![
        file("/d/photos-old/x", 42, 10, 15),
        file("/d/photos/x", 42, 10, 15),
        file("/d/photos", 42, 10, 15),
        file("/d/photos.bak", 42, 10, 15),
    ];
    let report = build_report(&plan, b"/d/target", &walk, &Vec::new());
    assert_eq!(
        report.records,
        vec![
            record("/d/photos", Relation::Hardlink),
            record("/d/photos/x", Relation::Hardlink),
            record("/d/photos-old/x", Relation::Hardlink),
            record("/d/photos.bak", Relation::Hardlink),
        ]
    );
}

#[test]
fn a_target_with_inline_extents_only_is_inline() {
    let plan = plan_search(Ok(target(1, 50)), Ok(BTRFS), &options()).unwrap();
    let inline = Extent { physical_offset: 0, length: 50, flags: FIEMAP_EXTENT_FLAG_INLINE };
    let plan = plan.with_target_extents(Ok(vec![inline]));
    assert_eq!(plan.reflink, StageStatus::Skipped(SkipReason::InlineTarget));
    assert_eq!(plan.target_extents, None);
}

#[test]
fn an_empty_target_is_not_inline() {
    let plan = plan_search(Ok(target(1, 0)), Ok(BTRFS), &options()).unwrap();
    let plan = plan.with_target_extents(Ok(Vec::new()));
    assert_eq!(plan.reflink, StageStatus::Enabled);
    assert_eq!(plan.target_extents, Some(Vec::new()));
}

#[test]
fn unreadable_target_extents_fail_the_reflink_stage() {
    let plan = plan_search(Ok(target(3, 15)), Ok(BTRFS), &options()).unwrap();
    let failure = IoFailure { kind: FailureKind::Other, os_code: Some(5) };
    let plan = plan.with_target_extents(Err(failure));
    assert_eq!(plan.reflink, StageStatus::Failed(failure));
    assert!(!plan.wants_reflink_walk());
    assert!(!plan.wants_target_extents());
    let hard_walk = vec![file("/d/b", 42, 10, 15)];
    let report = build_report(&plan, b"/d/target", &hard_walk, &Vec::new());
    assert_eq!(report.records, vec![record("/d/b", Relation::Hardlink)]);
    assert_eq!(report.reflink_status, StageStatus::Failed(failure));
}

#[test]
fn extents_are_ignored_where_the_stage_is_not_enabled() {
    let plan = plan_search(Ok(target(3, 15)), Ok(EXT4), &options()).unwrap();
    let before = plan.clone();
    let plan = plan.with_target_extents(Ok(vec![extent(100, 10)]));
    assert_eq!(plan, before);
    let walk = vec![mapped(file("/d/c", 50, 10, 15), vec![extent(100, 10)])];
    let report = build_report(&plan, b"/d/target", &Vec::new(), &walk);
    assert_eq!(report.records, Vec::<MatchRecord>::new());
}

#[test]
fn extents_are_recorded_once() {
    let plan = plan_search(Ok(target(1, 15)), Ok(BTRFS), &options()).unwrap();
    let plan = plan.with_target_extents(Ok(vec![extent(100, 10)]));
    let plan = plan.with_target_extents(Ok(vec![extent(900, 1)]));
    assert_eq!(plan.target_extents, Some(vec![extent(100, 10)]));
}

#[test]
fn both_stages_are_merged_and_sorted_by_path() {
    let plan = plan_search(Ok(target(2, 15)), Ok(BTRFS), &options()).unwrap();
    let plan = plan.with_target_extents(Ok(vec![extent(100, 10)]));
    let hard_walk = vec![file("/d/m", 42, 10, 15), file("/d/target", 42, 10, 15)];
    let reflink_walk = vec![
        mapped(file("/d/z", 50, 10, 15), vec![extent(100, 10)]),
        mapped(file("/d/m", 42, 10, 15), vec![extent(100, 10)]),
        mapped(file("/d/a", 51, 10, 15), vec![extent(100, 10)]),
    ];
    let report = build_report(&plan, b"/d/target", &hard_walk, &reflink_walk);
    assert_eq!(
        report.records,
        vec![
            record("/d/a", Relation::Reflink),
            record("/d/m", Relation::Hardlink),
            record("/d/z", Relation::Reflink),
        ]
    );
    assert_eq!(report.hardlinks_found, 1);
    assert_eq!(report.reflinks_found, 2);
    assert_eq!(report.total, 3);
}

#[test]
fn the_order_of_the_walk_does_not_change_the_report() {
    let plan = plan_search(Ok(target(3, 15)), Ok(BTRFS), &options()).unwrap();
    let plan = plan.with_target_extents(Ok(vec![extent(100, 10)]));
    let hard_walk = vec![
        file("/d/b", 42, 10, 15),
        file("/d/a", 42, 10, 15),
        file("/d/n", 7, 10, 15),
        file("/d/c", 42, 10, 15),
    ];
    let reflink_walk = vec![
        mapped(file("/d/y", 50, 10, 15), vec![extent(100, 10)]),
        mapped(file("/d/x", 51, 10, 15), vec![extent(100, 10)]),
        mapped(file("/d/w", 52, 10, 15), vec![extent(101, 10)]),
    ];
    let mut hard_reversed = hard_walk.clone();
    hard_reversed.reverse();
    let mut reflink_reversed = reflink_walk.clone();
    reflink_reversed.reverse();
    let first = build_report(&plan, b"/d/target", &hard_walk, &reflink_walk);
    let second = build_report(&plan, b"/d/target", &hard_reversed, &reflink_reversed);
    let again = build_report(&plan, b"/d/target", &hard_walk, &reflink_walk);
    assert_eq!(first, second);
    assert_eq!(first, again);
    assert_eq!(first.total, 5);
}

#[test]
fn a_path_found_by_both_matchers_is_a_hard_link() {
    let hardlinks = set_of(&["/d/b", "/d/a"]);
    let reflinks = set_of(&["/d/c", "/d/a"]);
    assert_eq!(
        aggregate(&hardlinks, &reflinks),
        vec![
            record("/d/a", Relation::Hardlink),
            record("/d/b", Relation::Hardlink),
            record("/d/c", Relation::Reflink),
        ]
    );
}

#[test]
fn the_aggregate_of_nothing_is_empty() {
    assert_eq!(aggregate(&PathSet::new(), &PathSet::new()), Vec::<MatchRecord>::new());
    assert_eq!(
        aggregate(&PathSet::new(), &set_of(&["/x"])),
        vec![record("/x", Relation::Reflink)]
    );
    assert_eq!(
        aggregate(&set_of(&["/x"]), &PathSet::new()),
        vec![record("/x", Relation::Hardlink)]
    );
}

#[test]
fn a_fresh_look_confirms_the_relation() {
    let target = FileIdentity { inode: 42, device: 10, link_count: 3, size: 15 };
    let same_inode = FileIdentity { inode: 42, device: 10, link_count: 3, size: 15 };
    let other_inode = FileIdentity { inode: 50, device: 10, link_count: 1, size: 15 };
    let other_device = FileIdentity { inode: 42, device: 11, link_count: 3, size: 15 };
    assert_eq!(classify(&same_inode, &target, false), Relation::Hardlink);
    assert_eq!(classify(&same_inode, &target, true), Relation::Hardlink);
    assert_eq!(classify(&other_inode, &target, true), Relation::Reflink);
    assert_eq!(classify(&other_inode, &target, false), Relation::Unknown);
    assert_eq!(classify(&other_device, &target, true), Relation::Unknown);
    assert_eq!(classify(&other_device, &target, false), Relation::Unknown);
}

#[test]
fn a_plan_made_by_hand_is_taken_as_it_is() {
    let plan = SearchPlan {
        target: FileIdentity { inode: 42, device: 10, link_count: 1, size: 15 },
        cow_capable: true,
        hardlink: StageStatus::Enabled,
        reflink: StageStatus::Enabled,
        target_extents: None,
    };
    let walk = vec![mapped(file("/d/c", 50, 10, 15), Vec::new())];
    let report = build_report(&plan, b"/d/target", &Vec::new(), &walk);
    assert_eq!(report.records, Vec::<MatchRecord>::new());
    assert_eq!(report.reflink_status, StageStatus::Enabled);
}
