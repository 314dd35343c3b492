use process_refresh_plan::process_plan::{mask_supported, ProcessCapabilities, UnsupportedFields};
use process_refresh_plan::process_refresh::{
    CommitAction, CpuPlan, CpuSamplingContext, DeadProcessPolicy, FieldFetch, FieldPlan, Outcome,
    ProcessCpuAction, ProcessRefreshPlan, ProcessSelection, SystemCpuAction,
};
use process_refresh_plan::request::{
    ProcessField, ProcessRefreshKind, ProcessesToUpdate, UpdateKind,
};
use process_refresh_plan::time::{Duration, Instant};

const MILLI: u128 = 1_000_000;

fn at(millis: u128) -> Instant {
    Instant {
        nanos: millis * MILLI,
    }
}

fn sampled(last: Option<Instant>, now: Instant) -> CpuSamplingContext {
    CpuSamplingContext::new(last, Duration::from_millis(200), now)
}

fn cpu_plan(last: Option<Instant>, now: Instant) -> CpuPlan {
    CpuPlan::new(ProcessRefreshKind::nothing().with_cpu(), sampled(last, now))
}

fn caps(unsupported: UnsupportedFields) -> ProcessCapabilities {
    ProcessCapabilities {
        unsupported,
        minimum_cpu_update_interval: Duration::from_millis(200),
    }
}

fn plan(processes: ProcessesToUpdate<'_>, remove: bool) -> ProcessRefreshPlan<'_> {
    ProcessRefreshPlan::new(
        ProcessRefreshKind::everything(),
        processes,
        remove,
        sampled(None, at(1_000)),
        caps(UnsupportedFields::empty()),
    )
}

#[test]
fn commit_after_a_refresh_of_all() {
    let removing = plan(ProcessesToUpdate::All, true);
    let keeping = plan(ProcessesToUpdate::All, false);
    assert_eq!(
        removing.commit_action(true, Outcome::NotUpdated),
        CommitAction::Remove
    );
    assert_eq!(
        keeping.commit_action(true, Outcome::NotUpdated),
        CommitAction::ClearUpdatedFlag
    );
}

#[test]
fn commit_after_a_refresh_of_some() {
    let removing = plan(ProcessesToUpdate::Pids(&[1]), true);
    let keeping = plan(ProcessesToUpdate::Pids(&[1]), false);
    assert_eq!(
        removing.commit_action(true, Outcome::NotUpdated),
        CommitAction::Remove
    );
    assert_eq!(
        keeping.commit_action(true, Outcome::NotUpdated),
        CommitAction::MarkNonexistent
    );
    assert_eq!(
        keeping.commit_action(false, Outcome::NotUpdated),
        CommitAction::Ignore
    );
}

#[test]
fn unknown_processes_are_never_removed() {
    assert_eq!(
        plan(ProcessesToUpdate::All, true).commit_action(false, Outcome::NotUpdated),
        CommitAction::Ignore
    );
    assert_eq!(
        plan(ProcessesToUpdate::Pids(&[1]), true).commit_action(false, Outcome::NotUpdated),
        CommitAction::Ignore
    );
    assert_eq!(
        plan(ProcessesToUpdate::All, false).commit_action(false, Outcome::NotUpdated),
        CommitAction::ClearUpdatedFlag
    );
}

#[test]
fn updated_processes_are_kept() {
    for remove in [false, true] {
        for known in [false, true] {
            assert_eq!(
                plan(ProcessesToUpdate::All, remove).commit_action(known, Outcome::Updated),
                CommitAction::KeepAndMarkUpdated
            );
            assert_eq!(
                plan(ProcessesToUpdate::Pids(&[]), remove).commit_action(known, Outcome::Updated),
                CommitAction::KeepAndMarkUpdated
            );
        }
    }
}

#[test]
fn selection_is_kept_as_listed() {
    let listed = [4usize, 2, 4];
    let request = plan(ProcessesToUpdate::Pids(&listed), true);
    let selection = request.selection();
    assert_eq!(selection, ProcessSelection::Pids(&[4, 2, 4]));
    assert!(!selection.is_all());
    assert!(selection.contains(2));
    assert!(!selection.contains(3));
    assert_eq!(selection.requested_pids(), &[4, 2, 4]);
    assert_eq!(selection.unique_requested_pids(), vec![4, 2]);
}

#[test]
fn selection_of_all_lists_nothing() {
    let selection = ProcessSelection::from_request(ProcessesToUpdate::All);
    assert!(selection.is_all());
    assert!(selection.contains(usize::MAX));
    assert!(selection.requested_pids().is_empty());
    assert!(selection.unique_requested_pids().is_empty());
    let none = ProcessSelection::from_request(ProcessesToUpdate::Pids(&[]));
    assert!(!none.is_all());
    assert!(!none.contains(0));
}

#[test]
fn new_processes_are_discovered() {
    assert!(plan(ProcessesToUpdate::All, true).discover_new_processes());
    assert!(plan(ProcessesToUpdate::Pids(&[1]), false).discover_new_processes());
}

#[test]
fn dead_process_policy_follows_the_flag() {
    assert!(DeadProcessPolicy::new(true).removes_dead_processes());
    assert!(!DeadProcessPolicy::new(false).removes_dead_processes());
    assert!(plan(ProcessesToUpdate::All, true)
        .dead_processes()
        .removes_dead_processes());
    assert!(!plan(ProcessesToUpdate::All, false)
        .dead_processes()
        .removes_dead_processes());
}

#[test]
fn first_system_sample() {
    let cpu = cpu_plan(None, at(1_000));
    assert!(cpu.requested());
    assert_eq!(cpu.system_action(), SystemCpuAction::TakeFirstSample);
    assert!(cpu.take_system_sample());
    assert_eq!(cpu.process_action(true), ProcessCpuAction::RecordFirstSample);
    assert_eq!(cpu.process_action(false), ProcessCpuAction::RecordFirstSample);
    assert_eq!(cpu.minimum_interval(), Duration::from_millis(200));
}

#[test]
fn later_system_sample() {
    let cpu = cpu_plan(Some(at(800)), at(1_000));
    assert_eq!(cpu.system_action(), SystemCpuAction::TakeSampleAndCompute);
    assert!(cpu.take_system_sample());
    assert_eq!(
        cpu.process_action(true),
        ProcessCpuAction::RecordSampleAndCompute
    );
    assert_eq!(cpu.process_action(false), ProcessCpuAction::RecordFirstSample);
}

#[test]
fn system_sample_too_soon() {
    for last in [at(801), at(1_000), at(2_000)] {
        let cpu = cpu_plan(Some(last), at(1_000));
        assert_eq!(cpu.system_action(), SystemCpuAction::KeepPreviousSample);
        assert!(!cpu.take_system_sample());
        assert_eq!(cpu.process_action(true), ProcessCpuAction::KeepPrevious);
        assert_eq!(cpu.process_action(false), ProcessCpuAction::KeepPrevious);
    }
}

#[test]
fn cpu_is_left_alone_unless_requested() {
    let cpu = CpuPlan::new(ProcessRefreshKind::nothing(), sampled(None, at(1_000)));
    assert!(!cpu.requested());
    assert_eq!(cpu.system_action(), SystemCpuAction::Skip);
    assert!(!cpu.take_system_sample());
    assert_eq!(cpu.process_action(true), ProcessCpuAction::Skip);
    assert_eq!(
        cpu.process_action_for(true, Some(at(0)), at(1_000)),
        ProcessCpuAction::Skip
    );
}

#[test]
fn processes_sampled_on_their_own() {
    let cpu = cpu_plan(None, at(1_000));
    assert_eq!(
        cpu.process_action_for(true, None, at(1_000)),
        ProcessCpuAction::RecordFirstSample
    );
    assert_eq!(
        cpu.process_action_for(true, Some(at(800)), at(1_000)),
        ProcessCpuAction::RecordSampleAndCompute
    );
    assert_eq!(
        cpu.process_action_for(false, Some(at(800)), at(1_000)),
        ProcessCpuAction::RecordFirstSample
    );
    assert_eq!(
        cpu.process_action_for(true, Some(at(801)), at(1_000)),
        ProcessCpuAction::KeepPrevious
    );
}

#[test]
fn both_ways_of_sampling_agree() {
    for last in [None, Some(at(0)), Some(at(800)), Some(at(900)), Some(at(1_000))] {
        for has_previous in [false, true] {
            let cpu = cpu_plan(last, at(1_000));
            assert_eq!(
                cpu.process_action_for(has_previous, last, at(1_000)),
                cpu.process_action(has_previous)
            );
        }
    }
}

#[test]
fn fields_are_fetched_as_requested() {
    let kind = ProcessRefreshKind::everything()
        .with_cmd(UpdateKind::Always)
        .without_cwd()
        .without_disk_usage();
    let fields = FieldPlan::new(
        kind,
        caps(UnsupportedFields::exe().union(UnsupportedFields::tasks())),
    );
    assert_eq!(fields.fetch(ProcessField::Exe), FieldFetch::Unsupported);
    assert_eq!(fields.fetch(ProcessField::Tasks), FieldFetch::Unsupported);
    assert_eq!(fields.fetch(ProcessField::Cwd), FieldFetch::Skip);
    assert_eq!(fields.fetch(ProcessField::DiskUsage), FieldFetch::Skip);
    assert_eq!(fields.fetch(ProcessField::Memory), FieldFetch::Collect);
    assert_eq!(fields.fetch(ProcessField::User), FieldFetch::CollectIfNotSet);
    assert_eq!(fields.fetch(ProcessField::Cmd), FieldFetch::AlwaysCollect);
}

#[test]
fn plan_hides_what_the_platform_lacks() {
    let unsupported = UnsupportedFields::exe()
        .union(UnsupportedFields::tasks())
        .union(UnsupportedFields::cwd());
    let kind = ProcessRefreshKind::everything()
        .with_cmd(UpdateKind::Always)
        .without_cwd()
        .without_gpu_usage();
    let plan = ProcessRefreshPlan::new(
        kind,
        ProcessesToUpdate::All,
        true,
        sampled(None, at(0)),
        caps(unsupported),
    );
    assert_eq!(
        plan.unsupported_fields(),
        vec![ProcessField::Exe, ProcessField::Tasks]
    );
    assert_eq!(plan.field(ProcessField::Exe), FieldFetch::Unsupported);
    assert_eq!(plan.capabilities(), caps(unsupported));
    assert_eq!(plan.cpu().system_action(), SystemCpuAction::TakeFirstSample);
    assert_eq!(plan.user(), UpdateKind::OnlyIfNotSet);
    assert_eq!(plan.cwd(), UpdateKind::Never);
    assert_eq!(plan.root(), UpdateKind::OnlyIfNotSet);
    assert_eq!(plan.environ(), UpdateKind::OnlyIfNotSet);
    assert_eq!(plan.cmd(), UpdateKind::Always);
    assert_eq!(plan.exe(), UpdateKind::Never);
    assert!(plan.memory());
    assert!(plan.disk_usage());
    assert!(!plan.tasks());
    assert!(!plan.gpu_usage());
    assert!(plan.gpu_memory());
}

#[test]
fn fields_are_collected_as_masked() {
    let unsupported = UnsupportedFields::root().union(UnsupportedFields::gpu_usage());
    let kind = ProcessRefreshKind::everything().with_root(UpdateKind::Always);
    let plan = ProcessRefreshPlan::new(
        kind,
        ProcessesToUpdate::All,
        true,
        sampled(None, at(0)),
        caps(unsupported),
    );
    let masked = mask_supported(kind, unsupported);
    assert_eq!(plan.update_kind(ProcessField::User), masked.user());
    assert_eq!(plan.update_kind(ProcessField::Root), masked.root());
    assert_eq!(plan.update_kind(ProcessField::Exe), masked.exe());
    assert_eq!(plan.update_kind(ProcessField::Memory), UpdateKind::Always);
    assert_eq!(plan.update_kind(ProcessField::GpuUsage), UpdateKind::Never);
    assert_eq!(plan.gpu_usage(), masked.gpu_usage());
}

#[test]
fn time_is_counted_in_nanoseconds() {
    assert_eq!(Duration::from_millis(200).nanos, 200_000_000);
    assert_eq!(Duration::zero().nanos, 0);
    assert_eq!(at(5).duration_since(at(2)), Duration::from_millis(3));
    assert_eq!(at(2).duration_since(at(5)), Duration::zero());
}
