use process_refresh_plan::refresh_plan::{
    mask_refresh_kind, CpuUpdate, PlanSelection, PlatformCapabilities, ProcessRefreshPlan,
    UnsupportedFields,
};
use process_refresh_plan::request::{Pid, ProcessRefreshKind, ProcessesToUpdate, UpdateKind};
use process_refresh_plan::sys;
use process_refresh_plan::time::{Duration, Instant};

fn min_interval() -> Duration {
    Duration::from_millis(200)
}

fn clock_reading() -> Instant {
    Instant {
        nanos: 12_000_000_000,
    }
}

fn before(instant: Instant, span: Duration) -> Instant {
    Instant {
        nanos: instant.nanos - span.nanos,
    }
}

fn after(instant: Instant, span: Duration) -> Instant {
    Instant {
        nanos: instant.nanos + span.nanos,
    }
}

fn full_capabilities() -> PlatformCapabilities {
    PlatformCapabilities::new(ProcessRefreshKind::everything(), min_interval(), true)
}

/// Only `cpu` and `memory` can be collected.
fn limited_capabilities() -> PlatformCapabilities {
    let supported = ProcessRefreshKind::nothing()
        .without_tasks()
        .with_cpu()
        .with_memory();
    PlatformCapabilities::new(supported, min_interval(), true)
}

fn no_listing_capabilities() -> PlatformCapabilities {
    PlatformCapabilities::new(
        ProcessRefreshKind::nothing().without_tasks(),
        min_interval(),
        false,
    )
}

fn plan_for(
    selection: ProcessesToUpdate<'_>,
    kind: ProcessRefreshKind,
    caps: &PlatformCapabilities,
) -> ProcessRefreshPlan {
    ProcessRefreshPlan::new(selection, kind, true, caps)
}

#[test]
fn first_cpu_sample_is_first_sample() {
    let plan = plan_for(
        ProcessesToUpdate::All,
        ProcessRefreshKind::everything(),
        &full_capabilities(),
    );
    assert_eq!(
        plan.cpu_update(None, clock_reading()),
        CpuUpdate::FirstSample
    );
}

#[test]
fn cpu_sample_after_interval_is_a_diff() {
    let plan = plan_for(
        ProcessesToUpdate::All,
        ProcessRefreshKind::nothing().with_cpu(),
        &full_capabilities(),
    );
    let now = clock_reading();
    assert_eq!(
        plan.cpu_update(Some(before(now, min_interval())), now),
        CpuUpdate::Diff
    );
    assert_eq!(plan.cpu_update(Some(now), now), CpuUpdate::Diff);
}

#[test]
fn cpu_sample_too_soon_is_deferred() {
    let plan = plan_for(
        ProcessesToUpdate::All,
        ProcessRefreshKind::nothing().with_cpu(),
        &full_capabilities(),
    );
    let now = clock_reading();
    let last = after(before(now, min_interval()), Duration::from_millis(1));
    assert_eq!(plan.cpu_update(Some(last), now), CpuUpdate::Deferred);
}

#[test]
fn cpu_not_requested_is_not_requested() {
    let plan = plan_for(
        ProcessesToUpdate::All,
        ProcessRefreshKind::nothing(),
        &full_capabilities(),
    );
    assert_eq!(
        plan.cpu_update(None, clock_reading()),
        CpuUpdate::NotRequested
    );
}

#[test]
fn cpu_unsupported_is_masked_not_faked() {
    let caps = PlatformCapabilities::new(
        ProcessRefreshKind::nothing().without_tasks().with_memory(),
        min_interval(),
        true,
    );
    let plan = plan_for(
        ProcessesToUpdate::All,
        ProcessRefreshKind::everything(),
        &caps,
    );
    assert_eq!(
        plan.cpu_update(None, clock_reading()),
        CpuUpdate::NotRequested
    );
    assert!(!plan.refresh_kind().cpu());
    assert!(plan.unsupported_fields().cpu);
    assert!(plan.refresh_kind().memory());
    assert!(!plan.unsupported_fields().memory);
}

#[test]
fn empty_pid_set_is_not_collected() {
    let plan = plan_for(
        ProcessesToUpdate::Pids(&[]),
        ProcessRefreshKind::everything(),
        &full_capabilities(),
    );
    assert!(!plan.should_collect());
    assert_eq!(plan.selection(), &PlanSelection::Pids(Vec::new()));
}

#[test]
fn duplicate_pids_are_deduplicated_first_occurrence_kept() {
    let pids = [
        Pid::from(3usize),
        Pid::from(1usize),
        Pid::from(3usize),
        Pid::from(2usize),
        Pid::from(1usize),
    ];
    let plan = plan_for(
        ProcessesToUpdate::Pids(&pids),
        ProcessRefreshKind::nothing(),
        &full_capabilities(),
    );
    assert_eq!(
        plan.selection(),
        &PlanSelection::Pids(vec![
            Pid::from(3usize),
            Pid::from(1usize),
            Pid::from(2usize)
        ])
    );
}

#[test]
fn all_selection_discovers_new_processes() {
    let plan = plan_for(
        ProcessesToUpdate::All,
        ProcessRefreshKind::nothing(),
        &full_capabilities(),
    );
    assert_eq!(plan.selection(), &PlanSelection::All);
    assert!(plan.should_collect());
    assert!(plan.includes_pid(Pid::from(12_345usize)));
    assert_eq!(plan.processes_to_update(), ProcessesToUpdate::All);
}

#[test]
fn some_selection_updates_only_listed_pids() {
    let listed = [Pid::from(42usize)];
    let plan = plan_for(
        ProcessesToUpdate::Pids(&listed),
        ProcessRefreshKind::nothing(),
        &full_capabilities(),
    );
    assert!(plan.should_collect());
    assert!(plan.includes_pid(Pid::from(42usize)));
    assert!(!plan.includes_pid(Pid::from(43usize)));
    assert_eq!(
        plan.processes_to_update(),
        ProcessesToUpdate::Pids(&[Pid::from(42usize)])
    );
}

#[test]
fn unknown_pids_are_kept_in_selection() {
    // A pid which does not exist on the system stays in the plan: the
    // collect phase simply finds nothing for it.
    let plan = plan_for(
        ProcessesToUpdate::Pids(&[Pid::from(usize::MAX)]),
        ProcessRefreshKind::nothing(),
        &full_capabilities(),
    );
    assert!(plan.should_collect());
    assert!(plan.includes_pid(Pid::from(usize::MAX)));
}

#[test]
fn partial_fields_are_masked_and_reported() {
    let plan = plan_for(
        ProcessesToUpdate::All,
        ProcessRefreshKind::everything(),
        &limited_capabilities(),
    );
    let kind = plan.refresh_kind();
    assert!(kind.cpu());
    assert!(kind.memory());
    assert!(!kind.disk_usage());
    assert!(!kind.tasks());
    assert_eq!(kind.exe(), UpdateKind::Never);
    assert_eq!(kind.environ(), UpdateKind::Never);
    let unsupported = plan.unsupported_fields();
    assert!(unsupported.any());
    assert!(unsupported.disk_usage);
    assert!(unsupported.tasks);
    assert!(unsupported.exe);
    assert!(unsupported.environ);
    assert!(!unsupported.cpu);
    assert!(!unsupported.memory);
}

#[test]
fn platform_without_listing_never_collects() {
    let plan = plan_for(
        ProcessesToUpdate::All,
        ProcessRefreshKind::everything(),
        &no_listing_capabilities(),
    );
    assert!(!plan.should_collect());
    // All fields are reported as unsupported, none is faked.
    let unsupported = plan.unsupported_fields();
    assert!(unsupported.cpu);
    assert!(unsupported.memory);
    assert!(unsupported.cmd);
}

#[test]
fn remove_dead_processes_flag_is_preserved() {
    let caps = full_capabilities();
    let with_removal = ProcessRefreshPlan::new(
        ProcessesToUpdate::All,
        ProcessRefreshKind::nothing(),
        true,
        &caps,
    );
    let without_removal = ProcessRefreshPlan::new(
        ProcessesToUpdate::All,
        ProcessRefreshKind::nothing(),
        false,
        &caps,
    );
    assert!(with_removal.remove_dead_processes());
    assert!(!without_removal.remove_dead_processes());
}

#[test]
fn min_interval_comes_from_capabilities() {
    let plan = plan_for(
        ProcessesToUpdate::All,
        ProcessRefreshKind::nothing(),
        &full_capabilities(),
    );
    assert_eq!(plan.min_cpu_update_interval(), min_interval());
}

#[test]
fn platform_capabilities_mapping_exists_and_is_consistent() {
    let caps = sys::process_refresh_capabilities();
    assert_eq!(
        caps.min_cpu_update_interval(),
        sys::minimum_cpu_update_interval(),
        "capabilities must expose the platform minimum CPU update interval",
    );
    if !caps.can_list_processes() {
        // A backend which cannot list processes must not claim to support
        // any field: nothing would be collected anyway.
        let supported = caps.supported_fields();
        assert!(!supported.cpu());
        assert!(!supported.memory());
        assert!(!supported.disk_usage());
        assert!(!supported.tasks());
        assert_eq!(supported.exe(), UpdateKind::Never);
        assert_eq!(supported.cmd(), UpdateKind::Never);
    }
}

#[test]
fn a_sample_from_the_future_is_deferred() {
    let plan = plan_for(
        ProcessesToUpdate::All,
        ProcessRefreshKind::nothing().with_cpu(),
        &full_capabilities(),
    );
    let now = clock_reading();
    let last = after(now, Duration::from_millis(1));
    assert_eq!(plan.cpu_update(Some(last), now), CpuUpdate::Deferred);
}

#[test]
fn past_the_interval_every_later_time_is_a_diff() {
    let plan = plan_for(
        ProcessesToUpdate::All,
        ProcessRefreshKind::nothing().with_cpu(),
        &full_capabilities(),
    );
    let last = clock_reading();
    let now = after(last, min_interval());
    let later = after(now, Duration::from_millis(5_000));
    assert_eq!(plan.cpu_update(Some(last), now), CpuUpdate::Diff);
    assert_eq!(plan.cpu_update(Some(last), later), CpuUpdate::Diff);
}

#[test]
fn masking_keeps_the_requested_update_kind() {
    let supported = ProcessRefreshKind::nothing()
        .without_tasks()
        .with_exe(UpdateKind::OnlyIfNotSet)
        .with_gpu_usage();
    let caps = PlatformCapabilities::new(supported, min_interval(), true);
    let kind = ProcessRefreshKind::nothing()
        .with_exe(UpdateKind::Always)
        .with_cwd(UpdateKind::OnlyIfNotSet)
        .with_gpu_usage()
        .with_gpu_memory();
    let (effective, unsupported) = mask_refresh_kind(kind, &caps);
    assert_eq!(
        effective,
        ProcessRefreshKind::nothing()
            .without_tasks()
            .with_exe(UpdateKind::Always)
            .with_gpu_usage()
    );
    assert_eq!(
        unsupported,
        UnsupportedFields {
            cwd: true,
            tasks: true,
            gpu_memory: true,
            ..UnsupportedFields::default()
        }
    );
}

#[test]
fn masking_a_second_time_changes_nothing() {
    let caps = limited_capabilities();
    let (once, first) = mask_refresh_kind(ProcessRefreshKind::everything(), &caps);
    let (twice, second) = mask_refresh_kind(once, &caps);
    assert_eq!(once, twice);
    assert!(first.any());
    assert!(!second.any());
    assert_eq!(second, UnsupportedFields::default());
}

#[test]
fn full_support_masks_no_field() {
    let kind = ProcessRefreshKind::everything().with_user(UpdateKind::Always);
    let (effective, unsupported) = mask_refresh_kind(kind, &full_capabilities());
    assert_eq!(effective, kind);
    assert!(!unsupported.any());
}

#[test]
fn a_selection_is_selected_again_as_it_stands() {
    let pids = [7usize, 7, 4, 9, 4];
    let caps = full_capabilities();
    let plan = plan_for(
        ProcessesToUpdate::Pids(&pids),
        ProcessRefreshKind::nothing(),
        &caps,
    );
    let again = plan_for(
        plan.processes_to_update(),
        ProcessRefreshKind::nothing(),
        &caps,
    );
    assert_eq!(plan.selection(), &PlanSelection::Pids(vec![7, 4, 9]));
    assert_eq!(again.selection(), plan.selection());
    assert_eq!(plan.clone().selection(), plan.selection());
}

#[test]
fn a_platform_without_listing_leaves_cpu_alone() {
    let plan = plan_for(
        ProcessesToUpdate::Pids(&[1]),
        ProcessRefreshKind::everything(),
        &no_listing_capabilities(),
    );
    assert!(!plan.should_collect());
    assert!(plan.includes_pid(1));
    assert_eq!(
        plan.refresh_kind(),
        ProcessRefreshKind::nothing().without_tasks()
    );
    assert_eq!(
        plan.cpu_update(Some(clock_reading()), clock_reading()),
        CpuUpdate::NotRequested
    );
}
