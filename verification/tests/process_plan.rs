use process_refresh_plan::process_plan::{
    mask_supported, CpuSampling, PreviousCpuSample, ProcessCapabilities, ProcessRefreshPlan,
    ProcessSelection, UnsupportedFields,
};
use process_refresh_plan::request::{
    ProcessField, ProcessRefreshKind, ProcessesToUpdate, UpdateKind,
};
use process_refresh_plan::time::Duration;
use std::collections::BTreeSet;

fn throttled(unsupported: UnsupportedFields) -> ProcessCapabilities {
    ProcessCapabilities {
        unsupported,
        minimum_cpu_update_interval: Duration::from_millis(200),
    }
}

fn plan_after(elapsed: Option<Duration>, kind: ProcessRefreshKind) -> ProcessRefreshPlan {
    ProcessRefreshPlan::new(
        ProcessesToUpdate::All,
        true,
        kind,
        throttled(UnsupportedFields::empty()),
        PreviousCpuSample { elapsed },
    )
}

fn plan_of(pids: &[usize]) -> ProcessRefreshPlan {
    ProcessRefreshPlan::new(
        ProcessesToUpdate::Pids(pids),
        false,
        ProcessRefreshKind::everything(),
        ProcessCapabilities::full(),
        PreviousCpuSample::default(),
    )
}

#[test]
fn sampling_depends_on_request_and_elapsed_time() {
    let cpu = ProcessRefreshKind::nothing().with_cpu();
    assert_eq!(plan_after(None, cpu).cpu_sampling(), CpuSampling::FirstSample);
    assert_eq!(
        plan_after(Some(Duration { nanos: 199_999_999 }), cpu).cpu_sampling(),
        CpuSampling::IntervalTooShort
    );
    assert_eq!(
        plan_after(Some(Duration::from_millis(200)), cpu).cpu_sampling(),
        CpuSampling::Ready
    );
    assert_eq!(
        plan_after(Some(Duration::from_millis(200)), ProcessRefreshKind::nothing()).cpu_sampling(),
        CpuSampling::NotRequested
    );
}

#[test]
fn ready_after_a_longer_wait() {
    let cpu = ProcessRefreshKind::nothing().with_cpu();
    assert_eq!(
        plan_after(Some(Duration::from_millis(9_000)), cpu).cpu_sampling(),
        CpuSampling::Ready
    );
}

#[test]
fn raw_times_and_usage() {
    assert!(!CpuSampling::NotRequested.collect_raw_times());
    assert!(CpuSampling::FirstSample.collect_raw_times());
    assert!(CpuSampling::IntervalTooShort.collect_raw_times());
    assert!(CpuSampling::Ready.collect_raw_times());
    assert!(!CpuSampling::NotRequested.compute_usage());
    assert!(!CpuSampling::FirstSample.compute_usage());
    assert!(!CpuSampling::IntervalTooShort.compute_usage());
    assert!(CpuSampling::Ready.compute_usage());
}

#[test]
fn all_processes_are_discovered() {
    let plan = plan_after(None, ProcessRefreshKind::nothing());
    assert_eq!(plan.selection(), &ProcessSelection::DiscoverAll);
    assert!(plan.selection().is_all());
    assert!(plan.selection().pids().is_none());
    assert!(plan.is_empty());
    assert!(plan.remove_dead_processes());
    assert_eq!(
        plan.minimum_cpu_update_interval(),
        Duration::from_millis(200)
    );
}

#[test]
fn listed_processes_are_a_set() {
    let plan = plan_of(&[5, 3, 5, 1]);
    let expected: BTreeSet<usize> = [1, 3, 5].into_iter().collect();
    assert!(!plan.selection().is_all());
    assert_eq!(plan.selection().pids(), Some(&expected));
    assert!(plan.is_empty());
    assert!(!plan.remove_dead_processes());
}

#[test]
fn order_and_repetitions_make_the_same_plan() {
    assert_eq!(plan_of(&[5, 3, 5, 1]), plan_of(&[1, 3, 5]));
    assert_eq!(plan_of(&[5, 3]).clone(), plan_of(&[3, 5]));
    assert!(plan_of(&[5, 3]) != plan_of(&[3]));
}

#[test]
fn an_empty_list_leaves_nothing_to_visit() {
    let plan = plan_of(&[]);
    assert!(!plan.is_empty());
    assert_eq!(plan.selection(), &ProcessSelection::ExactPids(BTreeSet::new()));
}

#[test]
fn unsupported_fields_are_switched_off() {
    let unsupported = UnsupportedFields::exe()
        .union(UnsupportedFields::tasks())
        .union(UnsupportedFields::gpu_memory());
    let kind = ProcessRefreshKind::everything().with_cmd(UpdateKind::Always);
    let plan = ProcessRefreshPlan::new(
        ProcessesToUpdate::All,
        true,
        kind,
        throttled(unsupported),
        PreviousCpuSample::default(),
    );
    assert_eq!(plan.requested_kind(), kind);
    assert_eq!(
        plan.refresh_kind(),
        kind.without_exe().without_tasks().without_gpu_memory()
    );
    assert_eq!(plan.refresh_kind().cmd(), UpdateKind::Always);
    assert_eq!(plan.unsupported_fields(), unsupported);
}

#[test]
fn each_flag_masks_its_own_field() {
    let kind = ProcessRefreshKind::everything();
    let masked = |flag: UnsupportedFields| mask_supported(kind, flag);
    assert_eq!(masked(UnsupportedFields::empty()), kind);
    assert_eq!(masked(UnsupportedFields::user()), kind.without_user());
    assert_eq!(masked(UnsupportedFields::cwd()), kind.without_cwd());
    assert_eq!(masked(UnsupportedFields::root()), kind.without_root());
    assert_eq!(masked(UnsupportedFields::environ()), kind.without_environ());
    assert_eq!(masked(UnsupportedFields::cmd()), kind.without_cmd());
    assert_eq!(masked(UnsupportedFields::exe()), kind.without_exe());
    assert_eq!(masked(UnsupportedFields::disk_usage()), kind.without_disk_usage());
    assert_eq!(masked(UnsupportedFields::tasks()), kind.without_tasks());
    assert_eq!(masked(UnsupportedFields::gpu_usage()), kind.without_gpu_usage());
    assert_eq!(masked(UnsupportedFields::gpu_memory()), kind.without_gpu_memory());
}

#[test]
fn masking_by_two_sets_is_masking_by_both() {
    let kind = ProcessRefreshKind::everything();
    let first = UnsupportedFields::cwd().union(UnsupportedFields::cmd());
    let second = UnsupportedFields::cmd().union(UnsupportedFields::disk_usage());
    assert_eq!(
        mask_supported(mask_supported(kind, first), second),
        mask_supported(kind, first.union(second))
    );
    assert_eq!(
        mask_supported(mask_supported(kind, first), first),
        mask_supported(kind, first)
    );
}

#[test]
fn a_full_platform_collects_the_request() {
    let kind = ProcessRefreshKind::everything().with_exe(UpdateKind::Always);
    let plan = ProcessRefreshPlan::new(
        ProcessesToUpdate::All,
        true,
        kind,
        ProcessCapabilities::full(),
        PreviousCpuSample {
            elapsed: Some(Duration::zero()),
        },
    );
    assert_eq!(plan.refresh_kind(), kind);
    assert_eq!(plan.cpu_sampling(), CpuSampling::Ready);
}

#[test]
fn flags_are_bits() {
    assert_eq!(UnsupportedFields::empty().bits(), 0);
    assert_eq!(UnsupportedFields::default(), UnsupportedFields::empty());
    assert_eq!(UnsupportedFields::user().bits(), 1);
    assert_eq!(UnsupportedFields::cwd().bits(), 2);
    assert_eq!(UnsupportedFields::root().bits(), 4);
    assert_eq!(UnsupportedFields::environ().bits(), 8);
    assert_eq!(UnsupportedFields::cmd().bits(), 16);
    assert_eq!(UnsupportedFields::exe().bits(), 32);
    assert_eq!(UnsupportedFields::disk_usage().bits(), 64);
    assert_eq!(UnsupportedFields::tasks().bits(), 128);
    assert_eq!(UnsupportedFields::gpu_usage().bits(), 256);
    assert_eq!(UnsupportedFields::gpu_memory().bits(), 512);
    let both = UnsupportedFields::user().union(UnsupportedFields::exe());
    assert_eq!(both.bits(), 33);
    assert_eq!(UnsupportedFields::from_bits_truncate(both.bits()), both);
    assert_eq!(UnsupportedFields::from_bits_truncate(0xfc21), both);
}

#[test]
fn flags_contain_their_parts() {
    let both = UnsupportedFields::user().union(UnsupportedFields::exe());
    assert!(both.contains(UnsupportedFields::user()));
    assert!(both.contains(UnsupportedFields::empty()));
    assert!(both.contains(both));
    assert!(!UnsupportedFields::user().contains(both));
    assert!(!both.contains(UnsupportedFields::cmd()));
    assert!(both.has(ProcessField::Exe));
    assert!(!both.has(ProcessField::Cmd));
    assert!(!UnsupportedFields::from_bits_truncate(u16::MAX).has(ProcessField::Memory));
}
