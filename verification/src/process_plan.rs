//! Normalization of a process refresh request into an immutable plan that names its processes
//! as a set.
//!
//! Before it touches the system, a refresh has to decide:
//!  * does the request concern every process, or a fixed set of processes?
//!  * has enough time elapsed to compute a new CPU usage sample?
//!  * which of the requested fields can the platform provide?
//!
//! [`ProcessRefreshPlan`] answers once and for all, in pure code. Platform adapters collect what
//! the plan says and never read the request again.
use vstd::prelude::*;

use std::collections::BTreeSet;

use crate::flags::law_memory_is_always_provided;
use crate::request::{
    update_if, Pid, ProcessField, ProcessRefreshKind, ProcessesToUpdate, UpdateKind,
};
use crate::time::Duration;

pub use crate::flags::UnsupportedFields;

verus! {

/// What the adapter of a platform is able to collect.
#[derive(Clone, Copy, Debug, PartialEq, Eq, Structural)]
pub struct ProcessCapabilities {
    /// Fields that cannot be collected on this platform.
    pub unsupported: UnsupportedFields,
    /// Least time between two CPU usage samples.
    pub minimum_cpu_update_interval: Duration,
}

impl ProcessCapabilities {
    /// A platform that collects everything and does not throttle CPU sampling.
    pub fn full() -> (r: Self)
        ensures
            r.unsupported@ == Set::<ProcessField>::empty(),
            r.minimum_cpu_update_interval.nanos == 0,
    {
        ProcessCapabilities {
            unsupported: UnsupportedFields::empty(),
            minimum_cpu_update_interval: Duration::zero(),
        }
    }
}

/// Which processes an adapter must visit.
#[derive(Debug, PartialEq, Eq)]
pub enum ProcessSelection {
    /// Enumerate the processes of the system, and add those that are new to the process map.
    DiscoverAll,
    /// Visit exactly these processes. Those that cannot be collected are not added: they are
    /// simply reported as not updated.
    ExactPids(BTreeSet<Pid>),
}

impl View for ProcessSelection {
    type V = Option<Set<Pid>>;

    /// The processes to visit, or `None` for all of them.
    open spec fn view(&self) -> Option<Set<Pid>> {
        match *self {
            ProcessSelection::DiscoverAll => None,
            ProcessSelection::ExactPids(pids) => Some(pids@),
        }
    }
}

impl Clone for ProcessSelection {
    fn clone(&self) -> (r: Self)
        ensures
            r@ == self@,
    {
        match self {
            ProcessSelection::DiscoverAll => ProcessSelection::DiscoverAll,
            ProcessSelection::ExactPids(pids) => ProcessSelection::ExactPids(pids.clone()),
        }
    }
}

impl ProcessSelection {
    /// Whether every process of the system must be enumerated.
    pub fn is_all(&self) -> (r: bool)
        ensures
            r == (self@ is None),
    {
        matches!(self, ProcessSelection::DiscoverAll)
    }

    /// The explicit processes, if the selection is [`ProcessSelection::ExactPids`].
    pub fn pids(&self) -> (r: Option<&BTreeSet<Pid>>)
        ensures
            match *self {
                ProcessSelection::DiscoverAll => r is None,
                ProcessSelection::ExactPids(pids) => r == Some(&pids),
            },
    {
        match self {
            ProcessSelection::DiscoverAll => None,
            ProcessSelection::ExactPids(pids) => Some(pids),
        }
    }
}

/// What an adapter should do with CPU data while it collects.
#[derive(Clone, Copy, Debug, PartialEq, Eq, Structural)]
pub enum CpuSampling {
    /// CPU information is not part of the request: no usage is computed and no sampling
    /// timestamp is touched.
    NotRequested,
    /// This is the first sample: raw times are stored, the usage keeps its value.
    FirstSample,
    /// The last sample is too recent: raw times are stored, no new usage is produced.
    IntervalTooShort,
    /// Enough time elapsed since the last sample: a usage can be computed.
    Ready,
}

impl CpuSampling {
    /// Whether raw CPU times should be collected.
    pub fn collect_raw_times(self) -> (r: bool)
        ensures
            r == (self != CpuSampling::NotRequested),
    {
        !matches!(self, CpuSampling::NotRequested)
    }

    /// Whether a CPU usage can be computed from the fresh raw times.
    pub fn compute_usage(self) -> (r: bool)
        ensures
            r == (self == CpuSampling::Ready),
    {
        matches!(self, CpuSampling::Ready)
    }
}

/// What is known of the previous CPU sample.
#[derive(Clone, Copy, Debug, PartialEq, Eq)]
pub struct PreviousCpuSample {
    /// Time elapsed since the last CPU sample, or `None` if there was none.
    pub elapsed: Option<Duration>,
}

impl Default for PreviousCpuSample {
    /// No sample yet.
    fn default() -> (r: Self)
        ensures
            r.elapsed is None,
    {
        PreviousCpuSample { elapsed: None }
    }
}

/// The processes of a request as a set, or `None` for all of them.
pub open spec fn selected(processes: Option<Seq<Pid>>) -> Option<Set<Pid>> {
    match processes {
        None => None,
        Some(pids) => Some(pids.to_set()),
    }
}

/// `kind` without the fields in `unsupported`.
pub open spec fn masked(
    kind: ProcessRefreshKind,
    unsupported: Set<ProcessField>,
) -> ProcessRefreshKind {
    ProcessRefreshKind {
        cpu: kind.cpu,
        memory: kind.memory,
        disk_usage: kind.disk_usage && !unsupported.contains(ProcessField::DiskUsage),
        tasks: kind.tasks && !unsupported.contains(ProcessField::Tasks),
        gpu_usage: kind.gpu_usage && !unsupported.contains(ProcessField::GpuUsage),
        gpu_memory: kind.gpu_memory && !unsupported.contains(ProcessField::GpuMemory),
        user: update_if(!unsupported.contains(ProcessField::User), kind.user),
        cwd: update_if(!unsupported.contains(ProcessField::Cwd), kind.cwd),
        root: update_if(!unsupported.contains(ProcessField::Root), kind.root),
        environ: update_if(!unsupported.contains(ProcessField::Environ), kind.environ),
        cmd: update_if(!unsupported.contains(ProcessField::Cmd), kind.cmd),
        exe: update_if(!unsupported.contains(ProcessField::Exe), kind.exe),
    }
}

/// How CPU data is handled when `requested`, `elapsed` after the last sample.
pub open spec fn sampling(
    requested: bool,
    elapsed: Option<Duration>,
    minimum: Duration,
) -> CpuSampling {
    if !requested {
        CpuSampling::NotRequested
    } else {
        match elapsed {
            None => CpuSampling::FirstSample,
            Some(elapsed) => if elapsed.nanos < minimum.nanos {
                CpuSampling::IntervalTooShort
            } else {
                CpuSampling::Ready
            },
        }
    }
}

/// What a [`ProcessRefreshPlan`] says.
pub struct PlanView {
    /// The processes to visit, or `None` for all of them.
    pub selection: Option<Set<Pid>>,
    /// The fields asked for.
    pub requested_kind: ProcessRefreshKind,
    /// The fields to collect.
    pub refresh_kind: ProcessRefreshKind,
    /// Whether dead processes that were visited are removed.
    pub remove_dead_processes: bool,
    /// The fields that the platform cannot provide.
    pub unsupported_fields: UnsupportedFields,
    /// How CPU data is handled.
    pub cpu_sampling: CpuSampling,
    /// Least time between two CPU usage samples.
    pub minimum_cpu_update_interval: Duration,
}

impl PlanView {
    /// What holds of every plan: only fields that were asked for and that the platform provides
    /// are collected, and CPU data is handled exactly if it was asked for.
    pub open spec fn coherent(self) -> bool {
        &&& self.refresh_kind == masked(self.requested_kind, self.unsupported_fields@)
        &&& self.cpu_sampling == CpuSampling::NotRequested <==> !self.requested_kind.cpu
    }
}

/// The plan of a request.
pub open spec fn planned(
    processes: Option<Seq<Pid>>,
    remove_dead_processes: bool,
    kind: ProcessRefreshKind,
    capabilities: ProcessCapabilities,
    previous: PreviousCpuSample,
) -> PlanView {
    PlanView {
        selection: selected(processes),
        requested_kind: kind,
        refresh_kind: masked(kind, capabilities.unsupported@),
        remove_dead_processes,
        unsupported_fields: capabilities.unsupported,
        cpu_sampling: sampling(
            kind.cpu,
            previous.elapsed,
            capabilities.minimum_cpu_update_interval,
        ),
        minimum_cpu_update_interval: capabilities.minimum_cpu_update_interval,
    }
}

/// Immutable plan of a process refresh.
#[derive(Debug, PartialEq, Eq)]
pub struct ProcessRefreshPlan {
    selection: ProcessSelection,
    kind: ProcessRefreshKind,
    effective_kind: ProcessRefreshKind,
    remove_dead: bool,
    unsupported: UnsupportedFields,
    cpu_sampling: CpuSampling,
    minimum_cpu_update_interval: Duration,
}

impl View for ProcessRefreshPlan {
    type V = PlanView;

    closed spec fn view(&self) -> PlanView {
        PlanView {
            selection: self.selection@,
            requested_kind: self.kind,
            refresh_kind: self.effective_kind,
            remove_dead_processes: self.remove_dead,
            unsupported_fields: self.unsupported,
            cpu_sampling: self.cpu_sampling,
            minimum_cpu_update_interval: self.minimum_cpu_update_interval,
        }
    }
}

/// The identifiers in `pids`, as a set.
fn pid_set(pids: &[Pid]) -> (r: BTreeSet<Pid>)
    ensures
        r@ == pids@.to_set(),
{
    let mut set: BTreeSet<Pid> = BTreeSet::new();
    let mut i: usize = 0;
    while i < pids.len()
        invariant
            i <= pids@.len(),
            set@ == pids@.take(i as int).to_set(),
        decreases pids@.len() - i,
    {
        set.insert(pids[i]);
        proof {
            broadcast use vstd::seq_lib::group_seq_properties;

            assert(pids@.take(i + 1) =~= pids@.take(i as int).push(pids@[i as int]));
            assert(pids@.take(i + 1).to_set() =~= pids@.take(i as int).to_set().insert(
                pids@[i as int],
            ));
        }
        i += 1;
    }
    assert(pids@.take(i as int) =~= pids@);
    set
}

impl Clone for ProcessRefreshPlan {
    fn clone(&self) -> (r: Self)
        ensures
            r@ == self@,
    {
        proof {
            use_type_invariant(self);
        }
        ProcessRefreshPlan {
            selection: self.selection.clone(),
            kind: self.kind,
            effective_kind: self.effective_kind,
            remove_dead: self.remove_dead,
            unsupported: self.unsupported,
            cpu_sampling: self.cpu_sampling,
            minimum_cpu_update_interval: self.minimum_cpu_update_interval,
        }
    }
}

impl ProcessRefreshPlan {
    #[verifier::type_invariant]
    spec fn coherent(self) -> bool {
        self@.coherent()
    }

    /// Normalizes a refresh request into a plan.
    ///
    ///  * `processes_to_update`: all processes, or some of them.
    ///  * `remove_dead_processes`: whether processes visited but not refreshed must be removed.
    ///  * `refresh_kind`: the fields asked for.
    ///  * `capabilities`: what the platform provides, and its CPU sampling interval.
    ///  * `previous`: state of the previous CPU sample.
    pub fn new(
        processes_to_update: ProcessesToUpdate<'_>,
        remove_dead_processes: bool,
        refresh_kind: ProcessRefreshKind,
        capabilities: ProcessCapabilities,
        previous: PreviousCpuSample,
    ) -> (r: Self)
        ensures
            r@ == planned(
                processes_to_update@,
                remove_dead_processes,
                refresh_kind,
                capabilities,
                previous,
            ),
            r@.coherent(),
    {
        let selection = match processes_to_update {
            ProcessesToUpdate::All => ProcessSelection::DiscoverAll,
            ProcessesToUpdate::Pids(pids) => ProcessSelection::ExactPids(pid_set(pids)),
        };

        let unsupported = capabilities.unsupported;
        let effective_kind = mask_supported(refresh_kind, unsupported);

        let cpu_sampling = if !refresh_kind.cpu() {
            CpuSampling::NotRequested
        } else {
            match previous.elapsed {
                None => CpuSampling::FirstSample,
                Some(elapsed) => if elapsed.nanos
                    < capabilities.minimum_cpu_update_interval.nanos {
                    CpuSampling::IntervalTooShort
                } else {
                    CpuSampling::Ready
                },
            }
        };

        ProcessRefreshPlan {
            selection,
            kind: refresh_kind,
            effective_kind,
            remove_dead: remove_dead_processes,
            unsupported,
            cpu_sampling,
            minimum_cpu_update_interval: capabilities.minimum_cpu_update_interval,
        }
    }

    /// The processes to visit, each once.
    pub fn selection(&self) -> (r: &ProcessSelection)
        ensures
            r@ == self@.selection,
    {
        &self.selection
    }

    /// The fields exactly as the user asked for them.
    pub fn requested_kind(&self) -> (r: ProcessRefreshKind)
        ensures
            r == self@.requested_kind,
    {
        self.kind
    }

    /// The fields asked for, with those that the platform does not provide switched off.
    ///
    /// Adapters collect from this value alone, so they never try to fetch what the platform
    /// cannot provide, nor make up a value for it.
    pub fn refresh_kind(&self) -> (r: ProcessRefreshKind)
        ensures
            r == self@.refresh_kind,
            r == masked(self@.requested_kind, self@.unsupported_fields@),
    {
        proof {
            use_type_invariant(self);
        }
        self.effective_kind
    }

    /// Whether dead processes visited during collection must be removed.
    pub fn remove_dead_processes(&self) -> (r: bool)
        ensures
            r == self@.remove_dead_processes,
    {
        self.remove_dead
    }

    /// The fields that the platform cannot provide.
    pub fn unsupported_fields(&self) -> (r: UnsupportedFields)
        ensures
            r == self@.unsupported_fields,
    {
        self.unsupported
    }

    /// How CPU data must be handled for this refresh.
    pub fn cpu_sampling(&self) -> (r: CpuSampling)
        ensures
            r == self@.cpu_sampling,
            r == CpuSampling::NotRequested <==> !self@.requested_kind.cpu,
    {
        proof {
            use_type_invariant(self);
        }
        self.cpu_sampling
    }

    /// Least time between two CPU usage samples on the platform.
    pub fn minimum_cpu_update_interval(&self) -> (r: Duration)
        ensures
            r == self@.minimum_cpu_update_interval,
    {
        self.minimum_cpu_update_interval
    }

    /// Returns `true` if the adapter should iterate at least one process.
    ///
    /// An empty explicit selection means that there is nothing to collect, and the adapter can
    /// return at once without any system call.
    pub fn is_empty(&self) -> (r: bool)
        ensures
            r == (self@.selection != Some(Set::<Pid>::empty())),
    {
        match &self.selection {
            ProcessSelection::DiscoverAll => true,
            ProcessSelection::ExactPids(pids) => !pids.is_empty(),
        }
    }
}

/// `kind`, or nothing if the platform `lacks` the field.
fn update_unless(lacks: bool, kind: UpdateKind) -> (r: UpdateKind)
    ensures
        r == update_if(!lacks, kind),
{
    if lacks {
        UpdateKind::Never
    } else {
        kind
    }
}

/// Disables every requested field that belongs to `unsupported`.
pub fn mask_supported(kind: ProcessRefreshKind, unsupported: UnsupportedFields) -> (r:
    ProcessRefreshKind)
    ensures
        r == masked(kind, unsupported@),
{
    let no_user = unsupported.has(ProcessField::User);
    let no_cwd = unsupported.has(ProcessField::Cwd);
    let no_root = unsupported.has(ProcessField::Root);
    let no_environ = unsupported.has(ProcessField::Environ);
    let no_cmd = unsupported.has(ProcessField::Cmd);
    let no_exe = unsupported.has(ProcessField::Exe);
    let no_disk_usage = unsupported.has(ProcessField::DiskUsage);
    let no_tasks = unsupported.has(ProcessField::Tasks);
    let no_gpu_usage = unsupported.has(ProcessField::GpuUsage);
    let no_gpu_memory = unsupported.has(ProcessField::GpuMemory);
    ProcessRefreshKind {
        cpu: kind.cpu,
        memory: kind.memory,
        disk_usage: kind.disk_usage && !no_disk_usage,
        tasks: kind.tasks && !no_tasks,
        gpu_usage: kind.gpu_usage && !no_gpu_usage,
        gpu_memory: kind.gpu_memory && !no_gpu_memory,
        user: update_unless(no_user, kind.user),
        cwd: update_unless(no_cwd, kind.cwd),
        root: update_unless(no_root, kind.root),
        environ: update_unless(no_environ, kind.environ),
        cmd: update_unless(no_cmd, kind.cmd),
        exe: update_unless(no_exe, kind.exe),
    }
}

/// What masking does to one field.
#[verifier::rlimit(40)]
pub(crate) proof fn lemma_masked_field(
    kind: ProcessRefreshKind,
    unsupported: Set<ProcessField>,
    field: ProcessField,
)
    requires
        !unsupported.contains(ProcessField::Memory),
    ensures
        masked(kind, unsupported).update(field) == update_if(
            !unsupported.contains(field),
            kind.update(field),
        ),
        masked(kind, unsupported).cpu == kind.cpu,
{
    let m = masked(kind, unsupported);
    match field {
        ProcessField::User => {
            assert(m.user == update_if(!unsupported.contains(ProcessField::User), kind.user));
        },
        ProcessField::Cwd => {
            assert(m.cwd == update_if(!unsupported.contains(ProcessField::Cwd), kind.cwd));
        },
        ProcessField::Root => {
            assert(m.root == update_if(!unsupported.contains(ProcessField::Root), kind.root));
        },
        ProcessField::Environ => {
            assert(m.environ == update_if(
                !unsupported.contains(ProcessField::Environ),
                kind.environ,
            ));
        },
        ProcessField::Cmd => {
            assert(m.cmd == update_if(!unsupported.contains(ProcessField::Cmd), kind.cmd));
        },
        ProcessField::Exe => {
            assert(m.exe == update_if(!unsupported.contains(ProcessField::Exe), kind.exe));
        },
        ProcessField::DiskUsage => {
            assert(m.disk_usage == (kind.disk_usage && !unsupported.contains(
                ProcessField::DiskUsage,
            )));
        },
        ProcessField::Tasks => {
            assert(m.tasks == (kind.tasks && !unsupported.contains(ProcessField::Tasks)));
        },
        ProcessField::GpuUsage => {
            assert(m.gpu_usage == (kind.gpu_usage && !unsupported.contains(
                ProcessField::GpuUsage,
            )));
        },
        ProcessField::GpuMemory => {
            assert(m.gpu_memory == (kind.gpu_memory && !unsupported.contains(
                ProcessField::GpuMemory,
            )));
        },
        ProcessField::Memory => {
            assert(m.memory == kind.memory);
        },
    }
}

/// A plan collects a field exactly as it was asked for if the platform provides it, and not at
/// all otherwise; CPU information is collected exactly if it was asked for.
pub proof fn law_only_provided_fields_are_collected(plan: PlanView, field: ProcessField)
    requires
        plan.coherent(),
    ensures
        plan.refresh_kind.update(field) == update_if(
            !plan.unsupported_fields@.contains(field),
            plan.requested_kind.update(field),
        ),
        plan.refresh_kind.cpu == plan.requested_kind.cpu,
{
    law_memory_is_always_provided(plan.unsupported_fields);
    lemma_masked_field(plan.requested_kind, plan.unsupported_fields@, field);
}

/// The plan of a request is coherent.
pub proof fn law_plans_are_coherent(
    processes: Option<Seq<Pid>>,
    remove_dead_processes: bool,
    kind: ProcessRefreshKind,
    capabilities: ProcessCapabilities,
    previous: PreviousCpuSample,
)
    ensures
        planned(processes, remove_dead_processes, kind, capabilities, previous).coherent(),
{
}

/// Masking the fields of one set and then those of another masks the fields of both; so masking
/// twice by the same set is masking once.
pub proof fn law_masking_composes(
    kind: ProcessRefreshKind,
    first: Set<ProcessField>,
    second: Set<ProcessField>,
)
    ensures
        masked(masked(kind, first), second) == masked(kind, first.union(second)),
        masked(masked(kind, first), first) == masked(kind, first),
{
}

/// On a platform that provides everything and does not throttle CPU sampling, a plan collects
/// exactly what was asked for, and no sample comes too soon.
pub proof fn law_full_platform_collects_the_request(
    processes: Option<Seq<Pid>>,
    remove_dead_processes: bool,
    kind: ProcessRefreshKind,
    capabilities: ProcessCapabilities,
    previous: PreviousCpuSample,
)
    requires
        capabilities.unsupported@ == Set::<ProcessField>::empty(),
        capabilities.minimum_cpu_update_interval.nanos == 0,
    ensures
        ({
            let plan = planned(processes, remove_dead_processes, kind, capabilities, previous);
            &&& plan.refresh_kind == kind
            &&& plan.cpu_sampling != CpuSampling::IntervalTooShort
        }),
{
}

/// The order of the requested processes and their repetitions do not matter: two lists of the
/// same processes have the same plan.
pub proof fn law_order_and_repetitions_do_not_matter(
    pids: Seq<Pid>,
    others: Seq<Pid>,
    remove_dead_processes: bool,
    kind: ProcessRefreshKind,
    capabilities: ProcessCapabilities,
    previous: PreviousCpuSample,
)
    requires
        forall|pid: Pid| #[trigger] pids.contains(pid) <==> others.contains(pid),
    ensures
        planned(Some(pids), remove_dead_processes, kind, capabilities, previous) == planned(
            Some(others),
            remove_dead_processes,
            kind,
            capabilities,
            previous,
        ),
{
    assert forall|pid: Pid| #[trigger] pids.to_set().contains(pid) <==> others.to_set().contains(
        pid,
    ) by {
        assert(pids.contains(pid) <==> others.contains(pid));
    }
    assert(pids.to_set() =~= others.to_set());
}

/// A plan has nothing to visit exactly when the request lists no process.
pub proof fn law_nothing_to_visit_iff_nothing_listed(processes: Option<Seq<Pid>>)
    ensures
        selected(processes) == Some(Set::<Pid>::empty()) <==> processes == Some(
            Seq::<Pid>::empty(),
        ),
{
    if let Some(pids) = processes {
        if pids.len() > 0 {
            assert(pids.to_set().contains(pids[0]));
        } else {
            assert(pids =~= Seq::<Pid>::empty());
            assert(pids.to_set() =~= Set::<Pid>::empty());
        }
    }
}

/// Once enough time has elapsed for a usage to be computed, it still has after a longer wait, and
/// on a platform with a shorter interval.
pub proof fn law_ready_stays_ready(
    requested: bool,
    elapsed: Duration,
    longer: Duration,
    minimum: Duration,
    shorter: Duration,
)
    requires
        sampling(requested, Some(elapsed), minimum) == CpuSampling::Ready,
        elapsed.nanos <= longer.nanos,
        shorter.nanos <= minimum.nanos,
    ensures
        sampling(requested, Some(longer), shorter) == CpuSampling::Ready,
{
}

/// A selection is of all processes, or of exactly those in its set.
pub proof fn law_a_selection_is_its_set(selection: ProcessSelection)
    ensures
        match selection {
            ProcessSelection::DiscoverAll => selection@ is None,
            ProcessSelection::ExactPids(pids) => selection@ == Some(pids@),
        },
{
}

/// The plan of a request that lists processes selects a process if and only if the request lists
/// it; the plan of a request for all processes selects all.
pub proof fn law_exactly_the_requested_processes_are_visited(
    request: ProcessesToUpdate<'_>,
    remove_dead_processes: bool,
    kind: ProcessRefreshKind,
    capabilities: ProcessCapabilities,
    previous: PreviousCpuSample,
)
    ensures
        ({
            let plan = planned(request@, remove_dead_processes, kind, capabilities, previous);
            match request {
                ProcessesToUpdate::All => plan.selection is None,
                ProcessesToUpdate::Pids(pids) => {
                    &&& plan.selection matches Some(visited)
                    &&& forall|pid: Pid| #[trigger] visited.contains(pid) <==> pids@.contains(pid)
                },
            }
        }),
{
}

/// Whichever processes are selected and whatever was sampled before, a field that the platform
/// lacks is not collected and every other field is collected as it was asked for. CPU and memory
/// are never lacking.
pub proof fn law_fields_are_collected_unless_lacking(
    request: ProcessesToUpdate<'_>,
    remove_dead_processes: bool,
    kind: ProcessRefreshKind,
    capabilities: ProcessCapabilities,
    previous: PreviousCpuSample,
)
    ensures
        ({
            let plan = planned(request@, remove_dead_processes, kind, capabilities, previous);
            let collected = plan.refresh_kind;
            let lacking = capabilities.unsupported@;
            &&& collected == masked(kind, lacking)
            &&& collected.cpu == kind.cpu
            &&& collected.memory == kind.memory
            &&& collected.disk_usage <==> kind.disk_usage && !lacking.contains(
                ProcessField::DiskUsage,
            )
            &&& collected.tasks <==> kind.tasks && !lacking.contains(ProcessField::Tasks)
            &&& collected.gpu_usage <==> kind.gpu_usage && !lacking.contains(ProcessField::GpuUsage)
            &&& collected.gpu_memory <==> kind.gpu_memory && !lacking.contains(
                ProcessField::GpuMemory,
            )
            &&& lacking.contains(ProcessField::User) ==> collected.user == UpdateKind::Never
            &&& !lacking.contains(ProcessField::User) ==> collected.user == kind.user
            &&& lacking.contains(ProcessField::Cwd) ==> collected.cwd == UpdateKind::Never
            &&& !lacking.contains(ProcessField::Cwd) ==> collected.cwd == kind.cwd
            &&& lacking.contains(ProcessField::Root) ==> collected.root == UpdateKind::Never
            &&& !lacking.contains(ProcessField::Root) ==> collected.root == kind.root
            &&& lacking.contains(ProcessField::Environ) ==> collected.environ == UpdateKind::Never
            &&& !lacking.contains(ProcessField::Environ) ==> collected.environ == kind.environ
            &&& lacking.contains(ProcessField::Cmd) ==> collected.cmd == UpdateKind::Never
            &&& !lacking.contains(ProcessField::Cmd) ==> collected.cmd == kind.cmd
            &&& lacking.contains(ProcessField::Exe) ==> collected.exe == UpdateKind::Never
            &&& !lacking.contains(ProcessField::Exe) ==> collected.exe == kind.exe
        }),
{
}

/// The plan keeps what it was built from: the fields as they were asked for, what the platform
/// lacks, its interval, and what becomes of dead processes.
pub proof fn law_the_plan_keeps_what_it_was_built_from(
    request: ProcessesToUpdate<'_>,
    remove_dead_processes: bool,
    kind: ProcessRefreshKind,
    capabilities: ProcessCapabilities,
    previous: PreviousCpuSample,
)
    ensures
        ({
            let plan = planned(request@, remove_dead_processes, kind, capabilities, previous);
            &&& plan.requested_kind == kind
            &&& plan.remove_dead_processes == remove_dead_processes
            &&& plan.unsupported_fields == capabilities.unsupported
            &&& plan.minimum_cpu_update_interval == capabilities.minimum_cpu_update_interval
        }),
{
}

/// Each way of handling CPU data has its one occasion: none where CPU is not asked for, a first
/// sample where there was none, no usage while the time since the last sample is below the least
/// interval, and a usage once it is not.
pub proof fn law_when_a_usage_is_computed(
    request: ProcessesToUpdate<'_>,
    remove_dead_processes: bool,
    kind: ProcessRefreshKind,
    capabilities: ProcessCapabilities,
    previous: PreviousCpuSample,
)
    ensures
        ({
            let plan = planned(request@, remove_dead_processes, kind, capabilities, previous);
            let minimum = capabilities.minimum_cpu_update_interval;
            &&& plan.cpu_sampling == CpuSampling::NotRequested <==> !kind.cpu
            &&& plan.cpu_sampling == CpuSampling::FirstSample <==> kind.cpu
                && previous.elapsed is None
            &&& plan.cpu_sampling == CpuSampling::IntervalTooShort <==> {
                &&& kind.cpu
                &&& previous.elapsed matches Some(elapsed)
                &&& elapsed.nanos < minimum.nanos
            }
            &&& plan.cpu_sampling == CpuSampling::Ready <==> {
                &&& kind.cpu
                &&& previous.elapsed matches Some(elapsed)
                &&& elapsed.nanos >= minimum.nanos
            }
        }),
{
}

} // verus!
