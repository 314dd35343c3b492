//! Normalization of a process refresh request into an immutable plan that keeps the request as it
//! is and also decides how samples are taken and how the result is committed.
//!
//! A [`ProcessRefreshPlan`] combines the requested fields, the requested processes, the previous
//! CPU sampling state and the capabilities of the platform. Adapters only collect what the plan
//! asks for and report an [`Outcome`] for each process; nothing here makes a system call.
use vstd::prelude::*;

use crate::flags::{law_memory_is_always_provided, UnsupportedFields};
use crate::pids::{contains_pid, first_occurrences, law_first_occurrences_same_pids};
use crate::process_plan::{lemma_masked_field, masked, ProcessCapabilities};
use crate::request::{
    all_fields, update_if, Pid, ProcessField, ProcessRefreshKind, ProcessesToUpdate, UpdateKind,
};
use crate::time::{nanos_between, Duration, Instant};

verus! {

/// Process selection, as the caller listed it.
#[derive(Clone, Copy, Debug, PartialEq, Eq)]
pub enum ProcessSelection<'a> {
    /// Every process known to the operating system must be visited.
    All,
    /// Only the listed processes must be visited. An empty list means that nothing is visited,
    /// and repetitions are kept.
    Pids(&'a [Pid]),
}

impl<'a> View for ProcessSelection<'a> {
    type V = Option<Seq<Pid>>;

    /// The listed processes, or `None` for all of them.
    open spec fn view(&self) -> Option<Seq<Pid>> {
        match *self {
            ProcessSelection::All => None,
            ProcessSelection::Pids(pids) => Some(pids@),
        }
    }
}

/// The processes that a selection lists, none when it is about all of them.
pub open spec fn listed(selection: Option<Seq<Pid>>) -> Seq<Pid> {
    match selection {
        None => Seq::empty(),
        Some(pids) => pids,
    }
}

impl<'a> ProcessSelection<'a> {
    /// The selection of a request.
    pub fn from_request(request: ProcessesToUpdate<'a>) -> (r: Self)
        ensures
            r@ == request@,
    {
        match request {
            ProcessesToUpdate::All => ProcessSelection::All,
            ProcessesToUpdate::Pids(pids) => ProcessSelection::Pids(pids),
        }
    }

    /// Whether `pid` belongs to the selection.
    pub fn contains(&self, pid: Pid) -> (r: bool)
        ensures
            r == (self@ matches Some(pids) ==> pids.contains(pid)),
    {
        match self {
            ProcessSelection::All => true,
            ProcessSelection::Pids(pids) => contains_pid(pids, pid),
        }
    }

    /// Whether all processes must be visited.
    pub fn is_all(&self) -> (r: bool)
        ensures
            r == (self@ is None),
    {
        matches!(self, ProcessSelection::All)
    }

    /// The processes explicitly requested, none for [`ProcessSelection::All`].
    pub fn requested_pids(&self) -> (r: &[Pid])
        ensures
            r@ == listed(self@),
    {
        match self {
            ProcessSelection::All => {
                let none: &[Pid] = &[];
                assert(none@ =~= Seq::<Pid>::empty());
                none
            },
            ProcessSelection::Pids(pids) => pids,
        }
    }

    /// The requested processes without repetitions, in the order in which they are first listed.
    pub fn unique_requested_pids(&self) -> (r: Vec<Pid>)
        ensures
            r@ == first_occurrences(listed(self@)),
    {
        let pids = self.requested_pids();
        let mut unique: Vec<Pid> = Vec::new();
        let mut i: usize = 0;
        while i < pids.len()
            invariant
                i <= pids@.len(),
                unique@ == first_occurrences(pids@.take(i as int)),
            decreases pids@.len() - i,
        {
            assert(pids@.take(i + 1).drop_last() =~= pids@.take(i as int));
            assert(pids@.take(i + 1).last() == pids@[i as int]);
            if !contains_pid(unique.as_slice(), pids[i]) {
                unique.push(pids[i]);
            }
            i += 1;
        }
        assert(pids@.take(i as int) =~= pids@);
        unique
    }
}

/// The result of collecting data for one process.
#[derive(Clone, Copy, Debug, PartialEq, Eq, Structural)]
pub enum Outcome {
    /// Fresh data was collected.
    Updated,
    /// The process could not be updated: it was not visited, or it does not exist.
    NotUpdated,
}

/// What the commit must do with a process.
#[derive(Clone, Copy, Debug, PartialEq, Eq, Structural)]
pub enum CommitAction {
    /// Keep the process and mark it as updated.
    KeepAndMarkUpdated,
    /// Clear the updated flag without removing the process.
    ClearUpdatedFlag,
    /// Mark the tracked process as nonexistent without removing it.
    MarkNonexistent,
    /// Remove the process from those that are tracked.
    Remove,
    /// Do nothing.
    Ignore,
}

/// What the commit does with a process, for a selection of all processes or of some.
pub open spec fn committed(
    selects_all: bool,
    remove_dead: bool,
    is_tracked: bool,
    outcome: Outcome,
) -> CommitAction {
    if outcome == Outcome::Updated {
        CommitAction::KeepAndMarkUpdated
    } else if remove_dead {
        if is_tracked {
            CommitAction::Remove
        } else {
            CommitAction::Ignore
        }
    } else if selects_all {
        CommitAction::ClearUpdatedFlag
    } else if is_tracked {
        CommitAction::MarkNonexistent
    } else {
        CommitAction::Ignore
    }
}

/// Whether dead processes are removed after collection.
#[derive(Clone, Copy, Debug, PartialEq, Eq, Structural)]
pub struct DeadProcessPolicy {
    remove: bool,
}

impl View for DeadProcessPolicy {
    type V = bool;

    /// Whether dead processes are removed.
    closed spec fn view(&self) -> bool {
        self.remove
    }
}

impl DeadProcessPolicy {
    /// The policy that removes dead processes if `remove`.
    pub fn new(remove: bool) -> (r: Self)
        ensures
            r@ == remove,
    {
        DeadProcessPolicy { remove }
    }

    /// Whether processes found dead among the selected ones must be removed.
    pub fn removes_dead_processes(&self) -> (r: bool)
        ensures
            r == self@,
    {
        self.remove
    }
}

/// State of CPU sampling when a plan is built.
#[derive(Clone, Copy, Debug)]
pub struct CpuSamplingContext {
    /// When the CPU times of the system were last sampled, if ever.
    pub last_system_sample: Option<Instant>,
    /// Least time between two CPU samples on the platform.
    pub minimum_interval: Duration,
    /// The current time.
    pub now: Instant,
}

impl CpuSamplingContext {
    /// The state with the given parts.
    pub fn new(
        last_system_sample: Option<Instant>,
        minimum_interval: Duration,
        now: Instant,
    ) -> (r: Self)
        ensures
            r.last_system_sample == last_system_sample,
            r.minimum_interval == minimum_interval,
            r.now == now,
    {
        CpuSamplingContext { last_system_sample, minimum_interval, now }
    }
}

/// What to do with the CPU times of the system.
#[derive(Clone, Copy, Debug, PartialEq, Eq, Structural)]
pub enum SystemCpuAction {
    /// Sample them for the first time: no usage can be computed yet.
    TakeFirstSample,
    /// Sample them, enough time having elapsed: usages can be computed.
    TakeSampleAndCompute,
    /// Leave times and timestamp untouched, too little time having elapsed, and keep the usages
    /// reported before.
    KeepPreviousSample,
    /// CPU information was not requested: nothing related to it happens.
    Skip,
}

/// What to do with the CPU data of one process.
#[derive(Clone, Copy, Debug, PartialEq, Eq, Structural)]
pub enum ProcessCpuAction {
    /// Store raw times and leave the usage at zero: this is its first sample.
    RecordFirstSample,
    /// Store raw times and compute the usage.
    RecordSampleAndCompute,
    /// Keep the usage reported before and the raw times.
    KeepPrevious,
    /// CPU information was not requested.
    Skip,
}

/// What to do with the CPU times of the system at `now`.
pub open spec fn system_action_at(
    requested: bool,
    last: Option<Instant>,
    now: Instant,
    minimum: Duration,
) -> SystemCpuAction {
    if !requested {
        SystemCpuAction::Skip
    } else {
        match last {
            None => SystemCpuAction::TakeFirstSample,
            Some(last) => if nanos_between(last, now) >= minimum.nanos {
                SystemCpuAction::TakeSampleAndCompute
            } else {
                SystemCpuAction::KeepPreviousSample
            },
        }
    }
}

/// What to do with a process, given what is done with the system.
pub open spec fn process_action_under(
    system_action: SystemCpuAction,
    has_previous_sample: bool,
) -> ProcessCpuAction {
    match system_action {
        SystemCpuAction::Skip => ProcessCpuAction::Skip,
        SystemCpuAction::KeepPreviousSample => ProcessCpuAction::KeepPrevious,
        SystemCpuAction::TakeFirstSample => ProcessCpuAction::RecordFirstSample,
        SystemCpuAction::TakeSampleAndCompute => if has_previous_sample {
            ProcessCpuAction::RecordSampleAndCompute
        } else {
            ProcessCpuAction::RecordFirstSample
        },
    }
}

/// What to do with a process that is sampled on its own, `last_sample` being its last one.
pub open spec fn process_action_at(
    requested: bool,
    has_previous_sample: bool,
    last_sample: Option<Instant>,
    now: Instant,
    minimum: Duration,
) -> ProcessCpuAction {
    if !requested {
        ProcessCpuAction::Skip
    } else {
        match last_sample {
            None => ProcessCpuAction::RecordFirstSample,
            Some(last) => if nanos_between(last, now) < minimum.nanos {
                ProcessCpuAction::KeepPrevious
            } else if has_previous_sample {
                ProcessCpuAction::RecordSampleAndCompute
            } else {
                ProcessCpuAction::RecordFirstSample
            },
        }
    }
}

/// What a [`CpuPlan`] says.
pub struct CpuPlanView {
    /// Whether CPU information was requested.
    pub requested: bool,
    /// What to do with the CPU times of the system.
    pub system_action: SystemCpuAction,
    /// Least time between two CPU samples.
    pub minimum_interval: Duration,
}

/// The CPU part of a [`ProcessRefreshPlan`].
#[derive(Clone, Copy, Debug)]
pub struct CpuPlan {
    requested: bool,
    system_action: SystemCpuAction,
    minimum_interval: Duration,
}

impl View for CpuPlan {
    type V = CpuPlanView;

    closed spec fn view(&self) -> CpuPlanView {
        CpuPlanView {
            requested: self.requested,
            system_action: self.system_action,
            minimum_interval: self.minimum_interval,
        }
    }
}

/// The CPU plan of a request.
pub open spec fn cpu_planned(requested: bool, sampling: CpuSamplingContext) -> CpuPlanView {
    CpuPlanView {
        requested,
        system_action: system_action_at(
            requested,
            sampling.last_system_sample,
            sampling.now,
            sampling.minimum_interval,
        ),
        minimum_interval: sampling.minimum_interval,
    }
}

impl CpuPlan {
    /// CPU times are skipped exactly when they were not requested.
    #[verifier::type_invariant]
    spec fn skips_unless_requested(self) -> bool {
        self.requested <==> self.system_action != SystemCpuAction::Skip
    }

    /// The CPU plan of a request, given the state of CPU sampling.
    pub fn new(kind: ProcessRefreshKind, sampling: CpuSamplingContext) -> (r: Self)
        ensures
            r@ == cpu_planned(kind.cpu, sampling),
    {
        let system_action = if !kind.cpu() {
            SystemCpuAction::Skip
        } else {
            match sampling.last_system_sample {
                None => SystemCpuAction::TakeFirstSample,
                Some(last) => {
                    if sampling.now.duration_since(last).nanos >= sampling.minimum_interval.nanos {
                        SystemCpuAction::TakeSampleAndCompute
                    } else {
                        SystemCpuAction::KeepPreviousSample
                    }
                },
            }
        };
        CpuPlan {
            requested: kind.cpu(),
            system_action,
            minimum_interval: sampling.minimum_interval,
        }
    }

    /// Whether CPU information was requested at all.
    pub fn requested(&self) -> (r: bool)
        ensures
            r == self@.requested,
            r == (self@.system_action != SystemCpuAction::Skip),
    {
        proof {
            use_type_invariant(self);
        }
        self.requested
    }

    /// What to do with the CPU times of the system.
    pub fn system_action(&self) -> (r: SystemCpuAction)
        ensures
            r == self@.system_action,
    {
        self.system_action
    }

    /// Whether the CPU times of the system should be sampled.
    pub fn take_system_sample(&self) -> (r: bool)
        ensures
            r == (self@.system_action == SystemCpuAction::TakeFirstSample || self@.system_action
                == SystemCpuAction::TakeSampleAndCompute),
    {
        matches!(
            self.system_action,
            SystemCpuAction::TakeFirstSample | SystemCpuAction::TakeSampleAndCompute
        )
    }

    /// Least time between two CPU samples on this platform.
    pub fn minimum_interval(&self) -> (r: Duration)
        ensures
            r == self@.minimum_interval,
    {
        self.minimum_interval
    }

    /// What to do with a process; `has_previous_sample` tells whether it was sampled before.
    ///
    /// * no CPU requested: [`ProcessCpuAction::Skip`]
    /// * the system keeps its previous sample: [`ProcessCpuAction::KeepPrevious`]
    /// * first sample of the system: first sample of every process
    /// * later sample of the system, process not sampled before: its own first sample
    /// * otherwise: compute the usage
    pub fn process_action(&self, has_previous_sample: bool) -> (r: ProcessCpuAction)
        ensures
            r == process_action_under(self@.system_action, has_previous_sample),
            r == ProcessCpuAction::Skip <==> !self@.requested,
    {
        proof {
            use_type_invariant(self);
        }
        match self.system_action {
            SystemCpuAction::Skip => ProcessCpuAction::Skip,
            SystemCpuAction::KeepPreviousSample => ProcessCpuAction::KeepPrevious,
            SystemCpuAction::TakeFirstSample => ProcessCpuAction::RecordFirstSample,
            SystemCpuAction::TakeSampleAndCompute => {
                if has_previous_sample {
                    ProcessCpuAction::RecordSampleAndCompute
                } else {
                    ProcessCpuAction::RecordFirstSample
                }
            },
        }
    }

    /// What to do with a process on a platform where each process is sampled on its own.
    pub fn process_action_for(
        &self,
        has_previous_sample: bool,
        last_sample: Option<Instant>,
        now: Instant,
    ) -> (r: ProcessCpuAction)
        ensures
            r == process_action_at(
                self@.requested,
                has_previous_sample,
                last_sample,
                now,
                self@.minimum_interval,
            ),
    {
        if !self.requested {
            return ProcessCpuAction::Skip;
        }
        match last_sample {
            None => ProcessCpuAction::RecordFirstSample,
            Some(last) => {
                if now.duration_since(last).nanos >= self.minimum_interval.nanos {
                    if has_previous_sample {
                        ProcessCpuAction::RecordSampleAndCompute
                    } else {
                        ProcessCpuAction::RecordFirstSample
                    }
                } else {
                    ProcessCpuAction::KeepPrevious
                }
            },
        }
    }
}

/// What to do with one field of the processes.
#[derive(Clone, Copy, Debug, PartialEq, Eq, Structural)]
pub enum FieldFetch {
    /// The field is requested but the platform does not provide it.
    Unsupported,
    /// The field is not requested.
    Skip,
    /// Collect a field that is simply wanted.
    Collect,
    /// Collect the field only while it has no value yet.
    CollectIfNotSet,
    /// Collect the field at every refresh.
    AlwaysCollect,
}

/// Whether `field` is simply wanted or not, without an [`UpdateKind`].
pub open spec fn is_switch(field: ProcessField) -> bool {
    ||| field == ProcessField::Memory
    ||| field == ProcessField::DiskUsage
    ||| field == ProcessField::Tasks
    ||| field == ProcessField::GpuUsage
    ||| field == ProcessField::GpuMemory
}

/// What to do with `field` when `kind` is requested of a platform.
pub open spec fn fetch_for(
    kind: ProcessRefreshKind,
    unsupported: Set<ProcessField>,
    field: ProcessField,
) -> FieldFetch {
    if !kind.requests(field) {
        FieldFetch::Skip
    } else if unsupported.contains(field) {
        FieldFetch::Unsupported
    } else if is_switch(field) {
        FieldFetch::Collect
    } else if kind.update(field) == UpdateKind::OnlyIfNotSet {
        FieldFetch::CollectIfNotSet
    } else {
        FieldFetch::AlwaysCollect
    }
}

/// What to do with a field that is simply wanted or not.
fn fetch_switch(wanted: bool, lacking: bool) -> (r: FieldFetch)
    ensures
        r == (if !wanted {
            FieldFetch::Skip
        } else if lacking {
            FieldFetch::Unsupported
        } else {
            FieldFetch::Collect
        }),
{
    if !wanted {
        FieldFetch::Skip
    } else if lacking {
        FieldFetch::Unsupported
    } else {
        FieldFetch::Collect
    }
}

/// What to do with a field that has an [`UpdateKind`].
fn fetch_update(kind: UpdateKind, lacking: bool) -> (r: FieldFetch)
    ensures
        r == (if kind == UpdateKind::Never {
            FieldFetch::Skip
        } else if lacking {
            FieldFetch::Unsupported
        } else if kind == UpdateKind::OnlyIfNotSet {
            FieldFetch::CollectIfNotSet
        } else {
            FieldFetch::AlwaysCollect
        }),
{
    match kind {
        UpdateKind::Never => FieldFetch::Skip,
        UpdateKind::OnlyIfNotSet => if lacking {
            FieldFetch::Unsupported
        } else {
            FieldFetch::CollectIfNotSet
        },
        UpdateKind::Always => if lacking {
            FieldFetch::Unsupported
        } else {
            FieldFetch::AlwaysCollect
        },
    }
}

/// The fields of a [`ProcessRefreshPlan`].
#[derive(Clone, Copy, Debug)]
pub struct FieldPlan {
    /// The fields asked for.
    pub kind: ProcessRefreshKind,
    /// The fields that the platform cannot provide.
    pub unsupported: UnsupportedFields,
}

impl FieldPlan {
    /// The fields of a request on a platform.
    pub fn new(kind: ProcessRefreshKind, capabilities: ProcessCapabilities) -> (r: Self)
        ensures
            r.kind == kind,
            r.unsupported == capabilities.unsupported,
    {
        FieldPlan { kind, unsupported: capabilities.unsupported }
    }

    /// What to do with `field`.
    pub fn fetch(&self, field: ProcessField) -> (r: FieldFetch)
        ensures
            r == fetch_for(self.kind, self.unsupported@, field),
    {
        let lacking = self.unsupported.has(field);
        match field {
            ProcessField::User => fetch_update(self.kind.user(), lacking),
            ProcessField::Cwd => fetch_update(self.kind.cwd(), lacking),
            ProcessField::Root => fetch_update(self.kind.root(), lacking),
            ProcessField::Environ => fetch_update(self.kind.environ(), lacking),
            ProcessField::Cmd => fetch_update(self.kind.cmd(), lacking),
            ProcessField::Exe => fetch_update(self.kind.exe(), lacking),
            ProcessField::DiskUsage => fetch_switch(self.kind.disk_usage(), lacking),
            ProcessField::Tasks => fetch_switch(self.kind.tasks(), lacking),
            ProcessField::GpuUsage => fetch_switch(self.kind.gpu_usage(), lacking),
            ProcessField::GpuMemory => fetch_switch(self.kind.gpu_memory(), lacking),
            ProcessField::Memory => fetch_switch(self.kind.memory(), lacking),
        }
    }
}

/// What a [`ProcessRefreshPlan`] says.
pub struct PlanView {
    /// The processes to visit, as listed, or `None` for all of them.
    pub selection: Option<Seq<Pid>>,
    /// How CPU times are sampled.
    pub cpu: CpuPlanView,
    /// Whether dead processes are removed.
    pub remove_dead: bool,
    /// Whether processes that are found but not known yet are added.
    pub discover_new_processes: bool,
    /// The fields asked for.
    pub kind: ProcessRefreshKind,
    /// What the platform provides.
    pub capabilities: ProcessCapabilities,
}

impl PlanView {
    /// Whether the platform provides `field`.
    pub open spec fn provides(self, field: ProcessField) -> bool {
        !self.capabilities.unsupported@.contains(field)
    }

    /// What to do with `field`.
    pub open spec fn fetch(self, field: ProcessField) -> FieldFetch {
        fetch_for(self.kind, self.capabilities.unsupported@, field)
    }
}

/// The plan of a request.
pub open spec fn planned(
    kind: ProcessRefreshKind,
    processes: Option<Seq<Pid>>,
    remove_dead_processes: bool,
    sampling: CpuSamplingContext,
    capabilities: ProcessCapabilities,
) -> PlanView {
    PlanView {
        selection: processes,
        cpu: cpu_planned(kind.cpu, sampling),
        remove_dead: remove_dead_processes,
        discover_new_processes: true,
        kind,
        capabilities,
    }
}

/// The complete, immutable plan of a process refresh.
#[derive(Clone, Copy, Debug)]
pub struct ProcessRefreshPlan<'a> {
    selection: ProcessSelection<'a>,
    cpu: CpuPlan,
    dead_processes: DeadProcessPolicy,
    discover_new_processes: bool,
    fields: FieldPlan,
    capabilities: ProcessCapabilities,
}

impl<'a> View for ProcessRefreshPlan<'a> {
    type V = PlanView;

    closed spec fn view(&self) -> PlanView {
        PlanView {
            selection: self.selection@,
            cpu: self.cpu@,
            remove_dead: self.dead_processes@,
            discover_new_processes: self.discover_new_processes,
            kind: self.fields.kind,
            capabilities: self.capabilities,
        }
    }
}

impl<'a> ProcessRefreshPlan<'a> {
    /// The fields are planned for the platform of the plan, and new processes are discovered.
    #[verifier::type_invariant]
    spec fn coherent(self) -> bool {
        &&& self.fields.unsupported == self.capabilities.unsupported
        &&& self.discover_new_processes
    }

    /// Normalizes a refresh request into an immutable plan.
    ///
    /// * `kind`: the fields asked for.
    /// * `processes_to_update`: all processes, or exactly those listed.
    /// * `remove_dead_processes`: whether processes reported as dead must be removed.
    /// * `sampling`: the previous CPU sample of the system and the least time between two.
    /// * `capabilities`: what the platform can provide.
    ///
    /// Fields that are asked for and not provided are kept as [`FieldFetch::Unsupported`], not
    /// treated as successful empty values.
    pub fn new(
        kind: ProcessRefreshKind,
        processes_to_update: ProcessesToUpdate<'a>,
        remove_dead_processes: bool,
        sampling: CpuSamplingContext,
        capabilities: ProcessCapabilities,
    ) -> (r: Self)
        ensures
            r@ == planned(
                kind,
                processes_to_update@,
                remove_dead_processes,
                sampling,
                capabilities,
            ),
    {
        let selection = ProcessSelection::from_request(processes_to_update);
        ProcessRefreshPlan {
            discover_new_processes: true,
            dead_processes: DeadProcessPolicy::new(remove_dead_processes),
            cpu: CpuPlan::new(kind, sampling),
            fields: FieldPlan::new(kind, capabilities),
            selection,
            capabilities,
        }
    }

    /// The process selection, all processes or some.
    pub fn selection(&self) -> (r: ProcessSelection<'a>)
        ensures
            r@ == self@.selection,
    {
        self.selection
    }

    /// How CPU times are sampled.
    pub fn cpu(&self) -> (r: CpuPlan)
        ensures
            r@ == self@.cpu,
    {
        self.cpu
    }

    /// How dead processes must be handled by the commit.
    pub fn dead_processes(&self) -> (r: DeadProcessPolicy)
        ensures
            r@ == self@.remove_dead,
    {
        self.dead_processes
    }

    /// Whether processes that are found while collecting but not known yet must be added.
    ///
    /// They always are; a selection of some processes only discovers those it lists.
    pub fn discover_new_processes(&self) -> (r: bool)
        ensures
            r == self@.discover_new_processes,
            r,
    {
        proof {
            use_type_invariant(self);
        }
        self.discover_new_processes
    }

    /// What the platform provides.
    pub fn capabilities(&self) -> (r: ProcessCapabilities)
        ensures
            r == self@.capabilities,
    {
        self.capabilities
    }

    /// What to do with one field.
    pub fn field(&self, field: ProcessField) -> (r: FieldFetch)
        ensures
            r == self@.fetch(field),
    {
        proof {
            use_type_invariant(self);
        }
        self.fields.fetch(field)
    }

    /// Whether a field that is simply wanted or not must be collected.
    fn bool_field(&self, field: ProcessField) -> (r: bool)
        ensures
            r == (self@.fetch(field) == FieldFetch::Collect),
    {
        self.field(field) == FieldFetch::Collect
    }

    /// Whether memory use must be collected.
    pub fn memory(&self) -> (r: bool)
        ensures
            r == self@.kind.memory,
    {
        proof {
            law_memory_is_always_provided(self@.capabilities.unsupported);
        }
        self.bool_field(ProcessField::Memory)
    }

    /// Whether disk activity must be collected.
    pub fn disk_usage(&self) -> (r: bool)
        ensures
            r == (self@.kind.disk_usage && self@.provides(ProcessField::DiskUsage)),
    {
        self.bool_field(ProcessField::DiskUsage)
    }

    /// Whether tasks must be collected.
    pub fn tasks(&self) -> (r: bool)
        ensures
            r == (self@.kind.tasks && self@.provides(ProcessField::Tasks)),
    {
        self.bool_field(ProcessField::Tasks)
    }

    /// Whether GPU usage must be collected.
    pub fn gpu_usage(&self) -> (r: bool)
        ensures
            r == (self@.kind.gpu_usage && self@.provides(ProcessField::GpuUsage)),
    {
        self.bool_field(ProcessField::GpuUsage)
    }

    /// Whether GPU memory use must be collected.
    pub fn gpu_memory(&self) -> (r: bool)
        ensures
            r == (self@.kind.gpu_memory && self@.provides(ProcessField::GpuMemory)),
    {
        self.bool_field(ProcessField::GpuMemory)
    }

    /// When a field must be collected, never if it is [`FieldFetch::Unsupported`].
    pub fn update_kind(&self, field: ProcessField) -> (r: UpdateKind)
        ensures
            r == update_if(self@.provides(field), self@.kind.update(field)),
    {
        match self.field(field) {
            FieldFetch::Unsupported => UpdateKind::Never,
            FieldFetch::Skip => UpdateKind::Never,
            FieldFetch::CollectIfNotSet => UpdateKind::OnlyIfNotSet,
            FieldFetch::Collect => UpdateKind::Always,
            FieldFetch::AlwaysCollect => UpdateKind::Always,
        }
    }

    /// When the owner must be collected.
    pub fn user(&self) -> (r: UpdateKind)
        ensures
            r == update_if(self@.provides(ProcessField::User), self@.kind.user),
    {
        self.update_kind(ProcessField::User)
    }

    /// When the current working directory must be collected.
    pub fn cwd(&self) -> (r: UpdateKind)
        ensures
            r == update_if(self@.provides(ProcessField::Cwd), self@.kind.cwd),
    {
        self.update_kind(ProcessField::Cwd)
    }

    /// When the root directory must be collected.
    pub fn root(&self) -> (r: UpdateKind)
        ensures
            r == update_if(self@.provides(ProcessField::Root), self@.kind.root),
    {
        self.update_kind(ProcessField::Root)
    }

    /// When the environment must be collected.
    pub fn environ(&self) -> (r: UpdateKind)
        ensures
            r == update_if(self@.provides(ProcessField::Environ), self@.kind.environ),
    {
        self.update_kind(ProcessField::Environ)
    }

    /// When the command line must be collected.
    pub fn cmd(&self) -> (r: UpdateKind)
        ensures
            r == update_if(self@.provides(ProcessField::Cmd), self@.kind.cmd),
    {
        self.update_kind(ProcessField::Cmd)
    }

    /// When the path of the executable must be collected.
    pub fn exe(&self) -> (r: UpdateKind)
        ensures
            r == update_if(self@.provides(ProcessField::Exe), self@.kind.exe),
    {
        self.update_kind(ProcessField::Exe)
    }

    /// The fields that are asked for and that the platform does not provide.
    ///
    /// Adapters must not make up values for them: they stay untouched, or absent.
    pub fn unsupported_fields(&self) -> (r: Vec<ProcessField>)
        ensures
            r@ == all_fields().filter(
                |field: ProcessField| self@.fetch(field) == FieldFetch::Unsupported,
            ),
            r@.no_duplicates(),
            forall|field: ProcessField| #[trigger]
                r@.contains(field) <==> self@.kind.requests(field) && !self@.provides(field),
    {
        let ghost wanted = |field: ProcessField| self@.fetch(field) == FieldFetch::Unsupported;
        let fields = ProcessField::all();
        let mut found: Vec<ProcessField> = Vec::new();
        let mut i: usize = 0;
        assert(fields@.take(0) =~= Seq::<ProcessField>::empty());
        assert(fields@.take(0).filter(wanted) =~= Seq::<ProcessField>::empty()) by {
            fields@.take(0).lemma_filter_len(wanted);
        }
        while i < fields.len()
            invariant
                i <= fields@.len(),
                wanted == (|field: ProcessField| self@.fetch(field) == FieldFetch::Unsupported),
                found@ == fields@.take(i as int).filter(wanted),
            decreases fields@.len() - i,
        {
            proof {
                assert(fields@.take(i + 1) =~= fields@.take(i as int).push(fields@[i as int]));
                fields@.take(i as int).lemma_filter_push(fields@[i as int], wanted);
            }
            if self.field(fields[i]) == FieldFetch::Unsupported {
                found.push(fields[i]);
            }
            i += 1;
        }
        assert(fields@.take(i as int) =~= fields@);
        proof {
            law_unsupported_fields_are_reported(self@, ProcessField::User);
            assert forall|field: ProcessField| #[trigger]
                found@.contains(field) <==> self@.kind.requests(field) && !self@.provides(
                    field,
                ) by {
                law_unsupported_fields_are_reported(self@, field);
            }
        }
        found
    }

    /// What an adapter must do with a process once collection is done.
    ///
    /// * all processes, dead ones removed: a process that is still known and was not updated is
    ///   removed.
    /// * all processes, dead ones kept: a process that was not updated just clears its flag.
    /// * some processes, dead ones removed: only the requested processes found dead are removed.
    /// * some processes, dead ones kept: requested processes found dead are marked as nonexistent.
    ///
    /// A process that is not known is never added or removed here: to discover a process belongs
    /// to collection.
    pub fn commit_action(&self, is_tracked: bool, outcome: Outcome) -> (r: CommitAction)
        ensures
            r == committed(self@.selection is None, self@.remove_dead, is_tracked, outcome),
    {
        match (self.selection, outcome) {
            (_, Outcome::Updated) => CommitAction::KeepAndMarkUpdated,
            (ProcessSelection::All, Outcome::NotUpdated) => {
                if self.dead_processes.remove {
                    if is_tracked {
                        CommitAction::Remove
                    } else {
                        CommitAction::Ignore
                    }
                } else {
                    CommitAction::ClearUpdatedFlag
                }
            },
            (ProcessSelection::Pids(_), Outcome::NotUpdated) => {
                if self.dead_processes.remove {
                    if is_tracked {
                        CommitAction::Remove
                    } else {
                        CommitAction::Ignore
                    }
                } else if is_tracked {
                    CommitAction::MarkNonexistent
                } else {
                    CommitAction::Ignore
                }
            },
        }
    }
}

/// A process is removed exactly if dead processes are removed, it is known and it was not
/// updated. So an unknown process is never removed, one that was updated is kept whatever was
/// asked for, and nothing is removed when dead processes are kept.
pub proof fn law_only_known_dead_processes_are_removed(
    selects_all: bool,
    remove_dead: bool,
    is_tracked: bool,
    outcome: Outcome,
)
    ensures
        committed(selects_all, remove_dead, is_tracked, outcome) == CommitAction::Remove
            <==> remove_dead && is_tracked && outcome == Outcome::NotUpdated,
        committed(selects_all, remove_dead, is_tracked, outcome)
            == CommitAction::KeepAndMarkUpdated <==> outcome == Outcome::Updated,
{
}

/// A process that was not updated is marked as nonexistent only where it was asked for by name,
/// and only has its flag cleared where all processes were asked for.
pub proof fn law_kept_dead_processes(selects_all: bool, remove_dead: bool, is_tracked: bool)
    ensures
        committed(selects_all, remove_dead, is_tracked, Outcome::NotUpdated)
            == CommitAction::MarkNonexistent <==> !selects_all && !remove_dead && is_tracked,
        committed(selects_all, remove_dead, is_tracked, Outcome::NotUpdated)
            == CommitAction::ClearUpdatedFlag <==> selects_all && !remove_dead,
{
}

/// A usage is computed only from two samples: one of the system and one of the process, taken
/// before, and the interval must have passed.
pub proof fn law_a_usage_needs_two_samples(
    requested: bool,
    sampling: CpuSamplingContext,
    has_previous_sample: bool,
)
    ensures
        process_action_under(cpu_planned(requested, sampling).system_action, has_previous_sample)
            == ProcessCpuAction::RecordSampleAndCompute <==> {
            &&& requested
            &&& has_previous_sample
            &&& sampling.last_system_sample matches Some(last)
            &&& nanos_between(last, sampling.now) >= sampling.minimum_interval.nanos
        },
{
}

/// A process records raw times exactly when the system is sampled.
pub proof fn law_processes_are_sampled_with_the_system(
    system_action: SystemCpuAction,
    has_previous_sample: bool,
)
    ensures
        ({
            let action = process_action_under(system_action, has_previous_sample);
            action == ProcessCpuAction::RecordFirstSample || action
                == ProcessCpuAction::RecordSampleAndCompute
        }) <==> system_action == SystemCpuAction::TakeFirstSample || system_action
            == SystemCpuAction::TakeSampleAndCompute,
{
}

/// Without a request for CPU information, nothing related to it happens, to the system or to a
/// process.
pub proof fn law_cpu_is_left_alone_unless_requested(
    requested: bool,
    sampling: CpuSamplingContext,
    has_previous_sample: bool,
    last_sample: Option<Instant>,
    now: Instant,
)
    ensures
        ({
            let plan = cpu_planned(requested, sampling);
            &&& plan.system_action == SystemCpuAction::Skip <==> !requested
            &&& process_action_under(plan.system_action, has_previous_sample)
                == ProcessCpuAction::Skip <==> !requested
            &&& process_action_at(
                requested,
                has_previous_sample,
                last_sample,
                now,
                plan.minimum_interval,
            ) == ProcessCpuAction::Skip <==> !requested
        }),
{
}

/// A process that was last sampled together with the system is handled alike whether processes
/// are sampled with the system or each on its own.
pub proof fn law_both_ways_of_sampling_agree(
    requested: bool,
    sampling: CpuSamplingContext,
    has_previous_sample: bool,
)
    ensures
        process_action_at(
            requested,
            has_previous_sample,
            sampling.last_system_sample,
            sampling.now,
            sampling.minimum_interval,
        ) == process_action_under(
            cpu_planned(requested, sampling).system_action,
            has_previous_sample,
        ),
{
}

/// The fields reported as unsupported are exactly those asked for and not provided, once each,
/// and none of them is collected.
pub proof fn law_unsupported_fields_are_reported(plan: PlanView, field: ProcessField)
    ensures
        ({
            let reported = all_fields().filter(
                |f: ProcessField| plan.fetch(f) == FieldFetch::Unsupported,
            );
            &&& reported.contains(field) <==> plan.kind.requests(field) && !plan.provides(field)
            &&& reported.no_duplicates()
            &&& reported.contains(field) ==> update_if(
                plan.provides(field),
                plan.kind.update(field),
            ) == UpdateKind::Never
        }),
{
    let wanted = |f: ProcessField| plan.fetch(f) == FieldFetch::Unsupported;
    let fields = all_fields();
    let reported = fields.filter(wanted);
    lemma_all_fields(field);
    broadcast use vstd::seq_lib::group_filter_ensures;

    if reported.contains(field) {
        let i = choose|i: int| 0 <= i < reported.len() && reported[i] == field;
        assert(wanted(reported[i]));
    }
    if wanted(field) {
        let i = choose|i: int| 0 <= i < fields.len() && fields[i] == field;
        assert(reported.contains(fields[i]));
    }
    lemma_filter_no_duplicates(fields, wanted);
}

/// Every field is among all fields, which are listed once each.
proof fn lemma_all_fields(field: ProcessField)
    ensures
        all_fields().contains(field),
        all_fields().no_duplicates(),
{
    let fields = all_fields();
    match field {
        ProcessField::User => assert(fields[0] == field),
        ProcessField::Cwd => assert(fields[1] == field),
        ProcessField::Root => assert(fields[2] == field),
        ProcessField::Environ => assert(fields[3] == field),
        ProcessField::Cmd => assert(fields[4] == field),
        ProcessField::Exe => assert(fields[5] == field),
        ProcessField::DiskUsage => assert(fields[6] == field),
        ProcessField::Tasks => assert(fields[7] == field),
        ProcessField::GpuUsage => assert(fields[8] == field),
        ProcessField::GpuMemory => assert(fields[9] == field),
        ProcessField::Memory => assert(fields[10] == field),
    }
}

/// What is picked out of a list without repetitions has none.
proof fn lemma_filter_no_duplicates(
    fields: Seq<ProcessField>,
    pred: spec_fn(ProcessField) -> bool,
)
    requires
        fields.no_duplicates(),
    ensures
        fields.filter(pred).no_duplicates(),
        forall|f: ProcessField| #[trigger] fields.filter(pred).contains(f) ==> fields.contains(f),
    decreases fields.len(),
{
    reveal(Seq::filter);
    if fields.len() > 0 {
        let rest = fields.drop_last();
        lemma_filter_no_duplicates(rest, pred);
        assert(!rest.contains(fields.last()));
        assert(fields =~= rest.push(fields.last()));
        let kept = rest.filter(pred);
        assert forall|i: int, j: int|
            0 <= i < fields.filter(pred).len() && 0 <= j < fields.filter(pred).len() && i
                != j implies fields.filter(pred)[i] != fields.filter(pred)[j] by {
            if i < kept.len() {
                assert(kept.contains(kept[i]));
            }
            if j < kept.len() {
                assert(kept.contains(kept[j]));
            }
        }
        assert forall|f: ProcessField| #[trigger]
            fields.filter(pred).contains(f) implies fields.contains(f) by {
            if rest.filter(pred).contains(f) {
                let i = choose|i: int| 0 <= i < rest.len() && rest[i] == f;
                assert(fields[i] == f);
            } else {
                assert(fields[fields.len() - 1] == f);
            }
        }
    }
}

/// What a plan collects of each field is what is left of the request once the fields that the
/// platform does not provide are masked.
pub proof fn law_fields_are_collected_as_masked(plan: PlanView, field: ProcessField)
    ensures
        update_if(plan.provides(field), plan.kind.update(field)) == masked(
            plan.kind,
            plan.capabilities.unsupported@,
        ).update(field),
{
    law_memory_is_always_provided(plan.capabilities.unsupported);
    lemma_masked_field(plan.kind, plan.capabilities.unsupported@, field);
}

/// A process belongs to a selection of some processes exactly if it is among the requested
/// processes, and exactly if it is among them without repetitions.
pub proof fn law_unique_processes_are_the_requested_ones(pids: Seq<Pid>, pid: Pid)
    ensures
        pids.contains(pid) <==> listed(Some(pids)).contains(pid),
        pids.contains(pid) <==> first_occurrences(listed(Some(pids))).contains(pid),
        first_occurrences(listed(Some(pids))).no_duplicates(),
{
    law_first_occurrences_same_pids(pids);
}

/// The occasions of each action on the CPU times of the system: none where CPU is not requested,
/// a first sample exactly where there was none, and after that the previous sample is kept
/// exactly while the time elapsed since it is below the least interval.
pub proof fn law_when_the_system_is_sampled(kind: ProcessRefreshKind, sampling: CpuSamplingContext)
    ensures
        ({
            let plan = cpu_planned(kind.cpu, sampling);
            let minimum = sampling.minimum_interval;
            &&& plan.requested == kind.cpu
            &&& plan.minimum_interval == minimum
            &&& plan.system_action == SystemCpuAction::Skip <==> !kind.cpu
            &&& plan.system_action == SystemCpuAction::TakeFirstSample <==> kind.cpu
                && sampling.last_system_sample is None
            &&& plan.system_action == SystemCpuAction::KeepPreviousSample <==> {
                &&& kind.cpu
                &&& sampling.last_system_sample matches Some(last)
                &&& minimum.nanos > 0
                &&& sampling.now.nanos < last.nanos + minimum.nanos
            }
            &&& plan.system_action == SystemCpuAction::TakeSampleAndCompute <==> {
                &&& kind.cpu
                &&& sampling.last_system_sample matches Some(last)
                &&& minimum.nanos == 0 || last.nanos + minimum.nanos <= sampling.now.nanos
            }
        }),
{
}

/// The occasions of each action on a process that is sampled with the system: its previous data
/// is kept exactly while the last sample of the system is younger than the least interval, and
/// otherwise its times are recorded, with a usage only where both it and the system were sampled
/// before.
pub proof fn law_when_a_process_is_sampled_with_the_system(
    kind: ProcessRefreshKind,
    sampling: CpuSamplingContext,
    has_previous_sample: bool,
)
    ensures
        ({
            let plan = cpu_planned(kind.cpu, sampling);
            let action = process_action_under(plan.system_action, has_previous_sample);
            let minimum = sampling.minimum_interval;
            &&& action == ProcessCpuAction::Skip <==> !kind.cpu
            &&& action == ProcessCpuAction::KeepPrevious <==> {
                &&& kind.cpu
                &&& sampling.last_system_sample matches Some(last)
                &&& minimum.nanos > 0
                &&& sampling.now.nanos < last.nanos + minimum.nanos
            }
            &&& action == ProcessCpuAction::RecordSampleAndCompute <==> {
                &&& kind.cpu
                &&& has_previous_sample
                &&& sampling.last_system_sample matches Some(last)
                &&& minimum.nanos == 0 || last.nanos + minimum.nanos <= sampling.now.nanos
            }
        }),
{
}

/// The occasions of each action on a process that is sampled on its own: a first sample exactly
/// where it has none to compare with, and its previous data is kept exactly while its last sample
/// is younger than the least interval.
pub proof fn law_when_a_process_is_sampled_on_its_own(
    kind: ProcessRefreshKind,
    sampling: CpuSamplingContext,
    has_previous_sample: bool,
    last_sample: Option<Instant>,
    now: Instant,
)
    ensures
        ({
            let plan = cpu_planned(kind.cpu, sampling);
            let action = process_action_at(
                plan.requested,
                has_previous_sample,
                last_sample,
                now,
                plan.minimum_interval,
            );
            let minimum = sampling.minimum_interval;
            &&& action == ProcessCpuAction::Skip <==> !kind.cpu
            &&& action == ProcessCpuAction::KeepPrevious <==> {
                &&& kind.cpu
                &&& last_sample matches Some(last)
                &&& minimum.nanos > 0
                &&& now.nanos < last.nanos + minimum.nanos
            }
            &&& action == ProcessCpuAction::RecordSampleAndCompute <==> {
                &&& kind.cpu
                &&& has_previous_sample
                &&& last_sample matches Some(last)
                &&& minimum.nanos == 0 || last.nanos + minimum.nanos <= now.nanos
            }
        }),
{
}

/// A selection is of all processes, or of those it lists, repetitions included.
pub proof fn law_a_selection_is_its_list(selection: ProcessSelection<'_>)
    ensures
        match selection {
            ProcessSelection::All => selection@ is None && listed(selection@).len() == 0,
            ProcessSelection::Pids(pids) => {
                &&& selection@ == Some(pids@)
                &&& listed(selection@) == pids@
            },
        },
{
}

/// The plan keeps the request as it is: all processes or the list as it was given, the fields
/// asked for, what the platform provides and what becomes of dead processes. CPU times are
/// sampled as the request and the state of sampling alone say.
pub proof fn law_the_plan_keeps_the_request(
    kind: ProcessRefreshKind,
    request: ProcessesToUpdate<'_>,
    remove_dead_processes: bool,
    sampling: CpuSamplingContext,
    capabilities: ProcessCapabilities,
)
    ensures
        ({
            let plan = planned(kind, request@, remove_dead_processes, sampling, capabilities);
            &&& match request {
                ProcessesToUpdate::All => plan.selection is None,
                ProcessesToUpdate::Pids(pids) => plan.selection == Some(pids@),
            }
            &&& plan.kind == kind
            &&& plan.capabilities == capabilities
            &&& plan.remove_dead == remove_dead_processes
            &&& plan.discover_new_processes
            &&& plan.cpu == cpu_planned(kind.cpu, sampling)
        }),
{
}

/// Whichever processes are selected, a field that seldom changes is collected as often as it was
/// asked for if the platform provides it, and is reported as unsupported if not.
pub proof fn law_seldom_changing_fields_are_collected_as_asked_for(
    kind: ProcessRefreshKind,
    request: ProcessesToUpdate<'_>,
    remove_dead_processes: bool,
    sampling: CpuSamplingContext,
    capabilities: ProcessCapabilities,
    field: ProcessField,
)
    requires
        field == ProcessField::User || field == ProcessField::Cwd || field == ProcessField::Root
            || field == ProcessField::Environ || field == ProcessField::Cmd || field
            == ProcessField::Exe,
    ensures
        ({
            let plan = planned(kind, request@, remove_dead_processes, sampling, capabilities);
            let lacking = capabilities.unsupported@.contains(field);
            let asked = match field {
                ProcessField::User => kind.user,
                ProcessField::Cwd => kind.cwd,
                ProcessField::Root => kind.root,
                ProcessField::Environ => kind.environ,
                ProcessField::Cmd => kind.cmd,
                ProcessField::Exe => kind.exe,
                _ => UpdateKind::Never,
            };
            &&& plan.fetch(field) == fetch_for(kind, capabilities.unsupported@, field)
            &&& plan.fetch(field) == FieldFetch::Skip <==> asked == UpdateKind::Never
            &&& plan.fetch(field) == FieldFetch::Unsupported <==> asked != UpdateKind::Never
                && lacking
            &&& plan.fetch(field) == FieldFetch::CollectIfNotSet <==> asked
                == UpdateKind::OnlyIfNotSet && !lacking
            &&& plan.fetch(field) == FieldFetch::AlwaysCollect <==> asked == UpdateKind::Always
                && !lacking
            &&& update_if(plan.provides(field), plan.kind.update(field)) == (if lacking {
                UpdateKind::Never
            } else {
                asked
            })
        }),
{
}

/// Whichever processes are selected, a field that is simply wanted is collected if the platform
/// provides it, and is reported as unsupported if not.
pub proof fn law_wanted_fields_are_collected(
    kind: ProcessRefreshKind,
    request: ProcessesToUpdate<'_>,
    remove_dead_processes: bool,
    sampling: CpuSamplingContext,
    capabilities: ProcessCapabilities,
    field: ProcessField,
)
    requires
        field == ProcessField::DiskUsage || field == ProcessField::Tasks || field
            == ProcessField::GpuUsage || field == ProcessField::GpuMemory || field
            == ProcessField::Memory,
    ensures
        ({
            let plan = planned(kind, request@, remove_dead_processes, sampling, capabilities);
            let lacking = capabilities.unsupported@.contains(field);
            let wanted = match field {
                ProcessField::DiskUsage => kind.disk_usage,
                ProcessField::Tasks => kind.tasks,
                ProcessField::GpuUsage => kind.gpu_usage,
                ProcessField::GpuMemory => kind.gpu_memory,
                ProcessField::Memory => kind.memory,
                _ => false,
            };
            &&& plan.fetch(field) == fetch_for(kind, capabilities.unsupported@, field)
            &&& plan.fetch(field) == FieldFetch::Skip <==> !wanted
            &&& plan.fetch(field) == FieldFetch::Unsupported <==> wanted && lacking
            &&& plan.fetch(field) == FieldFetch::Collect <==> wanted && !lacking
            &&& update_if(plan.provides(field), plan.kind.update(field)) == (if wanted && !lacking {
                UpdateKind::Always
            } else {
                UpdateKind::Never
            })
        }),
{
}

/// What is done with a field depends on the requested fields and on what the platform lacks, and
/// on nothing else: not on the processes, on dead ones, on samples or on the interval.
pub proof fn law_fields_depend_on_the_kind_and_the_platform(
    kind: ProcessRefreshKind,
    request: ProcessesToUpdate<'_>,
    other_request: ProcessesToUpdate<'_>,
    remove_dead_processes: bool,
    other_removal: bool,
    sampling: CpuSamplingContext,
    other_sampling: CpuSamplingContext,
    capabilities: ProcessCapabilities,
    other_capabilities: ProcessCapabilities,
    field: ProcessField,
)
    requires
        capabilities.unsupported@ == other_capabilities.unsupported@,
    ensures
        planned(kind, request@, remove_dead_processes, sampling, capabilities).fetch(field)
            == planned(
            kind,
            other_request@,
            other_removal,
            other_sampling,
            other_capabilities,
        ).fetch(field),
{
}

} // verus!
