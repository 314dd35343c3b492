//! Normalization of a process refresh request into an immutable plan that keeps the requested
//! order of its processes and reports the fields that it had to give up.
//!
//! A [`ProcessRefreshPlan`] is built from a [`ProcessRefreshKind`], a [`ProcessesToUpdate`] and
//! the `remove_dead_processes` flag, together with the [`PlatformCapabilities`] of the backend.
//! Adapters collect data for the processes that the plan selects, with the refresh kind of the
//! plan, and the result is committed as the plan says.
//!
//! Fields that are requested but not supported are masked out of the effective refresh kind and
//! reported through [`UnsupportedFields`]; they are never faked as successful zero values.
use vstd::prelude::*;

use std::collections::HashSet;

use crate::pids::{
    contains_pid, first_occurrences, law_first_occurrences_idempotent,
    law_first_occurrences_same_pids, law_kept_before_is_listed_before,
};
use crate::request::{
    law_each_field_is_asked_for_by_name, update_if, Pid, ProcessField, ProcessRefreshKind,
    ProcessesToUpdate, UpdateKind,
};
use crate::time::{nanos_between, Duration, Instant};

verus! {

/// What a [`PlatformCapabilities`] says.
pub struct CapabilitiesView {
    /// Fields that the backend is able to collect.
    pub supported_fields: ProcessRefreshKind,
    /// Least time between two CPU usage computations.
    pub min_cpu_update_interval: Duration,
    /// Whether the backend can enumerate processes and add them to the process list.
    pub can_list_processes: bool,
}

/// What a platform backend can provide when processes are refreshed.
#[derive(Clone, Copy, Debug)]
pub struct PlatformCapabilities {
    supported_fields: ProcessRefreshKind,
    min_cpu_update_interval: Duration,
    can_list_processes: bool,
}

impl View for PlatformCapabilities {
    type V = CapabilitiesView;

    closed spec fn view(&self) -> CapabilitiesView {
        CapabilitiesView {
            supported_fields: self.supported_fields,
            min_cpu_update_interval: self.min_cpu_update_interval,
            can_list_processes: self.can_list_processes,
        }
    }
}

impl PlatformCapabilities {
    /// Builds the capability mapping of a platform.
    pub fn new(
        supported_fields: ProcessRefreshKind,
        min_cpu_update_interval: Duration,
        can_list_processes: bool,
    ) -> (r: Self)
        ensures
            r@ == (CapabilitiesView {
                supported_fields,
                min_cpu_update_interval,
                can_list_processes,
            }),
    {
        PlatformCapabilities { supported_fields, min_cpu_update_interval, can_list_processes }
    }

    /// Fields that the backend is able to collect.
    pub fn supported_fields(&self) -> (r: ProcessRefreshKind)
        ensures
            r == self@.supported_fields,
    {
        self.supported_fields
    }

    /// Least time between two CPU usage computations.
    pub fn min_cpu_update_interval(&self) -> (r: Duration)
        ensures
            r == self@.min_cpu_update_interval,
    {
        self.min_cpu_update_interval
    }

    /// Whether the backend can enumerate and add processes.
    pub fn can_list_processes(&self) -> (r: bool)
        ensures
            r == self@.can_list_processes,
    {
        self.can_list_processes
    }
}

/// Normalized process selection.
#[derive(Debug, PartialEq, Eq)]
pub enum PlanSelection {
    /// Enumerate every process of the system, discovering new ones.
    All,
    /// Refresh only the listed processes, each listed once.
    ///
    /// Processes that do not exist are simply absent from what is collected. Processes that are
    /// not tracked yet are discovered if they exist.
    Pids(Vec<Pid>),
}

impl View for PlanSelection {
    type V = Option<Seq<Pid>>;

    /// The listed processes, or `None` for all of them.
    open spec fn view(&self) -> Option<Seq<Pid>> {
        match *self {
            PlanSelection::All => None,
            PlanSelection::Pids(pids) => Some(pids@),
        }
    }
}

impl Clone for PlanSelection {
    fn clone(&self) -> (r: Self)
        ensures
            r@ == self@,
    {
        match self {
            PlanSelection::All => PlanSelection::All,
            PlanSelection::Pids(pids) => {
                let copy = pids.clone();
                assert(copy@ =~= pids@);
                PlanSelection::Pids(copy)
            },
        }
    }
}

/// Fields that were requested but cannot be collected by the backend.
#[derive(Clone, Copy, Debug, PartialEq, Eq, Structural)]
pub struct UnsupportedFields {
    /// `cpu` requested but unsupported.
    pub cpu: bool,
    /// `disk_usage` requested but unsupported.
    pub disk_usage: bool,
    /// `memory` requested but unsupported.
    pub memory: bool,
    /// `user` requested but unsupported.
    pub user: bool,
    /// `cwd` requested but unsupported.
    pub cwd: bool,
    /// `root` requested but unsupported.
    pub root: bool,
    /// `environ` requested but unsupported.
    pub environ: bool,
    /// `cmd` requested but unsupported.
    pub cmd: bool,
    /// `exe` requested but unsupported.
    pub exe: bool,
    /// `tasks` requested but unsupported.
    pub tasks: bool,
    /// `gpu_usage` requested but unsupported.
    pub gpu_usage: bool,
    /// `gpu_memory` requested but unsupported.
    pub gpu_memory: bool,
}

impl Default for UnsupportedFields {
    /// No field.
    fn default() -> (r: Self)
        ensures
            r == nothing_unsupported(),
    {
        UnsupportedFields {
            cpu: false,
            disk_usage: false,
            memory: false,
            user: false,
            cwd: false,
            root: false,
            environ: false,
            cmd: false,
            exe: false,
            tasks: false,
            gpu_usage: false,
            gpu_memory: false,
        }
    }
}

/// No field is reported.
pub open spec fn nothing_unsupported() -> UnsupportedFields {
    UnsupportedFields {
        cpu: false,
        disk_usage: false,
        memory: false,
        user: false,
        cwd: false,
        root: false,
        environ: false,
        cmd: false,
        exe: false,
        tasks: false,
        gpu_usage: false,
        gpu_memory: false,
    }
}

impl UnsupportedFields {
    /// Whether no field is both reported and asked for by `kind`.
    pub open spec fn apart_from(self, kind: ProcessRefreshKind) -> bool {
        &&& !(self.cpu && kind.cpu)
        &&& !(self.disk_usage && kind.disk_usage)
        &&& !(self.memory && kind.memory)
        &&& !(self.tasks && kind.tasks)
        &&& !(self.gpu_usage && kind.gpu_usage)
        &&& !(self.gpu_memory && kind.gpu_memory)
        &&& self.user ==> kind.user == UpdateKind::Never
        &&& self.cwd ==> kind.cwd == UpdateKind::Never
        &&& self.root ==> kind.root == UpdateKind::Never
        &&& self.environ ==> kind.environ == UpdateKind::Never
        &&& self.cmd ==> kind.cmd == UpdateKind::Never
        &&& self.exe ==> kind.exe == UpdateKind::Never
    }

    /// Whether at least one requested field is unsupported.
    pub fn any(&self) -> (r: bool)
        ensures
            r == (self.cpu || self.disk_usage || self.memory || self.user || self.cwd || self.root
                || self.environ || self.cmd || self.exe || self.tasks || self.gpu_usage
                || self.gpu_memory),
    {
        *self != UnsupportedFields::default()
    }
}

/// What the collection must do with CPU usage for a refresh.
#[derive(Clone, Copy, Debug, PartialEq, Eq, Structural)]
pub enum CpuUpdate {
    /// CPU information was not requested or is unsupported: nothing to do.
    NotRequested,
    /// No previous sample exists. Raw counters are collected, the reported usage remains zero: a
    /// usage needs two samples.
    FirstSample,
    /// A previous sample serves: compute the difference and report the new usage.
    Diff,
    /// The refresh comes too close to the previous sample: collect nothing and keep the reported
    /// value.
    Deferred,
}

/// Whether `out` is what remains of `kind` once the fields that are not in `supported` are masked
/// out.
pub open spec fn is_effective(
    kind: ProcessRefreshKind,
    supported: ProcessRefreshKind,
    out: ProcessRefreshKind,
) -> bool {
    &&& out.cpu == (kind.cpu && supported.cpu)
    &&& out.disk_usage == (kind.disk_usage && supported.disk_usage)
    &&& out.memory == (kind.memory && supported.memory)
    &&& out.tasks == (kind.tasks && supported.tasks)
    &&& out.gpu_usage == (kind.gpu_usage && supported.gpu_usage)
    &&& out.gpu_memory == (kind.gpu_memory && supported.gpu_memory)
    &&& out.user == update_if(supported.user != UpdateKind::Never, kind.user)
    &&& out.cwd == update_if(supported.cwd != UpdateKind::Never, kind.cwd)
    &&& out.root == update_if(supported.root != UpdateKind::Never, kind.root)
    &&& out.environ == update_if(supported.environ != UpdateKind::Never, kind.environ)
    &&& out.cmd == update_if(supported.cmd != UpdateKind::Never, kind.cmd)
    &&& out.exe == update_if(supported.exe != UpdateKind::Never, kind.exe)
}

/// Whether `out` reports exactly the fields of `kind` that are not in `supported`.
pub open spec fn is_given_up(
    kind: ProcessRefreshKind,
    supported: ProcessRefreshKind,
    out: UnsupportedFields,
) -> bool {
    &&& out.cpu == (kind.cpu && !supported.cpu)
    &&& out.disk_usage == (kind.disk_usage && !supported.disk_usage)
    &&& out.memory == (kind.memory && !supported.memory)
    &&& out.tasks == (kind.tasks && !supported.tasks)
    &&& out.gpu_usage == (kind.gpu_usage && !supported.gpu_usage)
    &&& out.gpu_memory == (kind.gpu_memory && !supported.gpu_memory)
    &&& out.user == (kind.user != UpdateKind::Never && supported.user == UpdateKind::Never)
    &&& out.cwd == (kind.cwd != UpdateKind::Never && supported.cwd == UpdateKind::Never)
    &&& out.root == (kind.root != UpdateKind::Never && supported.root == UpdateKind::Never)
    &&& out.environ == (kind.environ != UpdateKind::Never && supported.environ == UpdateKind::Never)
    &&& out.cmd == (kind.cmd != UpdateKind::Never && supported.cmd == UpdateKind::Never)
    &&& out.exe == (kind.exe != UpdateKind::Never && supported.exe == UpdateKind::Never)
}

/// Whether each field of `kind` is either collected as it was requested or given up, and nothing
/// else is collected or given up.
pub open spec fn accounts_for(
    kind: ProcessRefreshKind,
    collected: ProcessRefreshKind,
    given_up: UnsupportedFields,
) -> bool {
    &&& kind.cpu == (collected.cpu || given_up.cpu)
    &&& kind.disk_usage == (collected.disk_usage || given_up.disk_usage)
    &&& kind.memory == (collected.memory || given_up.memory)
    &&& kind.tasks == (collected.tasks || given_up.tasks)
    &&& kind.gpu_usage == (collected.gpu_usage || given_up.gpu_usage)
    &&& kind.gpu_memory == (collected.gpu_memory || given_up.gpu_memory)
    &&& kind.user == collected.user || (given_up.user && collected.user == UpdateKind::Never)
    &&& given_up.user ==> kind.user != UpdateKind::Never
    &&& kind.cwd == collected.cwd || (given_up.cwd && collected.cwd == UpdateKind::Never)
    &&& given_up.cwd ==> kind.cwd != UpdateKind::Never
    &&& kind.root == collected.root || (given_up.root && collected.root == UpdateKind::Never)
    &&& given_up.root ==> kind.root != UpdateKind::Never
    &&& kind.environ == collected.environ || (given_up.environ && collected.environ
        == UpdateKind::Never)
    &&& given_up.environ ==> kind.environ != UpdateKind::Never
    &&& kind.cmd == collected.cmd || (given_up.cmd && collected.cmd == UpdateKind::Never)
    &&& given_up.cmd ==> kind.cmd != UpdateKind::Never
    &&& kind.exe == collected.exe || (given_up.exe && collected.exe == UpdateKind::Never)
    &&& given_up.exe ==> kind.exe != UpdateKind::Never
    &&& given_up.apart_from(collected)
}

/// Whether `kind` asks for no field at all.
pub open spec fn asks_for_nothing(kind: ProcessRefreshKind) -> bool {
    &&& !kind.cpu
    &&& !kind.disk_usage
    &&& !kind.memory
    &&& !kind.tasks
    &&& !kind.gpu_usage
    &&& !kind.gpu_memory
    &&& kind.user == UpdateKind::Never
    &&& kind.cwd == UpdateKind::Never
    &&& kind.root == UpdateKind::Never
    &&& kind.environ == UpdateKind::Never
    &&& kind.cmd == UpdateKind::Never
    &&& kind.exe == UpdateKind::Never
}

/// Whether `kind` asks for every field.
pub open spec fn asks_for_all(kind: ProcessRefreshKind) -> bool {
    &&& kind.cpu
    &&& kind.disk_usage
    &&& kind.memory
    &&& kind.tasks
    &&& kind.gpu_usage
    &&& kind.gpu_memory
    &&& kind.user != UpdateKind::Never
    &&& kind.cwd != UpdateKind::Never
    &&& kind.root != UpdateKind::Never
    &&& kind.environ != UpdateKind::Never
    &&& kind.cmd != UpdateKind::Never
    &&& kind.exe != UpdateKind::Never
}

/// The requested processes, each where it is first listed, or `None` for all of them.
pub open spec fn selected(processes: Option<Seq<Pid>>) -> Option<Seq<Pid>> {
    match processes {
        None => None,
        Some(pids) => Some(first_occurrences(pids)),
    }
}

/// What to do with CPU usage at `now` when it is `wanted`.
pub open spec fn update_at(
    wanted: bool,
    last_sample: Option<Instant>,
    now: Instant,
    minimum: Duration,
) -> CpuUpdate {
    if !wanted {
        CpuUpdate::NotRequested
    } else {
        match last_sample {
            None => CpuUpdate::FirstSample,
            Some(last) => if last == now || nanos_between(last, now) >= minimum.nanos {
                CpuUpdate::Diff
            } else {
                CpuUpdate::Deferred
            },
        }
    }
}

/// What a [`ProcessRefreshPlan`] says.
pub struct PlanView {
    /// The processes to refresh, or `None` for all of them.
    pub selection: Option<Seq<Pid>>,
    /// The fields to collect.
    pub refresh_kind: ProcessRefreshKind,
    /// The fields that were requested and are given up.
    pub unsupported_fields: UnsupportedFields,
    /// Least time between two CPU usage computations.
    pub min_cpu_update_interval: Duration,
    /// Whether the backend can enumerate processes.
    pub can_list_processes: bool,
    /// Whether dead processes are removed.
    pub remove_dead_processes: bool,
}

impl PlanView {
    /// What holds of every plan: no process is listed twice, and no field is both collected and
    /// given up.
    pub open spec fn coherent(self) -> bool {
        &&& self.selection matches Some(pids) ==> pids.no_duplicates()
        &&& self.unsupported_fields.apart_from(self.refresh_kind)
    }

    /// Whether this is the plan of a request on a backend.
    pub open spec fn answers(
        self,
        processes: Option<Seq<Pid>>,
        kind: ProcessRefreshKind,
        remove_dead_processes: bool,
        capabilities: CapabilitiesView,
    ) -> bool {
        &&& self.selection == selected(processes)
        &&& is_effective(kind, capabilities.supported_fields, self.refresh_kind)
        &&& is_given_up(kind, capabilities.supported_fields, self.unsupported_fields)
        &&& self.min_cpu_update_interval == capabilities.min_cpu_update_interval
        &&& self.can_list_processes == capabilities.can_list_processes
        &&& self.remove_dead_processes == remove_dead_processes
    }

    /// Whether there is anything to collect.
    pub open spec fn collects(self) -> bool {
        self.can_list_processes && self.selection != Some(Seq::<Pid>::empty())
    }

    /// Whether `pid` is selected.
    pub open spec fn includes(self, pid: Pid) -> bool {
        match self.selection {
            None => true,
            Some(pids) => pids.contains(pid),
        }
    }
}

/// Immutable plan of a process refresh.
#[derive(Debug)]
pub struct ProcessRefreshPlan {
    selection: PlanSelection,
    refresh_kind: ProcessRefreshKind,
    unsupported_fields: UnsupportedFields,
    min_cpu_update_interval: Duration,
    can_list_processes: bool,
    remove_dead_processes: bool,
}

impl View for ProcessRefreshPlan {
    type V = PlanView;

    closed spec fn view(&self) -> PlanView {
        PlanView {
            selection: self.selection@,
            refresh_kind: self.refresh_kind,
            unsupported_fields: self.unsupported_fields,
            min_cpu_update_interval: self.min_cpu_update_interval,
            can_list_processes: self.can_list_processes,
            remove_dead_processes: self.remove_dead_processes,
        }
    }
}

impl Clone for ProcessRefreshPlan {
    fn clone(&self) -> (r: Self)
        ensures
            r@ == self@,
    {
        proof {
            use_type_invariant(self);
        }
        ProcessRefreshPlan {
            selection: self.selection.clone(),
            refresh_kind: self.refresh_kind,
            unsupported_fields: self.unsupported_fields,
            min_cpu_update_interval: self.min_cpu_update_interval,
            can_list_processes: self.can_list_processes,
            remove_dead_processes: self.remove_dead_processes,
        }
    }
}

/// Drops repetitions from `pids`: only the first occurrence of each identifier is kept.
fn deduplicated(pids: &[Pid]) -> (r: Vec<Pid>)
    ensures
        r@ == first_occurrences(pids@),
{
    let mut seen: HashSet<Pid> = HashSet::with_capacity(pids.len());
    let mut kept: Vec<Pid> = Vec::new();
    let mut i: usize = 0;
    while i < pids.len()
        invariant
            i <= pids@.len(),
            kept@ == first_occurrences(pids@.take(i as int)),
            forall|pid: Pid| #[trigger] seen@.contains(pid) <==> kept@.contains(pid),
        decreases pids@.len() - i,
    {
        let ghost before = kept@;
        proof {
            assert(pids@.take(i + 1).drop_last() =~= pids@.take(i as int));
            assert(pids@.take(i + 1).last() == pids@[i as int]);
        }
        if seen.insert(pids[i]) {
            kept.push(pids[i]);
            proof {
                assert forall|pid: Pid| #[trigger]
                    seen@.contains(pid) <==> kept@.contains(pid) by {
                    assert(kept@[before.len() as int] == pids@[i as int]);
                    if before.contains(pid) {
                        let j = choose|j: int| 0 <= j < before.len() && before[j] == pid;
                        assert(kept@[j] == pid);
                    }
                }
            }
        }
        i += 1;
    }
    assert(pids@.take(i as int) =~= pids@);
    kept
}

impl ProcessRefreshPlan {
    #[verifier::type_invariant]
    spec fn coherent(self) -> bool {
        self@.coherent()
    }

    /// Normalizes a refresh request into an immutable plan.
    pub fn new(
        processes_to_update: ProcessesToUpdate<'_>,
        refresh_kind: ProcessRefreshKind,
        remove_dead_processes: bool,
        capabilities: &PlatformCapabilities,
    ) -> (r: Self)
        ensures
            r@.answers(
                processes_to_update@,
                refresh_kind,
                remove_dead_processes,
                capabilities@,
            ),
            r@.coherent(),
    {
        let selection = match processes_to_update {
            ProcessesToUpdate::All => PlanSelection::All,
            ProcessesToUpdate::Pids(pids) => PlanSelection::Pids(deduplicated(pids)),
        };
        let (effective_kind, unsupported_fields) = mask_refresh_kind(refresh_kind, capabilities);
        proof {
            law_plans_are_coherent(
                processes_to_update@,
                refresh_kind,
                remove_dead_processes,
                capabilities@,
                PlanView {
                    selection: selection@,
                    refresh_kind: effective_kind,
                    unsupported_fields,
                    min_cpu_update_interval: capabilities.min_cpu_update_interval,
                    can_list_processes: capabilities.can_list_processes,
                    remove_dead_processes,
                },
            );
        }
        ProcessRefreshPlan {
            selection,
            refresh_kind: effective_kind,
            unsupported_fields,
            min_cpu_update_interval: capabilities.min_cpu_update_interval,
            can_list_processes: capabilities.can_list_processes,
            remove_dead_processes,
        }
    }

    /// Whether there is anything to collect: not when the backend cannot list processes, nor when
    /// the request lists no process.
    pub fn should_collect(&self) -> (r: bool)
        ensures
            r == self@.collects(),
    {
        let nothing_listed = match &self.selection {
            PlanSelection::All => false,
            PlanSelection::Pids(pids) => {
                assert(pids@.len() == 0 <==> pids@ =~= Seq::<Pid>::empty());
                pids.len() == 0
            },
        };
        self.can_list_processes && !nothing_listed
    }

    /// Normalized process selection.
    pub fn selection(&self) -> (r: &PlanSelection)
        ensures
            r@ == self@.selection,
            r@ matches Some(pids) ==> pids.no_duplicates(),
    {
        proof {
            use_type_invariant(self);
        }
        &self.selection
    }

    /// Whether `pid` belongs to the selection.
    pub fn includes_pid(&self, pid: Pid) -> (r: bool)
        ensures
            r == self@.includes(pid),
    {
        match &self.selection {
            PlanSelection::All => true,
            PlanSelection::Pids(pids) => contains_pid(pids.as_slice(), pid),
        }
    }

    /// The selection as a request, each process listed once.
    pub fn processes_to_update(&self) -> (r: ProcessesToUpdate<'_>)
        ensures
            r@ == self@.selection,
            r@ matches Some(pids) ==> pids.no_duplicates(),
    {
        proof {
            use_type_invariant(self);
        }
        match &self.selection {
            PlanSelection::All => ProcessesToUpdate::All,
            PlanSelection::Pids(pids) => ProcessesToUpdate::Pids(pids.as_slice()),
        }
    }

    /// The fields to collect, without those that are unsupported. Adapters use no other kind.
    pub fn refresh_kind(&self) -> (r: ProcessRefreshKind)
        ensures
            r == self@.refresh_kind,
    {
        self.refresh_kind
    }

    /// Requested fields that the backend does not support; none of them is collected.
    pub fn unsupported_fields(&self) -> (r: UnsupportedFields)
        ensures
            r == self@.unsupported_fields,
            r.apart_from(self@.refresh_kind),
    {
        proof {
            use_type_invariant(self);
        }
        self.unsupported_fields
    }

    /// Whether dead processes must be removed when the result is committed.
    pub fn remove_dead_processes(&self) -> (r: bool)
        ensures
            r == self@.remove_dead_processes,
    {
        self.remove_dead_processes
    }

    /// Least time between two CPU usage computations for this backend.
    pub fn min_cpu_update_interval(&self) -> (r: Duration)
        ensures
            r == self@.min_cpu_update_interval,
    {
        self.min_cpu_update_interval
    }

    /// What to do with CPU usage, given the previous sample.
    ///
    /// * CPU not requested, or masked as unsupported: [`CpuUpdate::NotRequested`]
    /// * no previous sample: [`CpuUpdate::FirstSample`]
    /// * a previous sample stamped with `now` itself: [`CpuUpdate::Diff`]
    /// * elapsed time below [`ProcessRefreshPlan::min_cpu_update_interval`]:
    ///   [`CpuUpdate::Deferred`]
    /// * otherwise: [`CpuUpdate::Diff`]
    pub fn cpu_update(&self, last_sample: Option<Instant>, now: Instant) -> (r: CpuUpdate)
        ensures
            r == update_at(
                self@.refresh_kind.cpu,
                last_sample,
                now,
                self@.min_cpu_update_interval,
            ),
    {
        if !self.refresh_kind.cpu() {
            return CpuUpdate::NotRequested;
        }
        match last_sample {
            None => CpuUpdate::FirstSample,
            Some(last) => {
                if last == now || now.duration_since(last).nanos
                    >= self.min_cpu_update_interval.nanos {
                    CpuUpdate::Diff
                } else {
                    CpuUpdate::Deferred
                }
            },
        }
    }
}

/// What remains of a request for a field once it is known what is supported of it.
fn supported_update(requested: UpdateKind, supported: UpdateKind) -> (r: UpdateKind)
    ensures
        r == update_if(supported != UpdateKind::Never, requested),
{
    if supported == UpdateKind::Never {
        UpdateKind::Never
    } else {
        requested
    }
}

/// Whether a field is requested and not supported.
fn lost_update(requested: UpdateKind, supported: UpdateKind) -> (r: bool)
    ensures
        r == (requested != UpdateKind::Never && supported == UpdateKind::Never),
{
    requested != UpdateKind::Never && supported == UpdateKind::Never
}

/// `kind` without the fields that are not in `supported`.
fn effective_kind(kind: ProcessRefreshKind, supported: ProcessRefreshKind) -> (r:
    ProcessRefreshKind)
    ensures
        is_effective(kind, supported, r),
{
    ProcessRefreshKind {
        cpu: kind.cpu() && supported.cpu(),
        disk_usage: kind.disk_usage() && supported.disk_usage(),
        memory: kind.memory() && supported.memory(),
        tasks: kind.tasks() && supported.tasks(),
        gpu_usage: kind.gpu_usage() && supported.gpu_usage(),
        gpu_memory: kind.gpu_memory() && supported.gpu_memory(),
        user: supported_update(kind.user(), supported.user()),
        cwd: supported_update(kind.cwd(), supported.cwd()),
        root: supported_update(kind.root(), supported.root()),
        environ: supported_update(kind.environ(), supported.environ()),
        cmd: supported_update(kind.cmd(), supported.cmd()),
        exe: supported_update(kind.exe(), supported.exe()),
    }
}

/// The fields of `kind` that are not in `supported`.
fn lost_fields(kind: ProcessRefreshKind, supported: ProcessRefreshKind) -> (r: UnsupportedFields)
    ensures
        is_given_up(kind, supported, r),
{
    UnsupportedFields {
        cpu: kind.cpu() && !supported.cpu(),
        disk_usage: kind.disk_usage() && !supported.disk_usage(),
        memory: kind.memory() && !supported.memory(),
        tasks: kind.tasks() && !supported.tasks(),
        gpu_usage: kind.gpu_usage() && !supported.gpu_usage(),
        gpu_memory: kind.gpu_memory() && !supported.gpu_memory(),
        user: lost_update(kind.user(), supported.user()),
        cwd: lost_update(kind.cwd(), supported.cwd()),
        root: lost_update(kind.root(), supported.root()),
        environ: lost_update(kind.environ(), supported.environ()),
        cmd: lost_update(kind.cmd(), supported.cmd()),
        exe: lost_update(kind.exe(), supported.exe()),
    }
}

/// Masks the fields that the backend does not support out of `kind`, and reports them.
pub fn mask_refresh_kind(kind: ProcessRefreshKind, capabilities: &PlatformCapabilities) -> (r: (
    ProcessRefreshKind,
    UnsupportedFields,
))
    ensures
        is_effective(kind, capabilities@.supported_fields, r.0),
        is_given_up(kind, capabilities@.supported_fields, r.1),
{
    let supported = capabilities.supported_fields();
    (effective_kind(kind, supported), lost_fields(kind, supported))
}

/// The plan of a request is coherent.
pub proof fn law_plans_are_coherent(
    processes: Option<Seq<Pid>>,
    kind: ProcessRefreshKind,
    remove_dead_processes: bool,
    capabilities: CapabilitiesView,
    plan: PlanView,
)
    requires
        plan.answers(processes, kind, remove_dead_processes, capabilities),
    ensures
        plan.coherent(),
{
    if let Some(pids) = processes {
        law_first_occurrences_same_pids(pids);
    }
}

/// A request has one plan.
pub proof fn law_a_request_has_one_plan(
    processes: Option<Seq<Pid>>,
    kind: ProcessRefreshKind,
    remove_dead_processes: bool,
    capabilities: CapabilitiesView,
    plan: PlanView,
    other: PlanView,
)
    requires
        plan.answers(processes, kind, remove_dead_processes, capabilities),
        other.answers(processes, kind, remove_dead_processes, capabilities),
    ensures
        plan == other,
{
}

/// No requested field is lost in silence: each is collected exactly as requested or reported as
/// unsupported, never both, and no field is collected or reported that was not requested.
pub proof fn law_every_requested_field_is_accounted_for(
    kind: ProcessRefreshKind,
    supported: ProcessRefreshKind,
    collected: ProcessRefreshKind,
    given_up: UnsupportedFields,
)
    requires
        is_effective(kind, supported, collected),
        is_given_up(kind, supported, given_up),
    ensures
        accounts_for(kind, collected, given_up),
{
}

/// Masking what remains of a request changes nothing and gives up nothing.
pub proof fn law_masking_twice_is_masking_once(
    kind: ProcessRefreshKind,
    supported: ProcessRefreshKind,
    once: ProcessRefreshKind,
    twice: ProcessRefreshKind,
    given_up: UnsupportedFields,
)
    requires
        is_effective(kind, supported, once),
        is_effective(once, supported, twice),
        is_given_up(once, supported, given_up),
    ensures
        twice == once,
        given_up == nothing_unsupported(),
{
}

/// A backend that supports every field collects exactly what is requested.
pub proof fn law_full_support_masks_nothing(
    kind: ProcessRefreshKind,
    supported: ProcessRefreshKind,
    collected: ProcessRefreshKind,
    given_up: UnsupportedFields,
)
    requires
        asks_for_all(supported),
        is_effective(kind, supported, collected),
        is_given_up(kind, supported, given_up),
    ensures
        collected == kind,
        given_up == nothing_unsupported(),
{
}

/// A backend that cannot list processes and supports no field never collects: the plan of any
/// request has nothing to run, asks for no field, leaves CPU usage alone and reports every field
/// that was requested.
pub proof fn law_no_listing_never_collects(
    processes: Option<Seq<Pid>>,
    kind: ProcessRefreshKind,
    remove_dead_processes: bool,
    capabilities: CapabilitiesView,
    plan: PlanView,
    last_sample: Option<Instant>,
    now: Instant,
)
    requires
        !capabilities.can_list_processes,
        asks_for_nothing(capabilities.supported_fields),
        plan.answers(processes, kind, remove_dead_processes, capabilities),
    ensures
        !plan.collects(),
        asks_for_nothing(plan.refresh_kind),
        accounts_for(kind, plan.refresh_kind, plan.unsupported_fields),
        update_at(plan.refresh_kind.cpu, last_sample, now, plan.min_cpu_update_interval)
            == CpuUpdate::NotRequested,
{
    law_every_requested_field_is_accounted_for(
        kind,
        capabilities.supported_fields,
        plan.refresh_kind,
        plan.unsupported_fields,
    );
}

/// A plan selects a process exactly if the request does, whether or not the process exists.
pub proof fn law_the_requested_processes_are_selected(
    processes: Option<Seq<Pid>>,
    kind: ProcessRefreshKind,
    remove_dead_processes: bool,
    capabilities: CapabilitiesView,
    plan: PlanView,
    pid: Pid,
)
    requires
        plan.answers(processes, kind, remove_dead_processes, capabilities),
    ensures
        plan.includes(pid) <==> (processes matches Some(pids) ==> pids.contains(pid)),
{
    if let Some(pids) = processes {
        law_first_occurrences_same_pids(pids);
    }
}

/// On a backend that can list processes, a plan has something to collect unless the request lists
/// no process.
pub proof fn law_only_an_empty_request_collects_nothing(
    processes: Option<Seq<Pid>>,
    kind: ProcessRefreshKind,
    remove_dead_processes: bool,
    capabilities: CapabilitiesView,
    plan: PlanView,
)
    requires
        plan.answers(processes, kind, remove_dead_processes, capabilities),
    ensures
        plan.collects() <==> capabilities.can_list_processes && processes != Some(
            Seq::<Pid>::empty(),
        ),
{
    if let Some(pids) = processes {
        law_first_occurrences_same_pids(pids);
        if pids.len() > 0 {
            assert(pids.contains(pids[0]));
            assert(first_occurrences(pids).contains(pids[0]));
        } else {
            assert(pids =~= Seq::<Pid>::empty());
        }
    }
}

/// The selection of a plan, taken as a request again, is selected as it stands.
pub proof fn law_a_selection_is_its_own_selection(
    processes: Option<Seq<Pid>>,
    kind: ProcessRefreshKind,
    remove_dead_processes: bool,
    capabilities: CapabilitiesView,
    plan: PlanView,
    again: PlanView,
)
    requires
        plan.answers(processes, kind, remove_dead_processes, capabilities),
        again.answers(plan.selection, kind, remove_dead_processes, capabilities),
    ensures
        again == plan,
{
    if let Some(pids) = processes {
        law_first_occurrences_idempotent(pids);
    }
}

/// Once the interval has passed since the last sample, a usage is computed at every later time.
pub proof fn law_past_the_interval_a_usage_is_computed(
    last: Instant,
    now: Instant,
    later: Instant,
    minimum: Duration,
)
    requires
        nanos_between(last, now) >= minimum.nanos,
        now.nanos <= later.nanos,
    ensures
        update_at(true, Some(last), now, minimum) == CpuUpdate::Diff,
        update_at(true, Some(last), later, minimum) == CpuUpdate::Diff,
{
}

/// A field that is simply wanted is collected only if the platform supports that same field, is
/// reported only if the platform does not support that same field, and is not lost.
pub proof fn law_wanted_fields_follow_their_own_support(
    kind: ProcessRefreshKind,
    supported: ProcessRefreshKind,
    collected: ProcessRefreshKind,
    given_up: UnsupportedFields,
)
    requires
        is_effective(kind, supported, collected),
        is_given_up(kind, supported, given_up),
    ensures
        collected.cpu ==> kind.cpu && supported.cpu,
        given_up.cpu ==> kind.cpu && !supported.cpu,
        kind.cpu ==> collected.cpu || given_up.cpu,
        collected.disk_usage ==> kind.disk_usage && supported.disk_usage,
        given_up.disk_usage ==> kind.disk_usage && !supported.disk_usage,
        kind.disk_usage ==> collected.disk_usage || given_up.disk_usage,
        collected.memory ==> kind.memory && supported.memory,
        given_up.memory ==> kind.memory && !supported.memory,
        kind.memory ==> collected.memory || given_up.memory,
        collected.tasks ==> kind.tasks && supported.tasks,
        given_up.tasks ==> kind.tasks && !supported.tasks,
        kind.tasks ==> collected.tasks || given_up.tasks,
        collected.gpu_usage ==> kind.gpu_usage && supported.gpu_usage,
        given_up.gpu_usage ==> kind.gpu_usage && !supported.gpu_usage,
        kind.gpu_usage ==> collected.gpu_usage || given_up.gpu_usage,
        collected.gpu_memory ==> kind.gpu_memory && supported.gpu_memory,
        given_up.gpu_memory ==> kind.gpu_memory && !supported.gpu_memory,
        kind.gpu_memory ==> collected.gpu_memory || given_up.gpu_memory,
{
}

/// A field that seldom changes is collected, as it was asked for, only if the platform supports
/// that same field, is reported only if the platform does not support that same field, and is not
/// lost.
pub proof fn law_seldom_changing_fields_follow_their_own_support(
    kind: ProcessRefreshKind,
    supported: ProcessRefreshKind,
    collected: ProcessRefreshKind,
    given_up: UnsupportedFields,
)
    requires
        is_effective(kind, supported, collected),
        is_given_up(kind, supported, given_up),
    ensures
        collected.user != UpdateKind::Never ==> collected.user == kind.user && supported.user
            != UpdateKind::Never,
        given_up.user ==> kind.user != UpdateKind::Never && supported.user == UpdateKind::Never,
        kind.user != UpdateKind::Never ==> collected.user != UpdateKind::Never || given_up.user,
        collected.cwd != UpdateKind::Never ==> collected.cwd == kind.cwd && supported.cwd
            != UpdateKind::Never,
        given_up.cwd ==> kind.cwd != UpdateKind::Never && supported.cwd == UpdateKind::Never,
        kind.cwd != UpdateKind::Never ==> collected.cwd != UpdateKind::Never || given_up.cwd,
        collected.root != UpdateKind::Never ==> collected.root == kind.root && supported.root
            != UpdateKind::Never,
        given_up.root ==> kind.root != UpdateKind::Never && supported.root == UpdateKind::Never,
        kind.root != UpdateKind::Never ==> collected.root != UpdateKind::Never || given_up.root,
        collected.environ != UpdateKind::Never ==> collected.environ == kind.environ
            && supported.environ != UpdateKind::Never,
        given_up.environ ==> kind.environ != UpdateKind::Never && supported.environ
            == UpdateKind::Never,
        kind.environ != UpdateKind::Never ==> collected.environ != UpdateKind::Never
            || given_up.environ,
        collected.cmd != UpdateKind::Never ==> collected.cmd == kind.cmd && supported.cmd
            != UpdateKind::Never,
        given_up.cmd ==> kind.cmd != UpdateKind::Never && supported.cmd == UpdateKind::Never,
        kind.cmd != UpdateKind::Never ==> collected.cmd != UpdateKind::Never || given_up.cmd,
        collected.exe != UpdateKind::Never ==> collected.exe == kind.exe && supported.exe
            != UpdateKind::Never,
        given_up.exe ==> kind.exe != UpdateKind::Never && supported.exe == UpdateKind::Never,
        kind.exe != UpdateKind::Never ==> collected.exe != UpdateKind::Never || given_up.exe,
{
}

/// A platform that supports more collects no less: a field that is collected is still collected,
/// in the same way, where its support is not withdrawn.
pub proof fn law_more_support_collects_no_less(
    kind: ProcessRefreshKind,
    supported: ProcessRefreshKind,
    more: ProcessRefreshKind,
    collected: ProcessRefreshKind,
    more_collected: ProcessRefreshKind,
    field: ProcessField,
)
    requires
        is_effective(kind, supported, collected),
        is_effective(kind, more, more_collected),
        supported.cpu ==> more.cpu,
        supported.requests(field) ==> more.requests(field),
    ensures
        collected.cpu ==> more_collected.cpu,
        collected.requests(field) ==> more_collected.update(field) == collected.update(field),
{
}

/// Asking for nothing is asking for no field and not for CPU information; asking for all is
/// asking for each of them.
pub proof fn law_nothing_and_all_are_about_every_field(kind: ProcessRefreshKind)
    ensures
        asks_for_nothing(kind) <==> !kind.cpu && forall|field: ProcessField|
            !#[trigger] kind.requests(field),
        asks_for_all(kind) <==> kind.cpu && forall|field: ProcessField| #[trigger]
            kind.requests(field),
{
    law_each_field_is_asked_for_by_name(kind);
}

/// The plan keeps the interval of the backend, whether the backend lists processes, and what
/// becomes of dead processes; the fields follow what the backend supports.
pub proof fn law_the_plan_keeps_what_it_was_built_from(
    request: ProcessesToUpdate<'_>,
    kind: ProcessRefreshKind,
    remove_dead_processes: bool,
    capabilities: CapabilitiesView,
    plan: PlanView,
)
    requires
        plan.answers(request@, kind, remove_dead_processes, capabilities),
    ensures
        plan.min_cpu_update_interval == capabilities.min_cpu_update_interval,
        plan.can_list_processes == capabilities.can_list_processes,
        plan.remove_dead_processes == remove_dead_processes,
        is_effective(kind, capabilities.supported_fields, plan.refresh_kind),
        is_given_up(kind, capabilities.supported_fields, plan.unsupported_fields),
{
}

/// A selection is of all processes, or of those it lists.
pub proof fn law_a_selection_is_its_list(selection: PlanSelection)
    ensures
        match selection {
            PlanSelection::All => selection@ is None,
            PlanSelection::Pids(pids) => selection@ == Some(pids@),
        },
{
}

/// The plan of a request for all processes selects all. The plan of a request that lists
/// processes selects exactly those, once each, and in the order in which they are first listed:
/// wherever one of them stands in the request, those selected before it are listed before.
pub proof fn law_each_requested_process_is_selected_once_in_order(
    request: ProcessesToUpdate<'_>,
    kind: ProcessRefreshKind,
    remove_dead_processes: bool,
    capabilities: CapabilitiesView,
    plan: PlanView,
)
    requires
        plan.answers(request@, kind, remove_dead_processes, capabilities),
    ensures
        match request {
            ProcessesToUpdate::All => plan.selection is None,
            ProcessesToUpdate::Pids(pids) => {
                &&& plan.selection matches Some(chosen)
                &&& forall|pid: Pid| chosen.contains(pid) <==> #[trigger] pids@.contains(pid)
                &&& forall|i: int, j: int|
                    0 <= i < j < chosen.len() ==> #[trigger] chosen[i] != #[trigger] chosen[j]
                &&& forall|i: int, j: int, b: int|
                    #![trigger pids@.take(b).contains(chosen[i]), chosen[j]]
                    0 <= i < j < chosen.len() && 0 <= b < pids@.len() && pids@[b] == chosen[j]
                        ==> pids@.take(b).contains(chosen[i])
            },
        },
{
    if let ProcessesToUpdate::Pids(pids) = request {
        let chosen = first_occurrences(pids@);
        law_first_occurrences_same_pids(pids@);
        assert forall|i: int, j: int, b: int|
            #![trigger pids@.take(b).contains(chosen[i]), chosen[j]]
            0 <= i < j < chosen.len() && 0 <= b < pids@.len() && pids@[b]
                == chosen[j] implies pids@.take(b).contains(chosen[i]) by {
            law_kept_before_is_listed_before(pids@, i, j, b);
        }
    }
}

/// The occasions of each decision on CPU usage: none where CPU is not asked for or not supported,
/// a first sample exactly where there was none, and after that a usage is put off exactly while
/// the time since the last sample is below the least interval, unless that sample bears the
/// current time itself.
pub proof fn law_when_a_usage_is_computed(
    request: ProcessesToUpdate<'_>,
    kind: ProcessRefreshKind,
    remove_dead_processes: bool,
    capabilities: CapabilitiesView,
    plan: PlanView,
    last_sample: Option<Instant>,
    now: Instant,
)
    requires
        plan.answers(request@, kind, remove_dead_processes, capabilities),
    ensures
        ({
            let wanted = kind.cpu && capabilities.supported_fields.cpu;
            let minimum = capabilities.min_cpu_update_interval;
            let update = update_at(
                plan.refresh_kind.cpu,
                last_sample,
                now,
                plan.min_cpu_update_interval,
            );
            &&& update == CpuUpdate::NotRequested <==> !wanted
            &&& update == CpuUpdate::FirstSample <==> wanted && last_sample is None
            &&& update == CpuUpdate::Deferred <==> {
                &&& wanted
                &&& last_sample matches Some(last)
                &&& last.nanos != now.nanos
                &&& minimum.nanos > 0
                &&& now.nanos < last.nanos + minimum.nanos
            }
            &&& update == CpuUpdate::Diff <==> {
                &&& wanted
                &&& last_sample matches Some(last)
                &&& last.nanos == now.nanos || minimum.nanos == 0 || last.nanos + minimum.nanos
                    <= now.nanos
            }
        }),
{
}

} // verus!
