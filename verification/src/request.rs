//! What a caller asks of a process refresh: which processes, and which of their fields.
use vstd::prelude::*;

verus! {

/// A process identifier.
pub type Pid = usize;

/// The processes that a refresh is about.
#[derive(Clone, Copy, Debug, PartialEq, Eq)]
pub enum ProcessesToUpdate<'a> {
    /// Every process of the system.
    All,
    /// Only the processes listed, in any order and possibly more than once.
    Pids(&'a [Pid]),
}

impl<'a> View for ProcessesToUpdate<'a> {
    type V = Option<Seq<Pid>>;

    /// The list of requested processes, or `None` for all of them.
    open spec fn view(&self) -> Option<Seq<Pid>> {
        match *self {
            ProcessesToUpdate::All => None,
            ProcessesToUpdate::Pids(pids) => Some(pids@),
        }
    }
}

/// When a field that seldom changes is to be collected.
#[derive(Clone, Copy, Debug, PartialEq, Eq, Structural)]
pub enum UpdateKind {
    /// Never collect it.
    Never,
    /// Collect it at every refresh.
    Always,
    /// Collect it only while it has no value yet.
    OnlyIfNotSet,
}

/// A field of a process, apart from its CPU usage.
#[derive(Clone, Copy, Debug, PartialEq, Eq, Structural)]
pub enum ProcessField {
    /// The owner of the process.
    User,
    /// The current working directory.
    Cwd,
    /// The root directory.
    Root,
    /// The environment.
    Environ,
    /// The command line.
    Cmd,
    /// The path of the executable.
    Exe,
    /// Disk activity.
    DiskUsage,
    /// Tasks (only meaningful on Linux).
    Tasks,
    /// GPU usage.
    GpuUsage,
    /// GPU memory use.
    GpuMemory,
    /// Memory use.
    Memory,
}

/// Every [`ProcessField`], once each.
pub open spec fn all_fields() -> Seq<ProcessField> {
    seq![
        ProcessField::User,
        ProcessField::Cwd,
        ProcessField::Root,
        ProcessField::Environ,
        ProcessField::Cmd,
        ProcessField::Exe,
        ProcessField::DiskUsage,
        ProcessField::Tasks,
        ProcessField::GpuUsage,
        ProcessField::GpuMemory,
        ProcessField::Memory,
    ]
}

impl ProcessField {
    /// Every field, once each.
    pub fn all() -> (r: [ProcessField; 11])
        ensures
            r@ == all_fields(),
    {
        [
            ProcessField::User,
            ProcessField::Cwd,
            ProcessField::Root,
            ProcessField::Environ,
            ProcessField::Cmd,
            ProcessField::Exe,
            ProcessField::DiskUsage,
            ProcessField::Tasks,
            ProcessField::GpuUsage,
            ProcessField::GpuMemory,
            ProcessField::Memory,
        ]
    }
}

/// The fields that a refresh is asked to collect.
#[derive(Clone, Copy, Debug, PartialEq, Eq, Structural)]
pub struct ProcessRefreshKind {
    /// Whether to collect CPU usage and accumulated CPU time.
    pub cpu: bool,
    /// Whether to collect disk activity.
    pub disk_usage: bool,
    /// Whether to collect memory use.
    pub memory: bool,
    /// Whether to collect tasks (only meaningful on Linux).
    pub tasks: bool,
    /// Whether to collect GPU usage.
    pub gpu_usage: bool,
    /// Whether to collect GPU memory use.
    pub gpu_memory: bool,
    /// When to collect the owner of the process.
    pub user: UpdateKind,
    /// When to collect the current working directory.
    pub cwd: UpdateKind,
    /// When to collect the root directory.
    pub root: UpdateKind,
    /// When to collect the environment.
    pub environ: UpdateKind,
    /// When to collect the command line.
    pub cmd: UpdateKind,
    /// When to collect the path of the executable.
    pub exe: UpdateKind,
}

/// A field that is either wanted or not, seen as an [`UpdateKind`].
pub open spec fn always_if(wanted: bool) -> UpdateKind {
    if wanted {
        UpdateKind::Always
    } else {
        UpdateKind::Never
    }
}

/// `kind` if `supported`, else nothing.
pub open spec fn update_if(supported: bool, kind: UpdateKind) -> UpdateKind {
    if supported {
        kind
    } else {
        UpdateKind::Never
    }
}

impl ProcessRefreshKind {
    /// When `field` is to be collected; a field that is simply wanted is always collected.
    pub open spec fn update(self, field: ProcessField) -> UpdateKind {
        match field {
            ProcessField::User => self.user,
            ProcessField::Cwd => self.cwd,
            ProcessField::Root => self.root,
            ProcessField::Environ => self.environ,
            ProcessField::Cmd => self.cmd,
            ProcessField::Exe => self.exe,
            ProcessField::DiskUsage => always_if(self.disk_usage),
            ProcessField::Tasks => always_if(self.tasks),
            ProcessField::GpuUsage => always_if(self.gpu_usage),
            ProcessField::GpuMemory => always_if(self.gpu_memory),
            ProcessField::Memory => always_if(self.memory),
        }
    }

    /// Whether `field` is asked for at all.
    pub open spec fn requests(self, field: ProcessField) -> bool {
        self.update(field) != UpdateKind::Never
    }

    /// Nothing but the tasks, which count as processes on Linux.
    pub fn nothing() -> (r: Self)
        ensures
            !r.cpu,
            !r.disk_usage,
            !r.memory,
            r.tasks,
            !r.gpu_usage,
            !r.gpu_memory,
            r.user == UpdateKind::Never,
            r.cwd == UpdateKind::Never,
            r.root == UpdateKind::Never,
            r.environ == UpdateKind::Never,
            r.cmd == UpdateKind::Never,
            r.exe == UpdateKind::Never,
    {
        ProcessRefreshKind {
            cpu: false,
            disk_usage: false,
            memory: false,
            tasks: true,
            gpu_usage: false,
            gpu_memory: false,
            user: UpdateKind::Never,
            cwd: UpdateKind::Never,
            root: UpdateKind::Never,
            environ: UpdateKind::Never,
            cmd: UpdateKind::Never,
            exe: UpdateKind::Never,
        }
    }

    /// Every field, those that seldom change only while they have no value yet.
    pub fn everything() -> (r: Self)
        ensures
            r.cpu,
            r.disk_usage,
            r.memory,
            r.tasks,
            r.gpu_usage,
            r.gpu_memory,
            r.user == UpdateKind::OnlyIfNotSet,
            r.cwd == UpdateKind::OnlyIfNotSet,
            r.root == UpdateKind::OnlyIfNotSet,
            r.environ == UpdateKind::OnlyIfNotSet,
            r.cmd == UpdateKind::OnlyIfNotSet,
            r.exe == UpdateKind::OnlyIfNotSet,
    {
        ProcessRefreshKind {
            cpu: true,
            disk_usage: true,
            memory: true,
            tasks: true,
            gpu_usage: true,
            gpu_memory: true,
            user: UpdateKind::OnlyIfNotSet,
            cwd: UpdateKind::OnlyIfNotSet,
            root: UpdateKind::OnlyIfNotSet,
            environ: UpdateKind::OnlyIfNotSet,
            cmd: UpdateKind::OnlyIfNotSet,
            exe: UpdateKind::OnlyIfNotSet,
        }
    }

    /// Whether to collect CPU usage and accumulated CPU time.
    pub fn cpu(&self) -> (r: bool)
        ensures
            r == self.cpu,
    {
        self.cpu
    }

    /// The same request, with CPU usage and accumulated CPU time.
    pub fn with_cpu(self) -> (r: Self)
        ensures
            r == (ProcessRefreshKind { cpu: true, ..self }),
    {
        ProcessRefreshKind { cpu: true, ..self }
    }

    /// The same request, without CPU usage and accumulated CPU time.
    pub fn without_cpu(self) -> (r: Self)
        ensures
            r == (ProcessRefreshKind { cpu: false, ..self }),
    {
        ProcessRefreshKind { cpu: false, ..self }
    }

    /// Whether to collect disk activity.
    pub fn disk_usage(&self) -> (r: bool)
        ensures
            r == self.disk_usage,
    {
        self.disk_usage
    }

    /// The same request, with disk activity.
    pub fn with_disk_usage(self) -> (r: Self)
        ensures
            r == (ProcessRefreshKind { disk_usage: true, ..self }),
    {
        ProcessRefreshKind { disk_usage: true, ..self }
    }

    /// The same request, without disk activity.
    pub fn without_disk_usage(self) -> (r: Self)
        ensures
            r == (ProcessRefreshKind { disk_usage: false, ..self }),
    {
        ProcessRefreshKind { disk_usage: false, ..self }
    }

    /// Whether to collect memory use.
    pub fn memory(&self) -> (r: bool)
        ensures
            r == self.memory,
    {
        self.memory
    }

    /// The same request, with memory use.
    pub fn with_memory(self) -> (r: Self)
        ensures
            r == (ProcessRefreshKind { memory: true, ..self }),
    {
        ProcessRefreshKind { memory: true, ..self }
    }

    /// The same request, without memory use.
    pub fn without_memory(self) -> (r: Self)
        ensures
            r == (ProcessRefreshKind { memory: false, ..self }),
    {
        ProcessRefreshKind { memory: false, ..self }
    }

    /// Whether to collect tasks (only meaningful on Linux).
    pub fn tasks(&self) -> (r: bool)
        ensures
            r == self.tasks,
    {
        self.tasks
    }

    /// The same request, with tasks (only meaningful on Linux).
    pub fn with_tasks(self) -> (r: Self)
        ensures
            r == (ProcessRefreshKind { tasks: true, ..self }),
    {
        ProcessRefreshKind { tasks: true, ..self }
    }

    /// The same request, without tasks (only meaningful on Linux).
    pub fn without_tasks(self) -> (r: Self)
        ensures
            r == (ProcessRefreshKind { tasks: false, ..self }),
    {
        ProcessRefreshKind { tasks: false, ..self }
    }

    /// Whether to collect GPU usage.
    pub fn gpu_usage(&self) -> (r: bool)
        ensures
            r == self.gpu_usage,
    {
        self.gpu_usage
    }

    /// The same request, with GPU usage.
    pub fn with_gpu_usage(self) -> (r: Self)
        ensures
            r == (ProcessRefreshKind { gpu_usage: true, ..self }),
    {
        ProcessRefreshKind { gpu_usage: true, ..self }
    }

    /// The same request, without GPU usage.
    pub fn without_gpu_usage(self) -> (r: Self)
        ensures
            r == (ProcessRefreshKind { gpu_usage: false, ..self }),
    {
        ProcessRefreshKind { gpu_usage: false, ..self }
    }

    /// Whether to collect GPU memory use.
    pub fn gpu_memory(&self) -> (r: bool)
        ensures
            r == self.gpu_memory,
    {
        self.gpu_memory
    }

    /// The same request, with GPU memory use.
    pub fn with_gpu_memory(self) -> (r: Self)
        ensures
            r == (ProcessRefreshKind { gpu_memory: true, ..self }),
    {
        ProcessRefreshKind { gpu_memory: true, ..self }
    }

    /// The same request, without GPU memory use.
    pub fn without_gpu_memory(self) -> (r: Self)
        ensures
            r == (ProcessRefreshKind { gpu_memory: false, ..self }),
    {
        ProcessRefreshKind { gpu_memory: false, ..self }
    }

    /// When to collect the owner of the process.
    pub fn user(&self) -> (r: UpdateKind)
        ensures
            r == self.user,
    {
        self.user
    }

    /// The same request, with the owner of the process collected as `kind` says.
    pub fn with_user(self, kind: UpdateKind) -> (r: Self)
        ensures
            r == (ProcessRefreshKind { user: kind, ..self }),
    {
        ProcessRefreshKind { user: kind, ..self }
    }

    /// The same request, without the owner of the process.
    pub fn without_user(self) -> (r: Self)
        ensures
            r == (ProcessRefreshKind { user: UpdateKind::Never, ..self }),
    {
        ProcessRefreshKind { user: UpdateKind::Never, ..self }
    }

    /// When to collect the current working directory.
    pub fn cwd(&self) -> (r: UpdateKind)
        ensures
            r == self.cwd,
    {
        self.cwd
    }

    /// The same request, with the current working directory collected as `kind` says.
    pub fn with_cwd(self, kind: UpdateKind) -> (r: Self)
        ensures
            r == (ProcessRefreshKind { cwd: kind, ..self }),
    {
        ProcessRefreshKind { cwd: kind, ..self }
    }

    /// The same request, without the current working directory.
    pub fn without_cwd(self) -> (r: Self)
        ensures
            r == (ProcessRefreshKind { cwd: UpdateKind::Never, ..self }),
    {
        ProcessRefreshKind { cwd: UpdateKind::Never, ..self }
    }

    /// When to collect the root directory.
    pub fn root(&self) -> (r: UpdateKind)
        ensures
            r == self.root,
    {
        self.root
    }

    /// The same request, with the root directory collected as `kind` says.
    pub fn with_root(self, kind: UpdateKind) -> (r: Self)
        ensures
            r == (ProcessRefreshKind { root: kind, ..self }),
    {
        ProcessRefreshKind { root: kind, ..self }
    }

    /// The same request, without the root directory.
    pub fn without_root(self) -> (r: Self)
        ensures
            r == (ProcessRefreshKind { root: UpdateKind::Never, ..self }),
    {
        ProcessRefreshKind { root: UpdateKind::Never, ..self }
    }

    /// When to collect the environment.
    pub fn environ(&self) -> (r: UpdateKind)
        ensures
            r == self.environ,
    {
        self.environ
    }

    /// The same request, with the environment collected as `kind` says.
    pub fn with_environ(self, kind: UpdateKind) -> (r: Self)
        ensures
            r == (ProcessRefreshKind { environ: kind, ..self }),
    {
        ProcessRefreshKind { environ: kind, ..self }
    }

    /// The same request, without the environment.
    pub fn without_environ(self) -> (r: Self)
        ensures
            r == (ProcessRefreshKind { environ: UpdateKind::Never, ..self }),
    {
        ProcessRefreshKind { environ: UpdateKind::Never, ..self }
    }

    /// When to collect the command line.
    pub fn cmd(&self) -> (r: UpdateKind)
        ensures
            r == self.cmd,
    {
        self.cmd
    }

    /// The same request, with the command line collected as `kind` says.
    pub fn with_cmd(self, kind: UpdateKind) -> (r: Self)
        ensures
            r == (ProcessRefreshKind { cmd: kind, ..self }),
    {
        ProcessRefreshKind { cmd: kind, ..self }
    }

    /// The same request, without the command line.
    pub fn without_cmd(self) -> (r: Self)
        ensures
            r == (ProcessRefreshKind { cmd: UpdateKind::Never, ..self }),
    {
        ProcessRefreshKind { cmd: UpdateKind::Never, ..self }
    }

    /// When to collect the path of the executable.
    pub fn exe(&self) -> (r: UpdateKind)
        ensures
            r == self.exe,
    {
        self.exe
    }

    /// The same request, with the path of the executable collected as `kind` says.
    pub fn with_exe(self, kind: UpdateKind) -> (r: Self)
        ensures
            r == (ProcessRefreshKind { exe: kind, ..self }),
    {
        ProcessRefreshKind { exe: kind, ..self }
    }

    /// The same request, without the path of the executable.
    pub fn without_exe(self) -> (r: Self)
        ensures
            r == (ProcessRefreshKind { exe: UpdateKind::Never, ..self }),
    {
        ProcessRefreshKind { exe: UpdateKind::Never, ..self }
    }
}

/// A request is about all processes, or about those that it lists, in that order.
pub proof fn law_a_request_is_about_what_it_lists(request: ProcessesToUpdate<'_>)
    ensures
        match request {
            ProcessesToUpdate::All => request@ is None,
            ProcessesToUpdate::Pids(pids) => request@ == Some(pids@),
        },
{
}

/// What is asked of a field stands under the name of that field alone, and a field that is simply
/// wanted is wanted at every refresh.
pub proof fn law_each_field_is_asked_for_by_name(kind: ProcessRefreshKind)
    ensures
        kind.update(ProcessField::User) == kind.user,
        kind.requests(ProcessField::User) <==> kind.user != UpdateKind::Never,
        kind.update(ProcessField::Cwd) == kind.cwd,
        kind.requests(ProcessField::Cwd) <==> kind.cwd != UpdateKind::Never,
        kind.update(ProcessField::Root) == kind.root,
        kind.requests(ProcessField::Root) <==> kind.root != UpdateKind::Never,
        kind.update(ProcessField::Environ) == kind.environ,
        kind.requests(ProcessField::Environ) <==> kind.environ != UpdateKind::Never,
        kind.update(ProcessField::Cmd) == kind.cmd,
        kind.requests(ProcessField::Cmd) <==> kind.cmd != UpdateKind::Never,
        kind.update(ProcessField::Exe) == kind.exe,
        kind.requests(ProcessField::Exe) <==> kind.exe != UpdateKind::Never,
        kind.requests(ProcessField::DiskUsage) <==> kind.disk_usage,
        kind.disk_usage ==> kind.update(ProcessField::DiskUsage) == UpdateKind::Always,
        kind.requests(ProcessField::Tasks) <==> kind.tasks,
        kind.tasks ==> kind.update(ProcessField::Tasks) == UpdateKind::Always,
        kind.requests(ProcessField::GpuUsage) <==> kind.gpu_usage,
        kind.gpu_usage ==> kind.update(ProcessField::GpuUsage) == UpdateKind::Always,
        kind.requests(ProcessField::GpuMemory) <==> kind.gpu_memory,
        kind.gpu_memory ==> kind.update(ProcessField::GpuMemory) == UpdateKind::Always,
        kind.requests(ProcessField::Memory) <==> kind.memory,
        kind.memory ==> kind.update(ProcessField::Memory) == UpdateKind::Always,
{
}

/// Support lets a field through exactly as it was asked for; without it, the field is never
/// collected.
pub proof fn law_support_lets_a_field_through(supported: bool, kind: UpdateKind)
    ensures
        supported ==> update_if(supported, kind) == kind,
        !supported ==> update_if(supported, kind) == UpdateKind::Never,
{
}

} // verus!
