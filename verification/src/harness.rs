//! The harness proper: a state machine that decides, step by step, how a run
//! proceeds. The surrounding binary performs one outside operation per
//! [`Action`] it is handed and reports what happened as the next [`Event`];
//! everything between two operations — which directory hosts the run, the
//! order of provisioning, launching and collection, and the guaranteed
//! cleanup — is decided and verified here.

use crate::metrics::ChildProcessResult;
use crate::scan::lists_memory;
use crate::scan::parse_peak_spec;
use crate::scan::session_scope_spec;
use vstd::prelude::*;

verus! {

/// The run's configuration, as the command line hands it in.
pub struct Args {
    /// Root of the control-group filesystem.
    pub cg_fs_dir: String,
    /// An explicit target control-group directory, if the caller supplied
    /// one.
    pub cg_dir: Option<String>,
    /// Whether the report is printed as delimited columns.
    pub machine_readable: bool,
    /// Column delimiter for the machine-readable report.
    pub delim: char,
    /// Whether the session-manager re-launch fallback is disabled.
    pub disable_systemd_run: bool,
    /// The target command and its arguments, passed through verbatim.
    pub command: Vec<String>,
}

/// Mathematical image of [`Args`].
pub ghost struct ArgsModel {
    pub cg_fs_dir: Seq<char>,
    pub cg_dir: Option<Seq<char>>,
    pub machine_readable: bool,
    pub delim: char,
    pub disable_systemd_run: bool,
    pub command: Seq<Seq<char>>,
}

/// The view of an optional owned string.
pub open spec fn opt_str_view(o: Option<String>) -> Option<Seq<char>> {
    match o {
        Some(s) => Some(s@),
        None => None,
    }
}

impl View for Args {
    type V = ArgsModel;

    open spec fn view(&self) -> ArgsModel {
        ArgsModel {
            cg_fs_dir: self.cg_fs_dir@,
            cg_dir: opt_str_view(self.cg_dir),
            machine_readable: self.machine_readable,
            delim: self.delim,
            disable_systemd_run: self.disable_systemd_run,
            command: self.command.deep_view(),
        }
    }
}

impl ArgsModel {
    /// A usable configuration names at least the command to run.
    pub open spec fn wf(self) -> bool {
        self.command.len() > 0
    }
}

/// Which control-group directory hosts the run.
pub enum TargetCgroup {
    /// A caller-owned, pre-existing directory; never created or deleted by
    /// this run.
    ExplicitDir { path: String },
    /// An ephemeral directory this run created inside the caller's session
    /// scope; owned by this run and deleted at run end.
    DerivedTemp { path: String },
}

/// Mathematical image of [`TargetCgroup`].
pub ghost enum TargetModel {
    ExplicitDir { path: Seq<char> },
    DerivedTemp { path: Seq<char> },
}

impl View for TargetCgroup {
    type V = TargetModel;

    open spec fn view(&self) -> TargetModel {
        match self {
            TargetCgroup::ExplicitDir { path } => TargetModel::ExplicitDir { path: path@ },
            TargetCgroup::DerivedTemp { path } => TargetModel::DerivedTemp { path: path@ },
        }
    }
}

impl TargetModel {
    /// The directory's path, whichever variant holds it.
    pub open spec fn path(self) -> Seq<char> {
        match self {
            TargetModel::ExplicitDir { path } => path,
            TargetModel::DerivedTemp { path } => path,
        }
    }
}

/// Why a run failed. Every kind is unrecoverable at its detection point.
#[derive(Clone, Copy, PartialEq, Eq, Structural, Debug)]
pub enum HarnessError {
    /// Unsupported control-group filesystem, missing memory controller, or an
    /// invalid explicit target directory.
    ConfigurationError,
    /// No usable session scope, the fallback was disabled, the membership
    /// record was unreadable, or the ephemeral directory could not be made.
    LocatorError,
    /// The leaf could not be created or the controller not enabled.
    ProvisioningError,
    /// The process-creation primitive failed.
    LaunchError,
    /// The wait failed, or the peak-memory counter was unreadable or
    /// malformed.
    CollectionError,
}

/// What the wait retrieved about the terminated child.
#[derive(Clone, Copy, PartialEq, Eq, Structural, Debug)]
pub struct ReapInfo {
    /// The raw wait status.
    pub status: i32,
    /// User CPU time, seconds part.
    pub utime_sec: i64,
    /// User CPU time, microseconds part.
    pub utime_usec: i64,
    /// System CPU time, seconds part.
    pub stime_sec: i64,
    /// System CPU time, microseconds part.
    pub stime_usec: i64,
    /// Resident-set high-water mark in KiB.
    pub maxrss_kib: i64,
    /// Wall-clock nanoseconds between creation and reaping.
    pub wall_ns: u64,
}

/// How a finished run ends: with a report, or with a diagnostic.
#[derive(Clone, Copy, PartialEq, Eq, Structural, Debug)]
pub enum Outcome {
    /// The run measured the child; the harness prints the report and exits
    /// with `code`.
    Report { metrics: ChildProcessResult, code: i32 },
    /// The run failed; the harness prints a diagnostic for `error` and exits
    /// with `code`.
    Fail { error: HarnessError, code: i32 },
}

/// Which event the harness awaits next.
#[derive(Clone, Copy, PartialEq, Eq, Structural, Debug)]
pub enum Phase {
    /// Nothing has happened yet.
    Start,
    /// The two filesystem listings are being read.
    AwaitFsFiles,
    /// The explicit target directory is being examined.
    AwaitExplicitStat,
    /// The caller's own membership record is being read.
    AwaitSelfCgroup,
    /// The ephemeral directory is being created inside the session scope.
    AwaitTempDir,
    /// The run is being re-launched through the session manager.
    AwaitReexec,
    /// The memory controller is being enabled on the target.
    AwaitEnable,
    /// The leaf directory is being created.
    AwaitLeaf,
    /// The child is being created inside the leaf.
    AwaitSpawn,
    /// The child runs; the harness waits for its termination.
    AwaitReap,
    /// The leaf's peak-memory counter is being read.
    AwaitPeak,
    /// The leaf directory is being removed.
    AwaitLeafRemoval,
    /// The ephemeral target directory is being removed.
    AwaitTempRemoval,
    /// The final action has been handed out; nothing follows.
    Finished,
}

/// What the outside world reports back, one report per step.
pub enum Event {
    /// Drives the first step.
    Begin,
    /// Contents of the controllers and subtree-control listings; `None` for a
    /// file that could not be read.
    FsFiles { controllers: Option<String>, subtree: Option<String> },
    /// What examining the explicit target directory found.
    ExplicitStat { exists: bool, is_dir: bool },
    /// Contents of the caller's own membership record, if readable.
    SelfCgroup { record: Option<String> },
    /// Path of the ephemeral directory, if it could be created.
    TempDirMade { path: Option<String> },
    /// The re-launch returned instead of replacing the process image.
    ReexecReturned,
    /// Whether the controller-enable write succeeded.
    ControllerEnabled { ok: bool },
    /// Whether the leaf directory was created.
    LeafMade { ok: bool },
    /// Whether the child was created inside the leaf.
    SpawnResult { ok: bool },
    /// Whether the wait succeeded, and what it retrieved.
    Reaped { ok: bool, info: ReapInfo },
    /// Contents of the peak-memory counter, if readable.
    PeakRead { content: Option<String> },
    /// The leaf directory was removed (`ok` reports a tolerated race where it
    /// was already gone or could not be removed).
    LeafRemoved { ok: bool },
    /// The ephemeral target directory was removed (same tolerance).
    TempRemoved { ok: bool },
}

/// Mathematical image of [`Event`].
pub ghost enum EventModel {
    Begin,
    FsFiles { controllers: Option<Seq<char>>, subtree: Option<Seq<char>> },
    ExplicitStat { exists: bool, is_dir: bool },
    SelfCgroup { record: Option<Seq<char>> },
    TempDirMade { path: Option<Seq<char>> },
    ReexecReturned,
    ControllerEnabled { ok: bool },
    LeafMade { ok: bool },
    SpawnResult { ok: bool },
    Reaped { ok: bool, info: ReapInfo },
    PeakRead { content: Option<Seq<char>> },
    LeafRemoved { ok: bool },
    TempRemoved { ok: bool },
}

impl View for Event {
    type V = EventModel;

    open spec fn view(&self) -> EventModel {
        match self {
            Event::Begin => EventModel::Begin,
            Event::FsFiles { controllers, subtree } => EventModel::FsFiles {
                controllers: opt_str_view(*controllers),
                subtree: opt_str_view(*subtree),
            },
            Event::ExplicitStat { exists, is_dir } => EventModel::ExplicitStat {
                exists: *exists,
                is_dir: *is_dir,
            },
            Event::SelfCgroup { record } => EventModel::SelfCgroup {
                record: opt_str_view(*record),
            },
            Event::TempDirMade { path } => EventModel::TempDirMade { path: opt_str_view(*path) },
            Event::ReexecReturned => EventModel::ReexecReturned,
            Event::ControllerEnabled { ok } => EventModel::ControllerEnabled { ok: *ok },
            Event::LeafMade { ok } => EventModel::LeafMade { ok: *ok },
            Event::SpawnResult { ok } => EventModel::SpawnResult { ok: *ok },
            Event::Reaped { ok, info } => EventModel::Reaped { ok: *ok, info: *info },
            Event::PeakRead { content } => EventModel::PeakRead {
                content: opt_str_view(*content),
            },
            Event::LeafRemoved { ok } => EventModel::LeafRemoved { ok: *ok },
            Event::TempRemoved { ok } => EventModel::TempRemoved { ok: *ok },
        }
    }
}

/// The one outside operation the driver performs next.
pub enum Action {
    /// Read the two listings, with a small bounded buffer each.
    ReadFsFiles { controllers_path: String, subtree_path: String },
    /// Examine whether `path` exists and is a directory.
    StatDir { path: String },
    /// Read the caller's own control-group membership record.
    ReadSelfCgroup,
    /// Create a uniquely named ephemeral directory inside `parent`.
    MakeTempDir { parent: String },
    /// Re-launch the same program through the session-manager helper,
    /// forwarding the original arguments plus the fallback-disable flag.
    Reexec,
    /// Append the memory controller's name to the subtree-control file.
    EnableController { subtree_path: String },
    /// Create the leaf directory.
    CreateLeaf { path: String },
    /// Atomically create the child inside the leaf and replace its image
    /// with `argv`; a child that cannot do so terminates with status 127.
    Spawn { leaf_path: String, argv: Vec<String> },
    /// Ignore interactive interrupt and quit signals, then block until the
    /// child terminates, retrieving its resource usage with the wait.
    Wait,
    /// Read the leaf's peak-memory counter.
    ReadPeak { path: String },
    /// Remove the leaf directory; a failure is reported, never escalated.
    RemoveLeaf { path: String },
    /// Remove the ephemeral target directory; same tolerance.
    RemoveTemp { path: String },
    /// Print the report and exit with `code`.
    Report { metrics: ChildProcessResult, code: i32 },
    /// Print a diagnostic for `error` and exit with `code`.
    Fail { error: HarnessError, code: i32 },
    /// Nothing to do: the driver handed an event the phase does not await.
    Idle,
}

/// Mathematical image of [`Action`].
pub ghost enum ActionModel {
    ReadFsFiles { controllers_path: Seq<char>, subtree_path: Seq<char> },
    StatDir { path: Seq<char> },
    ReadSelfCgroup,
    MakeTempDir { parent: Seq<char> },
    Reexec,
    EnableController { subtree_path: Seq<char> },
    CreateLeaf { path: Seq<char> },
    Spawn { leaf_path: Seq<char>, argv: Seq<Seq<char>> },
    Wait,
    ReadPeak { path: Seq<char> },
    RemoveLeaf { path: Seq<char> },
    RemoveTemp { path: Seq<char> },
    Report { metrics: ChildProcessResult, code: i32 },
    Fail { error: HarnessError, code: i32 },
    Idle,
}

impl View for Action {
    type V = ActionModel;

    open spec fn view(&self) -> ActionModel {
        match self {
            Action::ReadFsFiles { controllers_path, subtree_path } => ActionModel::ReadFsFiles {
                controllers_path: controllers_path@,
                subtree_path: subtree_path@,
            },
            Action::StatDir { path } => ActionModel::StatDir { path: path@ },
            Action::ReadSelfCgroup => ActionModel::ReadSelfCgroup,
            Action::MakeTempDir { parent } => ActionModel::MakeTempDir { parent: parent@ },
            Action::Reexec => ActionModel::Reexec,
            Action::EnableController { subtree_path } => ActionModel::EnableController {
                subtree_path: subtree_path@,
            },
            Action::CreateLeaf { path } => ActionModel::CreateLeaf { path: path@ },
            Action::Spawn { leaf_path, argv } => ActionModel::Spawn {
                leaf_path: leaf_path@,
                argv: argv.deep_view(),
            },
            Action::Wait => ActionModel::Wait,
            Action::ReadPeak { path } => ActionModel::ReadPeak { path: path@ },
            Action::RemoveLeaf { path } => ActionModel::RemoveLeaf { path: path@ },
            Action::RemoveTemp { path } => ActionModel::RemoveTemp { path: path@ },
            Action::Report { metrics, code } => ActionModel::Report {
                metrics: *metrics,
                code: *code,
            },
            Action::Fail { error, code } => ActionModel::Fail { error: *error, code: *code },
            Action::Idle => ActionModel::Idle,
        }
    }
}

/// Path of the controllers listing under the filesystem root.
pub open spec fn controllers_path_of(base: Seq<char>) -> Seq<char> {
    base + "/cgroup.controllers"@
}

/// Path of a directory's subtree-control file.
pub open spec fn subtree_control_of(dir: Seq<char>) -> Seq<char> {
    dir + "/cgroup.subtree_control"@
}

/// Path of the leaf directory nested under a target directory.
pub open spec fn leaf_path_of(dir: Seq<char>) -> Seq<char> {
    dir + "/leaf"@
}

/// Path of a leaf's peak-memory counter.
pub open spec fn peak_path_of(leaf: Seq<char>) -> Seq<char> {
    leaf + "/memory.peak"@
}

/// Path of the session scope under the filesystem root.
pub open spec fn scope_dir_of(base: Seq<char>, scope: Seq<char>) -> Seq<char> {
    base + "/"@ + scope
}

/// Joins a directory and a suffix into one owned path.
fn join_path(dir: &str, tail: &str) -> (r: String)
    ensures
        r@ == dir@ + tail@,
{
    let s = String::from_str(dir);
    s.concat(tail)
}

/// Clones a command line so the spawn action can carry it while the
/// configuration keeps its own copy.
fn clone_strings(v: &Vec<String>) -> (r: Vec<String>)
    ensures
        r.deep_view() == v.deep_view(),
{
    let mut r: Vec<String> = Vec::new();
    let n = v.len();
    let mut i: usize = 0;
    while i < n
        invariant
            n == v.len(),
            0 <= i <= n,
            r.len() == i,
            forall|j: int| 0 <= j < i ==> r.deep_view()[j] == v.deep_view()[j],
        decreases n - i,
    {
        r.push(String::from_str(v[i].as_str()));
        i = i + 1;
    }
    proof {
        assert(r.deep_view() =~= v.deep_view());
    }
    r
}

/// The harness's whole state between two outside operations.
pub struct Harness {
    /// The run's configuration; never changed after construction.
    pub args: Args,
    /// Which event is awaited next.
    pub phase: Phase,
    /// The resolved target directory, once located.
    pub target: Option<TargetCgroup>,
    /// The leaf directory's path, once decided.
    pub leaf: Option<String>,
    /// The controller-enable write has succeeded.
    pub controller_enabled: bool,
    /// The leaf directory has been created.
    pub leaf_created: bool,
    /// The leaf directory's removal has been carried out.
    pub leaf_removed: bool,
    /// The ephemeral target directory's removal has been carried out.
    pub temp_removed: bool,
    /// The child has been created.
    pub spawned: bool,
    /// What the wait retrieved, once the child terminated.
    pub reap: Option<ReapInfo>,
    /// How the run ends, once decided; cleanup steps may still follow.
    pub outcome: Option<Outcome>,
}

/// Mathematical image of [`Harness`].
pub ghost struct HarnessModel {
    pub args: ArgsModel,
    pub phase: Phase,
    pub target: Option<TargetModel>,
    pub leaf: Option<Seq<char>>,
    pub controller_enabled: bool,
    pub leaf_created: bool,
    pub leaf_removed: bool,
    pub temp_removed: bool,
    pub spawned: bool,
    pub reap: Option<ReapInfo>,
    pub outcome: Option<Outcome>,
}

impl View for Harness {
    type V = HarnessModel;

    open spec fn view(&self) -> HarnessModel {
        HarnessModel {
            args: self.args@,
            phase: self.phase,
            target: match self.target {
                Some(t) => Some(t@),
                None => None,
            },
            leaf: opt_str_view(self.leaf),
            controller_enabled: self.controller_enabled,
            leaf_created: self.leaf_created,
            leaf_removed: self.leaf_removed,
            temp_removed: self.temp_removed,
            spawned: self.spawned,
            reap: self.reap,
            outcome: self.outcome,
        }
    }
}

impl HarnessModel {
    /// Nothing outside this process has been touched yet.
    pub open spec fn untouched(self) -> bool {
        &&& self.target is None
        &&& self.leaf is None
        &&& !self.controller_enabled
        &&& !self.leaf_created
        &&& !self.leaf_removed
        &&& !self.temp_removed
        &&& !self.spawned
        &&& self.reap is None
        &&& self.outcome is None
    }

    /// Everything the run created has been released again.
    pub open spec fn released(self) -> bool {
        &&& self.leaf_created ==> self.leaf_removed
        &&& (self.target matches Some(TargetModel::DerivedTemp { .. })) ==> self.temp_removed
    }

    /// The state invariant: what must hold between any two steps.
    pub open spec fn inv(self) -> bool {
        &&& self.args.wf()
        &&& self.leaf_created ==> self.controller_enabled
        &&& self.spawned ==> self.leaf_created
        &&& self.leaf_removed ==> self.leaf_created
        &&& self.reap is Some ==> self.spawned
        &&& self.controller_enabled ==> self.target is Some
        &&& (self.leaf matches Some(l) ==> (self.target matches Some(t) && l == leaf_path_of(
            t.path(),
        )))
        &&& self.leaf_created ==> self.leaf is Some
        &&& (self.target matches Some(TargetModel::ExplicitDir { path }) ==> self.args.cg_dir
            == Some(path))
        &&& (self.target matches Some(TargetModel::DerivedTemp { .. }) ==> self.args.cg_dir
            is None)
        &&& match self.phase {
            Phase::Start => self.untouched(),
            Phase::AwaitFsFiles => self.untouched(),
            Phase::AwaitExplicitStat => self.untouched() && self.args.cg_dir is Some,
            Phase::AwaitSelfCgroup => self.untouched() && self.args.cg_dir is None,
            Phase::AwaitTempDir => self.untouched() && self.args.cg_dir is None,
            Phase::AwaitReexec => self.untouched() && self.args.cg_dir is None
                && !self.args.disable_systemd_run,
            Phase::AwaitEnable => {
                &&& self.target is Some
                &&& !self.controller_enabled
                &&& !self.leaf_created
                &&& !self.spawned
                &&& !self.leaf_removed
                &&& !self.temp_removed
                &&& self.reap is None
                &&& self.outcome is None
            },
            Phase::AwaitLeaf => {
                &&& self.controller_enabled
                &&& !self.leaf_created
                &&& !self.spawned
                &&& !self.leaf_removed
                &&& !self.temp_removed
                &&& self.leaf is Some
                &&& self.reap is None
                &&& self.outcome is None
            },
            Phase::AwaitSpawn => {
                &&& self.leaf_created
                &&& !self.spawned
                &&& !self.leaf_removed
                &&& !self.temp_removed
                &&& self.reap is None
                &&& self.outcome is None
            },
            Phase::AwaitReap => {
                &&& self.spawned
                &&& !self.leaf_removed
                &&& !self.temp_removed
                &&& self.reap is None
                &&& self.outcome is None
            },
            Phase::AwaitPeak => {
                &&& self.spawned
                &&& !self.leaf_removed
                &&& !self.temp_removed
                &&& self.reap is Some
                &&& self.outcome is None
            },
            Phase::AwaitLeafRemoval => {
                &&& self.outcome is Some
                &&& self.leaf_created
                &&& !self.leaf_removed
                &&& !self.temp_removed
            },
            Phase::AwaitTempRemoval => {
                &&& self.outcome is Some
                &&& (self.leaf_created ==> self.leaf_removed)
                &&& self.target matches Some(TargetModel::DerivedTemp { .. })
                &&& !self.temp_removed
            },
            Phase::Finished => self.released(),
        }
    }
}

/// The final action a decided outcome asks for.
pub open spec fn final_action(oc: Outcome) -> ActionModel {
    match oc {
        Outcome::Report { metrics, code } => ActionModel::Report { metrics, code },
        Outcome::Fail { error, code } => ActionModel::Fail { error, code },
    }
}

/// Records the outcome and turns to releasing whatever the run still holds:
/// first the leaf, then the ephemeral target, then the final action.
pub open spec fn settle(pre: HarnessModel, oc: Outcome) -> (HarnessModel, ActionModel) {
    let p = HarnessModel { outcome: Some(oc), ..pre };
    if p.leaf_created && !p.leaf_removed {
        (
            HarnessModel { phase: Phase::AwaitLeafRemoval, ..p },
            ActionModel::RemoveLeaf { path: p.leaf.unwrap() },
        )
    } else if (p.target matches Some(TargetModel::DerivedTemp { .. })) && !p.temp_removed {
        (
            HarnessModel { phase: Phase::AwaitTempRemoval, ..p },
            ActionModel::RemoveTemp { path: p.target.unwrap().path() },
        )
    } else {
        (HarnessModel { phase: Phase::Finished, ..p }, final_action(oc))
    }
}

/// Both listings were readable and both name the memory controller.
pub open spec fn fs_ok(controllers: Option<Seq<char>>, subtree: Option<Seq<char>>) -> bool {
    &&& controllers matches Some(c) && lists_memory(c)
    &&& subtree matches Some(s) && lists_memory(s)
}

/// The report and exit status owed once the peak counter parsed to `v`.
pub open spec fn collected_outcome(info: ReapInfo, v: u64) -> Outcome {
    Outcome::Report {
        metrics: ChildProcessResult::from_wait_spec(
            info.utime_sec,
            info.utime_usec,
            info.stime_sec,
            info.stime_usec,
            info.maxrss_kib,
            info.wall_ns,
            v,
        ),
        code: crate::metrics::report_exit_code(info.status),
    }
}

/// The transition function: what one step does to the state and which single
/// outside operation it asks for. An event that its phase does not await
/// leaves the state unchanged and asks for nothing.
pub open spec fn next(pre: HarnessModel, e: EventModel) -> (HarnessModel, ActionModel) {
    match (pre.phase, e) {
        (Phase::Start, EventModel::Begin) => (
            HarnessModel { phase: Phase::AwaitFsFiles, ..pre },
            ActionModel::ReadFsFiles {
                controllers_path: controllers_path_of(pre.args.cg_fs_dir),
                subtree_path: subtree_control_of(pre.args.cg_fs_dir),
            },
        ),
        (Phase::AwaitFsFiles, EventModel::FsFiles { controllers, subtree }) => {
            if fs_ok(controllers, subtree) {
                match pre.args.cg_dir {
                    Some(d) => (
                        HarnessModel { phase: Phase::AwaitExplicitStat, ..pre },
                        ActionModel::StatDir { path: d },
                    ),
                    None => (
                        HarnessModel { phase: Phase::AwaitSelfCgroup, ..pre },
                        ActionModel::ReadSelfCgroup,
                    ),
                }
            } else {
                settle(pre, Outcome::Fail { error: HarnessError::ConfigurationError, code: 1 })
            }
        },
        (Phase::AwaitExplicitStat, EventModel::ExplicitStat { exists, is_dir }) => {
            match pre.args.cg_dir {
                Some(d) => {
                    if exists && is_dir {
                        (
                            HarnessModel {
                                phase: Phase::AwaitEnable,
                                target: Some(TargetModel::ExplicitDir { path: d }),
                                ..pre
                            },
                            ActionModel::EnableController {
                                subtree_path: subtree_control_of(d),
                            },
                        )
                    } else {
                        settle(
                            pre,
                            Outcome::Fail { error: HarnessError::ConfigurationError, code: 1 },
                        )
                    }
                },
                None => (pre, ActionModel::Idle),
            }
        },
        (Phase::AwaitSelfCgroup, EventModel::SelfCgroup { record }) => {
            match record {
                None => settle(pre, Outcome::Fail { error: HarnessError::LocatorError, code: 1 }),
                Some(r) => match session_scope_spec(r) {
                    Some(scope) => (
                        HarnessModel { phase: Phase::AwaitTempDir, ..pre },
                        ActionModel::MakeTempDir {
                            parent: scope_dir_of(pre.args.cg_fs_dir, scope),
                        },
                    ),
                    None => {
                        if pre.args.disable_systemd_run {
                            settle(
                                pre,
                                Outcome::Fail { error: HarnessError::LocatorError, code: 119 },
                            )
                        } else {
                            (HarnessModel { phase: Phase::AwaitReexec, ..pre }, ActionModel::Reexec)
                        }
                    },
                },
            }
        },
        (Phase::AwaitTempDir, EventModel::TempDirMade { path }) => {
            match path {
                Some(p) => (
                    HarnessModel {
                        phase: Phase::AwaitEnable,
                        target: Some(TargetModel::DerivedTemp { path: p }),
                        ..pre
                    },
                    ActionModel::EnableController { subtree_path: subtree_control_of(p) },
                ),
                None => settle(pre, Outcome::Fail { error: HarnessError::LocatorError, code: 1 }),
            }
        },
        (Phase::AwaitReexec, EventModel::ReexecReturned) => settle(
            pre,
            Outcome::Fail { error: HarnessError::LocatorError, code: 118 },
        ),
        (Phase::AwaitEnable, EventModel::ControllerEnabled { ok }) => {
            if ok {
                match pre.target {
                    Some(t) => (
                        HarnessModel {
                            phase: Phase::AwaitLeaf,
                            controller_enabled: true,
                            leaf: Some(leaf_path_of(t.path())),
                            ..pre
                        },
                        ActionModel::CreateLeaf { path: leaf_path_of(t.path()) },
                    ),
                    None => (pre, ActionModel::Idle),
                }
            } else {
                settle(pre, Outcome::Fail { error: HarnessError::ProvisioningError, code: 1 })
            }
        },
        (Phase::AwaitLeaf, EventModel::LeafMade { ok }) => {
            if ok {
                match pre.leaf {
                    Some(l) => (
                        HarnessModel { phase: Phase::AwaitSpawn, leaf_created: true, ..pre },
                        ActionModel::Spawn { leaf_path: l, argv: pre.args.command },
                    ),
                    None => (pre, ActionModel::Idle),
                }
            } else {
                settle(pre, Outcome::Fail { error: HarnessError::ProvisioningError, code: 1 })
            }
        },
        (Phase::AwaitSpawn, EventModel::SpawnResult { ok }) => {
            if ok {
                (HarnessModel { phase: Phase::AwaitReap, spawned: true, ..pre }, ActionModel::Wait)
            } else {
                settle(pre, Outcome::Fail { error: HarnessError::LaunchError, code: 1 })
            }
        },
        (Phase::AwaitReap, EventModel::Reaped { ok, info }) => {
            if ok {
                match pre.leaf {
                    Some(l) => (
                        HarnessModel { phase: Phase::AwaitPeak, reap: Some(info), ..pre },
                        ActionModel::ReadPeak { path: peak_path_of(l) },
                    ),
                    None => (pre, ActionModel::Idle),
                }
            } else {
                settle(pre, Outcome::Fail { error: HarnessError::CollectionError, code: 1 })
            }
        },
        (Phase::AwaitPeak, EventModel::PeakRead { content }) => {
            match (content, pre.reap) {
                (Some(text), Some(info)) => match parse_peak_spec(text) {
                    Some(v) => settle(pre, collected_outcome(info, v)),
                    None => settle(
                        pre,
                        Outcome::Fail { error: HarnessError::CollectionError, code: 1 },
                    ),
                },
                (None, Some(_)) => settle(
                    pre,
                    Outcome::Fail { error: HarnessError::CollectionError, code: 1 },
                ),
                _ => (pre, ActionModel::Idle),
            }
        },
        (Phase::AwaitLeafRemoval, EventModel::LeafRemoved { ok: _ }) => {
            let p = HarnessModel { leaf_removed: true, ..pre };
            match (p.outcome, p.target) {
                (Some(oc), Some(TargetModel::DerivedTemp { path })) => {
                    if !p.temp_removed {
                        (
                            HarnessModel { phase: Phase::AwaitTempRemoval, ..p },
                            ActionModel::RemoveTemp { path },
                        )
                    } else {
                        (HarnessModel { phase: Phase::Finished, ..p }, final_action(oc))
                    }
                },
                (Some(oc), _) => (HarnessModel { phase: Phase::Finished, ..p }, final_action(oc)),
                _ => (pre, ActionModel::Idle),
            }
        },
        (Phase::AwaitTempRemoval, EventModel::TempRemoved { ok: _ }) => {
            match pre.outcome {
                Some(oc) => (
                    HarnessModel { phase: Phase::Finished, temp_removed: true, ..pre },
                    final_action(oc),
                ),
                None => (pre, ActionModel::Idle),
            }
        },
        _ => (pre, ActionModel::Idle),
    }
}

impl Harness {
    /// A harness that has done nothing yet.
    pub fn new(args: Args) -> (h: Harness)
        requires
            args@.wf(),
        ensures
            h@.inv(),
            h@.phase == Phase::Start,
            h@.args == args@,
            h@.untouched(),
    {
        Harness {
            args,
            phase: Phase::Start,
            target: None,
            leaf: None,
            controller_enabled: false,
            leaf_created: false,
            leaf_removed: false,
            temp_removed: false,
            spawned: false,
            reap: None,
            outcome: None,
        }
    }

    /// Records the outcome and starts the teardown that [`settle`] describes.
    fn settle_exec(&mut self, oc: Outcome) -> (a: Action)
        requires
            old(self)@.leaf_created ==> old(self)@.leaf is Some,
        ensures
            ((*final(self))@, a@) == settle(old(self)@, oc),
    {
        self.outcome = Some(oc);
        if self.leaf_created && !self.leaf_removed {
            self.phase = Phase::AwaitLeafRemoval;
            let path = match &self.leaf {
                Some(l) => String::from_str(l.as_str()),
                None => vstd::pervasive::unreached(),
            };
            Action::RemoveLeaf { path }
        } else if matches!(&self.target, Some(TargetCgroup::DerivedTemp { .. }))
            && !self.temp_removed {
            self.phase = Phase::AwaitTempRemoval;
            let path = match &self.target {
                Some(TargetCgroup::DerivedTemp { path }) => String::from_str(path.as_str()),
                _ => vstd::pervasive::unreached(),
            };
            Action::RemoveTemp { path }
        } else {
            self.phase = Phase::Finished;
            match oc {
                Outcome::Report { metrics, code } => Action::Report { metrics, code },
                Outcome::Fail { error, code } => Action::Fail { error, code },
            }
        }
    }

    /// Performs one step: takes what the last outside operation reported and
    /// answers with the next operation. The whole behaviour is the one
    /// [`next`] states.
    pub fn step(&mut self, e: Event) -> (a: Action)
        requires
            old(self)@.inv(),
        ensures
            ((*final(self))@, a@) == next(old(self)@, e@),
    {
        let ghost ge = e@;
        match (self.phase, e) {
            (Phase::Start, Event::Begin) => {
                let cp = join_path(self.args.cg_fs_dir.as_str(), "/cgroup.controllers");
                let sp = join_path(self.args.cg_fs_dir.as_str(), "/cgroup.subtree_control");
                self.phase = Phase::AwaitFsFiles;
                Action::ReadFsFiles { controllers_path: cp, subtree_path: sp }
            },
            (Phase::AwaitFsFiles, Event::FsFiles { controllers, subtree }) => {
                let ok = match (&controllers, &subtree) {
                    (Some(c), Some(s)) => {
                        crate::scan::memory_controller_listed(c.as_str())
                            && crate::scan::memory_controller_listed(s.as_str())
                    },
                    _ => false,
                };
                if ok {
                    match &self.args.cg_dir {
                        Some(d) => {
                            let path = String::from_str(d.as_str());
                            self.phase = Phase::AwaitExplicitStat;
                            Action::StatDir { path }
                        },
                        None => {
                            self.phase = Phase::AwaitSelfCgroup;
                            Action::ReadSelfCgroup
                        },
                    }
                } else {
                    self.settle_exec(
                        Outcome::Fail { error: HarnessError::ConfigurationError, code: 1 },
                    )
                }
            },
            (Phase::AwaitExplicitStat, Event::ExplicitStat { exists, is_dir }) => {
                match &self.args.cg_dir {
                    Some(d) => {
                        if exists && is_dir {
                            let dir = String::from_str(d.as_str());
                            let sub = join_path(d.as_str(), "/cgroup.subtree_control");
                            self.target = Some(TargetCgroup::ExplicitDir { path: dir });
                            self.phase = Phase::AwaitEnable;
                            Action::EnableController { subtree_path: sub }
                        } else {
                            self.settle_exec(
                                Outcome::Fail { error: HarnessError::ConfigurationError, code: 1 },
                            )
                        }
                    },
                    None => Action::Idle,
                }
            },
            (Phase::AwaitSelfCgroup, Event::SelfCgroup { record }) => {
                match record {
                    None => self.settle_exec(
                        Outcome::Fail { error: HarnessError::LocatorError, code: 1 },
                    ),
                    Some(r) => {
                        match crate::scan::session_scope_of(r.as_str()) {
                            Some(scope) => {
                                let base = join_path(self.args.cg_fs_dir.as_str(), "/");
                                let parent = base.concat(scope.as_str());
                                self.phase = Phase::AwaitTempDir;
                                Action::MakeTempDir { parent }
                            },
                            None => {
                                if self.args.disable_systemd_run {
                                    self.settle_exec(
                                        Outcome::Fail {
                                            error: HarnessError::LocatorError,
                                            code: 119,
                                        },
                                    )
                                } else {
                                    self.phase = Phase::AwaitReexec;
                                    Action::Reexec
                                }
                            },
                        }
                    },
                }
            },
            (Phase::AwaitTempDir, Event::TempDirMade { path }) => {
                match path {
                    Some(p) => {
                        let sub = join_path(p.as_str(), "/cgroup.subtree_control");
                        self.target = Some(TargetCgroup::DerivedTemp { path: p });
                        self.phase = Phase::AwaitEnable;
                        Action::EnableController { subtree_path: sub }
                    },
                    None => self.settle_exec(
                        Outcome::Fail { error: HarnessError::LocatorError, code: 1 },
                    ),
                }
            },
            (Phase::AwaitReexec, Event::ReexecReturned) => {
                self.settle_exec(Outcome::Fail { error: HarnessError::LocatorError, code: 118 })
            },
            (Phase::AwaitEnable, Event::ControllerEnabled { ok }) => {
                if ok {
                    match &self.target {
                        Some(t) => {
                            let tp = match t {
                                TargetCgroup::ExplicitDir { path } => path.as_str(),
                                TargetCgroup::DerivedTemp { path } => path.as_str(),
                            };
                            let leaf = join_path(tp, "/leaf");
                            let leaf_action = String::from_str(leaf.as_str());
                            self.leaf = Some(leaf);
                            self.controller_enabled = true;
                            self.phase = Phase::AwaitLeaf;
                            Action::CreateLeaf { path: leaf_action }
                        },
                        None => Action::Idle,
                    }
                } else {
                    self.settle_exec(
                        Outcome::Fail { error: HarnessError::ProvisioningError, code: 1 },
                    )
                }
            },
            (Phase::AwaitLeaf, Event::LeafMade { ok }) => {
                if ok {
                    match &self.leaf {
                        Some(l) => {
                            let lp = String::from_str(l.as_str());
                            let argv = clone_strings(&self.args.command);
                            self.leaf_created = true;
                            self.phase = Phase::AwaitSpawn;
                            Action::Spawn { leaf_path: lp, argv }
                        },
                        None => Action::Idle,
                    }
                } else {
                    self.settle_exec(
                        Outcome::Fail { error: HarnessError::ProvisioningError, code: 1 },
                    )
                }
            },
            (Phase::AwaitSpawn, Event::SpawnResult { ok }) => {
                if ok {
                    self.spawned = true;
                    self.phase = Phase::AwaitReap;
                    Action::Wait
                } else {
                    self.settle_exec(Outcome::Fail { error: HarnessError::LaunchError, code: 1 })
                }
            },
            (Phase::AwaitReap, Event::Reaped { ok, info }) => {
                if ok {
                    match &self.leaf {
                        Some(l) => {
                            let pp = join_path(l.as_str(), "/memory.peak");
                            self.reap = Some(info);
                            self.phase = Phase::AwaitPeak;
                            Action::ReadPeak { path: pp }
                        },
                        None => Action::Idle,
                    }
                } else {
                    self.settle_exec(
                        Outcome::Fail { error: HarnessError::CollectionError, code: 1 },
                    )
                }
            },
            (Phase::AwaitPeak, Event::PeakRead { content }) => {
                match (content, self.reap) {
                    (Some(text), Some(info)) => {
                        match crate::scan::parse_peak_bytes(text.as_str()) {
                            Some(v) => {
                                let metrics = ChildProcessResult::from_wait(
                                    info.utime_sec,
                                    info.utime_usec,
                                    info.stime_sec,
                                    info.stime_usec,
                                    info.maxrss_kib,
                                    info.wall_ns,
                                    v,
                                );
                                let code = crate::metrics::harness_exit_code(info.status);
                                self.settle_exec(Outcome::Report { metrics, code })
                            },
                            None => self.settle_exec(
                                Outcome::Fail { error: HarnessError::CollectionError, code: 1 },
                            ),
                        }
                    },
                    (None, Some(_)) => self.settle_exec(
                        Outcome::Fail { error: HarnessError::CollectionError, code: 1 },
                    ),
                    _ => Action::Idle,
                }
            },
            (Phase::AwaitLeafRemoval, Event::LeafRemoved { ok: _ }) => {
                match (self.outcome, &self.target) {
                    (Some(oc), Some(TargetCgroup::DerivedTemp { path })) => {
                        if !self.temp_removed {
                            let tp = String::from_str(path.as_str());
                            self.leaf_removed = true;
                            self.phase = Phase::AwaitTempRemoval;
                            Action::RemoveTemp { path: tp }
                        } else {
                            self.leaf_removed = true;
                            self.phase = Phase::Finished;
                            match oc {
                                Outcome::Report { metrics, code } => Action::Report {
                                    metrics,
                                    code,
                                },
                                Outcome::Fail { error, code } => Action::Fail { error, code },
                            }
                        }
                    },
                    (Some(oc), _) => {
                        self.leaf_removed = true;
                        self.phase = Phase::Finished;
                        match oc {
                            Outcome::Report { metrics, code } => Action::Report { metrics, code },
                            Outcome::Fail { error, code } => Action::Fail { error, code },
                        }
                    },
                    _ => Action::Idle,
                }
            },
            (Phase::AwaitTempRemoval, Event::TempRemoved { ok: _ }) => {
                match self.outcome {
                    Some(oc) => {
                        self.temp_removed = true;
                        self.phase = Phase::Finished;
                        match oc {
                            Outcome::Report { metrics, code } => Action::Report { metrics, code },
                            Outcome::Fail { error, code } => Action::Fail { error, code },
                        }
                    },
                    None => Action::Idle,
                }
            },
            _ => Action::Idle,
        }
    }
}

/// The argument list handed to the session-manager helper for the re-launch:
/// it runs the same program again with the fallback disabled, forwarding all
/// other original arguments verbatim.
pub fn reexec_args(argv: &Vec<String>) -> (r: Vec<String>)
    requires
        argv@.len() >= 1,
    ensures
        r.deep_view() == seq![
            "--user"@,
            "--scope"@,
            "--quiet"@,
            argv.deep_view()[0],
            "-Z"@,
        ] + argv.deep_view().subrange(1, argv.deep_view().len() as int),
{
    let mut r: Vec<String> = Vec::new();
    r.push(String::from_str("--user"));
    r.push(String::from_str("--scope"));
    r.push(String::from_str("--quiet"));
    r.push(String::from_str(argv[0].as_str()));
    r.push(String::from_str("-Z"));
    let n = argv.len();
    let mut i: usize = 1;
    while i < n
        invariant
            n == argv.len(),
            1 <= i <= n,
            r.len() == 4 + i,
            r.deep_view()[0] == "--user"@,
            r.deep_view()[1] == "--scope"@,
            r.deep_view()[2] == "--quiet"@,
            r.deep_view()[3] == argv.deep_view()[0],
            r.deep_view()[4] == "-Z"@,
            forall|j: int| 1 <= j < i ==> r.deep_view()[4 + j] == argv.deep_view()[j],
        decreases n - i,
    {
        r.push(String::from_str(argv[i].as_str()));
        i = i + 1;
    }
    proof {
        assert(r.deep_view() =~= seq![
            "--user"@,
            "--scope"@,
            "--quiet"@,
            argv.deep_view()[0],
            "-Z"@,
        ] + argv.deep_view().subrange(1, argv.deep_view().len() as int));
    }
    r
}

/// One step keeps the state invariant.
pub proof fn lemma_inv_preserved(pre: HarnessModel, e: EventModel)
    requires
        pre.inv(),
    ensures
        next(pre, e).0.inv(),
{
}

/// Provisioning order: a step asks for the leaf only after the
/// controller-enable write succeeded, asks for the child only after the leaf
/// was created, and never records either out of that order.
pub proof fn lemma_provisioning_order(pre: HarnessModel, e: EventModel)
    requires
        pre.inv(),
    ensures
        ({
            let (post, a) = next(pre, e);
            &&& (a matches ActionModel::CreateLeaf { .. }) ==> (post.controller_enabled
                && !pre.leaf_created && e == EventModel::ControllerEnabled { ok: true })
            &&& (a matches ActionModel::Spawn { .. }) ==> (post.leaf_created
                && post.controller_enabled && !pre.spawned && e == EventModel::LeafMade {
                ok: true,
            })
            &&& (a matches ActionModel::EnableController { .. }) ==> (!post.leaf_created
                && !post.spawned)
            &&& (post.leaf_created && !pre.leaf_created) ==> pre.controller_enabled
            &&& (post.spawned && !pre.spawned) ==> pre.leaf_created
        }),
{
}

/// An explicit target directory is never created, removed, or replaced by an
/// ephemeral one: every directory a step creates or removes lies strictly
/// below it.
pub proof fn lemma_explicit_target_untouched(pre: HarnessModel, e: EventModel, d: Seq<char>)
    requires
        pre.inv(),
        pre.args.cg_dir == Some(d),
    ensures
        ({
            let (post, a) = next(pre, e);
            &&& !(a matches ActionModel::MakeTempDir { .. })
            &&& !(a matches ActionModel::RemoveTemp { .. })
            &&& (a matches ActionModel::CreateLeaf { path } ==> path == leaf_path_of(d) && path
                != d)
            &&& (a matches ActionModel::RemoveLeaf { path } ==> path == leaf_path_of(d) && path
                != d)
        }),
{
    reveal_strlit("/leaf");
    assert(leaf_path_of(d).len() == d.len() + 5);
}

/// The leaf exists, unremoved, for as long as the child can run, and the
/// final report or diagnostic is handed out only once everything the run
/// created is released again.
pub proof fn lemma_leaf_lifetime(pre: HarnessModel, e: EventModel)
    requires
        pre.inv(),
    ensures
        (pre.phase is AwaitReap || pre.phase is AwaitPeak) ==> (pre.leaf_created
            && !pre.leaf_removed),
        ({
            let (post, a) = next(pre, e);
            ((a matches ActionModel::Report { .. }) || (a matches ActionModel::Fail { .. }))
                ==> (post.phase is Finished && post.released())
        }),
{
}

/// A child that could not start terminates with the distinguished status,
/// and the harness's own final status repeats it.
pub proof fn lemma_failed_start_code(pre: HarnessModel, info: ReapInfo, text: Seq<char>)
    requires
        pre.inv(),
        pre.phase is AwaitPeak,
        pre.reap == Some(info),
        crate::scan::parse_peak_spec(text) is Some,
        crate::metrics::wait_exited(info.status),
        crate::metrics::wait_exit_code(info.status) == 127,
    ensures
        ({
            let (post, a) = next(pre, EventModel::PeakRead { content: Some(text) });
            &&& post.outcome matches Some(Outcome::Report { code, .. }) && code == 127
            &&& post.phase is AwaitLeafRemoval
        }),
{
}

/// An explicit target that does not exist, or is no directory, ends the run
/// with a configuration error before any directory or process is created.
pub proof fn lemma_invalid_explicit_dir(pre: HarnessModel, exists: bool, is_dir: bool)
    requires
        pre.inv(),
        pre.phase is AwaitExplicitStat,
        !(exists && is_dir),
    ensures
        ({
            let (post, a) = next(pre, EventModel::ExplicitStat { exists, is_dir });
            &&& a matches ActionModel::Fail { error, code } && error
                is ConfigurationError && code != 0
            &&& post.phase is Finished
            &&& pre.untouched()
            &&& !post.leaf_created && !post.spawned && post.target is None
        }),
{
}

/// With no explicit target, no usable session scope and the fallback
/// disabled, the run ends with the distinguished status and no process was
/// ever created.
pub proof fn lemma_fallback_disabled(pre: HarnessModel, record: Seq<char>)
    requires
        pre.inv(),
        pre.phase is AwaitSelfCgroup,
        pre.args.disable_systemd_run,
        crate::scan::session_scope_spec(record) is None,
    ensures
        ({
            let (post, a) = next(pre, EventModel::SelfCgroup { record: Some(record) });
            &&& a matches ActionModel::Fail { error, code } && error is LocatorError && code
                == 119
            &&& post.phase is Finished
            &&& !pre.spawned && !post.spawned
            &&& !post.leaf_created && post.target is None
        }),
{
}

/// Once the final action is handed out, the harness asks for nothing more:
/// in particular nothing it removed is ever recreated.
pub proof fn lemma_finished_is_final(pre: HarnessModel, e: EventModel)
    requires
        pre.inv(),
        pre.phase is Finished,
    ensures
        next(pre, e) == (pre, ActionModel::Idle),
        pre.released(),
{
}

/// The state a fresh harness reaches after consuming `events` one step at a
/// time.
pub open spec fn run(h0: HarnessModel, events: Seq<EventModel>) -> HarnessModel
    decreases events.len(),
{
    if events.len() == 0 {
        h0
    } else {
        next(run(h0, events.drop_last()), events.last()).0
    }
}

/// The state invariant holds along every run, whatever the outside world
/// reports: in particular the provisioning order and the leaf's lifetime are
/// never violated, even under induced failures.
pub proof fn lemma_run_inv(h0: HarnessModel, events: Seq<EventModel>)
    requires
        h0.inv(),
    ensures
        run(h0, events).inv(),
    decreases events.len(),
{
    if events.len() > 0 {
        lemma_run_inv(h0, events.drop_last());
        lemma_inv_preserved(run(h0, events.drop_last()), events.last());
    }
}

} // verus!
