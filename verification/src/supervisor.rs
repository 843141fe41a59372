//! The group state tracker and the supervisor's state machine.
//!
//! Each group-level operation is modelled as a function from the tracked
//! state and the outside world's answers (the process-table snapshot, which
//! kills failed, whether the spawn succeeded) to the next state, a reported
//! outcome, and the exact sequence of OS calls the operation issues.  The
//! interactive shell performs the calls; every decision is made here.

use vstd::prelude::*;
use crate::identify::{ProcessEntry, select_targets, spec_targets};
use crate::launch::{
    SpawnSpec, launch_plan, spec_command, spec_terminal_host_image, spec_title,
    terminal_host_image,
};

verus! {

/// Whether the supervisor believes the managed group is currently running.
///
/// The group starts out `Stopped` and transitions only through the explicit
/// supervisor operations; there is no transient in-between state.
#[derive(Clone, Copy, PartialEq, Eq, Structural, Debug)]
pub enum GroupState {
    Stopped,
    Running,
}

impl GroupState {
    /// The tracker's query: does the supervisor believe the group is up?
    pub fn is_running(&self) -> (r: bool)
        ensures
            r == (*self is Running),
    {
        match self {
            GroupState::Running => true,
            GroupState::Stopped => false,
        }
    }
}

/// The mathematical record of one OS call, at the level contracts speak of.
pub enum Call {
    Spawn { title: Seq<char>, command: Seq<char> },
    Enumerate,
    Kill { pid: u64 },
    KillImage { image: Seq<char> },
    Elevate { path: Seq<char> },
}

/// One OS call an operation issues: spawn a tagged member, take a snapshot of
/// the process table, force-kill one identifier, force-kill a process by its
/// image name, or request elevated execution of the client program.
#[derive(Clone, PartialEq, Debug)]
pub enum OsCall {
    Spawn { title: String, command: String },
    Enumerate,
    Kill { pid: u64 },
    KillImage { image: String },
    Elevate { path: String },
}

impl View for OsCall {
    type V = Call;

    open spec fn view(&self) -> Call {
        match self {
            OsCall::Spawn { title, command } => Call::Spawn {
                title: title@,
                command: command@,
            },
            OsCall::Enumerate => Call::Enumerate,
            OsCall::Kill { pid } => Call::Kill { pid: *pid },
            OsCall::KillImage { image } => Call::KillImage { image: image@ },
            OsCall::Elevate { path } => Call::Elevate { path: path@ },
        }
    }
}

/// The issued calls, as their mathematical records.
pub open spec fn calls_view(calls: Seq<OsCall>) -> Seq<Call> {
    calls.map_values(|c: OsCall| c@)
}

/// The members' names, as sequences of characters.
pub open spec fn names_view(names: Seq<String>) -> Seq<Seq<char>> {
    names.map_values(|s: String| s@)
}

/// What a start reports: freshly started, a notice that the group was already
/// up, or a failed spawn.
#[derive(Clone, Copy, PartialEq, Eq, Structural, Debug)]
pub enum StartOutcome {
    Started,
    AlreadyRunning,
    SpawnFailed,
}

/// The mathematical record of a stop's report.
pub enum StopReport {
    AlreadyStopped,
    StoppedAll,
    StoppedPartially { failed: Seq<u64> },
}

/// What a stop reports: a notice that the group was already down, every kill
/// succeeded, or the identifiers whose kill failed.
#[derive(Clone, PartialEq, Debug)]
pub enum StopOutcome {
    AlreadyStopped,
    StoppedAll,
    StoppedPartially { failed: Vec<u64> },
}

impl View for StopOutcome {
    type V = StopReport;

    open spec fn view(&self) -> StopReport {
        match self {
            StopOutcome::AlreadyStopped => StopReport::AlreadyStopped,
            StopOutcome::StoppedAll => StopReport::StoppedAll,
            StopOutcome::StoppedPartially { failed } => StopReport::StoppedPartially {
                failed: failed@,
            },
        }
    }
}

/// What the launch of the optional client program reports: started, the
/// elevation request failed, or the program was absent and skipped.
#[derive(Clone, Copy, PartialEq, Eq, Structural, Debug)]
pub enum ClientOutcome {
    Started,
    Failed,
    Absent,
}

/// The state after a start: running if it already was, or if the spawn
/// succeeded; an unsuccessful spawn leaves the group stopped.
pub open spec fn spec_start_state(state: GroupState, spawn_ok: bool) -> GroupState {
    if state is Running || spawn_ok {
        GroupState::Running
    } else {
        GroupState::Stopped
    }
}

/// What a start reports for each prior state and spawn result.
pub open spec fn spec_start_outcome(state: GroupState, spawn_ok: bool) -> StartOutcome {
    if state is Running {
        StartOutcome::AlreadyRunning
    } else if spawn_ok {
        StartOutcome::Started
    } else {
        StartOutcome::SpawnFailed
    }
}

/// The spawn calls of a launch: one tagged spawn per member, in group order.
pub open spec fn spec_spawn_calls(path: Seq<char>, release: bool, names: Seq<Seq<char>>) -> Seq<
    Call,
> {
    Seq::new(
        names.len(),
        |i: int| Call::Spawn {
            title: spec_title(names[i]),
            command: spec_command(path, release, names[i]),
        },
    )
}

/// The calls a start issues: none when the group is already running.
pub open spec fn spec_start_calls(
    state: GroupState,
    path: Seq<char>,
    release: bool,
    names: Seq<Seq<char>>,
) -> Seq<Call> {
    if state is Running {
        Seq::<Call>::empty()
    } else {
        spec_spawn_calls(path, release, names)
    }
}

/// One kill call per targeted identifier, in order.
pub open spec fn spec_kill_calls(targets: Seq<u64>) -> Seq<Call> {
    targets.map_values(|p: u64| Call::Kill { pid: p })
}

/// The calls a stop issues: none when the group is already stopped, else one
/// enumeration, one kill per target found in the snapshot, and — because the
/// members run as tabs of one terminal host — exactly one forced kill of
/// that host by its well-known image name.
pub open spec fn spec_stop_calls(
    state: GroupState,
    table: Seq<ProcessEntry>,
    pattern: Seq<char>,
) -> Seq<Call> {
    if state is Stopped {
        Seq::<Call>::empty()
    } else {
        seq![Call::Enumerate] + spec_kill_calls(spec_targets(table, pattern)) + seq![
            Call::KillImage { image: spec_terminal_host_image() },
        ]
    }
}

/// The targets whose kill failed, in target order.
pub open spec fn spec_failed(targets: Seq<u64>, fails: Seq<u64>) -> Seq<u64> {
    targets.filter(|p: u64| fails.contains(p))
}

/// What a stop reports for each prior state, snapshot and set of failed
/// kills.
pub open spec fn spec_stop_report(
    state: GroupState,
    table: Seq<ProcessEntry>,
    pattern: Seq<char>,
    fails: Seq<u64>,
) -> StopReport {
    if state is Stopped {
        StopReport::AlreadyStopped
    } else {
        let failed = spec_failed(spec_targets(table, pattern), fails);
        if failed.len() == 0 {
            StopReport::StoppedAll
        } else {
            StopReport::StoppedPartially { failed }
        }
    }
}

/// The result of one start operation.
pub struct StartRun {
    pub state: GroupState,
    pub outcome: StartOutcome,
    pub calls: Vec<OsCall>,
}

/// The result of one stop operation.
pub struct StopRun {
    pub state: GroupState,
    pub outcome: StopOutcome,
    pub calls: Vec<OsCall>,
}

/// Membership of one identifier in the failed-kill list.
fn pid_in(fails: &Vec<u64>, pid: u64) -> (r: bool)
    ensures
        r == fails@.contains(pid),
{
    let mut i: usize = 0;
    while i < fails.len()
        invariant
            0 <= i <= fails@.len(),
            forall|j: int| 0 <= j < i ==> fails@[j] != pid,
        decreases fails@.len() - i,
    {
        if fails[i] == pid {
            return true;
        }
        i = i + 1;
    }
    false
}

/// Starts the managed group: a no-op notice when it is already believed
/// running, otherwise one tagged spawn per member in group order.  The state
/// becomes `Running` only if the spawn succeeded; `spawn_ok` is the outside
/// world's answer to the issued spawns.
pub fn run_start(
    state: GroupState,
    project_path: &str,
    release: bool,
    names: &Vec<String>,
    spawn_ok: bool,
) -> (r: StartRun)
    ensures
        r.state == spec_start_state(state, spawn_ok),
        r.outcome == spec_start_outcome(state, spawn_ok),
        calls_view(r.calls@) == spec_start_calls(
            state,
            project_path@,
            release,
            names_view(names@),
        ),
{
    if state.is_running() {
        let r = StartRun {
            state: GroupState::Running,
            outcome: StartOutcome::AlreadyRunning,
            calls: Vec::new(),
        };
        proof {
            assert(calls_view(r.calls@) =~= Seq::<Call>::empty());
        }
        r
    } else {
        let plan = launch_plan(project_path, release, names);
        let mut calls: Vec<OsCall> = Vec::new();
        let mut i: usize = 0;
        while i < plan.len()
            invariant
                plan@.len() == names@.len(),
                forall|k: int|
                    0 <= k < names@.len() ==> plan@[k].title@ == spec_title(names@[k]@)
                        && plan@[k].command@ == spec_command(project_path@, release, names@[k]@),
                0 <= i <= plan@.len(),
                calls@.len() == i,
                forall|k: int|
                    0 <= k < i ==> calls@[k]@ == (Call::Spawn {
                        title: spec_title(names@[k]@),
                        command: spec_command(project_path@, release, names@[k]@),
                    }),
            decreases plan@.len() - i,
        {
            calls.push(
                OsCall::Spawn { title: plan[i].title.clone(), command: plan[i].command.clone() },
            );
            i = i + 1;
        }
        let r = StartRun {
            state: if spawn_ok {
                GroupState::Running
            } else {
                GroupState::Stopped
            },
            outcome: if spawn_ok {
                StartOutcome::Started
            } else {
                StartOutcome::SpawnFailed
            },
            calls,
        };
        proof {
            assert(calls_view(r.calls@) =~= spec_spawn_calls(
                project_path@,
                release,
                names_view(names@),
            ));
        }
        r
    }
}

/// Stops the managed group: a no-op notice when it is already believed
/// stopped, otherwise one snapshot of the process table, one forced kill per
/// identifier the strategy selects, and one forced kill of the terminal host
/// by its well-known image name, since the members run as its tabs.  The
/// state is reconciled to `Stopped` whatever the individual kills returned;
/// `kill_fails` is the outside world's answer, the identifiers whose kill
/// failed.
pub fn run_stop(
    state: GroupState,
    table: &Vec<ProcessEntry>,
    pattern: &str,
    kill_fails: &Vec<u64>,
) -> (r: StopRun)
    ensures
        r.state is Stopped,
        r.outcome@ == spec_stop_report(state, table@, pattern@, kill_fails@),
        calls_view(r.calls@) == spec_stop_calls(state, table@, pattern@),
{
    if !state.is_running() {
        let r = StopRun {
            state: GroupState::Stopped,
            outcome: StopOutcome::AlreadyStopped,
            calls: Vec::new(),
        };
        proof {
            assert(calls_view(r.calls@) =~= Seq::<Call>::empty());
        }
        r
    } else {
        let targets = select_targets(table, pattern);
        let mut calls: Vec<OsCall> = Vec::new();
        calls.push(OsCall::Enumerate);
        let mut failed: Vec<u64> = Vec::new();
        let mut i: usize = 0;
        while i < targets.len()
            invariant
                targets@ == spec_targets(table@, pattern@),
                0 <= i <= targets@.len(),
                calls@.len() == 1 + i,
                calls@[0] is Enumerate,
                forall|k: int| 0 <= k < i ==> calls@[k + 1]@ == (Call::Kill { pid: targets@[k] }),
                failed@ == spec_failed(targets@.take(i as int), kill_fails@),
            decreases targets@.len() - i,
        {
            let ghost prev = targets@.take(i as int);
            calls.push(OsCall::Kill { pid: targets[i] });
            if pid_in(kill_fails, targets[i]) {
                failed.push(targets[i]);
            }
            proof {
                assert(targets@.take(i + 1).drop_last() =~= prev);
                assert(targets@.take(i + 1).last() == targets@[i as int]);
                reveal(Seq::filter);
            }
            i = i + 1;
        }
        calls.push(OsCall::KillImage { image: terminal_host_image() });
        proof {
            assert(targets@.take(targets@.len() as int) =~= targets@);
            assert(calls_view(calls@) =~= seq![Call::Enumerate] + spec_kill_calls(targets@)
                + seq![Call::KillImage { image: spec_terminal_host_image() }]);
        }
        let outcome = if failed.len() == 0 {
            StopOutcome::StoppedAll
        } else {
            StopOutcome::StoppedPartially { failed }
        };
        StopRun { state: GroupState::Stopped, outcome, calls }
    }
}

/// The calls a restart issues: the stop sequence from the prior state,
/// followed by the start sequence from the stopped state.
pub open spec fn spec_restart_calls(
    state: GroupState,
    table: Seq<ProcessEntry>,
    pattern: Seq<char>,
    path: Seq<char>,
    release: bool,
    names: Seq<Seq<char>>,
) -> Seq<Call> {
    spec_stop_calls(state, table, pattern) + spec_start_calls(
        GroupState::Stopped,
        path,
        release,
        names,
    )
}

/// The result of one restart operation.
pub struct RestartRun {
    pub state: GroupState,
    pub stop_outcome: StopOutcome,
    pub start_outcome: StartOutcome,
    pub calls: Vec<OsCall>,
}

/// Restarts the managed group: unconditionally one stop followed, from the
/// stopped state, by one start — so the start is never a no-op, whatever the
/// prior state was.
pub fn run_restart(
    state: GroupState,
    project_path: &str,
    release: bool,
    names: &Vec<String>,
    table: &Vec<ProcessEntry>,
    pattern: &str,
    kill_fails: &Vec<u64>,
    spawn_ok: bool,
) -> (r: RestartRun)
    ensures
        r.state == spec_start_state(GroupState::Stopped, spawn_ok),
        r.stop_outcome@ == spec_stop_report(state, table@, pattern@, kill_fails@),
        r.start_outcome == spec_start_outcome(GroupState::Stopped, spawn_ok),
        calls_view(r.calls@) == spec_restart_calls(
            state,
            table@,
            pattern@,
            project_path@,
            release,
            names_view(names@),
        ),
{
    let stop = run_stop(state, table, pattern, kill_fails);
    let mut start = run_start(stop.state, project_path, release, names, spawn_ok);
    let mut calls = stop.calls;
    calls.append(&mut start.calls);
    proof {
        assert(calls_view(calls@) =~= spec_stop_calls(state, table@, pattern@)
            + spec_start_calls(
            GroupState::Stopped,
            project_path@,
            release,
            names_view(names@),
        ));
    }
    RestartRun {
        state: start.state,
        stop_outcome: stop.outcome,
        start_outcome: start.outcome,
        calls,
    }
}

/// The state after the shutdown operation: stopped when the group was
/// running and the caller confirmed stopping it, unchanged otherwise.
pub open spec fn spec_exit_state(state: GroupState, confirm_stop: bool) -> GroupState {
    if state is Running && confirm_stop {
        GroupState::Stopped
    } else {
        state
    }
}

/// The result of one shutdown operation.
pub struct ExitRun {
    pub state: GroupState,
    pub outcome: Option<StopOutcome>,
    pub calls: Vec<OsCall>,
}

/// Shuts the supervisor down: when the group is believed running and the
/// caller confirmed, performs one stop; otherwise touches nothing.  In all
/// cases the supervisor itself is then ready to terminate.
pub fn run_exit(
    state: GroupState,
    confirm_stop: bool,
    table: &Vec<ProcessEntry>,
    pattern: &str,
    kill_fails: &Vec<u64>,
) -> (r: ExitRun)
    ensures
        r.state == spec_exit_state(state, confirm_stop),
        state is Running && confirm_stop ==> (r.outcome matches Some(o) && o@
            == spec_stop_report(state, table@, pattern@, kill_fails@) && calls_view(r.calls@)
            == spec_stop_calls(state, table@, pattern@)),
        !(state is Running && confirm_stop) ==> r.outcome is None && calls_view(r.calls@)
            == Seq::<Call>::empty(),
{
    if state.is_running() && confirm_stop {
        let stop = run_stop(state, table, pattern, kill_fails);
        ExitRun { state: stop.state, outcome: Some(stop.outcome), calls: stop.calls }
    } else {
        let r = ExitRun { state, outcome: None, calls: Vec::new() };
        proof {
            assert(calls_view(r.calls@) =~= Seq::<Call>::empty());
        }
        r
    }
}

/// The result of one start-and-launch-client operation.
pub struct LaunchClientRun {
    pub state: GroupState,
    pub start_outcome: StartOutcome,
    pub client_outcome: ClientOutcome,
    pub calls: Vec<OsCall>,
}

/// Starts the managed group (a no-op notice when already running), then, only
/// if the client program is present, issues one elevation request for it.  An
/// absent client program is skipped with a notice, not an error, and the
/// client's fate never changes the group state.
pub fn run_start_and_launch(
    state: GroupState,
    project_path: &str,
    release: bool,
    names: &Vec<String>,
    spawn_ok: bool,
    client_path: &Option<String>,
    elevation_ok: bool,
) -> (r: LaunchClientRun)
    ensures
        r.state == spec_start_state(state, spawn_ok),
        r.start_outcome == spec_start_outcome(state, spawn_ok),
        client_path is None ==> r.client_outcome == ClientOutcome::Absent && calls_view(r.calls@)
            == spec_start_calls(state, project_path@, release, names_view(names@)),
        client_path matches Some(p) ==> r.client_outcome == (if elevation_ok {
            ClientOutcome::Started
        } else {
            ClientOutcome::Failed
        }) && calls_view(r.calls@) == spec_start_calls(
            state,
            project_path@,
            release,
            names_view(names@),
        ) + seq![Call::Elevate { path: p@ }],
{
    let start = run_start(state, project_path, release, names, spawn_ok);
    let mut calls = start.calls;
    let ghost start_calls = spec_start_calls(state, project_path@, release, names_view(names@));
    match client_path {
        None => LaunchClientRun {
            state: start.state,
            start_outcome: start.outcome,
            client_outcome: ClientOutcome::Absent,
            calls,
        },
        Some(p) => {
            calls.push(OsCall::Elevate { path: p.clone() });
            proof {
                assert(calls_view(calls@) =~= start_calls + seq![Call::Elevate { path: p@ }]);
            }
            LaunchClientRun {
                state: start.state,
                start_outcome: start.outcome,
                client_outcome: if elevation_ok {
                    ClientOutcome::Started
                } else {
                    ClientOutcome::Failed
                },
                calls,
            }
        },
    }
}

/// The state after a start, for the interactive shell: it reports whether its
/// spawn succeeded and receives the reconciled state back.
pub fn start_finish(state: GroupState, spawn_ok: bool) -> (r: GroupState)
    ensures
        r == spec_start_state(state, spawn_ok),
{
    if state.is_running() || spawn_ok {
        GroupState::Running
    } else {
        GroupState::Stopped
    }
}

/// Whether the shutdown operation should stop the group: only when it is
/// believed running and the caller confirmed.
pub fn exit_should_stop(state: GroupState, confirm_stop: bool) -> (r: bool)
    ensures
        r == (state is Running && confirm_stop),
{
    state.is_running() && confirm_stop
}

} // verus!
