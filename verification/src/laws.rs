//! The supervisor's guarantees, stated and proved over the state machine:
//! reconciliation after stop and start, idempotence of the no-op cases, and
//! the shape of a restart's call sequence.

use vstd::prelude::*;
use crate::identify::ProcessEntry;
use crate::supervisor::{
    Call, GroupState, StartOutcome, StopReport, spec_exit_state, spec_restart_calls,
    spec_spawn_calls, spec_start_calls, spec_start_outcome, spec_start_state, spec_stop_calls,
    spec_stop_report,
};

verus! {

/// One supervisor operation together with the outside world's answer to it:
/// whether the spawn it may issue succeeded, and whether the caller confirmed
/// stopping on shutdown.
pub enum Operation {
    Start { spawn_ok: bool },
    Stop,
    Restart { spawn_ok: bool },
    Exit { confirm_stop: bool },
    StartAndLaunch { spawn_ok: bool },
}

/// The tracked state after one operation.
pub open spec fn apply_op(state: GroupState, op: Operation) -> GroupState {
    match op {
        Operation::Start { spawn_ok } => spec_start_state(state, spawn_ok),
        Operation::Stop => GroupState::Stopped,
        Operation::Restart { spawn_ok } => spec_start_state(GroupState::Stopped, spawn_ok),
        Operation::Exit { confirm_stop } => spec_exit_state(state, confirm_stop),
        Operation::StartAndLaunch { spawn_ok } => spec_start_state(state, spawn_ok),
    }
}

/// The tracked state after a whole sequence of operations.
pub open spec fn apply_ops(state: GroupState, ops: Seq<Operation>) -> GroupState
    decreases ops.len(),
{
    if ops.len() == 0 {
        state
    } else {
        apply_op(apply_ops(state, ops.drop_last()), ops.last())
    }
}

/// After any sequence of operations whose last one is a stop, the tracked
/// state is `Stopped`: no operation leaves the state partially applied.
pub proof fn lemma_after_stop_always_stopped(init: GroupState, ops: Seq<Operation>)
    requires
        ops.len() > 0,
        ops.last() is Stop,
    ensures
        apply_ops(init, ops) is Stopped,
{
}

/// After any sequence of operations whose last one is a successful start —
/// plain, as part of a restart, or with the client launch — the tracked
/// state is `Running`.
pub proof fn lemma_after_successful_start_running(init: GroupState, ops: Seq<Operation>)
    requires
        ops.len() > 0,
        ops.last() == (Operation::Start { spawn_ok: true }) || ops.last() == (Operation::Restart {
            spawn_ok: true,
        }) || ops.last() == (Operation::StartAndLaunch { spawn_ok: true }),
    ensures
        apply_ops(init, ops) is Running,
{
}

/// Stopping an already stopped group is a pure notice: it issues no OS call
/// at all — no enumeration, no kill, no host kill — whatever the process
/// table holds, and reports `AlreadyStopped`.
pub proof fn lemma_stop_when_stopped_is_silent(
    table: Seq<ProcessEntry>,
    pattern: Seq<char>,
    fails: Seq<u64>,
)
    ensures
        spec_stop_calls(GroupState::Stopped, table, pattern) == Seq::<Call>::empty(),
        spec_stop_report(GroupState::Stopped, table, pattern, fails) is AlreadyStopped,
{
}

/// Starting an already running group is a pure notice: it issues no spawn,
/// leaves the state `Running`, and reports `AlreadyRunning`.
pub proof fn lemma_start_when_running_is_silent(
    path: Seq<char>,
    release: bool,
    names: Seq<Seq<char>>,
    spawn_ok: bool,
)
    ensures
        spec_start_calls(GroupState::Running, path, release, names) == Seq::<Call>::empty(),
        spec_start_state(GroupState::Running, spawn_ok) is Running,
        spec_start_outcome(GroupState::Running, spawn_ok) == StartOutcome::AlreadyRunning,
{
}

/// A restart's call sequence is exactly one stop sequence followed by exactly
/// one start sequence, whatever the prior state — and the start half is the
/// full spawn sequence, one spawn per member, so it is never the silent
/// no-op.
pub proof fn lemma_restart_is_stop_then_start(
    state: GroupState,
    table: Seq<ProcessEntry>,
    pattern: Seq<char>,
    path: Seq<char>,
    release: bool,
    names: Seq<Seq<char>>,
)
    ensures
        spec_restart_calls(state, table, pattern, path, release, names) == spec_stop_calls(
            state,
            table,
            pattern,
        ) + spec_spawn_calls(path, release, names),
        spec_spawn_calls(path, release, names).len() == names.len(),
{
}

} // verus!
