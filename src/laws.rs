use crate::manager::{
    core_wf, healed, pid_of, started, stop_action_for, stopped, terminated, with_child, with_mode,
    CoreView, StopAction,
};
use crate::mode::RunningMode;
use crate::planner::ServiceStatus;
use vstd::prelude::*;

verus! {

/// One lifecycle call of the orchestrator, with what the outside world
/// answered to it.
pub enum LifecycleOp {
    /// A start attempt, with the service status it saw.
    Start(ServiceStatus),
    /// A child process was spawned for a start attempt.
    Spawned(u32),
    /// The service reported the engine started.
    ServiceStarted,
    Stop,
    /// A stop, then a start attempt that saw the given service status.
    Restart(ServiceStatus),
    /// The owned process ended on its own.
    Terminated,
}

pub open spec fn apply_op(v: CoreView, op: LifecycleOp) -> CoreView {
    match op {
        LifecycleOp::Start(status) => started(v, status),
        LifecycleOp::Spawned(pid) => with_child(v, pid),
        LifecycleOp::ServiceStarted => with_mode(v, RunningMode::Service),
        LifecycleOp::Stop => stopped(v),
        LifecycleOp::Restart(status) => started(stopped(v), status),
        LifecycleOp::Terminated => terminated(v),
    }
}

pub open spec fn apply_ops(v: CoreView, ops: Seq<LifecycleOp>) -> CoreView
    decreases ops.len(),
{
    if ops.len() == 0 {
        v
    } else {
        apply_ops(apply_op(v, ops[0]), ops.drop_first())
    }
}

/// After any sequence of lifecycle calls the state is whole: the mode is one
/// of the three modes, and a child process is owned only in child-process mode.
pub proof fn lemma_lifecycle_keeps_state_whole(v: CoreView, ops: Seq<LifecycleOp>)
    requires
        core_wf(v),
    ensures
        core_wf(apply_ops(v, ops)),
        apply_ops(v, ops).mode == RunningMode::Service || apply_ops(v, ops).mode
            == RunningMode::Sidecar || apply_ops(v, ops).mode == RunningMode::NotRunning,
    decreases ops.len(),
{
    if ops.len() > 0 {
        lemma_lifecycle_keeps_state_whole(apply_op(v, ops[0]), ops.drop_first());
    }
}

/// Stopping with nothing running changes nothing and asks for nothing.
pub proof fn lemma_stop_when_idle(v: CoreView, a: StopAction)
    requires
        v.mode == RunningMode::NotRunning,
        stop_action_for(v, a),
    ensures
        stopped(v) == v,
        a is Nothing,
{
}

/// Reading the mode while `NotRunning` is recorded and the control socket
/// exists gives `Sidecar`, and the correction stays: a later read finds
/// `Sidecar` even without the socket.
pub proof fn lemma_self_healing(v: CoreView)
    requires
        core_wf(v),
        v.mode == RunningMode::NotRunning,
    ensures
        healed(v, true).mode == RunningMode::Sidecar,
        healed(v, true) == (CoreView { mode: RunningMode::Sidecar, ..v }),
        healed(healed(v, true), false) == healed(v, true),
{
}

/// A termination event leaves nothing running and an empty log buffer,
/// whatever the state before.
pub proof fn lemma_termination_resets(v: CoreView)
    ensures
        terminated(v).mode == RunningMode::NotRunning,
        terminated(v).child.is_none(),
        terminated(v).logs.len() == 0,
        core_wf(terminated(v)),
{
}

/// Two stops in a row end the owned child at most once: the first hands it
/// out, the second asks for nothing and cannot fail.
pub proof fn lemma_double_stop(v: CoreView, first: StopAction, second: StopAction)
    requires
        core_wf(v),
        stop_action_for(v, first),
        stop_action_for(stopped(v), second),
    ensures
        second is Nothing,
        stopped(stopped(v)) == stopped(v),
        v.child.is_some() ==> (first matches StopAction::EndSidecar(h) && pid_of(h) == v.child),
{
}

} // verus!
