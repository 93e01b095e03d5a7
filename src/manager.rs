use crate::logs::{LogBuffer, LOG_CAPACITY};
use crate::mode::RunningMode;
use crate::planner::{decide_mode, mode_for_status, ServiceStatus};
use vstd::prelude::*;

verus! {

/// Exclusive ownership of one live engine process, named by its process id.
/// It is moved, never copied, so at most one holder can end the process.
#[derive(Debug)]
pub struct ChildHandle {
    pub pid: u32,
}

/// The process id held by an optional handle.
pub open spec fn pid_of(h: Option<ChildHandle>) -> Option<u32> {
    match h {
        Some(c) => Some(c.pid),
        None => None,
    }
}

/// A snapshot of the orchestrator's state, as plain values.
pub struct CoreView {
    pub mode: RunningMode,
    pub child: Option<u32>,
    pub last_update: Option<u64>,
    pub logs: Seq<Seq<char>>,
}

/// A child process is owned only while the engine runs as a child process,
/// and the log buffer stays within its bound.
pub open spec fn core_wf(v: CoreView) -> bool {
    &&& v.child.is_some() ==> v.mode == RunningMode::Sidecar
    &&& v.logs.len() <= LOG_CAPACITY
}

pub open spec fn initial_core() -> CoreView {
    CoreView {
        mode: RunningMode::NotRunning,
        child: None,
        last_update: None,
        logs: Seq::empty(),
    }
}

/// The state after the mode becomes `m`: leaving the child-process mode
/// gives up the owned child.
pub open spec fn with_mode(v: CoreView, m: RunningMode) -> CoreView {
    CoreView {
        mode: m,
        child: if m == RunningMode::Sidecar {
            v.child
        } else {
            None
        },
        ..v
    }
}

/// The child that changing the mode to `m` gives up.
pub open spec fn released_by_mode(v: CoreView, m: RunningMode) -> Option<u32> {
    if m == RunningMode::Sidecar {
        None
    } else {
        v.child
    }
}

/// The state after a freshly spawned child with process id `pid` is installed.
pub open spec fn with_child(v: CoreView, pid: u32) -> CoreView {
    CoreView { mode: RunningMode::Sidecar, child: Some(pid), ..v }
}

/// The state after a start attempt has chosen its mode.
pub open spec fn started(v: CoreView, status: ServiceStatus) -> CoreView {
    with_mode(v, mode_for_status(status))
}

/// The state after a stop: nothing runs, no child is owned and the log
/// buffer is empty. A stop with nothing running changes nothing.
pub open spec fn stopped(v: CoreView) -> CoreView {
    if v.mode == RunningMode::NotRunning {
        v
    } else {
        CoreView { mode: RunningMode::NotRunning, child: None, logs: Seq::empty(), ..v }
    }
}

/// The state after the owned engine process reported its own termination,
/// whatever the mode was.
pub open spec fn terminated(v: CoreView) -> CoreView {
    CoreView { mode: RunningMode::NotRunning, child: None, logs: Seq::empty(), ..v }
}

/// The state after reading the mode while the control socket's existence is
/// `socket_exists`: a recorded `NotRunning` beside an existing socket is
/// corrected to `Sidecar`.
pub open spec fn healed(v: CoreView, socket_exists: bool) -> CoreView {
    if v.mode == RunningMode::NotRunning && socket_exists {
        with_mode(v, RunningMode::Sidecar)
    } else {
        v
    }
}

/// Where a start attempt sends the engine.
#[derive(Debug, Clone, Copy, PartialEq, Eq, Structural)]
pub enum StartRoute {
    /// Ask the privileged service to run the engine.
    ByService,
    /// Spawn the engine as a child process.
    BySidecar,
}

pub open spec fn route_for(m: RunningMode) -> StartRoute {
    if m == RunningMode::Service {
        StartRoute::ByService
    } else {
        StartRoute::BySidecar
    }
}

/// What a start attempt asks the runtime to do.
#[derive(Debug)]
pub struct StartPlan {
    pub route: StartRoute,
    /// A child that the chosen mode no longer owns, to be ended.
    pub released: Option<ChildHandle>,
}

/// What a stop asks the runtime to do. The state is already final when it
/// is handed out, whatever the action then reports.
#[derive(Debug)]
pub enum StopAction {
    /// Nothing was running.
    Nothing,
    /// Ask the privileged service to stop the engine.
    StopService,
    /// End the child process, if one was still owned.
    EndSidecar(Option<ChildHandle>),
}

/// The action a stop from state `v` hands out, with the child as a process id.
pub open spec fn stop_action_for(v: CoreView, a: StopAction) -> bool {
    match v.mode {
        RunningMode::NotRunning => a is Nothing,
        RunningMode::Service => a is StopService,
        RunningMode::Sidecar => match a {
            StopAction::EndSidecar(h) => pid_of(h) == v.child,
            _ => false,
        },
    }
}

/// Where the engine's recent log lines come from in the current mode.
#[derive(Debug)]
pub enum ClashLogs {
    /// The service keeps them: ask it.
    FromService,
    /// These lines, oldest first.
    Lines(Vec<String>),
}

/// The orchestrator's state: the running mode, the owned child process, the
/// time of the last applied configuration and the recent log lines.
pub struct CoreManager {
    running_mode: RunningMode,
    child_sidecar: Option<ChildHandle>,
    last_update: Option<u64>,
    logs: LogBuffer,
}

impl Default for CoreManager {
    fn default() -> (r: CoreManager)
        ensures
            r@ == initial_core(),
    {
        CoreManager::new()
    }
}

impl View for CoreManager {
    type V = CoreView;

    closed spec fn view(&self) -> CoreView {
        CoreView {
            mode: self.running_mode,
            child: pid_of(self.child_sidecar),
            last_update: self.last_update,
            logs: self.logs@,
        }
    }
}

impl CoreManager {
    #[verifier::type_invariant]
    closed spec fn owns_child_only_as_sidecar(self) -> bool {
        self.child_sidecar.is_some() ==> self.running_mode == RunningMode::Sidecar
    }

    /// A fresh orchestrator: nothing runs.
    pub fn new() -> (r: CoreManager)
        ensures
            r@ == initial_core(),
    {
        CoreManager {
            running_mode: RunningMode::NotRunning,
            child_sidecar: None,
            last_update: None,
            logs: LogBuffer::new(),
        }
    }

    /// The current mode. Reading it also shows that the state is well formed.
    pub fn get_running_mode(&self) -> (r: RunningMode)
        ensures
            r == self@.mode,
            core_wf(self@),
    {
        proof {
            use_type_invariant(self);
        }
        // the buffer states its bound through its length
        let _ = self.logs.len();
        self.running_mode
    }

    /// The process id of the owned child, if any.
    pub fn child_pid(&self) -> (r: Option<u32>)
        ensures
            r == self@.child,
    {
        match &self.child_sidecar {
            Some(c) => Some(c.pid),
            None => None,
        }
    }

    /// Hands out the owned child, leaving none: of two callers, only the
    /// first receives it.
    pub fn take_child_sidecar(&mut self) -> (r: Option<ChildHandle>)
        ensures
            pid_of(r) == old(self)@.child,
            final(self)@ == (CoreView { child: None, ..old(self)@ }),
    {
        proof {
            use_type_invariant(&*self);
        }
        self.take_child()
    }

    pub fn get_last_update(&self) -> (r: Option<u64>)
        ensures
            r == self@.last_update,
    {
        self.last_update
    }

    /// Records when a configuration was last applied.
    pub fn set_last_update(&mut self, time: u64)
        ensures
            final(self)@ == (CoreView { last_update: Some(time), ..old(self)@ }),
    {
        proof {
            use_type_invariant(&*self);
        }
        self.last_update = Some(time);
    }

    /// Sets the mode. Leaving the child-process mode gives up the owned
    /// child, which is handed back to be ended.
    pub fn set_running_mode(&mut self, mode: RunningMode) -> (r: Option<ChildHandle>)
        ensures
            final(self)@ == with_mode(old(self)@, mode),
            pid_of(r) == released_by_mode(old(self)@, mode),
    {
        proof {
            use_type_invariant(&*self);
        }
        let released = if mode == RunningMode::Sidecar {
            None
        } else {
            self.take_child()
        };
        self.running_mode = mode;
        released
    }

    /// Installs a freshly spawned child and sets the mode to `Sidecar` in one
    /// step. A child owned before is handed back to be ended.
    pub fn set_running_child_sidecar(&mut self, child: ChildHandle) -> (r: Option<ChildHandle>)
        ensures
            final(self)@ == with_child(old(self)@, child.pid),
            pid_of(r) == old(self)@.child,
    {
        proof {
            use_type_invariant(&*self);
        }
        let previous = self.take_child();
        self.running_mode = RunningMode::Sidecar;
        self.child_sidecar = Some(child);
        previous
    }

    /// Begins a start attempt: decides the mode from the service's status,
    /// records it, and says where to send the engine.
    pub fn start_core(&mut self, status: ServiceStatus) -> (r: StartPlan)
        ensures
            final(self)@ == started(old(self)@, status),
            r.route == route_for(mode_for_status(status)),
            pid_of(r.released) == released_by_mode(old(self)@, mode_for_status(status)),
    {
        proof {
            use_type_invariant(&*self);
        }
        let mode = decide_mode(status);
        let released = self.set_running_mode(mode);
        let route = match mode {
            RunningMode::Service => StartRoute::ByService,
            _ => StartRoute::BySidecar,
        };
        StartPlan { route, released }
    }

    /// Stops whatever runs. The state becomes final here, before the runtime
    /// carries out the returned action, so it holds even when that action fails.
    pub fn stop_core(&mut self) -> (r: StopAction)
        ensures
            final(self)@ == stopped(old(self)@),
            stop_action_for(old(self)@, r),
    {
        proof {
            use_type_invariant(&*self);
        }
        match self.running_mode {
            RunningMode::NotRunning => StopAction::Nothing,
            RunningMode::Service => {
                self.finish_stop();
                StopAction::StopService
            },
            RunningMode::Sidecar => {
                let child = self.take_child();
                self.finish_stop();
                StopAction::EndSidecar(child)
            },
        }
    }

    fn take_child(&mut self) -> (r: Option<ChildHandle>)
        ensures
            pid_of(r) == old(self)@.child,
            final(self)@ == (CoreView { child: None, ..old(self)@ }),
    {
        proof {
            use_type_invariant(&*self);
        }
        let mut child: Option<ChildHandle> = None;
        std::mem::swap(&mut child, &mut self.child_sidecar);
        child
    }

    fn finish_stop(&mut self)
        requires
            old(self)@.child.is_none(),
        ensures
            final(self)@ == (CoreView {
                mode: RunningMode::NotRunning,
                child: None,
                logs: Seq::empty(),
                ..old(self)@
            }),
    {
        proof {
            use_type_invariant(&*self);
        }
        self.logs = LogBuffer::new();
        self.running_mode = RunningMode::NotRunning;
    }

    /// The owned process ended on its own: nothing runs any more and the
    /// log buffer is emptied, whatever the mode was. The handle, if still
    /// held, is handed back; the process it names is already gone.
    pub fn on_terminated(&mut self) -> (r: Option<ChildHandle>)
        ensures
            final(self)@ == terminated(old(self)@),
            pid_of(r) == old(self)@.child,
    {
        proof {
            use_type_invariant(&*self);
        }
        let child = self.take_child();
        self.finish_stop();
        child
    }

    /// Reads the mode, correcting a recorded `NotRunning` to `Sidecar` when
    /// the engine's control socket exists.
    pub fn get_mode(&mut self, socket_exists: bool) -> (r: RunningMode)
        ensures
            final(self)@ == healed(old(self)@, socket_exists),
            r == healed(old(self)@, socket_exists).mode,
    {
        proof {
            use_type_invariant(&*self);
        }
        if self.running_mode == RunningMode::NotRunning && socket_exists {
            self.set_running_mode(RunningMode::Sidecar);
        }
        self.running_mode
    }

    /// Adds one output line of the engine to the log buffer.
    pub fn append_log(&mut self, line: String)
        ensures
            final(self)@ == (CoreView {
                logs: crate::logs::appended(old(self)@.logs, line@),
                ..old(self)@
            }),
    {
        proof {
            use_type_invariant(&*self);
        }
        let mut logs = LogBuffer::new();
        std::mem::swap(&mut logs, &mut self.logs);
        logs.append(line);
        self.logs = logs;
    }

    /// The engine's recent log lines: kept by the service in service mode,
    /// the buffer's lines in child-process mode, none when nothing runs.
    pub fn get_clash_logs(&self) -> (r: ClashLogs)
        ensures
            self@.mode == RunningMode::Service ==> r is FromService,
            self@.mode == RunningMode::Sidecar ==> (r matches ClashLogs::Lines(v) && v@.map_values(
                |s: String| s@,
            ) == self@.logs),
            self@.mode == RunningMode::NotRunning ==> (r matches ClashLogs::Lines(v) && v@.len()
                == 0),
    {
        match self.running_mode {
            RunningMode::Service => ClashLogs::FromService,
            RunningMode::Sidecar => ClashLogs::Lines(self.logs.lines()),
            RunningMode::NotRunning => ClashLogs::Lines(Vec::new()),
        }
    }
}

} // verus!
