use crate::manager::CoreManager;
use vstd::prelude::*;
use vstd::string::*;

verus! {

/// How often the control socket is looked for after a spawn.
pub const READY_POLL_INTERVAL_MS: u64 = 200;

/// How long the control socket is waited for after a spawn.
pub const READY_TIMEOUT_MS: u64 = 10000;

/// How long to let the engine settle once its control socket exists.
pub const READY_SETTLE_MS: u64 = 200;

/// How long to wait before the best-effort configuration reload.
pub const RELOAD_DELAY_MS: u64 = 500;

/// The command-line arguments of the engine: its configuration directory and file.
pub open spec fn sidecar_args_spec(config_dir: Seq<char>, config_file: Seq<char>) -> Seq<
    Seq<char>,
> {
    seq!["-d"@, config_dir, "-f"@, config_file]
}

/// Builds the engine's arguments `-d <config_dir> -f <config_file>`.
pub fn sidecar_args(config_dir: &str, config_file: &str) -> (r: Vec<String>)
    ensures
        r@.map_values(|s: String| s@) == sidecar_args_spec(config_dir@, config_file@),
{
    let mut args: Vec<String> = Vec::new();
    args.push(String::from_str("-d"));
    args.push(String::from_str(config_dir));
    args.push(String::from_str("-f"));
    args.push(String::from_str(config_file));
    assert(args@.map_values(|s: String| s@) =~= sidecar_args_spec(config_dir@, config_file@));
    args
}

/// What the readiness poll does after one look at the control socket.
#[derive(Debug, Clone, Copy, PartialEq, Eq, Structural)]
pub enum ReadinessStep {
    /// The socket exists: settle, then probe and reload, both best effort.
    Ready,
    /// Not there yet: look again after the poll interval.
    Wait,
    /// The time is up without a socket: log it and leave the mode alone.
    TimedOut,
    /// The process polled for is no longer owned: end without effect.
    Abandoned,
}

pub open spec fn readiness_for(
    owned: Option<u32>,
    pid: u32,
    elapsed_ms: u64,
    socket_exists: bool,
) -> ReadinessStep {
    if owned != Some(pid) {
        ReadinessStep::Abandoned
    } else if socket_exists {
        ReadinessStep::Ready
    } else if elapsed_ms >= READY_TIMEOUT_MS {
        ReadinessStep::TimedOut
    } else {
        ReadinessStep::Wait
    }
}

impl CoreManager {
    /// One look of the readiness poll for the process `pid`, `elapsed_ms`
    /// after its spawn. The state is not changed: a missing socket is not
    /// taken for a dead process.
    pub fn readiness_step(&self, pid: u32, elapsed_ms: u64, socket_exists: bool) -> (r:
        ReadinessStep)
        ensures
            r == readiness_for(self@.child, pid, elapsed_ms, socket_exists),
    {
        let owned = self.child_pid();
        if owned != Some(pid) {
            ReadinessStep::Abandoned
        } else if socket_exists {
            ReadinessStep::Ready
        } else if elapsed_ms >= READY_TIMEOUT_MS {
            ReadinessStep::TimedOut
        } else {
            ReadinessStep::Wait
        }
    }
}

} // verus!
