use crate::mode::RunningMode;
use vstd::prelude::*;

verus! {

/// What the privileged service reports about itself.
#[derive(Debug, Clone, Copy, PartialEq, Eq, Structural)]
pub enum ServiceStatus {
    Ready,
    NotReady,
    Unknown,
}

/// The mode a start attempt takes for a given service status: the service
/// when it is ready, the owned child process otherwise.
pub open spec fn mode_for_status(status: ServiceStatus) -> RunningMode {
    if status == ServiceStatus::Ready {
        RunningMode::Service
    } else {
        RunningMode::Sidecar
    }
}

/// Chooses the mode of a start attempt. Never fails: without a ready service
/// the engine runs as a child process.
pub fn decide_mode(status: ServiceStatus) -> (r: RunningMode)
    ensures
        r == mode_for_status(status),
{
    match status {
        ServiceStatus::Ready => RunningMode::Service,
        _ => RunningMode::Sidecar,
    }
}

/// Whether a start attempt first waits, bounded, for the service: only where
/// the platform grants the privileged capability through the service alone
/// and the active configuration asks for that capability.
pub fn needs_service_wait(platform_needs_service: bool, capability_requested: Option<bool>) -> (r:
    bool)
    ensures
        r == (platform_needs_service && capability_requested == Some(true)),
{
    if !platform_needs_service {
        return false;
    }
    match capability_requested {
        Some(requested) => requested,
        None => false,
    }
}

/// What one attempt of the bounded wait for the service does next.
#[derive(Debug, Clone, Copy, PartialEq, Eq, Structural)]
pub enum WaitAction {
    /// The service is ready: the wait ends.
    Done,
    /// Initialise the service connection and refresh its status, then look again.
    InitAndRefresh,
    /// Still not ready after a refresh: try again after the backoff interval.
    Retry,
}

/// One attempt of the wait for the service, given its current status and
/// whether this attempt has already initialised and refreshed it.
pub fn service_wait_action(status: ServiceStatus, refreshed: bool) -> (r: WaitAction)
    ensures
        status == ServiceStatus::Ready ==> r == WaitAction::Done,
        status != ServiceStatus::Ready && !refreshed ==> r == WaitAction::InitAndRefresh,
        status != ServiceStatus::Ready && refreshed ==> r == WaitAction::Retry,
{
    match status {
        ServiceStatus::Ready => WaitAction::Done,
        _ => if refreshed {
            WaitAction::Retry
        } else {
            WaitAction::InitAndRefresh
        },
    }
}

} // verus!
