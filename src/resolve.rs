use crate::app_events::{initialized, Handle};
use vstd::prelude::*;
use vstd::string::*;

verus! {

/// How long the check for another running instance may take before
/// startup goes on without it.
pub const SINGLETON_CHECK_TIMEOUT_SECS: u64 = 2;

/// Bounds on the steps of the startup sequence; a step that overruns is
/// logged and startup goes on.
pub const VERGE_CONFIG_TIMEOUT_SECS: u64 = 30;

pub const WINDOW_TIMEOUT_SECS: u64 = 60;

pub const SERVICE_MANAGER_TIMEOUT_SECS: u64 = 30;

pub const CORE_MANAGER_TIMEOUT_SECS: u64 = 600;

pub const SYSTEM_PROXY_TIMEOUT_SECS: u64 = 15;

/// Initialises the application handle at setup.
pub fn resolve_setup_handle(handle: &mut Handle)
    ensures
        *final(handle) == initialized(*old(handle)),
{
    init_handle(handle);
}

/// Initialises the application handle: notification delivery starts unless
/// the application is exiting.
pub fn init_handle(handle: &mut Handle)
    ensures
        *final(handle) == initialized(*old(handle)),
{
    handle.init();
}

/// How the check for another running instance ended.
#[derive(Debug)]
pub enum SingletonCheck {
    /// No other instance answered.
    Passed,
    /// Another instance is running, or the check itself failed.
    Failed(String),
    /// The check did not finish in time.
    TimedOut,
}

/// Whether startup goes on after the instance check: it stops only on a
/// failed check; an overrun check lets startup go on.
pub fn singleton_check_result(check: SingletonCheck) -> (r: Result<(), String>)
    ensures
        match check {
            SingletonCheck::Failed(e) => r == Err::<(), String>(e),
            _ => r is Ok,
        },
{
    match check {
        SingletonCheck::Failed(e) => Err(e),
        _ => Ok(()),
    }
}

/// Whether the tray is left out: only when the variable that controls it
/// is set to exactly `1`.
pub fn tray_disabled(setting: &Option<String>) -> (r: bool)
    ensures
        r == (setting matches Some(s) && s@ == "1"@),
{
    match setting {
        Some(s) => *s == String::from_str("1"),
        None => false,
    }
}

} // verus!
