use vstd::prelude::*;
use vstd::string::*;

verus! {

/// How the engine is being run at a given instant.
#[derive(Debug, Clone, Copy, PartialEq, Eq, Structural)]
pub enum RunningMode {
    Service,
    Sidecar,
    NotRunning,
}

/// The literal under which a mode is shown to the rest of the application.
pub open spec fn mode_label(m: RunningMode) -> Seq<char> {
    match m {
        RunningMode::Service => "Service"@,
        RunningMode::Sidecar => "Sidecar"@,
        RunningMode::NotRunning => "NotRunning"@,
    }
}

impl RunningMode {
    /// The mode as one of the literals `"Service"`, `"Sidecar"`, `"NotRunning"`.
    pub fn to_string(&self) -> (r: String)
        ensures
            r@ == mode_label(*self),
    {
        match self {
            RunningMode::Service => String::from_str("Service"),
            RunningMode::Sidecar => String::from_str("Sidecar"),
            RunningMode::NotRunning => String::from_str("NotRunning"),
        }
    }
}

} // verus!
