use crate::manager::{healed, CoreManager};
use crate::mode::mode_label;
use vstd::prelude::*;
use vstd::string::*;

verus! {

/// The running mode as shown to the user interface. A recorded `NotRunning`
/// beside an existing control socket is corrected to `Sidecar`, and the
/// correction is kept.
pub fn get_running_mode(manager: &mut CoreManager, socket_exists: bool) -> (r: String)
    ensures
        final(manager)@ == healed(old(manager)@, socket_exists),
        r@ == mode_label(healed(old(manager)@, socket_exists).mode),
{
    let mode = manager.get_mode(socket_exists);
    mode.to_string()
}

} // verus!

verus! {

/// The desktop platforms the application runs on.
#[derive(Debug, Clone, Copy, PartialEq, Eq, Structural)]
pub enum Platform {
    MacOs,
    Windows,
    Linux,
}

/// The program that opens a directory in the platform's file manager.
pub open spec fn opener_for(p: Platform) -> Seq<char> {
    match p {
        Platform::MacOs => "open"@,
        Platform::Windows => "explorer"@,
        Platform::Linux => "xdg-open"@,
    }
}

/// The program to run, with the directory as its argument, to show the
/// application's data directory.
pub fn dir_opener(platform: Platform) -> (r: String)
    ensures
        r@ == opener_for(platform),
{
    match platform {
        Platform::MacOs => String::from_str("open"),
        Platform::Windows => String::from_str("explorer"),
        Platform::Linux => String::from_str("xdg-open"),
    }
}

} // verus!
