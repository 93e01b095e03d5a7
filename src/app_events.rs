use vstd::prelude::*;

verus! {

/// The application-wide handle: whether the application is on its way out,
/// and whether notification delivery has been started.
#[derive(Debug, Clone, Copy, PartialEq, Eq, Structural)]
pub struct Handle {
    pub exiting: bool,
    pub notifications_started: bool,
}

/// The handle after `init`: notification delivery starts unless the
/// application is exiting.
pub open spec fn initialized(h: Handle) -> Handle {
    if h.exiting {
        h
    } else {
        Handle { notifications_started: true, ..h }
    }
}

impl Handle {
    /// A handle of an application that has just started.
    pub fn new() -> (r: Handle)
        ensures
            !r.exiting,
            !r.notifications_started,
    {
        Handle { exiting: false, notifications_started: false }
    }

    /// Starts notification delivery, unless the application is exiting.
    pub fn init(&mut self)
        ensures
            *final(self) == initialized(*old(self)),
    {
        if !self.exiting {
            self.notifications_started = true;
        }
    }

    pub fn is_exiting(&self) -> (r: bool)
        ensures
            r == self.exiting,
    {
        self.exiting
    }

    pub fn set_is_exiting(&mut self)
        ensures
            *final(self) == (Handle { exiting: true, ..*old(self) }),
    {
        self.exiting = true;
    }
}

/// An event of the application's main loop.
#[derive(Debug, Clone, Copy, PartialEq, Eq, Structural)]
pub enum AppEvent {
    Ready,
    Resumed,
    /// Something asked the application to exit; `code` is set when the
    /// request came with an explicit exit code.
    ExitRequested { code: Option<i32> },
    Exit,
    /// The user asked to close the main window.
    MainWindowCloseRequested,
    /// The main window gained or lost focus; `global_hotkey` is the stored
    /// setting for hotkeys outside the window.
    MainWindowFocused { focused: bool, global_hotkey: Option<bool> },
    Other,
}

/// What the main loop does for an event.
#[derive(Debug, Clone, Copy, PartialEq, Eq, Structural)]
pub enum AppAction {
    Nothing,
    /// The handle was initialised.
    HandleReady,
    /// Close the engine's open event streams; keep running if `prevent_exit`.
    CloseStreams { prevent_exit: bool },
    /// Tell the proxy manager the application stops, and clean up.
    Shutdown,
    /// Keep the main window alive but hide it.
    HideMainWindow,
    /// Register the hotkeys.
    InitHotkeys,
    /// Drop all hotkeys.
    ResetHotkeys,
}

pub open spec fn app_step(h: Handle, e: AppEvent) -> (Handle, AppAction) {
    match e {
        AppEvent::Ready | AppEvent::Resumed => if h.exiting {
            (h, AppAction::Nothing)
        } else {
            (initialized(h), AppAction::HandleReady)
        },
        AppEvent::ExitRequested { code } => (
            h,
            AppAction::CloseStreams { prevent_exit: !h.exiting && code.is_none() },
        ),
        AppEvent::Exit => if h.exiting {
            (h, AppAction::Nothing)
        } else {
            (Handle { exiting: true, ..h }, AppAction::Shutdown)
        },
        AppEvent::MainWindowCloseRequested => if h.exiting {
            (h, AppAction::Nothing)
        } else {
            (h, AppAction::HideMainWindow)
        },
        AppEvent::MainWindowFocused { focused, global_hotkey } => if focused {
            (h, AppAction::InitHotkeys)
        } else if global_hotkey == Some(false) {
            (h, AppAction::ResetHotkeys)
        } else {
            (h, AppAction::Nothing)
        },
        AppEvent::Other => (h, AppAction::Nothing),
    }
}

/// Decides what the main loop does for one event. Once the application is
/// exiting, readiness, window and exit events do nothing more, and an exit
/// request is no longer held back; an exit request without a code is held
/// back otherwise, so that closing the last window does not end the
/// application.
pub fn handle_app_event(handle: &mut Handle, event: AppEvent) -> (r: AppAction)
    ensures
        (*final(handle), r) == app_step(*old(handle), event),
{
    match event {
        AppEvent::Ready | AppEvent::Resumed => {
            if handle.is_exiting() {
                return AppAction::Nothing;
            }
            handle.init();
            AppAction::HandleReady
        },
        AppEvent::ExitRequested { code } => {
            let prevent_exit = !handle.is_exiting() && code.is_none();
            AppAction::CloseStreams { prevent_exit }
        },
        AppEvent::Exit => {
            if handle.is_exiting() {
                return AppAction::Nothing;
            }
            handle.set_is_exiting();
            AppAction::Shutdown
        },
        AppEvent::MainWindowCloseRequested => {
            if handle.is_exiting() {
                AppAction::Nothing
            } else {
                AppAction::HideMainWindow
            }
        },
        AppEvent::MainWindowFocused { focused, global_hotkey } => {
            if focused {
                AppAction::InitHotkeys
            } else {
                match global_hotkey {
                    Some(false) => AppAction::ResetHotkeys,
                    _ => AppAction::Nothing,
                }
            }
        },
        AppEvent::Other => AppAction::Nothing,
    }
}

} // verus!
