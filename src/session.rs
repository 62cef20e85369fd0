//! What the render loop does after each frame, given the events that arrived.
use vstd::prelude::*;

verus! {

/// A request sent from the tray menu to the render loop.
#[derive(Debug, Clone, Copy, PartialEq, Eq, Structural)]
pub enum TrayMessage {
    /// The chosen theme changed.
    ThemeReload,
    /// The session is to start again, with the current settings.
    Refresh,
    /// The program is to end.
    Quit,
}

/// A fatal error reported by the capture stream.
#[derive(Debug, Clone, Copy, PartialEq, Eq, Structural)]
pub enum StreamFault {
    /// The capture device went away.
    DeviceNotAvailable,
    /// The audio backend failed.
    BackendSpecific,
}

/// What the render loop does next.
#[derive(Debug, Clone, Copy, PartialEq, Eq, Structural)]
pub enum TickOutcome {
    /// Draw the next frame.
    Continue,
    /// Take the theme from the settings, then draw the next frame.
    ReloadTheme,
    /// End the session and start a new one.
    Restart,
    /// Switch the settings to the default device, end the session and start a new one.
    RestartWithDefaultDevice,
    /// End the session and the program.
    Exit,
}

/// The outcome of one frame: a stream fault goes first, then the tray's message,
/// then the loss of the keyboard.
pub open spec fn spec_next_step(fault: Option<StreamFault>, message: Option<TrayMessage>, connected: bool) -> TickOutcome {
    match fault {
        Some(StreamFault::DeviceNotAvailable) => TickOutcome::RestartWithDefaultDevice,
        Some(StreamFault::BackendSpecific) => TickOutcome::Exit,
        None => match message {
            Some(TrayMessage::Refresh) => TickOutcome::Restart,
            Some(TrayMessage::Quit) => TickOutcome::Exit,
            _ => if !connected {
                TickOutcome::Exit
            } else if message == Some(TrayMessage::ThemeReload) {
                TickOutcome::ReloadTheme
            } else {
                TickOutcome::Continue
            },
        },
    }
}

/// Decides what the render loop does after a frame, from the stream's fault (if
/// any), the tray's message (if any) and whether the keyboard is still connected.
pub fn next_step(fault: Option<StreamFault>, message: Option<TrayMessage>, connected: bool) -> (r: TickOutcome)
    ensures
        r == spec_next_step(fault, message, connected),
{
    match fault {
        Some(StreamFault::DeviceNotAvailable) => {
            return TickOutcome::RestartWithDefaultDevice;
        },
        Some(StreamFault::BackendSpecific) => {
            return TickOutcome::Exit;
        },
        None => {},
    }
    match message {
        Some(TrayMessage::Refresh) => {
            return TickOutcome::Restart;
        },
        Some(TrayMessage::Quit) => {
            return TickOutcome::Exit;
        },
        _ => {},
    }
    if !connected {
        TickOutcome::Exit
    } else if matches!(message, Some(TrayMessage::ThemeReload)) {
        TickOutcome::ReloadTheme
    } else {
        TickOutcome::Continue
    }
}

} // verus!
