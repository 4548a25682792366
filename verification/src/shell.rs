//! The signals that the graphical shell sends, and what is to be done on
//! each. The shell itself (windows, tray icon) is the caller's business;
//! here is only the decision.

use vstd::prelude::*;
use crate::launch::Mode;

verus! {

/// A mouse button.
#[derive(Clone, Copy, Debug, PartialEq, Eq, Structural)]
pub enum MouseButton {
    Left,
    Right,
    Middle,
}

/// Where a mouse button stands at the moment of an event.
#[derive(Clone, Copy, Debug, PartialEq, Eq, Structural)]
pub enum ButtonState {
    Up,
    Down,
}

/// A signal from the graphical shell.
#[derive(Clone, Copy, Debug, PartialEq, Eq, Structural)]
pub enum Signal {
    /// The application has been set up and is about to run.
    Ready,
    /// The user asked for the main window to be closed.
    CloseRequested,
    /// The tray icon was clicked.
    TrayClick { button: MouseButton, state: ButtonState },
    /// Any other event of a window or of the tray icon.
    Other,
}

/// What the shell is to do on a signal.
#[derive(Clone, Copy, Debug, PartialEq, Eq, Structural)]
pub enum Reaction {
    /// Ask the supervisor to start the server.
    StartServer,
    /// Hide the main window and do not let it close. The application, and
    /// with it the server, go on running.
    HideWindow,
    /// Show the main window and give it the focus.
    RestoreWindow,
    /// Do nothing.
    Nothing,
}

/// The reaction that belongs to a signal.
///
/// The server is started on its own only in development, when the
/// application is ready. A request to close the window hides it. The
/// release of the left button over the tray icon brings the window back.
/// No signal stops the server: it outlives the hidden window, and ending
/// it is left to an explicit stop.
pub open spec fn reaction(mode: Mode, signal: Signal) -> Reaction {
    match signal {
        Signal::Ready => match mode {
            Mode::Development => Reaction::StartServer,
            Mode::Production => Reaction::Nothing,
        },
        Signal::CloseRequested => Reaction::HideWindow,
        Signal::TrayClick { button: MouseButton::Left, state: ButtonState::Up } =>
            Reaction::RestoreWindow,
        Signal::TrayClick { .. } => Reaction::Nothing,
        Signal::Other => Reaction::Nothing,
    }
}

/// Decides what to do on `signal` in an application built for `mode`.
pub fn react(mode: Mode, signal: Signal) -> (r: Reaction)
    ensures
        r == reaction(mode, signal),
        (r == Reaction::StartServer) == (mode == Mode::Development && signal == Signal::Ready),
{
    match signal {
        Signal::Ready => match mode {
            Mode::Development => Reaction::StartServer,
            Mode::Production => Reaction::Nothing,
        },
        Signal::CloseRequested => Reaction::HideWindow,
        Signal::TrayClick { button, state } => match (button, state) {
            (MouseButton::Left, ButtonState::Up) => Reaction::RestoreWindow,
            _ => Reaction::Nothing,
        },
        Signal::Other => Reaction::Nothing,
    }
}

} // verus!
