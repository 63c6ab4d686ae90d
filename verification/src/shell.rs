//! What the shell does about tray and application events.
//!
//! The application lives in the system tray: closing the main window hides
//! it, the tray icon brings it back, and only the tray menu's quit entry ends
//! the process.

use vstd::prelude::*;
use crate::text::same_text;

verus! {

/// A mouse button, as the tray icon reports it.
#[derive(Clone, Copy, Debug, PartialEq, Eq)]
pub enum MouseButton {
    Left,
    Right,
    Middle,
}

/// Whether a mouse button went down or came up.
#[derive(Clone, Copy, Debug, PartialEq, Eq)]
pub enum MouseButtonState {
    Up,
    Down,
}

/// An event the shell reacts to.
#[derive(Clone, Copy, Debug, PartialEq, Eq)]
pub enum ShellEvent<'a> {
    /// The tray menu entry with identifier `id` was chosen.
    TrayMenu { id: &'a str },
    /// The tray icon was clicked.
    TrayClick { button: MouseButton, state: MouseButtonState },
    /// The window with label `label` was asked to close.
    CloseRequested { label: &'a str },
    /// The last window is gone and the application is about to exit.
    ExitRequested,
}

/// A [`ShellEvent`] as a mathematical value.
pub enum ShellEventView {
    TrayMenu { id: Seq<char> },
    TrayClick { button: MouseButton, state: MouseButtonState },
    CloseRequested { label: Seq<char> },
    ExitRequested,
}

impl<'a> View for ShellEvent<'a> {
    type V = ShellEventView;

    open spec fn view(&self) -> ShellEventView {
        match self {
            ShellEvent::TrayMenu { id } => ShellEventView::TrayMenu { id: id@ },
            ShellEvent::TrayClick { button, state } => ShellEventView::TrayClick {
                button: *button,
                state: *state,
            },
            ShellEvent::CloseRequested { label } => ShellEventView::CloseRequested { label: label@ },
            ShellEvent::ExitRequested => ShellEventView::ExitRequested,
        }
    }
}

/// What the host is to do about an event.
#[derive(Clone, Copy, Debug, PartialEq, Eq)]
pub enum ShellAction {
    /// End the process with exit code 0.
    Quit,
    /// Show the main window, if it exists, and give it the focus.
    ShowMainWindow,
    /// Refuse the close and hide the main window, if it exists.
    HideToTray,
    /// Refuse the exit.
    KeepRunning,
    /// Let the event take its course.
    Nothing,
}

/// Label of the application's main window.
pub open spec fn main_window() -> Seq<char> {
    "main"@
}

/// Identifier of the tray menu's quit entry.
pub open spec fn quit_entry() -> Seq<char> {
    "quit"@
}

/// The shell's rules.
///
/// * The quit entry of the tray menu ends the process; other entries do
///   nothing.
/// * Releasing the left mouse button over the tray icon shows the main
///   window; no other click does.
/// * A request to close the main window hides it instead. Other windows, the
///   sign-in window among them, close as asked.
/// * The application keeps running when its last window has closed.
pub open spec fn decision(event: ShellEventView) -> ShellAction {
    match event {
        ShellEventView::TrayMenu { id } => if id == quit_entry() {
            ShellAction::Quit
        } else {
            ShellAction::Nothing
        },
        ShellEventView::TrayClick { button, state } => if button is Left && state is Up {
            ShellAction::ShowMainWindow
        } else {
            ShellAction::Nothing
        },
        ShellEventView::CloseRequested { label } => if label == main_window() {
            ShellAction::HideToTray
        } else {
            ShellAction::Nothing
        },
        ShellEventView::ExitRequested => ShellAction::KeepRunning,
    }
}

/// Label of the application's main window.
pub fn main_window_label() -> (label: &'static str)
    ensures
        label@ == main_window(),
{
    "main"
}

/// Identifier of the tray menu's quit entry.
pub fn quit_entry_id() -> (id: &'static str)
    ensures
        id@ == quit_entry(),
{
    "quit"
}

/// Decides what the host is to do about `event`.
pub fn decide(event: &ShellEvent<'_>) -> (action: ShellAction)
    ensures
        action == decision(event@),
{
    match event {
        ShellEvent::TrayMenu { id } => if same_text(id, quit_entry_id()) {
            ShellAction::Quit
        } else {
            ShellAction::Nothing
        },
        ShellEvent::TrayClick { button, state } => match (button, state) {
            (MouseButton::Left, MouseButtonState::Up) => ShellAction::ShowMainWindow,
            _ => ShellAction::Nothing,
        },
        ShellEvent::CloseRequested { label } => if same_text(label, main_window_label()) {
            ShellAction::HideToTray
        } else {
            ShellAction::Nothing
        },
        ShellEvent::ExitRequested => ShellAction::KeepRunning,
    }
}

/// A request to close the sign-in window is never turned into hiding: the
/// window closes, and the close observer of the flow gets to see it.
pub proof fn lemma_sign_in_window_closes()
    ensures
        decision(ShellEventView::CloseRequested { label: "oauth"@ }) == ShellAction::Nothing,
{
    reveal_strlit("oauth");
    reveal_strlit("main");
    assert("oauth"@.len() != "main"@.len());
}

} // verus!
