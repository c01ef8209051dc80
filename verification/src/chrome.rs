//! The window's own title bar: what each of its controls asks of the
//! windowing system.

use vstd::prelude::*;

verus! {

/// What the user did to the title bar.
#[derive(Clone, Copy, Debug, PartialEq, Eq, Structural)]
pub enum ChromeEvent {
    /// A drag with the primary button started on the bar.
    DragStarted,
    /// The close button was clicked.
    CloseClicked,
    /// The button that maximizes or restores was clicked, in a window that
    /// was maximized or not.
    MaximizeClicked { maximized: bool },
    /// The minimize button was clicked.
    MinimizeClicked,
}

/// What the windowing system is asked to do.
#[derive(Clone, Copy, Debug, PartialEq, Eq, Structural)]
pub enum WindowCommand {
    StartDrag,
    Close,
    Maximized(bool),
    Minimized(bool),
}

/// Which of its two faces the button that maximizes or restores shows.
#[derive(Clone, Copy, Debug, PartialEq, Eq, Structural)]
pub enum MaximizeButton {
    Maximize,
    Restore,
}

/// The command that answers `event`. A click on the button that maximizes
/// or restores asks for the state that the window is not in.
pub open spec fn command_for(event: ChromeEvent) -> WindowCommand {
    match event {
        ChromeEvent::DragStarted => WindowCommand::StartDrag,
        ChromeEvent::CloseClicked => WindowCommand::Close,
        ChromeEvent::MaximizeClicked { maximized } => WindowCommand::Maximized(!maximized),
        ChromeEvent::MinimizeClicked => WindowCommand::Minimized(true),
    }
}

/// The command to send to the windowing system for `event`.
pub fn window_command(event: ChromeEvent) -> (r: WindowCommand)
    ensures
        r == command_for(event),
{
    match event {
        ChromeEvent::DragStarted => WindowCommand::StartDrag,
        ChromeEvent::CloseClicked => WindowCommand::Close,
        ChromeEvent::MaximizeClicked { maximized } => WindowCommand::Maximized(!maximized),
        ChromeEvent::MinimizeClicked => WindowCommand::Minimized(true),
    }
}

/// The face of the button that maximizes or restores: a maximized window
/// offers to restore, any other to maximize.
pub fn maximize_button(maximized: bool) -> (r: MaximizeButton)
    ensures
        maximized ==> r == MaximizeButton::Restore,
        !maximized ==> r == MaximizeButton::Maximize,
{
    if maximized {
        MaximizeButton::Restore
    } else {
        MaximizeButton::Maximize
    }
}

} // verus!
