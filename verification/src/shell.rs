//! Decisions of the native window's event loop: closing the window or
//! choosing "Terminate Process" in the tray menu ends the program; a click on
//! the tray icon or "Awaken Utah Core" brings the window back.

use vstd::prelude::*;

verus! {

/// A window-system event, as far as the event loop tells events apart.
#[derive(Clone, Copy, Debug, PartialEq, Eq)]
pub enum ShellEvent {
    /// The user asked to close the window.
    CloseRequested,
    /// A left click on the tray icon.
    TrayLeftClick,
    /// A tray-menu item with this id was chosen.
    MenuItem(u16),
    /// Any other event.
    Other,
}

/// What the event loop does next.
#[derive(Clone, Copy, Debug, PartialEq, Eq)]
pub enum ShellAction {
    /// End the event loop and the program.
    Exit,
    /// Show and focus the window, then keep waiting.
    ShowWindow,
    /// Keep waiting for events.
    Wait,
}

/// A line that the event loop logs.
#[derive(Clone, Copy, Debug, PartialEq, Eq)]
pub enum ShellNote {
    /// The window's close button was used.
    CloseRequested,
    /// The window is brought back from the tray.
    Awakening,
    /// "Terminate Process" was chosen.
    Terminating,
    /// The page asked to quit.
    QuitFromUi,
}

/// The decision for one event.
#[derive(Clone, Copy, Debug, PartialEq, Eq)]
pub struct ShellDecision {
    pub action: ShellAction,
    pub note: Option<ShellNote>,
}

/// The decision for `event`, given the ids of the "Awaken Utah Core" and
/// "Terminate Process" menu items; the terminate item wins when both ids are equal.
pub open spec fn shell_decision(event: ShellEvent, show_id: u16, quit_id: u16) -> ShellDecision {
    match event {
        ShellEvent::CloseRequested => ShellDecision {
            action: ShellAction::Exit,
            note: Some(ShellNote::CloseRequested),
        },
        ShellEvent::TrayLeftClick => ShellDecision {
            action: ShellAction::ShowWindow,
            note: Some(ShellNote::Awakening),
        },
        ShellEvent::MenuItem(id) => if id == quit_id {
            ShellDecision { action: ShellAction::Exit, note: Some(ShellNote::Terminating) }
        } else if id == show_id {
            ShellDecision { action: ShellAction::ShowWindow, note: Some(ShellNote::Awakening) }
        } else {
            ShellDecision { action: ShellAction::Wait, note: None }
        },
        ShellEvent::Other => ShellDecision { action: ShellAction::Wait, note: None },
    }
}

/// Decides what the event loop does with `event`.
pub fn decide_shell_event(event: ShellEvent, show_id: u16, quit_id: u16) -> (d: ShellDecision)
    ensures
        d == shell_decision(event, show_id, quit_id),
        d.action == ShellAction::Exit <==> (event == ShellEvent::CloseRequested || event
            == ShellEvent::MenuItem(quit_id)),
{
    match event {
        ShellEvent::CloseRequested => ShellDecision {
            action: ShellAction::Exit,
            note: Some(ShellNote::CloseRequested),
        },
        ShellEvent::TrayLeftClick => ShellDecision {
            action: ShellAction::ShowWindow,
            note: Some(ShellNote::Awakening),
        },
        ShellEvent::MenuItem(id) => if id == quit_id {
            ShellDecision { action: ShellAction::Exit, note: Some(ShellNote::Terminating) }
        } else if id == show_id {
            ShellDecision { action: ShellAction::ShowWindow, note: Some(ShellNote::Awakening) }
        } else {
            ShellDecision { action: ShellAction::Wait, note: None }
        },
        ShellEvent::Other => ShellDecision { action: ShellAction::Wait, note: None },
    }
}

/// The text of a logged line.
pub open spec fn shell_note_line(note: ShellNote) -> Seq<char> {
    match note {
        ShellNote::CloseRequested => "[ZEO-ARCHITECT] Close requested — exiting."@,
        ShellNote::Awakening => "[ZEO-ARCHITECT] Awaking UI from Phantom Sleep."@,
        ShellNote::Terminating => "[ZEO-ARCHITECT] Absolute Process Termination Commencing."@,
        ShellNote::QuitFromUi => "[ZEO-ARCHITECT] Quit requested from UI."@,
    }
}

/// The text of a logged line.
pub fn shell_note_text(note: ShellNote) -> (text: String)
    ensures
        text@ == shell_note_line(note),
{
    match note {
        ShellNote::CloseRequested => String::from_str("[ZEO-ARCHITECT] Close requested — exiting."),
        ShellNote::Awakening => String::from_str("[ZEO-ARCHITECT] Awaking UI from Phantom Sleep."),
        ShellNote::Terminating => String::from_str(
            "[ZEO-ARCHITECT] Absolute Process Termination Commencing.",
        ),
        ShellNote::QuitFromUi => String::from_str("[ZEO-ARCHITECT] Quit requested from UI."),
    }
}

} // verus!
