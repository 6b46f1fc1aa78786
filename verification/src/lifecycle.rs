//! The foreground control surface: what a menu command means for the
//! process.

use vstd::prelude::*;

verus! {

/// A command that the tray menu can deliver.
#[derive(Clone, Copy, Debug, PartialEq, Eq, Structural)]
pub enum MenuCommand {
    Quit,
    /// Any menu event that is not the quit command.
    Other,
}

/// What the foreground loop does next.
#[derive(Clone, Copy, Debug, PartialEq, Eq, Structural)]
pub enum Control {
    KeepRunning,
    /// End the process, and the background loop with it.
    Exit,
}

/// What a poll of the menu means.
pub open spec fn control_after(command: Option<MenuCommand>) -> Control {
    match command {
        Some(MenuCommand::Quit) => Control::Exit,
        _ => Control::KeepRunning,
    }
}

/// Decides on one poll of the menu: only the quit command ends the process.
pub fn on_menu_poll(command: Option<MenuCommand>) -> (control: Control)
    ensures
        control == control_after(command),
{
    match command {
        Some(MenuCommand::Quit) => Control::Exit,
        _ => Control::KeepRunning,
    }
}

} // verus!
