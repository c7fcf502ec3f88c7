//! What the host toolkit delivers to the shell.

use vstd::prelude::*;

verus! {

/// An event from the toolkit. It is handled as it arrives and not kept.
#[derive(Debug, PartialEq, Eq)]
pub enum Event {
    /// A left click on the tray icon.
    TrayLeftClick,
    /// A click on a row of the tray menu; `id` is the identifier the toolkit reports.
    MenuItemClick { id: String },
    /// The user asked to close the main window.
    CloseRequested,
}

impl Clone for Event {
    fn clone(&self) -> (copy: Self)
        ensures
            copy == *self,
    {
        match self {
            Event::TrayLeftClick => Event::TrayLeftClick,
            Event::MenuItemClick { id } => Event::MenuItemClick { id: id.clone() },
            Event::CloseRequested => Event::CloseRequested,
        }
    }
}

} // verus!
