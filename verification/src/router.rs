//! The event router: which commands answer which event.

use crate::command::{Command, EXIT_CODE_ON_QUIT};
use crate::event::Event;
use crate::menu::MenuId;
use vstd::prelude::*;

verus! {

/// Bringing the window forward: show it, then focus it.
pub open spec fn bring_forward() -> Seq<Command> {
    seq![Command::ShowWindow, Command::FocusWindow]
}

/// The commands that answer a click on a menu item.
pub open spec fn item_commands(item: MenuId) -> Seq<Command> {
    match item {
        MenuId::Quit => seq![Command::Exit { code: EXIT_CODE_ON_QUIT }],
        MenuId::Hide => seq![Command::HideWindow],
        MenuId::Show => bring_forward(),
        MenuId::Docs => seq![Command::OpenDocs],
        MenuId::Status => bring_forward(),
    }
}

/// The commands that answer an event, in the order in which they are issued.
/// A click that names no item is answered by nothing.
pub open spec fn commands_for(event: Event) -> Seq<Command> {
    match event {
        Event::TrayLeftClick => bring_forward(),
        Event::MenuItemClick { id } => match MenuId::parse_text(id@) {
            Some(item) => item_commands(item),
            None => Seq::empty(),
        },
        Event::CloseRequested => seq![Command::HideWindow, Command::PreventClose],
    }
}

/// The commands that answer a click on `item`.
pub fn route_item(item: MenuId) -> (commands: Vec<Command>)
    ensures
        commands@ == item_commands(item),
{
    let mut commands: Vec<Command> = Vec::new();
    match item {
        MenuId::Quit => {
            commands.push(Command::Exit { code: EXIT_CODE_ON_QUIT });
        },
        MenuId::Hide => {
            commands.push(Command::HideWindow);
        },
        MenuId::Show | MenuId::Status => {
            commands.push(Command::ShowWindow);
            commands.push(Command::FocusWindow);
        },
        MenuId::Docs => {
            commands.push(Command::OpenDocs);
        },
    }
    commands
}

/// Routes one event: returns the commands to carry out, first to last.
pub fn route(event: &Event) -> (commands: Vec<Command>)
    ensures
        commands@ == commands_for(*event),
{
    match event {
        Event::TrayLeftClick => {
            let mut commands: Vec<Command> = Vec::new();
            commands.push(Command::ShowWindow);
            commands.push(Command::FocusWindow);
            commands
        },
        Event::MenuItemClick { id } => match MenuId::parse(id.as_str()) {
            Some(item) => route_item(item),
            None => Vec::new(),
        },
        Event::CloseRequested => {
            let mut commands: Vec<Command> = Vec::new();
            commands.push(Command::HideWindow);
            commands.push(Command::PreventClose);
            commands
        },
    }
}

} // verus!
