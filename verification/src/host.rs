//! A model of what the host toolkit holds for the shell: the process and its
//! single main window. The commands of the router are given their meaning
//! here, and the guarantees of the shell are proved against that meaning.

use crate::command::Command;
use crate::event::Event;
use crate::menu::MenuId;
use crate::router::{commands_for, route};
use vstd::prelude::*;

verus! {

/// Where the main window stands while it is alive.
#[derive(Clone, Copy, Debug, PartialEq, Eq, Structural)]
pub enum Window {
    /// Off the screen, kept in the background.
    Hidden,
    /// On the screen, without the input focus.
    Visible,
    /// On the screen and in the foreground.
    Focused,
}

impl Window {
    /// On the screen, focused or not.
    pub open spec fn visible(self) -> bool {
        self != Window::Hidden
    }

    /// In the foreground, taking the input.
    pub open spec fn focused(self) -> bool {
        self == Window::Focused
    }

    /// Whether the window is on the screen.
    pub fn is_visible(self) -> (b: bool)
        ensures
            b == self.visible(),
    {
        match self {
            Window::Hidden => false,
            Window::Visible | Window::Focused => true,
        }
    }

    /// Whether the window has the input focus.
    pub fn is_focused(self) -> (b: bool)
        ensures
            b == self.focused(),
    {
        match self {
            Window::Focused => true,
            Window::Hidden | Window::Visible => false,
        }
    }
}

/// The process and its main window.
#[derive(Clone, Copy, Debug, PartialEq, Eq, Structural)]
pub enum Host {
    /// The process runs and its main window is alive.
    Running { window: Window },
    /// The process has ended with this exit code.
    Exited { code: i32 },
    /// A close request went through: the toolkit destroyed the main window.
    WindowDestroyed,
}

impl Host {
    /// The effect of one command. Only a running host takes commands, and a
    /// hidden window takes no focus.
    pub open spec fn apply(self, command: Command) -> Host {
        match self {
            Host::Running { window } => match command {
                Command::ShowWindow => Host::Running {
                    window: if window == Window::Hidden {
                        Window::Visible
                    } else {
                        window
                    },
                },
                Command::FocusWindow => Host::Running {
                    window: if window == Window::Hidden {
                        Window::Hidden
                    } else {
                        Window::Focused
                    },
                },
                Command::HideWindow => Host::Running { window: Window::Hidden },
                Command::PreventClose => self,
                Command::OpenDocs => self,
                Command::Exit { code } => Host::Exited { code },
            },
            _ => self,
        }
    }

    /// The effect of a list of commands, carried out first to last.
    pub open spec fn run(self, commands: Seq<Command>) -> Host
        decreases commands.len(),
    {
        if commands.len() == 0 {
            self
        } else {
            self.apply(commands[0]).run(commands.drop_first())
        }
    }

    /// The host after the toolkit has delivered `event` and the commands that
    /// answer it have been carried out. A close request destroys the window
    /// unless one of those commands cancels it.
    pub open spec fn deliver(self, event: Event) -> Host {
        let commands = commands_for(event);
        let after = self.run(commands);
        if event is CloseRequested && after is Running && !commands.contains(
            Command::PreventClose,
        ) {
            Host::WindowDestroyed
        } else {
            after
        }
    }

    /// The host after a sequence of events, delivered first to last.
    pub open spec fn replay(self, events: Seq<Event>) -> Host
        decreases events.len(),
    {
        if events.len() == 0 {
            self
        } else {
            self.deliver(events[0]).replay(events.drop_first())
        }
    }

    /// Carries out one command on the model.
    pub fn perform(self, command: Command) -> (next: Host)
        ensures
            next == self.apply(command),
    {
        match self {
            Host::Running { window } => match command {
                Command::ShowWindow => match window {
                    Window::Hidden => Host::Running { window: Window::Visible },
                    _ => self,
                },
                Command::FocusWindow => match window {
                    Window::Hidden => self,
                    _ => Host::Running { window: Window::Focused },
                },
                Command::HideWindow => Host::Running { window: Window::Hidden },
                Command::PreventClose => self,
                Command::OpenDocs => self,
                Command::Exit { code } => Host::Exited { code },
            },
            _ => self,
        }
    }

    /// Carries out a list of commands on the model, first to last.
    pub fn perform_all(self, commands: &Vec<Command>) -> (next: Host)
        ensures
            next == self.run(commands@),
    {
        let mut host = self;
        let mut i: usize = 0;
        proof {
            assert(commands@.skip(0) =~= commands@);
        }
        while i < commands.len()
            invariant
                i <= commands.len(),
                host.run(commands@.skip(i as int)) == self.run(commands@),
            decreases commands.len() - i,
        {
            proof {
                assert(commands@.skip(i as int).drop_first() =~= commands@.skip(i + 1));
            }
            host = host.perform(commands[i]);
            i += 1;
        }
        host
    }

    /// Routes one event and carries out the answer on the model. A running
    /// host ends as `settled` says; any other host stays as it is.
    pub fn handle(self, event: &Event) -> (next: Host)
        ensures
            next == self.deliver(*event),
            self matches Host::Running { window } ==> next == settled(window, *event),
            !(self is Running) ==> next == self,
    {
        proof {
            match self {
                Host::Running { window } => lemma_deliver_to_running(window, *event),
                _ => lemma_deliver_to_stopped(self, *event),
            }
        }
        let commands = route(event);
        let after = self.perform_all(&commands);
        match event {
            Event::CloseRequested => match after {
                Host::Running { .. } => if cancels_close(&commands) {
                    after
                } else {
                    Host::WindowDestroyed
                },
                _ => after,
            },
            _ => after,
        }
    }

    /// Handles a sequence of events on the model, first to last.
    pub fn handle_all(self, events: &Vec<Event>) -> (next: Host)
        ensures
            next == self.replay(events@),
    {
        let mut host = self;
        let mut i: usize = 0;
        proof {
            assert(events@.skip(0) =~= events@);
        }
        while i < events.len()
            invariant
                i <= events.len(),
                host.replay(events@.skip(i as int)) == self.replay(events@),
            decreases events.len() - i,
        {
            proof {
                assert(events@.skip(i as int).drop_first() =~= events@.skip(i + 1));
            }
            host = host.handle(&events[i]);
            i += 1;
        }
        host
    }

    /// The window is alive, or the process has ended the one way it may: with
    /// exit code 0.
    pub open spec fn intact(self) -> bool {
        match self {
            Host::Running { .. } => true,
            Host::Exited { code } => code == 0,
            Host::WindowDestroyed => false,
        }
    }
}

/// Whether a list of commands cancels a pending close.
pub fn cancels_close(commands: &Vec<Command>) -> (cancels: bool)
    ensures
        cancels == commands@.contains(Command::PreventClose),
{
    let mut i: usize = 0;
    while i < commands.len()
        invariant
            i <= commands.len(),
            forall|k: int| 0 <= k < i ==> commands@[k] != Command::PreventClose,
        decreases commands.len() - i,
    {
        if commands[i] == Command::PreventClose {
            return true;
        }
        i += 1;
    }
    false
}

/// A single command is run by applying it.
pub proof fn lemma_run_one(host: Host, a: Command)
    ensures
        host.run(seq![a]) == host.apply(a),
{
    reveal_with_fuel(Host::run, 2);
    assert(seq![a].drop_first() =~= Seq::<Command>::empty());
}

/// Two commands are run by applying the first, then the second.
pub proof fn lemma_run_two(host: Host, a: Command, b: Command)
    ensures
        host.run(seq![a, b]) == host.apply(a).apply(b),
{
    assert(seq![a, b].drop_first() =~= seq![b]);
    lemma_run_one(host.apply(a), b);
}

/// What each event leaves of a running host, whatever its window was doing:
/// a left click on the tray icon brings the window forward; so do the menu
/// items "show" and "status"; "hide" hides it; "quit" ends the process with
/// exit code 0; "docs" and a click that names no item leave the host as it
/// was; a close request hides the window and destroys nothing.
pub open spec fn settled(window: Window, event: Event) -> Host {
    match event {
        Event::TrayLeftClick => Host::Running { window: Window::Focused },
        Event::MenuItemClick { id } => match MenuId::parse_text(id@) {
            Some(MenuId::Show) | Some(MenuId::Status) => Host::Running { window: Window::Focused },
            Some(MenuId::Hide) => Host::Running { window: Window::Hidden },
            Some(MenuId::Quit) => Host::Exited { code: 0 },
            Some(MenuId::Docs) | None => Host::Running { window },
        },
        Event::CloseRequested => Host::Running { window: Window::Hidden },
    }
}

/// Carrying out the commands that answer an event leaves a running host as
/// `settled` says.
pub proof fn lemma_deliver_to_running(window: Window, event: Event)
    ensures
        (Host::Running { window }).deliver(event) == settled(window, event),
{
    let host = Host::Running { window };
    lemma_run_two(host, Command::ShowWindow, Command::FocusWindow);
    lemma_run_two(host, Command::HideWindow, Command::PreventClose);
    lemma_run_one(host, Command::HideWindow);
    lemma_run_one(host, Command::OpenDocs);
    lemma_run_one(host, Command::Exit { code: 0 });
    assert(seq![Command::HideWindow, Command::PreventClose][1] == Command::PreventClose);
}

/// A host that is not running takes no event: it stays as it is.
pub proof fn lemma_deliver_to_stopped(host: Host, event: Event)
    requires
        !(host is Running),
    ensures
        host.deliver(event) == host,
{
    lemma_run_stopped(host, commands_for(event));
}

/// A host that is not running takes no command: it stays as it is.
pub proof fn lemma_run_stopped(host: Host, commands: Seq<Command>)
    requires
        !(host is Running),
    ensures
        host.run(commands) == host,
    decreases commands.len(),
{
    if commands.len() > 0 {
        lemma_run_stopped(host, commands.drop_first());
    }
}

/// A click on "show" or on "status" leaves the main window visible and
/// focused, whatever it was before.
pub proof fn lemma_show_and_status_bring_window_forward(window: Window, id: String)
    requires
        id@ == MenuId::Show.id_text() || id@ == MenuId::Status.id_text(),
    ensures
        (Host::Running { window }).deliver(Event::MenuItemClick { id }) == (Host::Running {
            window: Window::Focused,
        }),
        Window::Focused.visible() && Window::Focused.focused(),
{
    crate::menu::lemma_parse_inverts_id(MenuId::Show);
    crate::menu::lemma_parse_inverts_id(MenuId::Status);
    lemma_deliver_to_running(window, Event::MenuItemClick { id });
}

/// A click on "hide" leaves the main window hidden and the process running.
pub proof fn lemma_hide_keeps_running(window: Window, id: String)
    requires
        id@ == MenuId::Hide.id_text(),
    ensures
        (Host::Running { window }).deliver(Event::MenuItemClick { id }) == (Host::Running {
            window: Window::Hidden,
        }),
        !Window::Hidden.visible(),
{
    crate::menu::lemma_parse_inverts_id(MenuId::Hide);
    lemma_deliver_to_running(window, Event::MenuItemClick { id });
}

/// A click on "quit" ends the process with exit code 0, whatever the main
/// window was doing.
pub proof fn lemma_quit_exits_with_zero(window: Window, id: String)
    requires
        id@ == MenuId::Quit.id_text(),
    ensures
        (Host::Running { window }).deliver(Event::MenuItemClick { id }) == (Host::Exited {
            code: 0,
        }),
{
    crate::menu::lemma_parse_inverts_id(MenuId::Quit);
    lemma_deliver_to_running(window, Event::MenuItemClick { id });
}

/// A close request never destroys the main window and never ends the
/// process: the window is hidden and the process runs on.
pub proof fn lemma_close_request_hides(window: Window)
    ensures
        (Host::Running { window }).deliver(Event::CloseRequested) == (Host::Running {
            window: Window::Hidden,
        }),
        commands_for(Event::CloseRequested).contains(Command::PreventClose),
{
    lemma_deliver_to_running(window, Event::CloseRequested);
    assert(commands_for(Event::CloseRequested)[1] == Command::PreventClose);
}

/// A click whose identifier names no menu item is answered by no command and
/// changes nothing, in whatever state the host is.
pub proof fn lemma_unknown_item_changes_nothing(host: Host, id: String)
    requires
        MenuId::parse_text(id@) is None,
    ensures
        commands_for(Event::MenuItemClick { id }) == Seq::<Command>::empty(),
        host.deliver(Event::MenuItemClick { id }) == host,
{
}

/// Delivering an event to an intact host leaves it intact: no event destroys
/// the main window, and the process ends only with exit code 0.
pub proof fn lemma_deliver_keeps_intact(host: Host, event: Event)
    requires
        host.intact(),
    ensures
        host.deliver(event).intact(),
{
    match host {
        Host::Running { window } => lemma_deliver_to_running(window, event),
        _ => lemma_deliver_to_stopped(host, event),
    }
}

/// No sequence of events destroys the main window, and none ends the process
/// with an exit code other than 0.
pub proof fn lemma_replay_keeps_intact(host: Host, events: Seq<Event>)
    requires
        host.intact(),
    ensures
        host.replay(events).intact(),
    decreases events.len(),
{
    if events.len() > 0 {
        lemma_deliver_keeps_intact(host, events[0]);
        lemma_replay_keeps_intact(host.deliver(events[0]), events.drop_first());
    }
}

} // verus!
