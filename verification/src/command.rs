//! What the shell asks of the toolkit and of the operating system, and what a
//! refusal means.

use vstd::prelude::*;

verus! {

/// The exit code of a process that the user quit from the tray menu.
pub const EXIT_CODE_ON_QUIT: i32 = 0;

/// One request to the toolkit or to the operating system.
#[derive(Clone, Copy, Debug, PartialEq, Eq, Structural)]
pub enum Command {
    /// Make the main window visible.
    ShowWindow,
    /// Give the main window the input focus.
    FocusWindow,
    /// Take the main window off the screen; it stays alive.
    HideWindow,
    /// Cancel the close that the toolkit is about to carry out.
    PreventClose,
    /// Open the backend's documentation in the default browser.
    OpenDocs,
    /// End the process at once, without cleanup.
    Exit { code: i32 },
}

/// What follows once a command has been carried out or refused.
#[derive(Clone, Copy, Debug, PartialEq, Eq, Structural)]
pub enum Verdict {
    /// The shell goes on; a refusal, if there was one, is dropped.
    Proceed,
    /// The shell cannot go on: the process aborts with a diagnostic.
    Abort,
}

impl Command {
    /// The window operations. With a single window that lives as long as the
    /// process they are expected always to succeed, so a refusal is fatal.
    pub open spec fn is_window_operation(self) -> bool {
        self is ShowWindow || self is FocusWindow || self is HideWindow
    }

    /// A refused window operation aborts; every other outcome lets the shell go on.
    pub open spec fn verdict(self, succeeded: bool) -> Verdict {
        if !succeeded && self.is_window_operation() {
            Verdict::Abort
        } else {
            Verdict::Proceed
        }
    }

    /// Decides what follows the attempt to carry out this command.
    pub fn settle(self, succeeded: bool) -> (v: Verdict)
        ensures
            v == self.verdict(succeeded),
            succeeded ==> v == Verdict::Proceed,
    {
        if succeeded {
            Verdict::Proceed
        } else {
            match self {
                Command::ShowWindow | Command::FocusWindow | Command::HideWindow => Verdict::Abort,
                Command::PreventClose | Command::OpenDocs | Command::Exit { .. } => {
                    Verdict::Proceed
                },
            }
        }
    }
}

/// Opening the documentation is best effort: whether or not the operating
/// system opened it, the shell goes on and nobody is told.
pub proof fn lemma_opening_docs_never_aborts(succeeded: bool)
    ensures
        Command::OpenDocs.verdict(succeeded) == Verdict::Proceed,
{
}

} // verus!
