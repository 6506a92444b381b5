use vstd::prelude::*;
use crate::menu::MenuCommand;
use crate::text::str_equal;

verus! {

/// Label under which the main application window is looked up.
pub const MAIN_WINDOW_LABEL: &'static str = "main";

/// Exit code used when the user quits from the tray menu.
pub const QUIT_EXIT_CODE: i32 = 0;

/// Whether a window label names the main window.
pub fn is_main_window(label: &str) -> (r: bool)
    ensures
        r == (label@ == MAIN_WINDOW_LABEL@),
{
    str_equal(label, MAIN_WINDOW_LABEL)
}

/// Whether a window is on screen.
#[derive(Clone, Copy, Debug, PartialEq, Eq, Structural)]
pub enum Visibility {
    Visible,
    Hidden,
}

/// What the shell knows of the application: the main window, when one
/// exists, with its visibility, and whether the process still runs.
#[derive(Clone, Copy, Debug, PartialEq, Eq, Structural)]
pub struct Shell {
    pub main_window: Option<Visibility>,
    pub running: bool,
}

/// A callback that the host framework delivers to the shell.
#[derive(Clone, Copy, Debug, PartialEq, Eq, Structural)]
pub enum ShellEvent {
    /// A tray menu item was selected.
    Menu(MenuCommand),
    /// The user asked to close a window; `main` tells whether it is the
    /// main window.
    CloseRequested { main: bool },
    /// The platform asked to bring the application back (dock icon).
    Reopen,
}

/// What the host framework must do in answer to an event.
#[derive(Clone, Copy, Debug, PartialEq, Eq, Structural)]
pub enum ShellAction {
    Nothing,
    /// End the process with this exit code.
    Exit(i32),
    /// Make the main window visible and give it input focus.
    ShowAndFocusMain,
    /// Hide the main window.
    HideMain,
    /// Veto the close of the window that asked for it, and hide it instead.
    HideInsteadOfClose,
}

/// The state after an event.
pub open spec fn next_shell(s: Shell, e: ShellEvent) -> Shell {
    if !s.running {
        s
    } else {
        match e {
            ShellEvent::Menu(MenuCommand::Quit) => Shell { running: false, ..s },
            ShellEvent::Menu(MenuCommand::Show) | ShellEvent::Reopen => match s.main_window {
                Some(_) => Shell { main_window: Some(Visibility::Visible), ..s },
                None => s,
            },
            ShellEvent::Menu(MenuCommand::Hide) => match s.main_window {
                Some(_) => Shell { main_window: Some(Visibility::Hidden), ..s },
                None => s,
            },
            ShellEvent::Menu(MenuCommand::Other) => s,
            ShellEvent::CloseRequested { main } => if main && s.main_window is Some {
                Shell { main_window: Some(Visibility::Hidden), ..s }
            } else {
                s
            },
        }
    }
}

/// The action that answers an event.
pub open spec fn action_of(s: Shell, e: ShellEvent) -> ShellAction {
    if !s.running {
        ShellAction::Nothing
    } else {
        match e {
            ShellEvent::Menu(MenuCommand::Quit) => ShellAction::Exit(QUIT_EXIT_CODE),
            ShellEvent::Menu(MenuCommand::Show) | ShellEvent::Reopen => match s.main_window {
                Some(_) => ShellAction::ShowAndFocusMain,
                None => ShellAction::Nothing,
            },
            ShellEvent::Menu(MenuCommand::Hide) => match s.main_window {
                Some(_) => ShellAction::HideMain,
                None => ShellAction::Nothing,
            },
            ShellEvent::Menu(MenuCommand::Other) => ShellAction::Nothing,
            ShellEvent::CloseRequested { .. } => ShellAction::HideInsteadOfClose,
        }
    }
}

/// The state after a sequence of events, taken in order.
pub open spec fn run_shell(s: Shell, events: Seq<ShellEvent>) -> Shell
    decreases events.len(),
{
    if events.len() == 0 {
        s
    } else {
        next_shell(run_shell(s, events.drop_last()), events.last())
    }
}

/// The visibility that a Show or Hide selection asks for.
pub open spec fn requested_visibility(e: ShellEvent) -> Visibility {
    if e == ShellEvent::Menu(MenuCommand::Show) {
        Visibility::Visible
    } else {
        Visibility::Hidden
    }
}

/// After any non-empty sequence of Show and Hide selections on a running
/// shell that has a main window, the window's visibility is the one that the
/// last selection asked for, and the process still runs.
pub proof fn lemma_visibility_follows_last_selection(s: Shell, events: Seq<ShellEvent>)
    requires
        s.running,
        s.main_window is Some,
        events.len() > 0,
        forall|i: int|
            0 <= i < events.len() ==> events[i] == ShellEvent::Menu(MenuCommand::Show)
                || events[i] == ShellEvent::Menu(MenuCommand::Hide),
    ensures
        run_shell(s, events).running,
        run_shell(s, events).main_window == Some(requested_visibility(events.last())),
    decreases events.len(),
{
    let prefix = events.drop_last();
    if prefix.len() > 0 {
        assert forall|i: int| 0 <= i < prefix.len() implies prefix[i] == ShellEvent::Menu(
            MenuCommand::Show,
        ) || prefix[i] == ShellEvent::Menu(MenuCommand::Hide) by {
            assert(prefix[i] == events[i]);
        }
        lemma_visibility_follows_last_selection(s, prefix);
    } else {
        assert(run_shell(s, prefix) == s);
    }
    assert(events.last() == events[events.len() - 1]);
    assert(run_shell(s, events) == next_shell(run_shell(s, prefix), events.last()));
}

/// A close request never ends the process: the window is hidden instead.
/// When it is the visible main window, it becomes hidden, and a following
/// Show selection makes it visible again.
pub proof fn lemma_close_hides_and_keeps_running(s: Shell, main: bool)
    requires
        s.running,
    ensures
        action_of(s, ShellEvent::CloseRequested { main }) == ShellAction::HideInsteadOfClose,
        next_shell(s, ShellEvent::CloseRequested { main }).running,
        main && s.main_window == Some(Visibility::Visible) ==> {
            let hidden = next_shell(s, ShellEvent::CloseRequested { main });
            &&& hidden.main_window == Some(Visibility::Hidden)
            &&& next_shell(hidden, ShellEvent::Menu(MenuCommand::Show)).main_window == Some(
                Visibility::Visible,
            )
        },
{
}

/// Quit ends the process with exit code zero, whatever the main window's
/// state.
pub proof fn lemma_quit_terminates(s: Shell)
    requires
        s.running,
    ensures
        action_of(s, ShellEvent::Menu(MenuCommand::Quit)) == ShellAction::Exit(QUIT_EXIT_CODE),
        !next_shell(s, ShellEvent::Menu(MenuCommand::Quit)).running,
{
}

/// Show and Hide without a main window do nothing and leave the state as it
/// was.
pub proof fn lemma_show_hide_without_main_window(s: Shell, c: MenuCommand)
    requires
        s.main_window is None,
        c == MenuCommand::Show || c == MenuCommand::Hide,
    ensures
        action_of(s, ShellEvent::Menu(c)) == ShellAction::Nothing,
        next_shell(s, ShellEvent::Menu(c)) == s,
{
}

impl Shell {
    /// A running shell whose main window is in the given state, or absent.
    pub fn new(main_window: Option<Visibility>) -> (r: Shell)
        ensures
            r.main_window == main_window,
            r.running,
    {
        Shell { main_window, running: true }
    }

    /// Takes one event: updates the state and says what the framework
    /// must do.
    pub fn handle(&mut self, event: ShellEvent) -> (a: ShellAction)
        ensures
            *final(self) == next_shell(*old(self), event),
            a == action_of(*old(self), event),
    {
        if !self.running {
            return ShellAction::Nothing;
        }
        match event {
            ShellEvent::Menu(MenuCommand::Quit) => {
                self.running = false;
                ShellAction::Exit(QUIT_EXIT_CODE)
            },
            ShellEvent::Menu(MenuCommand::Show) | ShellEvent::Reopen => {
                if self.main_window.is_some() {
                    self.main_window = Some(Visibility::Visible);
                    ShellAction::ShowAndFocusMain
                } else {
                    ShellAction::Nothing
                }
            },
            ShellEvent::Menu(MenuCommand::Hide) => {
                if self.main_window.is_some() {
                    self.main_window = Some(Visibility::Hidden);
                    ShellAction::HideMain
                } else {
                    ShellAction::Nothing
                }
            },
            ShellEvent::Menu(MenuCommand::Other) => ShellAction::Nothing,
            ShellEvent::CloseRequested { main } => {
                if main && self.main_window.is_some() {
                    self.main_window = Some(Visibility::Hidden);
                }
                ShellAction::HideInsteadOfClose
            },
        }
    }
}

} // verus!
