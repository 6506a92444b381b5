use vstd::prelude::*;
use crate::text::str_equal;

verus! {

/// Identifier of the tray menu item that ends the process.
pub const QUIT_ID: &'static str = "quit";

/// Identifier of the tray menu item that shows the main window.
pub const SHOW_ID: &'static str = "show";

/// Identifier of the tray menu item that hides the main window.
pub const HIDE_ID: &'static str = "hide";

/// Label of the quit item.
pub const QUIT_LABEL: &'static str = "Quit Chronify";

/// Label of the show item.
pub const SHOW_LABEL: &'static str = "Show Window";

/// Label of the hide item.
pub const HIDE_LABEL: &'static str = "Hide Window";

/// One item of the tray menu.
#[derive(Clone, Copy, Debug, PartialEq, Eq)]
pub struct MenuEntry {
    pub id: &'static str,
    pub label: &'static str,
}

/// The tray menu's items, top to bottom: show, hide, quit.
pub fn tray_menu_entries() -> (r: Vec<MenuEntry>)
    ensures
        r@.len() == 3,
        r@[0].id@ == SHOW_ID@ && r@[0].label@ == SHOW_LABEL@,
        r@[1].id@ == HIDE_ID@ && r@[1].label@ == HIDE_LABEL@,
        r@[2].id@ == QUIT_ID@ && r@[2].label@ == QUIT_LABEL@,
{
    vec![
        MenuEntry { id: SHOW_ID, label: SHOW_LABEL },
        MenuEntry { id: HIDE_ID, label: HIDE_LABEL },
        MenuEntry { id: QUIT_ID, label: QUIT_LABEL },
    ]
}

/// What a tray menu selection asks for, by item identifier.
#[derive(Clone, Copy, Debug, PartialEq, Eq, Structural)]
pub enum MenuCommand {
    Quit,
    Show,
    Hide,
    /// An identifier this shell does not know: ignored.
    Other,
}

/// The command that a menu item identifier stands for.
pub open spec fn command_of(id: Seq<char>) -> MenuCommand {
    if id == QUIT_ID@ {
        MenuCommand::Quit
    } else if id == SHOW_ID@ {
        MenuCommand::Show
    } else if id == HIDE_ID@ {
        MenuCommand::Hide
    } else {
        MenuCommand::Other
    }
}

impl MenuCommand {
    /// Reads a menu item identifier; unknown identifiers give `Other`.
    pub fn from_id(id: &str) -> (r: MenuCommand)
        ensures
            r == command_of(id@),
    {
        if str_equal(id, QUIT_ID) {
            MenuCommand::Quit
        } else if str_equal(id, SHOW_ID) {
            MenuCommand::Show
        } else if str_equal(id, HIDE_ID) {
            MenuCommand::Hide
        } else {
            MenuCommand::Other
        }
    }
}

} // verus!
