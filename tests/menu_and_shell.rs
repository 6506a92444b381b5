use chronify::menu::{tray_menu_entries, MenuCommand};
use chronify::shell::{is_main_window, Shell, ShellAction, ShellEvent, Visibility};

fn menu(id: &str) -> ShellEvent {
    ShellEvent::Menu(MenuCommand::from_id(id))
}

#[test]
fn menu_ids_map_to_commands() {
    assert_eq!(MenuCommand::from_id("quit"), MenuCommand::Quit);
    assert_eq!(MenuCommand::from_id("show"), MenuCommand::Show);
    assert_eq!(MenuCommand::from_id("hide"), MenuCommand::Hide);
}

#[test]
fn unknown_menu_ids_are_other() {
    assert_eq!(MenuCommand::from_id(""), MenuCommand::Other);
    assert_eq!(MenuCommand::from_id("Quit"), MenuCommand::Other);
    assert_eq!(MenuCommand::from_id("quitx"), MenuCommand::Other);
    assert_eq!(MenuCommand::from_id("settings"), MenuCommand::Other);
}

#[test]
fn tray_menu_has_show_hide_quit() {
    let entries = tray_menu_entries();
    let ids: Vec<&str> = entries.iter().map(|e| e.id).collect();
    let labels: Vec<&str> = entries.iter().map(|e| e.label).collect();
    assert_eq!(ids, vec!["show", "hide", "quit"]);
    assert_eq!(labels, vec!["Show Window", "Hide Window", "Quit Chronify"]);
}

#[test]
fn main_window_label() {
    assert!(is_main_window("main"));
    assert!(!is_main_window("Main"));
    assert!(!is_main_window("settings"));
}

#[test]
fn visibility_follows_last_of_hide_show_sequence() {
    let mut s = Shell::new(Some(Visibility::Visible));
    for (id, want) in [
        ("hide", Visibility::Hidden),
        ("show", Visibility::Visible),
        ("show", Visibility::Visible),
        ("hide", Visibility::Hidden),
        ("hide", Visibility::Hidden),
        ("show", Visibility::Visible),
    ] {
        s.handle(menu(id));
        assert_eq!(s.main_window, Some(want));
        assert!(s.running);
    }
}

#[test]
fn show_and_hide_give_window_actions() {
    let mut s = Shell::new(Some(Visibility::Hidden));
    assert_eq!(s.handle(menu("show")), ShellAction::ShowAndFocusMain);
    assert_eq!(s.handle(menu("hide")), ShellAction::HideMain);
}

#[test]
fn close_on_visible_window_hides_and_keeps_running() {
    let mut s = Shell::new(Some(Visibility::Visible));
    let a = s.handle(ShellEvent::CloseRequested { main: true });
    assert_eq!(a, ShellAction::HideInsteadOfClose);
    assert!(s.running);
    assert_eq!(s.main_window, Some(Visibility::Hidden));
    assert_eq!(s.handle(menu("show")), ShellAction::ShowAndFocusMain);
    assert_eq!(s.main_window, Some(Visibility::Visible));
}

#[test]
fn close_on_other_window_leaves_main_alone() {
    let mut s = Shell::new(Some(Visibility::Visible));
    let a = s.handle(ShellEvent::CloseRequested { main: false });
    assert_eq!(a, ShellAction::HideInsteadOfClose);
    assert_eq!(s.main_window, Some(Visibility::Visible));
    assert!(s.running);
}

#[test]
fn quit_exits_whatever_the_visibility() {
    for start in [Some(Visibility::Visible), Some(Visibility::Hidden), None] {
        let mut s = Shell::new(start);
        assert_eq!(s.handle(menu("quit")), ShellAction::Exit(0));
        assert!(!s.running);
    }
}

#[test]
fn events_after_quit_do_nothing() {
    let mut s = Shell::new(Some(Visibility::Hidden));
    s.handle(menu("quit"));
    assert_eq!(s.handle(menu("show")), ShellAction::Nothing);
    assert_eq!(s.handle(ShellEvent::CloseRequested { main: true }), ShellAction::Nothing);
    assert_eq!(s.main_window, Some(Visibility::Hidden));
}

#[test]
fn show_and_hide_without_main_window_do_nothing() {
    let mut s = Shell::new(None);
    assert_eq!(s.handle(menu("show")), ShellAction::Nothing);
    assert_eq!(s.handle(menu("hide")), ShellAction::Nothing);
    assert_eq!(s.handle(ShellEvent::Reopen), ShellAction::Nothing);
    assert_eq!(s, Shell::new(None));
}

#[test]
fn unknown_menu_item_is_ignored() {
    let mut s = Shell::new(Some(Visibility::Visible));
    assert_eq!(s.handle(menu("about")), ShellAction::Nothing);
    assert_eq!(s, Shell::new(Some(Visibility::Visible)));
}

#[test]
fn reopen_shows_hidden_main_window() {
    let mut s = Shell::new(Some(Visibility::Hidden));
    assert_eq!(s.handle(ShellEvent::Reopen), ShellAction::ShowAndFocusMain);
    assert_eq!(s.main_window, Some(Visibility::Visible));
}
