use tray_shell::menu::{classify_menu_id, tray_menu};
use tray_shell::shell::MenuId;

#[test]
fn classify_show_identifier() {
    assert_eq!(classify_menu_id("show"), MenuId::Show);
}

#[test]
fn classify_quit_identifier() {
    assert_eq!(classify_menu_id("quit"), MenuId::Quit);
}

#[test]
fn classify_unknown_identifiers() {
    assert_eq!(classify_menu_id(""), MenuId::Other);
    assert_eq!(classify_menu_id("Show"), MenuId::Other);
    assert_eq!(classify_menu_id("quit "), MenuId::Other);
    assert_eq!(classify_menu_id("settings"), MenuId::Other);
}

#[test]
fn tray_menu_has_show_then_quit() {
    let items = tray_menu();
    assert_eq!(items.len(), 2);
    assert_eq!(items[0].id, "show");
    assert_eq!(items[0].label, "Show Main Window");
    assert!(items[0].enabled);
    assert_eq!(items[1].id, "quit");
    assert_eq!(items[1].label, "Quit");
    assert!(items[1].enabled);
}

#[test]
fn tray_menu_identifiers_dispatch_to_their_actions() {
    let items = tray_menu();
    assert_eq!(classify_menu_id(&items[0].id), MenuId::Show);
    assert_eq!(classify_menu_id(&items[1].id), MenuId::Quit);
}
