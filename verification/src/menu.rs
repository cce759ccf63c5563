//! The static tray menu: two entries, "show" and "quit", each with a stable
//! identifier string that the menu-event handler dispatches on.

use vstd::prelude::*;
use crate::shell::MenuId;

verus! {

/// One entry of the tray menu, as handed to the host's menu builder.
#[derive(Debug, PartialEq, Eq)]
pub struct MenuItemDef {
    pub id: String,
    pub label: String,
    pub enabled: bool,
}

/// Which action a menu identifier stands for: only "show" and "quit" are
/// known; every other identifier is ignored.
pub open spec fn spec_menu_id(id: Seq<char>) -> MenuId {
    if id == "show"@ {
        MenuId::Show
    } else if id == "quit"@ {
        MenuId::Quit
    } else {
        MenuId::Other
    }
}

/// Dispatch on a menu identifier delivered with a menu event.
pub fn classify_menu_id(id: &str) -> (m: MenuId)
    ensures
        m == spec_menu_id(id@),
{
    let owned: String = id.to_owned();
    if owned == "show".to_owned() {
        MenuId::Show
    } else if owned == "quit".to_owned() {
        MenuId::Quit
    } else {
        MenuId::Other
    }
}

/// The tray menu's entries, in display order: "show" above "quit", both
/// enabled, and each dispatching to its own action.
pub fn tray_menu() -> (items: Vec<MenuItemDef>)
    ensures
        items@.len() == 2,
        items@[0].id@ == "show"@ && items@[0].label@ == "Show Main Window"@ && items@[0].enabled,
        items@[1].id@ == "quit"@ && items@[1].label@ == "Quit"@ && items@[1].enabled,
        spec_menu_id(items@[0].id@) == MenuId::Show,
        spec_menu_id(items@[1].id@) == MenuId::Quit,
{
    proof {
        reveal_strlit("show");
        reveal_strlit("quit");
        assert("show"@[0] != "quit"@[0]);
    }
    let mut items: Vec<MenuItemDef> = Vec::new();
    items.push(
        MenuItemDef { id: "show".to_owned(), label: "Show Main Window".to_owned(), enabled: true },
    );
    items.push(MenuItemDef { id: "quit".to_owned(), label: "Quit".to_owned(), enabled: true });
    items
}

} // verus!
