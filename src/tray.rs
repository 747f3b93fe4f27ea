//! The system tray: its menu, and what each tray event asks of the shell.

use vstd::prelude::*;
use crate::window::WindowOp;

verus! {

/// The menu item that brings the main window forward.
pub const SHOW_ID: &'static str = "show";

/// The menu item that hides the main window.
pub const HIDE_ID: &'static str = "hide";

/// The menu item that ends the application.
pub const QUIT_ID: &'static str = "quit";

/// An entry of the tray menu.
#[derive(Debug)]
pub enum TrayMenuEntry {
    /// A clickable item with its identifier and visible title.
    Item { id: String, title: String },
    /// A dividing line.
    Separator,
}

impl TrayMenuEntry {
    /// The entry is an item with exactly this identifier and title.
    pub open spec fn is_item(&self, id: Seq<char>, title: Seq<char>) -> bool {
        match self {
            TrayMenuEntry::Item { id: i, title: t } => i@ == id && t@ == title,
            TrayMenuEntry::Separator => false,
        }
    }

    fn item(id: &str, title: &str) -> (r: TrayMenuEntry)
        ensures
            r.is_item(id@, title@),
    {
        TrayMenuEntry::Item { id: String::from_str(id), title: String::from_str(title) }
    }
}

/// The tray menu: show, hide, a separator, then quit.
pub fn tray_menu() -> (r: Vec<TrayMenuEntry>)
    ensures
        r.len() == 4,
        r[0].is_item(SHOW_ID@, "Show NYX OS"@),
        r[1].is_item(HIDE_ID@, "Hide NYX OS"@),
        r[2] is Separator,
        r[3].is_item(QUIT_ID@, "Quit NYX OS"@),
{
    let mut menu: Vec<TrayMenuEntry> = Vec::new();
    menu.push(TrayMenuEntry::item(SHOW_ID, "Show NYX OS"));
    menu.push(TrayMenuEntry::item(HIDE_ID, "Hide NYX OS"));
    menu.push(TrayMenuEntry::Separator);
    menu.push(TrayMenuEntry::item(QUIT_ID, "Quit NYX OS"));
    menu
}

/// Something that happened on the tray icon.
#[derive(Debug)]
pub enum TrayEvent {
    /// The icon was clicked with the left button.
    LeftClick,
    /// The menu item with this identifier was chosen.
    MenuItemClick(String),
    /// Any other tray event.
    Other,
}

/// What the shell does in answer to a tray event.
#[derive(Clone, Copy, Debug, PartialEq, Eq, Structural)]
pub enum TrayAction {
    /// Show the main window and give it the focus.
    ShowMain,
    /// Hide the main window.
    HideMain,
    /// End the application.
    Quit,
    /// Do nothing.
    Ignore,
}

/// The action for a tray event: a left click or the show item shows the main
/// window, the hide item hides it, the quit item quits, and every other event
/// or identifier is ignored.
pub open spec fn tray_action_of(e: TrayEvent) -> TrayAction {
    match e {
        TrayEvent::LeftClick => TrayAction::ShowMain,
        TrayEvent::MenuItemClick(id) => {
            if id@ == QUIT_ID@ {
                TrayAction::Quit
            } else if id@ == SHOW_ID@ {
                TrayAction::ShowMain
            } else if id@ == HIDE_ID@ {
                TrayAction::HideMain
            } else {
                TrayAction::Ignore
            }
        },
        TrayEvent::Other => TrayAction::Ignore,
    }
}

/// Decides the action for a tray event.
pub fn tray_action(event: &TrayEvent) -> (r: TrayAction)
    ensures
        r == tray_action_of(*event),
{
    match event {
        TrayEvent::LeftClick => TrayAction::ShowMain,
        TrayEvent::MenuItemClick(id) => {
            if *id == String::from_str(QUIT_ID) {
                TrayAction::Quit
            } else if *id == String::from_str(SHOW_ID) {
                TrayAction::ShowMain
            } else if *id == String::from_str(HIDE_ID) {
                TrayAction::HideMain
            } else {
                TrayAction::Ignore
            }
        },
        TrayEvent::Other => TrayAction::Ignore,
    }
}

/// The operations an action performs on the main window, in order: showing
/// brings it forward and focuses it, hiding hides it, and the other actions
/// touch no window.
pub open spec fn main_window_ops_of(a: TrayAction) -> Seq<WindowOp> {
    match a {
        TrayAction::ShowMain => seq![WindowOp::Show, WindowOp::Focus],
        TrayAction::HideMain => seq![WindowOp::Hide],
        _ => seq![],
    }
}

/// Lists the operations an action performs on the main window.
pub fn main_window_ops(action: TrayAction) -> (r: Vec<WindowOp>)
    ensures
        r@ == main_window_ops_of(action),
{
    match action {
        TrayAction::ShowMain => crate::window::focus_ops(),
        TrayAction::HideMain => {
            let mut ops: Vec<WindowOp> = Vec::new();
            ops.push(WindowOp::Hide);
            proof {
                assert(ops@ =~= seq![WindowOp::Hide]);
            }
            ops
        },
        _ => {
            let ops: Vec<WindowOp> = Vec::new();
            proof {
                assert(ops@ =~= Seq::<WindowOp>::empty());
            }
            ops
        },
    }
}

/// A menu identifier that is none of the menu's items is ignored, and so
/// touches no window and does not quit.
pub proof fn unknown_menu_id_is_ignored(id: String)
    requires
        id@ != SHOW_ID@,
        id@ != HIDE_ID@,
        id@ != QUIT_ID@,
    ensures
        tray_action_of(TrayEvent::MenuItemClick(id)) == TrayAction::Ignore,
        main_window_ops_of(tray_action_of(TrayEvent::MenuItemClick(id))).len() == 0,
{
}

/// Choosing the quit item of the menu asks the shell to quit, and that is the
/// only event that does.
pub proof fn only_quit_item_quits(e: TrayEvent)
    ensures
        (tray_action_of(e) == TrayAction::Quit) <==> (e is MenuItemClick && e->MenuItemClick_0@ == QUIT_ID@),
{
}

/// Every item of the menu leads to an action other than ignoring it.
pub proof fn menu_items_are_handled(id: String)
    requires
        id@ == SHOW_ID@ || id@ == HIDE_ID@ || id@ == QUIT_ID@,
    ensures
        tray_action_of(TrayEvent::MenuItemClick(id)) != TrayAction::Ignore,
{
    reveal_strlit("show");
    reveal_strlit("hide");
    reveal_strlit("quit");
}

} // verus!
