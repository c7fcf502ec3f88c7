//! The tray menu: its five items, their identifiers and labels, and its layout.

use crate::text::str_eq;
use vstd::prelude::*;

verus! {

/// One of the five items of the tray menu.
#[derive(Clone, Copy, Debug, PartialEq, Eq, Structural)]
pub enum MenuId {
    Show,
    Hide,
    Status,
    Docs,
    Quit,
}

impl MenuId {
    /// The stable identifier that the toolkit hands back when the item is clicked.
    pub open spec fn id_text(self) -> Seq<char> {
        match self {
            MenuId::Show => "show"@,
            MenuId::Hide => "hide"@,
            MenuId::Status => "status"@,
            MenuId::Docs => "docs"@,
            MenuId::Quit => "quit"@,
        }
    }

    /// The label that the menu displays for the item.
    pub open spec fn label_text(self) -> Seq<char> {
        match self {
            MenuId::Show => "Show"@,
            MenuId::Hide => "Hide"@,
            MenuId::Status => "System Status"@,
            MenuId::Docs => "API Docs"@,
            MenuId::Quit => "Quit"@,
        }
    }

    /// The identifier under which the item is registered with the toolkit.
    pub fn id(self) -> (s: &'static str)
        ensures
            s@ == self.id_text(),
    {
        match self {
            MenuId::Show => "show",
            MenuId::Hide => "hide",
            MenuId::Status => "status",
            MenuId::Docs => "docs",
            MenuId::Quit => "quit",
        }
    }

    /// The text of the item's row in the menu.
    pub fn label(self) -> (s: &'static str)
        ensures
            s@ == self.label_text(),
    {
        match self {
            MenuId::Show => "Show",
            MenuId::Hide => "Hide",
            MenuId::Status => "System Status",
            MenuId::Docs => "API Docs",
            MenuId::Quit => "Quit",
        }
    }

    /// The item that an identifier names, if it names one.
    pub open spec fn parse_text(id: Seq<char>) -> Option<MenuId> {
        if id == MenuId::Quit.id_text() {
            Some(MenuId::Quit)
        } else if id == MenuId::Hide.id_text() {
            Some(MenuId::Hide)
        } else if id == MenuId::Show.id_text() {
            Some(MenuId::Show)
        } else if id == MenuId::Docs.id_text() {
            Some(MenuId::Docs)
        } else if id == MenuId::Status.id_text() {
            Some(MenuId::Status)
        } else {
            None
        }
    }

    /// Reads an identifier delivered by the toolkit. Identifiers are matched
    /// exactly; anything else names no item.
    pub fn parse(id: &str) -> (item: Option<MenuId>)
        ensures
            item == MenuId::parse_text(id@),
            item matches Some(m) ==> m.id_text() == id@,
            item is None ==> forall|m: MenuId| m.id_text() != id@,
    {
        let item = if str_eq(id, MenuId::Quit.id()) {
            Some(MenuId::Quit)
        } else if str_eq(id, MenuId::Hide.id()) {
            Some(MenuId::Hide)
        } else if str_eq(id, MenuId::Show.id()) {
            Some(MenuId::Show)
        } else if str_eq(id, MenuId::Docs.id()) {
            Some(MenuId::Docs)
        } else if str_eq(id, MenuId::Status.id()) {
            Some(MenuId::Status)
        } else {
            None
        };
        proof {
            lemma_parse_finds_the_named_item(id@);
        }
        item
    }
}

/// No two items share an identifier, so a click names at most one item.
pub proof fn lemma_ids_are_distinct(a: MenuId, b: MenuId)
    requires
        a != b,
    ensures
        a.id_text() != b.id_text(),
{
    reveal_strlit("show");
    reveal_strlit("hide");
    reveal_strlit("status");
    reveal_strlit("docs");
    reveal_strlit("quit");
    assert("show"@.len() == 4 && "hide"@.len() == 4 && "docs"@.len() == 4 && "quit"@.len() == 4);
    assert("status"@.len() == 6);
    assert("show"@[0] == 's' && "hide"@[0] == 'h' && "docs"@[0] == 'd' && "quit"@[0] == 'q');
}

/// Reading an item's own identifier gives the item back.
pub proof fn lemma_parse_inverts_id(m: MenuId)
    ensures
        MenuId::parse_text(m.id_text()) == Some(m),
{
    if m != MenuId::Quit {
        lemma_ids_are_distinct(m, MenuId::Quit);
    }
    if m != MenuId::Hide {
        lemma_ids_are_distinct(m, MenuId::Hide);
    }
    if m != MenuId::Show {
        lemma_ids_are_distinct(m, MenuId::Show);
    }
    if m != MenuId::Docs {
        lemma_ids_are_distinct(m, MenuId::Docs);
    }
}

/// An identifier is read as an item exactly when it is that item's identifier,
/// and as nothing exactly when it is the identifier of no item.
pub proof fn lemma_parse_finds_the_named_item(id: Seq<char>)
    ensures
        forall|m: MenuId| MenuId::parse_text(id) == Some(m) <==> m.id_text() == id,
        MenuId::parse_text(id) is None <==> forall|m: MenuId| m.id_text() != id,
{
    assert forall|m: MenuId| MenuId::parse_text(id) == Some(m) <==> m.id_text() == id by {
        if m.id_text() == id {
            lemma_parse_inverts_id(m);
        }
    }
    if forall|m: MenuId| m.id_text() != id {
        assert(MenuId::Quit.id_text() != id);
        assert(MenuId::Hide.id_text() != id);
        assert(MenuId::Show.id_text() != id);
        assert(MenuId::Docs.id_text() != id);
        assert(MenuId::Status.id_text() != id);
    }
}

/// One row of the tray menu.
#[derive(Clone, Copy, Debug, PartialEq, Eq, Structural)]
pub enum MenuEntry {
    Item(MenuId),
    Separator,
}

/// The rows of the tray menu, top to bottom.
pub open spec fn tray_menu_layout() -> Seq<MenuEntry> {
    seq![
        MenuEntry::Item(MenuId::Show),
        MenuEntry::Item(MenuId::Hide),
        MenuEntry::Separator,
        MenuEntry::Item(MenuId::Status),
        MenuEntry::Item(MenuId::Docs),
        MenuEntry::Separator,
        MenuEntry::Item(MenuId::Quit),
    ]
}

/// Builds the tray menu that is registered with the toolkit at startup.
pub fn tray_menu() -> (menu: Vec<MenuEntry>)
    ensures
        menu@ == tray_menu_layout(),
{
    let mut menu: Vec<MenuEntry> = Vec::new();
    menu.push(MenuEntry::Item(MenuId::Show));
    menu.push(MenuEntry::Item(MenuId::Hide));
    menu.push(MenuEntry::Separator);
    menu.push(MenuEntry::Item(MenuId::Status));
    menu.push(MenuEntry::Item(MenuId::Docs));
    menu.push(MenuEntry::Separator);
    menu.push(MenuEntry::Item(MenuId::Quit));
    menu
}

/// Every item stands in the tray menu, in exactly one row.
pub proof fn lemma_menu_offers_each_item_once(m: MenuId)
    ensures
        exists|i: int|
            0 <= i < tray_menu_layout().len() && #[trigger] tray_menu_layout()[i]
                == MenuEntry::Item(m),
        forall|i: int, j: int|
            0 <= i < tray_menu_layout().len() && 0 <= j < tray_menu_layout().len()
                && #[trigger] tray_menu_layout()[i] == MenuEntry::Item(m)
                && #[trigger] tray_menu_layout()[j] == MenuEntry::Item(m) ==> i == j,
{
    let menu = tray_menu_layout();
    match m {
        MenuId::Show => assert(menu[0] == MenuEntry::Item(m)),
        MenuId::Hide => assert(menu[1] == MenuEntry::Item(m)),
        MenuId::Status => assert(menu[3] == MenuEntry::Item(m)),
        MenuId::Docs => assert(menu[4] == MenuEntry::Item(m)),
        MenuId::Quit => assert(menu[6] == MenuEntry::Item(m)),
    }
}

} // verus!
