//! The tray menu: its items, their labels and identifiers, and the menu that
//! mirrors a given pin state.

use vstd::prelude::*;

verus! {

/// An entry of the tray menu.
#[derive(Clone, Copy, PartialEq, Eq, Structural, Debug)]
pub enum TrayItem {
    TogglePin,
    ShowSettings,
    Quit,
}

/// The identifier under which the tray reports a click on `item`.
pub open spec fn item_id_spec(item: TrayItem) -> Seq<char> {
    match item {
        TrayItem::TogglePin => "toggle_pin"@,
        TrayItem::ShowSettings => "settings"@,
        TrayItem::Quit => "quit"@,
    }
}

/// The item that a click identifier names, if any.
pub open spec fn item_for_id(id: Seq<char>) -> Option<TrayItem> {
    if id == "toggle_pin"@ {
        Some(TrayItem::TogglePin)
    } else if id == "settings"@ {
        Some(TrayItem::ShowSettings)
    } else if id == "quit"@ {
        Some(TrayItem::Quit)
    } else {
        None
    }
}

/// The label of the pin entry: it offers the action that a click performs.
pub open spec fn pin_label_spec(pinned: bool) -> Seq<char> {
    if pinned {
        "Unpin"@
    } else {
        "Pin"@
    }
}

/// The label that `item` shows while the pin flag is `pinned`.
pub open spec fn item_label_spec(item: TrayItem, pinned: bool) -> Seq<char> {
    match item {
        TrayItem::TogglePin => pin_label_spec(pinned),
        TrayItem::ShowSettings => "Show Settings"@,
        TrayItem::Quit => "Quit"@,
    }
}

/// The items of the menu, in display order.
pub open spec fn menu_items() -> Seq<TrayItem> {
    seq![TrayItem::TogglePin, TrayItem::ShowSettings, TrayItem::Quit]
}

/// One labelled, clickable entry of a built menu.
#[derive(Clone, Copy, Debug)]
pub struct MenuEntry {
    pub item: TrayItem,
    pub label: &'static str,
}

/// A menu, built whole for one pin state.
#[derive(Debug)]
pub struct TrayMenu {
    pub entries: Vec<MenuEntry>,
}

impl TrayMenu {
    /// The menu shows every item of `menu_items` in order, each with the
    /// label that the pin state `pinned` gives it.
    pub open spec fn reflects(&self, pinned: bool) -> bool {
        &&& self.entries@.len() == menu_items().len()
        &&& forall|i: int|
            0 <= i < self.entries@.len() ==> {
                &&& (#[trigger] self.entries@[i]).item == menu_items()[i]
                &&& self.entries@[i].label@ == item_label_spec(menu_items()[i], pinned)
            }
    }

    /// The label that the pin entry of the menu shows.
    pub open spec fn pin_entry_label(&self) -> Seq<char> {
        self.entries@[0].label@
    }

    /// Builds the whole menu for the pin state `pinned`.
    pub fn for_state(pinned: bool) -> (r: TrayMenu)
        ensures
            r.reflects(pinned),
            r.pin_entry_label() == pin_label_spec(pinned),
    {
        let mut entries: Vec<MenuEntry> = Vec::new();
        entries.push(MenuEntry { item: TrayItem::TogglePin, label: TrayItem::TogglePin.label(pinned) });
        entries.push(MenuEntry { item: TrayItem::ShowSettings, label: TrayItem::ShowSettings.label(pinned) });
        entries.push(MenuEntry { item: TrayItem::Quit, label: TrayItem::Quit.label(pinned) });
        let r = TrayMenu { entries };
        assert(r.reflects(pinned));
        r
    }

    /// The label that the pin entry shows.
    pub fn pin_label(&self) -> (r: &'static str)
        requires
            self.entries@.len() > 0,
        ensures
            r@ == self.pin_entry_label(),
    {
        self.entries[0].label
    }
}

impl TrayItem {
    /// The identifier under which the tray reports a click on this item.
    pub fn id(&self) -> (r: &'static str)
        ensures
            r@ == item_id_spec(*self),
    {
        match self {
            TrayItem::TogglePin => "toggle_pin",
            TrayItem::ShowSettings => "settings",
            TrayItem::Quit => "quit",
        }
    }

    /// The label of this item while the pin flag is `pinned`.
    pub fn label(&self, pinned: bool) -> (r: &'static str)
        ensures
            r@ == item_label_spec(*self, pinned),
    {
        match self {
            TrayItem::TogglePin => if pinned {
                "Unpin"
            } else {
                "Pin"
            },
            TrayItem::ShowSettings => "Show Settings",
            TrayItem::Quit => "Quit",
        }
    }

    /// The item that the click identifier `id` names; `None` for an identifier
    /// that no item has.
    pub fn from_id(id: &str) -> (r: Option<TrayItem>)
        ensures
            r == item_for_id(id@),
    {
        let owned = id.to_owned();
        if owned == "toggle_pin".to_owned() {
            Some(TrayItem::TogglePin)
        } else if owned == "settings".to_owned() {
            Some(TrayItem::ShowSettings)
        } else if owned == "quit".to_owned() {
            Some(TrayItem::Quit)
        } else {
            None
        }
    }
}

/// A menu built for a pin state labels its pin entry "Unpin" when pinned and
/// "Pin" when not, whichever way it was reached.
pub proof fn lemma_pin_entry_label(menu: TrayMenu, pinned: bool)
    requires
        menu.reflects(pinned),
    ensures
        menu.pin_entry_label() == (if pinned {
            "Unpin"@
        } else {
            "Pin"@
        }),
{
    assert(menu.entries@[0].item == menu_items()[0]);
}

/// The identifier of every item leads back to that item.
pub proof fn lemma_item_ids_round_trip(item: TrayItem)
    ensures
        item_for_id(item_id_spec(item)) == Some(item),
{
    reveal_strlit("toggle_pin");
    reveal_strlit("settings");
    reveal_strlit("quit");
    assert("toggle_pin"@.len() == 10);
    assert("settings"@.len() == 8);
    assert("quit"@.len() == 4);
}

} // verus!
