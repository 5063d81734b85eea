//! The tray menu: its items, which of them a click names, and which are
//! enabled for an authentication state.

use crate::text::same_text;
use vstd::prelude::*;

verus! {

/// The items of the tray menu.
#[derive(Debug, Clone, Copy, PartialEq, Eq, Hash, Structural)]
pub enum MenuId {
    /// Opens the quick-add window.
    QuickAdd,
    /// Opens the settings window.
    Settings,
    /// Toggles launching at login.
    AutoStart,
    /// Logs the user out.
    LogOut,
    /// Quits the application.
    Quit,
}

impl MenuId {
    /// The item's identifier.
    pub open spec fn spec_name(self) -> Seq<char> {
        match self {
            MenuId::QuickAdd => "quick-add"@,
            MenuId::Settings => "settings"@,
            MenuId::AutoStart => "autostart"@,
            MenuId::LogOut => "log-out"@,
            MenuId::Quit => "quit"@,
        }
    }

    /// Returns the item's identifier.
    pub fn name(&self) -> (r: &'static str)
        ensures
            r@ == self.spec_name(),
    {
        match self {
            MenuId::QuickAdd => "quick-add",
            MenuId::Settings => "settings",
            MenuId::AutoStart => "autostart",
            MenuId::LogOut => "log-out",
            MenuId::Quit => "quit",
        }
    }

    /// The item's text in the menu.
    pub open spec fn spec_label(self) -> Seq<char> {
        match self {
            MenuId::QuickAdd => "Add a new task"@,
            MenuId::Settings => "Settings"@,
            MenuId::AutoStart => "Launch at startup"@,
            MenuId::LogOut => "Log out"@,
            MenuId::Quit => "Quit Capturist"@,
        }
    }

    /// Returns the item's text in the menu.
    pub fn label(&self) -> (r: &'static str)
        ensures
            r@ == self.spec_label(),
    {
        match self {
            MenuId::QuickAdd => "Add a new task",
            MenuId::Settings => "Settings",
            MenuId::AutoStart => "Launch at startup",
            MenuId::LogOut => "Log out",
            MenuId::Quit => "Quit Capturist",
        }
    }

    /// The item whose identifier is `value`, if any.
    pub fn from_name(value: &str) -> (r: Option<MenuId>)
        ensures
            r matches Some(m) ==> m.spec_name() == value@,
            r is None ==> forall|m: MenuId| m.spec_name() != value@,
    {
        if same_text(value, MenuId::QuickAdd.name()) {
            Some(MenuId::QuickAdd)
        } else if same_text(value, MenuId::Settings.name()) {
            Some(MenuId::Settings)
        } else if same_text(value, MenuId::AutoStart.name()) {
            Some(MenuId::AutoStart)
        } else if same_text(value, MenuId::LogOut.name()) {
            Some(MenuId::LogOut)
        } else if same_text(value, MenuId::Quit.name()) {
            Some(MenuId::Quit)
        } else {
            None
        }
    }
}

/// One entry of the tray menu.
#[derive(Debug, Clone, Copy, PartialEq, Eq, Structural)]
pub enum MenuEntry {
    /// A plain item.
    Item { id: MenuId, enabled: bool },
    /// An item with a check mark.
    Check { id: MenuId, enabled: bool, checked: bool },
    /// A separator line.
    Separator,
}

/// The tray menu: quick add and log out are usable only when logged in; the
/// launch-at-login toggle shows where the packaging allows it.
pub open spec fn menu_layout(
    authenticated: bool,
    autostart_available: bool,
    autostart_enabled: bool,
) -> Seq<MenuEntry> {
    let head = seq![MenuEntry::Item { id: MenuId::QuickAdd, enabled: authenticated }];
    let toggle = if autostart_available {
        seq![
            MenuEntry::Separator,
            MenuEntry::Check { id: MenuId::AutoStart, enabled: true, checked: autostart_enabled },
        ]
    } else {
        Seq::empty()
    };
    let tail = seq![
        MenuEntry::Separator,
        MenuEntry::Item { id: MenuId::LogOut, enabled: authenticated },
        MenuEntry::Item { id: MenuId::Quit, enabled: true },
    ];
    head + toggle + tail
}

/// Lays out the tray menu for the current state.
pub fn tray_menu_layout(authenticated: bool, autostart_available: bool, autostart_enabled: bool) -> (r:
    Vec<MenuEntry>)
    ensures
        r@ == menu_layout(authenticated, autostart_available, autostart_enabled),
{
    let mut entries: Vec<MenuEntry> = Vec::new();
    entries.push(MenuEntry::Item { id: MenuId::QuickAdd, enabled: authenticated });
    if autostart_available {
        entries.push(MenuEntry::Separator);
        entries.push(
            MenuEntry::Check { id: MenuId::AutoStart, enabled: true, checked: autostart_enabled },
        );
    }
    entries.push(MenuEntry::Separator);
    entries.push(MenuEntry::Item { id: MenuId::LogOut, enabled: authenticated });
    entries.push(MenuEntry::Item { id: MenuId::Quit, enabled: true });
    assert(entries@ =~= menu_layout(authenticated, autostart_available, autostart_enabled));
    entries
}

/// The items whose enabled state follows authentication, with the state
/// they take after an authentication event.
pub fn auth_dependent_items(authenticated: bool) -> (r: Vec<(MenuId, bool)>)
    ensures
        r@ == seq![(MenuId::QuickAdd, authenticated), (MenuId::LogOut, authenticated)],
{
    let mut items: Vec<(MenuId, bool)> = Vec::new();
    items.push((MenuId::QuickAdd, authenticated));
    items.push((MenuId::LogOut, authenticated));
    assert(items@ =~= seq![(MenuId::QuickAdd, authenticated), (MenuId::LogOut, authenticated)]);
    items
}

} // verus!
