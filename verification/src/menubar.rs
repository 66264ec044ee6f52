//! The menu bar description: an optional override for the native root menu
//! plus the ordered top-level menus. It is consumed anew by each activation;
//! nothing in it tracks native state.

use vstd::prelude::*;

use crate::menu::Menu;

verus! {

/// A menu bar: `main_menu` optionally replaces the native root menu (the
/// first top-level entry); `menus` are the top-level menus in order.
#[derive(Debug)]
pub struct MenuBar {
    pub main_menu: Option<Menu>,
    pub menus: Vec<Menu>,
}

impl MenuBar {
    /// A menu bar that keeps the native root menu and shows `menus` after
    /// it, in order.
    pub fn new(menus: Vec<Menu>) -> (r: Self)
        ensures
            r.main_menu is None,
            r.menus == menus,
    {
        Self { main_menu: None, menus }
    }

    /// Sets or clears the root-menu override, keeping the menus.
    pub fn main_menu(self, main_menu: Option<Menu>) -> (r: Self)
        ensures
            r.main_menu == main_menu,
            r.menus == self.menus,
    {
        Self { main_menu, ..self }
    }
}

} // verus!
