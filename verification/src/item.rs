//! Menu items and their actions. A `MenuItem` is a tagged variant over a
//! plain label, a clickable button, a submenu or a separator, plus
//! enabled/hidden flags and up to four state images.

use vstd::prelude::*;

use crate::image::Image;
use crate::menu::Menu;
use crate::shortcut::Shortcut;

verus! {

/// What a clickable item does: one of the fixed built-in native behaviors,
/// no behavior at all, or a caller-supplied callback named by the slot it
/// was registered under (see `CallbackBridge`).
#[derive(Clone, Debug, PartialEq, Eq, Structural)]
pub enum Action {
    Hide,
    HideOthers,
    ShowAll,
    CloseWindow,
    Quit,
    ToggleFullScreen,
    Minimize,
    NoOp,
    Callback(u64),
}

impl Action {
    /// The designated native action selector for this action. The built-in
    /// behaviors name the responder-chain selector that performs them; a
    /// callback (and the no-op, which registers none) names the selector the
    /// bridged subclass answers.
    pub open spec fn spec_sel_name(&self) -> Seq<char> {
        match self {
            Action::Hide => "hide:"@,
            Action::HideOthers => "hideOtherApplications:"@,
            Action::ShowAll => "unhideAllApplications:"@,
            Action::CloseWindow => "performClose:"@,
            Action::Quit => "terminate:"@,
            Action::ToggleFullScreen => "toggleFullScreen:"@,
            Action::Minimize => "performMiniaturize:"@,
            Action::NoOp => "fireBlockAction:"@,
            Action::Callback(_) => "fireBlockAction:"@,
        }
    }

    /// An action that invokes the caller's closure registered under `slot`.
    pub fn callback(slot: u64) -> (r: Self)
        ensures
            r == Action::Callback(slot),
    {
        Action::Callback(slot)
    }

    /// The selector name handed to the native item, exactly as
    /// `spec_sel_name` describes it.
    pub fn sel_name(&self) -> (r: String)
        ensures
            r@ == self.spec_sel_name(),
    {
        match self {
            Action::Hide => "hide:".to_owned(),
            Action::HideOthers => "hideOtherApplications:".to_owned(),
            Action::ShowAll => "unhideAllApplications:".to_owned(),
            Action::CloseWindow => "performClose:".to_owned(),
            Action::Quit => "terminate:".to_owned(),
            Action::ToggleFullScreen => "toggleFullScreen:".to_owned(),
            Action::Minimize => "performMiniaturize:".to_owned(),
            Action::NoOp => "fireBlockAction:".to_owned(),
            Action::Callback(_) => "fireBlockAction:".to_owned(),
        }
    }
}

/// The variant of a menu item: a plain label, a clickable button with an
/// action and an optional shortcut, a submenu, or a separator line.
#[derive(Debug)]
pub enum MenuItemType {
    Dummy(String),
    Button(String, Action, Option<Shortcut>),
    SubMenu(Menu),
    Separator,
}

/// One entry of a menu: its variant plus enabled/hidden flags and the four
/// optional state images (default, on, off, mixed).
#[derive(Debug)]
pub struct MenuItem {
    pub item_type: MenuItemType,
    pub enabled: bool,
    pub hidden: bool,
    pub image: Option<Image>,
    pub image_on: Option<Image>,
    pub image_off: Option<Image>,
    pub image_mixed: Option<Image>,
}

impl MenuItem {
    /// The flags and images every constructor starts from: enabled, not
    /// hidden, no images.
    pub open spec fn has_default_flags(&self) -> bool {
        &&& self.enabled
        &&& !self.hidden
        &&& self.image is None
        &&& self.image_on is None
        &&& self.image_off is None
        &&& self.image_mixed is None
    }

    /// A separator line.
    pub fn separator() -> (r: Self)
        ensures
            r.item_type == MenuItemType::Separator,
            r.has_default_flags(),
    {
        Self {
            item_type: MenuItemType::Separator,
            enabled: true,
            hidden: false,
            image: None,
            image_on: None,
            image_off: None,
            image_mixed: None,
        }
    }

    /// A plain, non-clickable label.
    pub fn dummy(title: String) -> (r: Self)
        ensures
            r.item_type == MenuItemType::Dummy(title),
            r.has_default_flags(),
    {
        Self {
            item_type: MenuItemType::Dummy(title),
            enabled: true,
            hidden: false,
            image: None,
            image_on: None,
            image_off: None,
            image_mixed: None,
        }
    }

    /// An item that opens `menu` as its submenu.
    pub fn sub_menu(menu: Menu) -> (r: Self)
        ensures
            r.item_type == MenuItemType::SubMenu(menu),
            r.has_default_flags(),
    {
        Self {
            item_type: MenuItemType::SubMenu(menu),
            enabled: true,
            hidden: false,
            image: None,
            image_on: None,
            image_off: None,
            image_mixed: None,
        }
    }

    /// A clickable button with an action and an optional keyboard shortcut.
    pub fn button(title: String, action: Action, shortcut: Option<Shortcut>) -> (r: Self)
        ensures
            r.item_type == MenuItemType::Button(title, action, shortcut),
            r.has_default_flags(),
    {
        Self {
            item_type: MenuItemType::Button(title, action, shortcut),
            enabled: true,
            hidden: false,
            image: None,
            image_on: None,
            image_off: None,
            image_mixed: None,
        }
    }

    /// Sets the enabled flag, keeping everything else.
    pub fn enabled(self, enabled: bool) -> (r: Self)
        ensures
            r.enabled == enabled,
            r.item_type == self.item_type,
            r.hidden == self.hidden,
            r.image == self.image,
            r.image_on == self.image_on,
            r.image_off == self.image_off,
            r.image_mixed == self.image_mixed,
    {
        Self { enabled, ..self }
    }

    /// Sets the hidden flag, keeping everything else.
    pub fn hidden(self, hidden: bool) -> (r: Self)
        ensures
            r.hidden == hidden,
            r.item_type == self.item_type,
            r.enabled == self.enabled,
            r.image == self.image,
            r.image_on == self.image_on,
            r.image_off == self.image_off,
            r.image_mixed == self.image_mixed,
    {
        Self { hidden, ..self }
    }

    /// Sets the default image, keeping everything else.
    pub fn image(self, image: Option<Image>) -> (r: Self)
        ensures
            r.image == image,
            r.item_type == self.item_type,
            r.enabled == self.enabled,
            r.hidden == self.hidden,
            r.image_on == self.image_on,
            r.image_off == self.image_off,
            r.image_mixed == self.image_mixed,
    {
        Self { image, ..self }
    }

    /// Sets the on-state image, keeping everything else.
    pub fn image_on(self, image_on: Option<Image>) -> (r: Self)
        ensures
            r.image_on == image_on,
            r.item_type == self.item_type,
            r.enabled == self.enabled,
            r.hidden == self.hidden,
            r.image == self.image,
            r.image_off == self.image_off,
            r.image_mixed == self.image_mixed,
    {
        Self { image_on, ..self }
    }

    /// Sets the off-state image, keeping everything else.
    pub fn image_off(self, image_off: Option<Image>) -> (r: Self)
        ensures
            r.image_off == image_off,
            r.item_type == self.item_type,
            r.enabled == self.enabled,
            r.hidden == self.hidden,
            r.image == self.image,
            r.image_on == self.image_on,
            r.image_mixed == self.image_mixed,
    {
        Self { image_off, ..self }
    }

    /// Sets the mixed-state image, keeping everything else.
    pub fn image_mixed(self, image_mixed: Option<Image>) -> (r: Self)
        ensures
            r.image_mixed == image_mixed,
            r.item_type == self.item_type,
            r.enabled == self.enabled,
            r.hidden == self.hidden,
            r.image == self.image,
            r.image_on == self.image_on,
            r.image_off == self.image_off,
    {
        Self { image_mixed, ..self }
    }
}

impl Default for MenuItem {
    /// A plain label titled "default", with the default flags.
    fn default() -> (r: Self)
        ensures
            r.item_type matches MenuItemType::Dummy(t) && t@ == "default"@,
            r.has_default_flags(),
    {
        Self {
            item_type: MenuItemType::Dummy("default".to_owned()),
            enabled: true,
            hidden: false,
            image: None,
            image_on: None,
            image_off: None,
            image_mixed: None,
        }
    }
}

} // verus!
