//! The native side of the library, modelled: what a converted menu item, a
//! converted menu and the application's menu bar hold after each call. The
//! real toolkit objects live outside this crate; conversion and activation
//! are verified against this model, and the unverified shell replays the
//! same steps against the toolkit.

use vstd::prelude::*;

use crate::image::Image;
use crate::item::Action;
use crate::item::MenuItem;
use crate::item::MenuItemType;
use crate::menu::Menu;
use crate::menubar::MenuBar;

verus! {

use crate::image::ImageModel;

/// What one native menu item holds once conversion is done: the title, the
/// action selector (if any), the key equivalent and modifier mask, the
/// enabled/hidden flags, the four state images by their resolution, the
/// converted submenu (if any), whether it is the separator item, and the
/// callback slot registered on it (if any).
#[verifier::ext_equal]
pub ghost struct ItemModel {
    pub title: Seq<char>,
    pub sel: Option<Seq<char>>,
    pub key_equivalent: Seq<char>,
    pub modifier_mask: usize,
    pub enabled: bool,
    pub hidden: bool,
    pub image: Option<ImageModel>,
    pub image_on: Option<ImageModel>,
    pub image_off: Option<ImageModel>,
    pub image_mixed: Option<ImageModel>,
    pub submenu: Option<MenuModel>,
    pub separator: bool,
    pub callback: Option<u64>,
}

/// What one native menu holds once conversion is done: its title, the
/// auto-enable flag (always switched off, so the explicit item flags are
/// authoritative) and its items in order.
#[verifier::ext_equal]
pub ghost struct MenuModel {
    pub title: Seq<char>,
    pub autoenables_items: bool,
    pub items: Seq<ItemModel>,
}

/// A freshly constructed native item: empty title, no action, no key
/// equivalent, mask 0, enabled, visible, no images, no submenu, not a
/// separator, no callback.
pub open spec fn spec_blank_item() -> ItemModel {
    ItemModel {
        title: Seq::<char>::empty(),
        sel: None,
        key_equivalent: Seq::<char>::empty(),
        modifier_mask: 0,
        enabled: true,
        hidden: false,
        image: None,
        image_on: None,
        image_off: None,
        image_mixed: None,
        submenu: None,
        separator: false,
        callback: None,
    }
}

/// The resolution of an optional image source.
pub open spec fn spec_image_option(img: Option<Image>) -> Option<ImageModel> {
    match img {
        Some(i) => Some(i.model()),
        None => None,
    }
}

/// The native item a menu item converts to. The variant decides title,
/// selector, key equivalent, mask, submenu, separator and callback slot; the
/// item's own flags and images are applied on top.
pub open spec fn spec_item_model(item: MenuItem) -> ItemModel
    decreases item,
{
    let base = match item.item_type {
        MenuItemType::Dummy(title) => ItemModel { title: title@, ..spec_blank_item() },
        MenuItemType::Button(title, action, shortcut) => ItemModel {
            title: title@,
            sel: Some(action.spec_sel_name()),
            key_equivalent: match shortcut {
                Some(s) => s.key.spec_string(),
                None => Seq::<char>::empty(),
            },
            modifier_mask: match shortcut {
                Some(s) => s.spec_mask(),
                None => 0,
            },
            callback: match action {
                Action::Callback(slot) => Some(slot),
                _ => None,
            },
            ..spec_blank_item()
        },
        MenuItemType::SubMenu(menu) => ItemModel {
            submenu: Some(spec_menu_model(menu)),
            ..spec_blank_item()
        },
        MenuItemType::Separator => ItemModel { separator: true, ..spec_blank_item() },
    };
    ItemModel {
        enabled: item.enabled,
        hidden: item.hidden,
        image: spec_image_option(item.image),
        image_on: spec_image_option(item.image_on),
        image_off: spec_image_option(item.image_off),
        image_mixed: spec_image_option(item.image_mixed),
        ..base
    }
}

/// The native items a list of menu items converts to, one each, in order.
pub open spec fn spec_items_models(items: Seq<MenuItem>) -> Seq<ItemModel>
    decreases items,
{
    if items.len() == 0 {
        Seq::<ItemModel>::empty()
    } else {
        spec_items_models(items.drop_last()).push(spec_item_model(items.last()))
    }
}

/// The native menu a menu converts to: same title, auto-enable switched
/// off, and the converted items in the same order.
pub open spec fn spec_menu_model(m: Menu) -> MenuModel
    decreases m,
{
    MenuModel { title: m.title@, autoenables_items: false, items: spec_items_models(m.items@) }
}

/// Conversion of a list keeps length and order: the native item at each
/// position is the conversion of the menu item at the same position.
pub proof fn lemma_items_models_index(items: Seq<MenuItem>)
    ensures
        spec_items_models(items).len() == items.len(),
        forall|i: int|
            0 <= i < items.len() ==> #[trigger] spec_items_models(items)[i] == spec_item_model(
                items[i],
            ),
    decreases items.len(),
{
    if items.len() > 0 {
        lemma_items_models_index(items.drop_last());
    }
}

/// Menu assembly keeps order: the converted menu has exactly one native
/// item per appended item, at the same position.
pub proof fn lemma_menu_order_preserved(m: Menu)
    ensures
        spec_menu_model(m).items.len() == m.items@.len(),
        forall|i: int|
            0 <= i < m.items@.len() ==> #[trigger] spec_menu_model(m).items[i] == spec_item_model(
                m.items@[i],
            ),
{
    lemma_items_models_index(m.items@);
}

/// One native menu item as conversion builds it; `native_item_model` reads
/// it back as an `ItemModel`.
pub struct NativeItem {
    pub title: String,
    pub sel: Option<String>,
    pub key_equivalent: String,
    pub modifier_mask: usize,
    pub enabled: bool,
    pub hidden: bool,
    pub image: Option<Image>,
    pub image_on: Option<Image>,
    pub image_off: Option<Image>,
    pub image_mixed: Option<Image>,
    pub submenu: Option<Box<NativeMenu>>,
    pub separator: bool,
    pub callback: Option<u64>,
}

/// One native menu as conversion builds it.
pub struct NativeMenu {
    pub title: String,
    pub autoenables_items: bool,
    pub items: Vec<NativeItem>,
}

/// The view of an optional selector string.
pub open spec fn spec_str_option(s: Option<String>) -> Option<Seq<char>> {
    match s {
        Some(x) => Some(x@),
        None => None,
    }
}

/// What a built native item holds, field by field.
pub open spec fn native_item_model(it: NativeItem) -> ItemModel
    decreases it,
{
    ItemModel {
        title: it.title@,
        sel: spec_str_option(it.sel),
        key_equivalent: it.key_equivalent@,
        modifier_mask: it.modifier_mask,
        enabled: it.enabled,
        hidden: it.hidden,
        image: spec_image_option(it.image),
        image_on: spec_image_option(it.image_on),
        image_off: spec_image_option(it.image_off),
        image_mixed: spec_image_option(it.image_mixed),
        submenu: match it.submenu {
            Some(m) => Some(native_menu_model(*m)),
            None => None,
        },
        separator: it.separator,
        callback: it.callback,
    }
}

/// What a list of built native items holds, one model each, in order.
pub open spec fn native_items_models(items: Seq<NativeItem>) -> Seq<ItemModel>
    decreases items,
{
    if items.len() == 0 {
        Seq::<ItemModel>::empty()
    } else {
        native_items_models(items.drop_last()).push(native_item_model(items.last()))
    }
}

/// What a built native menu holds.
pub open spec fn native_menu_model(m: NativeMenu) -> MenuModel
    decreases m,
{
    MenuModel {
        title: m.title@,
        autoenables_items: m.autoenables_items,
        items: native_items_models(m.items@),
    }
}

/// Reading a list of built items keeps length and order.
pub proof fn lemma_native_items_models_index(items: Seq<NativeItem>)
    ensures
        native_items_models(items).len() == items.len(),
        forall|i: int|
            0 <= i < items.len() ==> #[trigger] native_items_models(items)[i] == native_item_model(
                items[i],
            ),
    decreases items.len(),
{
    if items.len() > 0 {
        lemma_native_items_models_index(items.drop_last());
    }
}

/// Reading a list of built items commutes with appending one more.
pub proof fn lemma_native_items_models_push(items: Seq<NativeItem>, it: NativeItem)
    ensures
        native_items_models(items.push(it)) == native_items_models(items).push(
            native_item_model(it),
        ),
{
    assert(items.push(it).drop_last() =~= items);
}

/// Converting one more menu item commutes with extending the prefix.
pub proof fn lemma_spec_items_models_snoc(items: Seq<MenuItem>, i: int)
    requires
        0 <= i < items.len(),
    ensures
        spec_items_models(items.subrange(0, i + 1)) == spec_items_models(
            items.subrange(0, i),
        ).push(spec_item_model(items[i])),
{
    assert(items.subrange(0, i + 1).drop_last() =~= items.subrange(0, i));
    assert(items.subrange(0, i + 1).last() == items[i]);
}

/// A copy of an optional image source with the same resolution.
fn duplicate_opt_image(img: &Option<Image>) -> (r: Option<Image>)
    ensures
        spec_image_option(r) == spec_image_option(*img),
{
    match img {
        Some(i) => Some(i.duplicate()),
        None => None,
    }
}

/// Converts one menu item to its native item, exactly as `spec_item_model`
/// describes: the variant decides the base fields, then the flags and
/// images are applied on top.
pub fn item_to_native(item: &MenuItem) -> (r: NativeItem)
    ensures
        native_item_model(r) == spec_item_model(*item),
    decreases *item,
{
    let mut r = match &item.item_type {
        MenuItemType::Dummy(title) => NativeItem {
            title: title.clone(),
            sel: None,
            key_equivalent: String::new(),
            modifier_mask: 0,
            enabled: true,
            hidden: false,
            image: None,
            image_on: None,
            image_off: None,
            image_mixed: None,
            submenu: None,
            separator: false,
            callback: None,
        },
        MenuItemType::Button(title, action, shortcut) => {
            let key_equivalent: String = match shortcut {
                Some(sc) => sc.key.to_string(),
                None => String::new(),
            };
            let modifier_mask: usize = match shortcut {
                Some(sc) => sc.mask(),
                None => 0,
            };
            let callback: Option<u64> = match action {
                Action::Callback(slot) => Some(*slot),
                _ => None,
            };
            NativeItem {
                title: title.clone(),
                sel: Some(action.sel_name()),
                key_equivalent,
                modifier_mask,
                enabled: true,
                hidden: false,
                image: None,
                image_on: None,
                image_off: None,
                image_mixed: None,
                submenu: None,
                separator: false,
                callback,
            }
        },
        MenuItemType::SubMenu(menu) => {
            let nm = menu_to_native(menu);
            NativeItem {
                title: String::new(),
                sel: None,
                key_equivalent: String::new(),
                modifier_mask: 0,
                enabled: true,
                hidden: false,
                image: None,
                image_on: None,
                image_off: None,
                image_mixed: None,
                submenu: Some(Box::new(nm)),
                separator: false,
                callback: None,
            }
        },
        MenuItemType::Separator => NativeItem {
            title: String::new(),
            sel: None,
            key_equivalent: String::new(),
            modifier_mask: 0,
            enabled: true,
            hidden: false,
            image: None,
            image_on: None,
            image_off: None,
            image_mixed: None,
            submenu: None,
            separator: true,
            callback: None,
        },
    };
    r.enabled = item.enabled;
    r.hidden = item.hidden;
    r.image = duplicate_opt_image(&item.image);
    r.image_on = duplicate_opt_image(&item.image_on);
    r.image_off = duplicate_opt_image(&item.image_off);
    r.image_mixed = duplicate_opt_image(&item.image_mixed);
    proof {
        assert(native_item_model(r) =~~= spec_item_model(*item));
    }
    r
}

/// Converts a menu to its native menu: same title, auto-enable switched
/// off, each item converted and appended in order.
pub fn menu_to_native(menu: &Menu) -> (r: NativeMenu)
    ensures
        native_menu_model(r) == spec_menu_model(*menu),
    decreases *menu,
{
    let mut items: Vec<NativeItem> = Vec::new();
    let mut idx: usize = 0;
    while idx < menu.items.len()
        invariant
            idx <= menu.items.len(),
            native_items_models(items@) == spec_items_models(menu.items@.subrange(0, idx as int)),
        decreases menu.items.len() - idx,
    {
        let ghost prev = items@;
        let ni = item_to_native(&menu.items[idx]);
        items.push(ni);
        proof {
            lemma_native_items_models_push(prev, ni);
            lemma_spec_items_models_snoc(menu.items@, idx as int);
        }
        idx = idx + 1;
    }
    proof {
        assert(menu.items@.subrange(0, menu.items@.len() as int) =~= menu.items@);
    }
    let r = NativeMenu { title: menu.title.clone(), autoenables_items: false, items };
    proof {
        assert(native_menu_model(r) =~~= spec_menu_model(*menu));
    }
    r
}

/// The native application menu bar, as activation leaves it: its top-level
/// items in order, each typically a blank item holding one converted menu.
pub struct NativeMenuBar {
    pub items: Vec<NativeItem>,
}

impl NativeMenuBar {
    /// The models of the top-level items, in order.
    pub open spec fn model(&self) -> Seq<ItemModel> {
        native_items_models(self.items@)
    }

    /// An empty menu bar, as a host application starts out before anything
    /// was activated.
    pub fn new() -> (r: Self)
        ensures
            r.model() == Seq::<ItemModel>::empty(),
    {
        NativeMenuBar { items: Vec::new() }
    }
}

/// A blank top-level item holding one converted menu as its submenu.
pub open spec fn spec_top_item(menu: MenuModel) -> ItemModel {
    ItemModel { submenu: Some(menu), ..spec_blank_item() }
}

/// The top-level items a list of menus contributes, one each, in order.
pub open spec fn spec_top_items(menus: Seq<Menu>) -> Seq<ItemModel>
    decreases menus,
{
    if menus.len() == 0 {
        Seq::<ItemModel>::empty()
    } else {
        spec_top_items(menus.drop_last()).push(spec_top_item(spec_menu_model(menus.last())))
    }
}

/// Contributing one more menu commutes with extending the prefix.
pub proof fn lemma_spec_top_items_snoc(menus: Seq<Menu>, i: int)
    requires
        0 <= i < menus.len(),
    ensures
        spec_top_items(menus.subrange(0, i + 1)) == spec_top_items(menus.subrange(0, i)).push(
            spec_top_item(spec_menu_model(menus[i])),
        ),
{
    assert(menus.subrange(0, i + 1).drop_last() =~= menus.subrange(0, i));
    assert(menus.subrange(0, i + 1).last() == menus[i]);
}

/// Contributed top-level items keep length and order.
pub proof fn lemma_spec_top_items_index(menus: Seq<Menu>)
    ensures
        spec_top_items(menus).len() == menus.len(),
        forall|i: int|
            0 <= i < menus.len() ==> #[trigger] spec_top_items(menus)[i] == spec_top_item(
                spec_menu_model(menus[i]),
            ),
    decreases menus.len(),
{
    if menus.len() > 0 {
        lemma_spec_top_items_index(menus.drop_last());
    }
}

/// What activation leaves in the menu bar, given what was there before:
/// with a root-menu override, everything is removed and the override comes
/// first; without one, only the first prior item (the native root menu) is
/// kept. Either way the described menus follow, converted, in order. No
/// diffing: every activation rebuilds the whole bar.
pub open spec fn spec_activate(prior: Seq<ItemModel>, menubar: MenuBar) -> Seq<ItemModel> {
    let converted = spec_top_items(menubar.menus@);
    match menubar.main_menu {
        Some(root) => seq![spec_top_item(spec_menu_model(root))] + converted,
        None => if prior.len() > 0 {
            seq![prior[0]] + converted
        } else {
            converted
        },
    }
}

/// A blank top-level item around one converted menu.
fn native_top_item(menu: NativeMenu) -> (r: NativeItem)
    ensures
        native_item_model(r) == spec_top_item(native_menu_model(menu)),
{
    let r = NativeItem {
        title: String::new(),
        sel: None,
        key_equivalent: String::new(),
        modifier_mask: 0,
        enabled: true,
        hidden: false,
        image: None,
        image_on: None,
        image_off: None,
        image_mixed: None,
        submenu: Some(Box::new(menu)),
        separator: false,
        callback: None,
    };
    proof {
        assert(native_item_model(r) =~~= spec_top_item(native_menu_model(menu)));
    }
    r
}

/// Replaces the menu bar's content with what `menubar` describes, exactly
/// as `spec_activate` says: full teardown and rebuild, keeping only the
/// native root menu when no override is given.
pub fn activate_menubar(bar: &mut NativeMenuBar, menubar: &MenuBar)
    ensures
        final(bar).model() == spec_activate(old(bar).model(), *menubar),
{
    proof {
        lemma_native_items_models_index(old(bar).items@);
    }
    match &menubar.main_menu {
        Some(root) => {
            bar.items.clear();
            let nm = menu_to_native(root);
            let top = native_top_item(nm);
            let ghost prev = bar.items@;
            bar.items.push(top);
            proof {
                lemma_native_items_models_push(prev, top);
            }
        },
        None => {
            let ghost prev = bar.items@;
            bar.items.truncate(1);
            proof {
                if prev.len() > 0 {
                    assert(bar.items@ =~= prev.subrange(0, 1));
                    assert(bar.items@ =~= Seq::<NativeItem>::empty().push(prev[0]));
                    lemma_native_items_models_push(Seq::<NativeItem>::empty(), prev[0]);
                } else {
                    assert(bar.items@ =~= prev);
                }
            }
        },
    }
    let ghost head = native_items_models(bar.items@);
    let mut idx: usize = 0;
    while idx < menubar.menus.len()
        invariant
            idx <= menubar.menus.len(),
            native_items_models(bar.items@) == head + spec_top_items(
                menubar.menus@.subrange(0, idx as int),
            ),
        decreases menubar.menus.len() - idx,
    {
        let nm = menu_to_native(&menubar.menus[idx]);
        let top = native_top_item(nm);
        let ghost prev = bar.items@;
        bar.items.push(top);
        proof {
            lemma_native_items_models_push(prev, top);
            lemma_spec_top_items_snoc(menubar.menus@, idx as int);
            assert(head + spec_top_items(menubar.menus@.subrange(0, idx as int + 1)) =~= (head
                + spec_top_items(menubar.menus@.subrange(0, idx as int))).push(
                spec_top_item(spec_menu_model(menubar.menus@[idx as int]))));
        }
        idx = idx + 1;
    }
    proof {
        assert(menubar.menus@.subrange(0, menubar.menus@.len() as int) =~= menubar.menus@);
        assert(final(bar).model() =~= spec_activate(old(bar).model(), *menubar));
    }
}

/// Activation is idempotent: activating the same menu bar value twice in a
/// row leaves the same top-level items as activating it once. The one
/// starting state left out is a bar that is still completely empty while
/// `menubar` keeps the (then absent) native root menu and adds menus: the
/// first activation then has no root item to keep, the second does.
pub proof fn lemma_activate_idempotent(prior: Seq<ItemModel>, menubar: MenuBar)
    requires
        menubar.main_menu is Some || prior.len() > 0 || menubar.menus@.len() == 0,
    ensures
        spec_activate(spec_activate(prior, menubar), menubar) == spec_activate(prior, menubar),
{
    let once = spec_activate(prior, menubar);
    lemma_spec_top_items_index(menubar.menus@);
    match menubar.main_menu {
        Some(root) => {
            assert(spec_activate(once, menubar) =~= once);
        },
        None => {
            if prior.len() > 0 {
                assert(once[0] == prior[0]);
                assert(spec_activate(once, menubar) =~= once);
            } else {
                assert(spec_activate(once, menubar) =~= once);
            }
        },
    }
}

} // verus!
