//! Value-level description of a native menu bar: menus, menu items, keyboard
//! shortcuts, images and actions, together with a verified model of the
//! native objects that activation derives from them and of the callback
//! bookkeeping that clickable items need.

mod bridge;
mod image;
mod item;
mod menu;
mod menubar;
mod native;
mod shortcut;

pub use bridge::CallbackBridge;
pub use bridge::lemma_dealloc_frees_at_most_once;
pub use bridge::lemma_register_overwrites;
pub use bridge::lemma_register_then_fire;
pub use image::Image;
pub use image::ImageModel;
pub use item::Action;
pub use item::MenuItem;
pub use item::MenuItemType;
pub use menu::Menu;
pub use menu::lemma_append_items_is_repeated_add;
pub use menu::spec_added_one_by_one;
pub use menubar::MenuBar;
pub use native::ItemModel;
pub use native::MenuModel;
pub use native::NativeItem;
pub use native::NativeMenu;
pub use native::NativeMenuBar;
pub use native::activate_menubar;
pub use native::item_to_native;
pub use native::lemma_activate_idempotent;
pub use native::lemma_items_models_index;
pub use native::lemma_menu_order_preserved;
pub use native::lemma_native_items_models_index;
pub use native::lemma_spec_top_items_index;
pub use native::menu_to_native;
pub use native::native_item_model;
pub use native::native_items_models;
pub use native::native_menu_model;
pub use native::spec_activate;
pub use native::spec_blank_item;
pub use native::spec_image_option;
pub use native::spec_item_model;
pub use native::spec_items_models;
pub use native::spec_menu_model;
pub use native::spec_str_option;
pub use native::spec_top_item;
pub use native::spec_top_items;
pub use shortcut::Key;
pub use shortcut::Shortcut;
pub use shortcut::lemma_key_string_contents;
pub use shortcut::lemma_mask_bits;
