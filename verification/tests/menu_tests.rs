use menubar::Action;
use menubar::Image;
use menubar::Key;
use menubar::Menu;
use menubar::MenuItem;
use menubar::NativeMenu;
use menubar::Shortcut;
use menubar::item_to_native;
use menubar::menu_to_native;

fn titles_of(native: &NativeMenu) -> Vec<String> {
    native.items.iter().map(|it| it.title.clone()).collect()
}

#[test]
fn converted_menu_keeps_item_order() {
    let mut m = Menu::new("File", Vec::new());
    m.add_item(MenuItem::button(String::from("One"), Action::NoOp, None));
    m.add_item(MenuItem::button(String::from("Two"), Action::NoOp, None));
    m.add_item(MenuItem::button(String::from("Three"), Action::NoOp, None));
    let native = menu_to_native(&m);
    assert_eq!(native.title, "File");
    assert!(!native.autoenables_items);
    assert_eq!(titles_of(&native), vec!["One", "Two", "Three"]);
}

#[test]
fn append_items_equals_repeated_add_item() {
    let mut one_at_a_time = Menu::new("Edit", Vec::new());
    one_at_a_time.add_item(MenuItem::dummy(String::from("Cut")));
    one_at_a_time.add_item(MenuItem::separator());
    one_at_a_time.add_item(MenuItem::dummy(String::from("Paste")));

    let mut batched = Menu::new("Edit", Vec::new());
    batched.append_items(vec![
        MenuItem::dummy(String::from("Cut")),
        MenuItem::separator(),
        MenuItem::dummy(String::from("Paste")),
    ]);

    let a = menu_to_native(&one_at_a_time);
    let b = menu_to_native(&batched);
    assert_eq!(titles_of(&a), titles_of(&b));
    assert_eq!(a.items.len(), b.items.len());
    for (x, y) in a.items.iter().zip(b.items.iter()) {
        assert_eq!(x.separator, y.separator);
        assert_eq!(x.enabled, y.enabled);
        assert_eq!(x.hidden, y.hidden);
    }
}

#[test]
fn dummy_item_converts_to_plain_label() {
    let native = item_to_native(&MenuItem::dummy(String::from("About")));
    assert_eq!(native.title, "About");
    assert_eq!(native.sel, None);
    assert_eq!(native.key_equivalent, "");
    assert_eq!(native.modifier_mask, 0);
    assert!(native.enabled);
    assert!(!native.hidden);
    assert!(!native.separator);
    assert!(native.submenu.is_none());
    assert_eq!(native.callback, None);
}

#[test]
fn separator_converts_to_separator_item() {
    let native = item_to_native(&MenuItem::separator());
    assert!(native.separator);
    assert_eq!(native.title, "");
}

#[test]
fn button_converts_with_selector_shortcut_and_mask() {
    let sc = Shortcut::new(Key::S).command(true);
    let item = MenuItem::button(String::from("Save"), Action::Quit, Some(sc));
    let native = item_to_native(&item);
    assert_eq!(native.title, "Save");
    assert_eq!(native.sel.as_deref(), Some("terminate:"));
    assert_eq!(native.key_equivalent, "s");
    assert_eq!(native.modifier_mask, 1 << 20);
    assert_eq!(native.callback, None);
}

#[test]
fn button_without_shortcut_has_empty_key_equivalent() {
    let item = MenuItem::button(String::from("Go"), Action::Minimize, None);
    let native = item_to_native(&item);
    assert_eq!(native.sel.as_deref(), Some("performMiniaturize:"));
    assert_eq!(native.key_equivalent, "");
    assert_eq!(native.modifier_mask, 0);
}

#[test]
fn callback_button_carries_its_slot_and_bridge_selector() {
    let item = MenuItem::button(String::from("Run"), Action::callback(17), None);
    let native = item_to_native(&item);
    assert_eq!(native.sel.as_deref(), Some("fireBlockAction:"));
    assert_eq!(native.callback, Some(17));
}

#[test]
fn noop_button_uses_bridge_selector_but_registers_nothing() {
    let item = MenuItem::button(String::from("Idle"), Action::NoOp, None);
    let native = item_to_native(&item);
    assert_eq!(native.sel.as_deref(), Some("fireBlockAction:"));
    assert_eq!(native.callback, None);
}

#[test]
fn built_in_actions_map_to_their_selectors() {
    assert_eq!(Action::Hide.sel_name(), "hide:");
    assert_eq!(Action::HideOthers.sel_name(), "hideOtherApplications:");
    assert_eq!(Action::ShowAll.sel_name(), "unhideAllApplications:");
    assert_eq!(Action::CloseWindow.sel_name(), "performClose:");
    assert_eq!(Action::Quit.sel_name(), "terminate:");
    assert_eq!(Action::ToggleFullScreen.sel_name(), "toggleFullScreen:");
    assert_eq!(Action::Minimize.sel_name(), "performMiniaturize:");
}

#[test]
fn flags_and_images_are_applied_to_the_native_item() {
    let item = MenuItem::dummy(String::from("Ghosted"))
        .enabled(false)
        .hidden(true)
        .image(Some(Image::from_app_bundle("logo")));
    let native = item_to_native(&item);
    assert!(!native.enabled);
    assert!(native.hidden);
    match native.image {
        Some(Image::Named(name)) => assert_eq!(name, "logo"),
        _ => panic!("expected the bundle-named image"),
    }
    assert!(native.image_on.is_none());
    assert!(native.image_off.is_none());
    assert!(native.image_mixed.is_none());
}

#[test]
fn submenu_item_converts_recursively() {
    let mut inner = Menu::new("Recent", Vec::new());
    inner.add_item(MenuItem::dummy(String::from("today.txt")));
    let item = MenuItem::sub_menu(inner);
    let native = item_to_native(&item);
    let sub = native.submenu.expect("submenu expected");
    assert_eq!(sub.title, "Recent");
    assert_eq!(sub.items.len(), 1);
    assert_eq!(sub.items[0].title, "today.txt");
}
