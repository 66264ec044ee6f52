use menubar::Menu;
use menubar::MenuBar;
use menubar::MenuItem;
use menubar::NativeMenuBar;
use menubar::activate_menubar;

fn menu(title: &str) -> Menu {
    let mut m = Menu::new(title, Vec::new());
    m.add_item(MenuItem::dummy(format!("{} entry", title)));
    m
}

fn top_titles(bar: &NativeMenuBar) -> Vec<String> {
    bar.items
        .iter()
        .map(|it| match &it.submenu {
            Some(sub) => sub.title.clone(),
            None => it.title.clone(),
        })
        .collect()
}

#[test]
fn activation_with_override_replaces_everything() {
    let mut bar = NativeMenuBar::new();
    let mb = MenuBar::new(vec![menu("File"), menu("Edit")]).main_menu(Some(menu("App")));
    activate_menubar(&mut bar, &mb);
    assert_eq!(top_titles(&bar), vec!["App", "File", "Edit"]);
}

#[test]
fn activation_without_override_keeps_the_first_item() {
    let mut bar = NativeMenuBar::new();
    let with_root = MenuBar::new(vec![menu("File")]).main_menu(Some(menu("App")));
    activate_menubar(&mut bar, &with_root);

    let without_root = MenuBar::new(vec![menu("Edit"), menu("View")]);
    activate_menubar(&mut bar, &without_root);
    assert_eq!(top_titles(&bar), vec!["App", "Edit", "View"]);
}

#[test]
fn activation_on_empty_bar_without_override_adds_only_the_menus() {
    let mut bar = NativeMenuBar::new();
    let mb = MenuBar::new(vec![menu("File"), menu("Edit")]);
    activate_menubar(&mut bar, &mb);
    assert_eq!(top_titles(&bar), vec!["File", "Edit"]);
}

#[test]
fn activating_twice_with_override_matches_activating_once() {
    let mb = MenuBar::new(vec![menu("File"), menu("Edit")]).main_menu(Some(menu("App")));

    let mut once = NativeMenuBar::new();
    activate_menubar(&mut once, &mb);

    let mut twice = NativeMenuBar::new();
    activate_menubar(&mut twice, &mb);
    activate_menubar(&mut twice, &mb);

    assert_eq!(twice.items.len(), once.items.len());
    assert_eq!(top_titles(&twice), top_titles(&once));
}

#[test]
fn activating_twice_without_override_matches_once_on_a_started_bar() {
    // Start from a bar that already has a root item, as a live application
    // always does; without an override that first item is kept.
    let root = MenuBar::new(Vec::new()).main_menu(Some(menu("App")));
    let mb = MenuBar::new(vec![menu("File"), menu("Edit"), menu("Help")]);

    let mut once = NativeMenuBar::new();
    activate_menubar(&mut once, &root);
    activate_menubar(&mut once, &mb);

    let mut twice = NativeMenuBar::new();
    activate_menubar(&mut twice, &root);
    activate_menubar(&mut twice, &mb);
    activate_menubar(&mut twice, &mb);

    assert_eq!(twice.items.len(), once.items.len());
    assert_eq!(top_titles(&twice), top_titles(&once));
}

#[test]
fn activation_with_empty_menubar_value_empties_all_but_the_root() {
    let mut bar = NativeMenuBar::new();
    let full = MenuBar::new(vec![menu("File"), menu("Edit")]).main_menu(Some(menu("App")));
    activate_menubar(&mut bar, &full);

    let empty = MenuBar::new(Vec::new());
    activate_menubar(&mut bar, &empty);
    assert_eq!(top_titles(&bar), vec!["App"]);
}

#[test]
fn menubar_builders_hold_their_values() {
    let mb = MenuBar::new(vec![menu("File")]);
    assert!(mb.main_menu.is_none());
    assert_eq!(mb.menus.len(), 1);

    let with_root = mb.main_menu(Some(menu("App")));
    assert!(with_root.main_menu.is_some());
    assert_eq!(with_root.menus.len(), 1);
}
