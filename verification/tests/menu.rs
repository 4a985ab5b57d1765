use iced_ui::menu::bar::{Handled, MenuState, NavKey, walk_menu};
use iced_ui::menu::button::{ButtonPress, MenuButton, MenuButtonState};
use iced_ui::menu::item::{Entry, Icon, Item, Menu, MenuBar, Separator, collect_shortcuts, find_shortcut};
use iced_ui::menu::shortcut::{Key, KeyBinding, Modifiers, NamedKey, eq_ignore_case};

#[test]
fn matches_character_case_insensitively() {
    let binding = KeyBinding::ctrl('n');
    assert!(binding.matches(Modifiers::ctrl_only(), &Key::Character("N".to_string())));
    assert!(binding.matches(Modifiers::ctrl_only(), &Key::Character("n".to_string())));
    assert!(!binding.matches(Modifiers::empty(), &Key::Character("n".to_string())));
    assert!(!binding.matches(Modifiers::ctrl_only(), &Key::Character("m".to_string())));
}

#[test]
fn matches_named_key() {
    let binding = KeyBinding::new(Modifiers::empty(), Key::Named(NamedKey::F1));
    assert!(binding.matches(Modifiers::empty(), &Key::Named(NamedKey::F1)));
    assert!(!binding.matches(Modifiers::empty(), &Key::Named(NamedKey::F2)));
}

#[test]
fn shift_adds_shift_modifier() {
    let binding = KeyBinding::ctrl('z').shift();
    assert!(binding.modifiers.ctrl);
    assert!(binding.modifiers.shift);
}

#[test]
fn display_non_empty() {
    assert!(!KeyBinding::ctrl('n').label(false).is_empty());
    assert!(!KeyBinding::new(Modifiers::empty(), Key::Named(NamedKey::Escape)).label(false).is_empty());
    assert!(!KeyBinding::command('s', false).shift().label(false).is_empty());
}

#[test]
fn display_uses_symbol_modifiers() {
    let s = KeyBinding::ctrl('z').shift().alt().label(false);
    assert!(!s.contains("Ctrl"));
    assert!(!s.contains("Shift"));
    assert!(!s.contains("Alt"));
    assert!(!s.contains("Super"));
    assert!(!s.contains('+'));
    assert!(s.contains('⌃'));
    assert!(s.contains('⌥'));
    assert!(s.contains('⇧'));
    assert!(s.ends_with('Z'));
}

#[test]
fn collect_shortcuts_walks_nested_submenus() {
    let menu = Menu::<u32>::new("File".to_string())
        .push(Item::new("New".to_string()).shortcut(KeyBinding::ctrl('n')).on_press(1))
        .push(Separator)
        .push(
            Menu::new("Recent".to_string())
                .push(Item::new("a".to_string()).shortcut(KeyBinding::ctrl('r')).on_press(2))
                .push(Item::new("b".to_string()).shortcut(KeyBinding::ctrl('b')).on_press(3).enabled(false)),
        );
    let bindings = collect_shortcuts(&vec![menu]);
    assert_eq!(bindings.len(), 2);
    assert_eq!(bindings[0].1, 1);
    assert_eq!(bindings[1].1, 2);
}

#[test]
fn collect_shortcuts_ignores_items_without_on_press() {
    let menu = Menu::<u32>::new("Menu".to_string()).push(Item::new("no-message".to_string()).shortcut(KeyBinding::ctrl('z')));
    assert!(collect_shortcuts(&vec![menu]).is_empty());
}

#[test]
fn label_orders_modifiers_and_names_keys() {
    let b = KeyBinding::new(Modifiers::empty(), Key::Named(NamedKey::PageDown)).logo().alt().with_ctrl().shift();
    assert_eq!(b.label(false), "⌃⌥⇧❖PgDn");
    assert_eq!(b.label(true), "⌃⌥⇧⌘PgDn");
    assert_eq!(KeyBinding::new(Modifiers::empty(), Key::Unidentified).label(false), "?");
    assert_eq!(KeyBinding::new(Modifiers::empty(), Key::Named(NamedKey::Other(7))).label(false), "?");
    assert_eq!(KeyBinding::new(Modifiers::empty(), Key::Named(NamedKey::ArrowLeft)).label(false), "←");
    assert_eq!(KeyBinding::new(Modifiers::empty(), Key::Named(NamedKey::F12)).label(false), "F12");
}

#[test]
fn command_uses_the_platform_modifier() {
    let mac = KeyBinding::command('S', true);
    assert!(mac.modifiers.logo && !mac.modifiers.ctrl);
    let other = KeyBinding::command('S', false);
    assert!(other.modifiers.ctrl && !other.modifiers.logo);
    assert!(other.matches(Modifiers::ctrl_only(), &Key::Character("s".to_string())));
    assert_eq!(other.label(false), "⌃S");
}

#[test]
fn ignore_case_compares_ascii_only() {
    assert!(eq_ignore_case("Hello", "hELLO"));
    assert!(!eq_ignore_case("Hello", "Hell"));
    assert!(!eq_ignore_case("É", "é"));
    assert!(eq_ignore_case("", ""));
}

#[test]
fn unidentified_keys_match_each_other_only() {
    let b = KeyBinding::new(Modifiers::empty(), Key::Unidentified);
    assert!(b.matches(Modifiers::empty(), &Key::Unidentified));
    assert!(!b.matches(Modifiers::empty(), &Key::Named(NamedKey::Enter)));
}

#[test]
fn find_shortcut_takes_the_first_match() {
    let bindings = vec![(KeyBinding::ctrl('a'), 1u32), (KeyBinding::ctrl('b'), 2u32), (KeyBinding::ctrl('A'), 3u32)];
    assert_eq!(find_shortcut(&bindings, Modifiers::ctrl_only(), &Key::Character("A".to_string())), Some(1));
    assert_eq!(find_shortcut(&bindings, Modifiers::ctrl_only(), &Key::Character("b".to_string())), Some(2));
    assert_eq!(find_shortcut(&bindings, Modifiers::empty(), &Key::Character("b".to_string())), None);
}

#[test]
fn menu_bar_collects_shortcuts_menu_after_menu() {
    let bar = MenuBar::new()
        .push(Menu::new("File".to_string()).push(Item::new("Open".to_string()).shortcut(KeyBinding::ctrl('o')).on_press(10u32)))
        .push(Menu::new("Edit".to_string()).push(Item::new("Undo".to_string()).shortcut(KeyBinding::ctrl('z')).on_press(20u32)));
    let s = bar.shortcuts();
    assert_eq!(s.len(), 2);
    assert_eq!(s[0].1, 10);
    assert_eq!(s[1].1, 20);
}

fn sample_menus() -> Vec<Menu<u32>> {
    vec![
        Menu::new("File".to_string())
            .push(Item::new("New".to_string()).on_press(1))
            .separator()
            .submenu(Menu::new("Recent".to_string()).push(Item::new("a".to_string()).on_press(2)))
            .push(Item::new("Disabled".to_string()).on_press(3).enabled(false)),
        Menu::new("Edit".to_string()).push(Item::new("Undo".to_string()).on_press(4)),
        Menu::new("Help".to_string()),
    ]
}

#[test]
fn bar_press_opens_and_closes_a_menu() {
    let mut state = MenuState::new();
    let h = state.bar_pressed(Some(1));
    assert_eq!(h, Handled { captured: true, redraw: true });
    assert_eq!(state.open_path, Some(vec![1]));
    assert_eq!(state.bar_active, Some(1));
    state.bar_pressed(Some(1));
    assert_eq!(state.open_path, None);
    assert_eq!(state.bar_active, None);
    assert_eq!(state.bar_pressed(None), Handled { captured: false, redraw: false });
}

#[test]
fn hovering_another_label_switches_the_open_menu() {
    let mut state = MenuState::new();
    state.bar_cursor_moved(Some(0));
    assert_eq!(state.open_path, None);
    assert_eq!(state.bar_hover, Some(0));
    state.bar_pressed(Some(0));
    state.bar_cursor_moved(Some(2));
    assert_eq!(state.open_path, Some(vec![2]));
    assert_eq!(state.bar_active, Some(2));
    state.bar_cursor_left();
    assert_eq!(state.bar_hover, None);
}

#[test]
fn arrow_keys_wrap_around_the_bar() {
    let menus = sample_menus();
    let mut state = MenuState::new();
    state.bar_pressed(Some(0));
    state.overlay_key(&menus, NavKey::ArrowLeft, &vec![None]);
    assert_eq!(state.open_path, Some(vec![2]));
    state.overlay_key(&menus, NavKey::ArrowRight, &vec![None]);
    assert_eq!(state.open_path, Some(vec![0]));
    assert_eq!(state.bar_active, Some(0));
}

#[test]
fn keyboard_opens_and_closes_submenus() {
    let menus = sample_menus();
    let mut state = MenuState::new();
    state.bar_pressed(Some(0));
    state.overlay_key(&menus, NavKey::ArrowRight, &vec![Some(2)]);
    assert_eq!(state.open_path, Some(vec![0, 2]));
    assert_eq!(walk_menu(&menus, state.open_path.as_ref().unwrap()).label, "Recent");
    let (msg, _) = state.overlay_key(&menus, NavKey::Enter, &vec![Some(2), Some(0)]);
    assert_eq!(msg, Some(2));
    assert_eq!(state.open_path, None);
    state.bar_pressed(Some(0));
    state.overlay_key(&menus, NavKey::Enter, &vec![Some(2)]);
    assert_eq!(state.open_path, Some(vec![0, 2]));
    state.overlay_key(&menus, NavKey::Escape, &vec![Some(2), None]);
    assert_eq!(state.open_path, Some(vec![0]));
    state.overlay_key(&menus, NavKey::Escape, &vec![None]);
    assert_eq!(state.open_path, None);
    assert_eq!(state.bar_active, None);
}

#[test]
fn enter_on_a_disabled_item_does_nothing() {
    let menus = sample_menus();
    let mut state = MenuState::new();
    state.bar_pressed(Some(0));
    let (msg, h) = state.overlay_key(&menus, NavKey::Enter, &vec![Some(3)]);
    assert_eq!(msg, None);
    assert!(!h.captured);
    assert_eq!(state.open_path, Some(vec![0]));
}

#[test]
fn clicking_items_and_submenus() {
    let menus = sample_menus();
    let mut state = MenuState::new();
    state.bar_pressed(Some(0));
    let (msg, _) = state.overlay_pressed(&menus, &vec![Some(2)], true, false);
    assert_eq!(msg, None);
    assert_eq!(state.open_path, Some(vec![0, 2]));
    let (msg, _) = state.overlay_pressed(&menus, &vec![None, Some(0)], true, false);
    assert_eq!(msg, Some(2));
    assert_eq!(state.open_path, None);
    state.bar_pressed(Some(1));
    let (msg, h) = state.overlay_pressed(&menus, &vec![None], false, false);
    assert_eq!(msg, None);
    assert!(h.redraw);
    assert_eq!(state.open_path, None);
}

#[test]
fn hovering_a_submenu_row_opens_it() {
    let menus = sample_menus();
    let mut state = MenuState::new();
    state.bar_pressed(Some(0));
    state.overlay_cursor_moved(&menus, None, vec![Some(2)]);
    assert_eq!(state.open_path, Some(vec![0, 2]));
    assert_eq!(state.hover_path, vec![Some(2)]);
    state.overlay_cursor_moved(&menus, None, vec![Some(0)]);
    assert_eq!(state.open_path, Some(vec![0]));
    state.overlay_cursor_moved(&menus, Some(1), vec![]);
    assert_eq!(state.open_path, Some(vec![1]));
}

#[test]
fn menu_button_toggles_and_activates() {
    let button = MenuButton::new(vec![
        Entry::Item(Item::new("One".to_string()).on_press(1u32)),
        Entry::Separator,
        Entry::Submenu(Menu::new("More".to_string()).push(Item::new("Two".to_string()).on_press(2u32))),
    ]);
    let mut state = MenuButtonState::new();
    state.trigger_pressed(true);
    assert!(state.open);
    let moved = button.pointer_moved(&mut state, &vec![Some(2)], &vec![true]);
    assert!(moved.redraw);
    assert!(!moved.captured);
    assert_eq!(state.open_path, vec![2]);
    assert_eq!(state.hover_path, vec![Some(2)]);
    let again = button.pointer_moved(&mut state, &vec![Some(2)], &vec![true]);
    assert!(!again.redraw);
    assert_eq!(state.open_path, vec![2]);
    match button.pointer_pressed(&mut state, &vec![None, Some(0)], &vec![false, true], false) {
        ButtonPress::Activated(m) => assert_eq!(m, 2),
        _ => panic!("expected an activation"),
    }
    assert!(!state.open);
    state.trigger_pressed(true);
    match button.pointer_pressed(&mut state, &vec![None], &vec![false], false) {
        ButtonPress::Missed => {}
        _ => panic!("expected a miss"),
    }
    assert!(!state.open);
}

#[test]
fn icons_hold_their_text() {
    assert_eq!(Icon::from_char('★').content, "★");
    assert_eq!(Icon::from_text("ab".to_string()).content, "ab");
}

#[test]
fn bindings_store_the_lower_case_character() {
    match KeyBinding::ctrl('N').key {
        Key::Character(s) => assert_eq!(s, "n"),
        _ => panic!("expected a character key"),
    }
    assert_eq!(KeyBinding::ctrl('ä').label(false), "⌃Ä");
}
