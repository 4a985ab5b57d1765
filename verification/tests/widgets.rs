use iced_ui::bottom_sheet::{BottomSheet, SheetAction, SheetEvent, SheetState};
use iced_ui::badge::{Badge, Position as BadgePosition};
use iced_ui::button::{Button, ButtonEvent, ButtonSize, ButtonState, Status as ButtonStatus, Variant, status as button_status};
use iced_ui::checkbox::{Checkbox, State, Status as CheckboxStatus, Value};
use iced_ui::chip::{Chip, ChipSize};
use iced_ui::color_picker::{ColorFormat, PickerState, PopupAction, PopupEvent, PopupPress, hex_label, rgb_label};
use iced_ui::dialog::{DialogButton, ScrimState, default_actions};
use iced_ui::fab::FabSize;
use iced_ui::icon_button::IconButton;
use iced_ui::interaction::{HoverPress, PointerEvent, resize_states};
use iced_ui::list::{List, ListItem};
use iced_ui::navigation_drawer::{DrawerAction, DrawerItem, DrawerState, destination_at_offset, destination_index_at, item_at_offset};
use iced_ui::navigation_bar::{Destination as BarDestination, NavigationBar};
use iced_ui::navigation_rail::{Destination, DestinationStatus, NavigationRail, destination_status};
use iced_ui::position::Position;
use iced_ui::progress::{Dock, Progress};
use iced_ui::screen::{Mode as ScreenMode, Screen};
use iced_ui::segmented_button::{SegmentedButton, rounded_corners};
use iced_ui::space::Space;

#[test]
fn a_click_needs_press_and_release_over_the_widget() {
    let mut f = HoverPress::new();
    assert!(!f.update(PointerEvent::Pressed, true, true));
    assert!(f.is_pressed);
    assert!(f.update(PointerEvent::Released, true, true));
    assert!(!f.is_pressed);
    f.update(PointerEvent::Pressed, true, true);
    f.update(PointerEvent::Moved, false, true);
    assert!(!f.is_pressed);
    assert!(!f.update(PointerEvent::Released, true, true));
    assert!(!f.update(PointerEvent::Pressed, false, true));
    assert!(!f.update(PointerEvent::Released, true, true));
}

#[test]
fn resizing_keeps_existing_states() {
    let mut states = vec![HoverPress { is_hovered: true, is_pressed: true }];
    resize_states(&mut states, 3);
    assert_eq!(states.len(), 3);
    assert!(states[0].is_pressed);
    assert!(!states[2].is_hovered);
    resize_states(&mut states, 1);
    assert_eq!(states.len(), 1);
}

#[test]
fn checkbox_toggle_and_cycle() {
    assert_eq!(true.toggled(), false);
    assert_eq!(Some(true).toggled(), Some(false));
    assert_eq!(None::<bool>.toggled(), Some(true));
    assert_eq!(Some(false).toggled(), Some(true));
    assert_eq!(None::<bool>.cycled(), Some(true));
    assert_eq!(Some(true).cycled(), Some(false));
    assert_eq!(Some(false).cycled(), None);
    assert_eq!(None::<bool>.state(), State::Indeterminate);
    assert!(State::Indeterminate.is_marked());
    assert!(!State::Unchecked.is_marked());
    assert_eq!(State::default(), State::Unchecked);
}

#[test]
fn checkbox_click_publishes_the_next_value() {
    let cb = Checkbox::new(Some(false)).with_handler(true).indeterminate(true);
    let mut f = HoverPress::new();
    assert_eq!(cb.update(&mut f, PointerEvent::Pressed, true), None);
    assert_eq!(cb.update(&mut f, PointerEvent::Released, true), Some(None));
    let plain = Checkbox::new(false);
    assert_eq!(plain.status(f), CheckboxStatus::Disabled);
    assert_eq!(plain.update(&mut f, PointerEvent::Pressed, true), None);
    assert!(!f.is_pressed);
}

#[test]
fn button_publishes_on_click_and_tracks_status() {
    let button = Button::new().on_press(7u32);
    let mut state = ButtonState::new();
    let (_, redraw) = button.update(&mut state, ButtonEvent::RedrawRequested, false);
    assert!(!redraw);
    assert_eq!(state.last_status, Some(ButtonStatus::Active));
    let (msg, redraw) = button.update(&mut state, ButtonEvent::Pointer(PointerEvent::Pressed), true);
    assert_eq!(msg, None);
    assert!(redraw);
    let (msg, _) = button.update(&mut state, ButtonEvent::Pointer(PointerEvent::Released), true);
    assert_eq!(msg, Some(7));
    let disabled = Button::new().on_press(7u32).enabled(false);
    let (msg, _) = disabled.update(&mut state, ButtonEvent::Pointer(PointerEvent::Released), true);
    assert_eq!(msg, None);
    assert_eq!(button_status(false, true, true), ButtonStatus::Disabled);
    assert_eq!(button_status(true, false, true), ButtonStatus::Hovered);
}

#[test]
fn button_metrics() {
    assert_eq!(ButtonSize::Sm.height(), 24);
    assert_eq!(ButtonSize::Lg.h_padding(), 16);
    assert_eq!(ButtonSize::default(), ButtonSize::Md);
    assert_eq!(Variant::default(), Variant::Solid);
}

#[test]
fn chip_remove_button_takes_precedence() {
    let chip = Chip::new().on_toggle(1u32).on_remove(2u32);
    let mut f = HoverPress::new();
    chip.update(&mut f, PointerEvent::Pressed, true, true);
    assert_eq!(chip.update(&mut f, PointerEvent::Released, true, true), Some(2));
    chip.update(&mut f, PointerEvent::Pressed, true, false);
    assert_eq!(chip.update(&mut f, PointerEvent::Released, true, false), Some(1));
    let only_remove = Chip::<u32>::new().on_remove(3);
    let mut g = HoverPress::new();
    only_remove.update(&mut g, PointerEvent::Moved, true, false);
    assert!(!g.is_hovered);
}

#[test]
fn chip_padding_grows_with_size() {
    assert_eq!(ChipSize::Sm.padding(), (Space::quarters(4), Space::quarters(2)));
    assert_eq!(ChipSize::Md.padding(), (Space::quarters(5), Space::quarters(3)));
    assert_eq!(ChipSize::Lg.padding(), (Space::quarters(6), Space::quarters(4)));
}

#[test]
fn icon_button_without_message_is_disabled() {
    let b = IconButton::<u32>::new();
    assert!(!b.is_enabled());
    let mut f = HoverPress::new();
    assert_eq!(b.update(&mut f, PointerEvent::Pressed, true), None);
    assert!(!f.is_pressed);
    let b = b.on_press(5);
    b.update(&mut f, PointerEvent::Pressed, true);
    assert_eq!(b.update(&mut f, PointerEvent::Released, true), Some(5));
}

#[test]
fn fab_sizes() {
    assert_eq!(FabSize::Small.pixels(), 40);
    assert_eq!(FabSize::Large.icon_size(), 36);
}

#[test]
fn list_rows_publish_their_own_messages() {
    let list = List::new().push(ListItem::new().on_press(1u32)).push(ListItem::new());
    let mut states = Vec::new();
    list.update(&mut states, PointerEvent::Pressed, &vec![true, false]);
    assert_eq!(states.len(), 2);
    let out = list.update(&mut states, PointerEvent::Released, &vec![true, false]);
    assert_eq!(out, vec![Some(1), None]);
}

#[test]
fn segmented_button_reports_pressed_segments() {
    let seg = SegmentedButton::new().push(true).push(false).with_handler(true);
    let mut states = Vec::new();
    seg.update(&mut states, PointerEvent::Pressed, &vec![false, true]);
    let out = seg.update(&mut states, PointerEvent::Released, &vec![false, true]);
    assert_eq!(out, vec![false, true]);
    assert_eq!(rounded_corners(0, 1), (true, true));
    assert_eq!(rounded_corners(0, 3), (true, false));
    assert_eq!(rounded_corners(2, 3), (false, true));
    assert_eq!(rounded_corners(1, 3), (false, false));
}

#[test]
fn navigation_rail_selects_on_press() {
    let rail = NavigationRail::new()
        .push(Destination::new("Home".to_string()))
        .push(Destination::new("Search".to_string()))
        .active(1);
    assert_eq!(rail.destinations.len(), 2);
    assert_eq!(rail.destinations[1].label, "Search");
    let mut states = Vec::new();
    let sel = rail.update(&mut states, PointerEvent::Moved, &vec![true, false]);
    assert_eq!(sel, vec![false, false]);
    assert!(states[0].is_hovered);
    let sel = rail.update(&mut states, PointerEvent::Pressed, &vec![true, false]);
    assert_eq!(sel, vec![true, false]);
    assert_eq!(destination_status(1, 1, true), DestinationStatus::Active);
    assert_eq!(destination_status(0, 1, true), DestinationStatus::Hovered);
}

#[test]
fn navigation_bar_selects_on_press() {
    let bar = NavigationBar::new()
        .push(BarDestination::new("Home".to_string()))
        .push(BarDestination::new("Search".to_string()))
        .push(BarDestination::new("Settings".to_string()))
        .active(2);
    assert_eq!(bar.active, 2);
    assert_eq!(bar.destinations[0].label, "Home");
    let mut states = Vec::new();
    let sel = bar.update(&mut states, PointerEvent::Moved, &vec![false, true, false]);
    assert_eq!(sel, vec![false, false, false]);
    assert_eq!(states.len(), 3);
    assert!(states[1].is_hovered);
    assert!(!states[0].is_hovered);
    let sel = bar.update(&mut states, PointerEvent::Pressed, &vec![false, true]);
    assert_eq!(sel, vec![false, true]);
    let sel = bar.update(&mut states, PointerEvent::Released, &vec![false, true, false]);
    assert_eq!(sel, vec![false, false, false]);
}

#[test]
fn drawer_counts_destinations_only() {
    let items = vec![
        DrawerItem::header("Mail".to_string()),
        DrawerItem::destination("Inbox".to_string()),
        DrawerItem::divider(),
        DrawerItem::destination("Sent".to_string()),
    ];
    assert_eq!(destination_index_at(&items, 0), None);
    assert_eq!(destination_index_at(&items, 1), Some(0));
    assert_eq!(destination_index_at(&items, 3), Some(1));
    assert_eq!(destination_index_at(&items, 9), None);
    assert_eq!(item_at_offset(&items, 0), Some(0));
    assert_eq!(item_at_offset(&items, 56), Some(1));
    assert_eq!(item_at_offset(&items, 112), Some(2));
    assert_eq!(item_at_offset(&items, 129), Some(3));
    assert_eq!(item_at_offset(&items, 185), None);
    assert_eq!(destination_at_offset(&items, 130), Some(1));
    assert_eq!(destination_at_offset(&items, 120), None);
}

#[test]
fn drawer_selects_and_dismisses() {
    let mut s = DrawerState::new();
    s.update(PointerEvent::Moved, Some(2), false);
    s.update(PointerEvent::Pressed, Some(2), false);
    assert_eq!(s.update(PointerEvent::Released, Some(2), false), DrawerAction::Select(2));
    s.update(PointerEvent::Moved, None, true);
    s.update(PointerEvent::Pressed, None, true);
    assert_eq!(s.update(PointerEvent::Released, None, true), DrawerAction::Dismiss);
    assert_eq!(s.update(PointerEvent::Released, None, true), DrawerAction::Nothing);
}

#[test]
fn badge_labels() {
    assert_eq!(Badge::count(5).label(), Some("5".to_string()));
    assert_eq!(Badge::count(1000).label(), Some("999+".to_string()));
    assert_eq!(Badge::count(12).max(9).label(), Some("9+".to_string()));
    assert_eq!(Badge::count(0).label(), None);
    assert_eq!(Badge::dot().label(), None);
    assert_eq!(BadgePosition::default(), BadgePosition::TopRight);
}

#[test]
fn positions_lie_on_their_edges() {
    assert!(Position::TopLeft.is_top() && Position::TopLeft.is_left());
    assert!(!Position::Top.is_left() && !Position::Top.is_right());
    assert!(Position::BottomRight.is_bottom() && Position::BottomRight.is_right());
    assert_eq!(Position::default(), Position::BottomRight);
}

#[test]
fn progress_elevation_follows_docking() {
    assert!(!Progress::new().is_elevated());
    assert!(Progress::new().dock(Dock::Top).is_elevated());
    assert!(!Progress::new().dock(Dock::Bottom).elevated(false).is_elevated());
    assert!(Progress::new().elevated(true).is_elevated());
    assert_eq!(Dock::Top.square_corners(), (true, false));
    assert!(!Dock::Undocked.is_docked());
}

#[test]
fn screen_modes_have_their_aspects() {
    assert_eq!(ScreenMode::Desktop.default_aspect(), (16, 9));
    assert_eq!(ScreenMode::MobilePortrait.default_aspect(), (9, 20));
    assert_eq!(ScreenMode::MobilePortrait.default_max_width(), Some(360));
    let s = Screen::new().mode(ScreenMode::MobileLandscape);
    assert_eq!(s.aspect, (20, 9));
    assert_eq!(s.max_width, None);
    assert_eq!(Screen::new().aspect(4, 3).aspect, (4, 3));
}

#[test]
fn color_codes() {
    assert_eq!(hex_label(255, 0, 171), "#FF00AB");
    assert_eq!(hex_label(1, 2, 3), "#010203");
    assert_eq!(rgb_label(255, 0, 171), "rgb(255 0 171)");
    assert_eq!(ColorFormat::Oklch.next(), ColorFormat::Hex);
    assert_eq!(ColorFormat::Hex.next().next(), ColorFormat::Hsl);
}

#[test]
fn color_popup_machine() {
    let mut s = PickerState::new();
    assert!(s.swatch_pressed(true));
    assert!(!s.swatch_pressed(true));
    assert_eq!(s.update(PopupEvent::Press(PopupPress::Code)), PopupAction::Nothing);
    assert_eq!(s.color_format, ColorFormat::Rgb);
    assert_eq!(s.update(PopupEvent::Press(PopupPress::Copy)), PopupAction::Copy(ColorFormat::Rgb));
    assert!(matches!(s.update(PopupEvent::Press(PopupPress::Hue)), PopupAction::Drag(_)));
    assert!(matches!(s.update(PopupEvent::Moved(true)), PopupAction::Drag(_)));
    assert_eq!(s.update(PopupEvent::Released), PopupAction::Publish);
    assert_eq!(s.update(PopupEvent::Released), PopupAction::Nothing);
    assert_eq!(s.update(PopupEvent::Escape), PopupAction::Publish);
    assert!(!s.open);
}

#[test]
fn dialog_actions_and_scrim() {
    assert!(default_actions(false, false).is_none());
    assert_eq!(default_actions(true, true), Some(vec![DialogButton::Cancel, DialogButton::Confirm]));
    assert_eq!(default_actions(false, true), Some(vec![DialogButton::Confirm]));
    assert_eq!(DialogButton::Confirm.label(), "OK");
    let mut scrim = ScrimState::new();
    scrim.update(PointerEvent::Pressed, true);
    assert!(scrim.update(PointerEvent::Released, true));
    scrim.update(PointerEvent::Pressed, true);
    assert!(!scrim.update(PointerEvent::Released, false));
}

#[test]
fn bottom_sheet_drag_and_scrim() {
    let sheet = BottomSheet::new().modal(true).expanded(true);
    assert!(sheet.covers_host());
    let mut s = SheetState::new();
    assert_eq!(s.update(&sheet, SheetEvent::Pressed { on_handle: true, over_scrim: false, known: true }), SheetAction::StartDrag);
    assert_eq!(s.update(&sheet, SheetEvent::Moved(true)), SheetAction::Drag);
    assert_eq!(s.update(&sheet, SheetEvent::Released { over_scrim: false, below_min: true }), SheetAction::Dismiss);
    s.update(&sheet, SheetEvent::Pressed { on_handle: true, over_scrim: false, known: true });
    assert_eq!(s.update(&sheet, SheetEvent::Released { over_scrim: false, below_min: false }), SheetAction::Resize);
    s.update(&sheet, SheetEvent::Pressed { on_handle: false, over_scrim: true, known: true });
    assert_eq!(s.update(&sheet, SheetEvent::Released { over_scrim: true, below_min: false }), SheetAction::Dismiss);
    let fixed = BottomSheet::new().drag_handle(false);
    let mut t = SheetState::new();
    assert_eq!(t.update(&fixed, SheetEvent::Pressed { on_handle: true, over_scrim: false, known: true }), SheetAction::Nothing);
    assert!(!t.dragging);
}
