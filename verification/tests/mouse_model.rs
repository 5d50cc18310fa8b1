//! The mouse picture's labels, menus and popovers.

use openlogi::binding::{
    default_pan_binding, window_navigation_binding, Action, ButtonId, Category, GestureDirection,
};
use openlogi::button_map::ButtonMap;
use openlogi::gui::mouse_model::{
    binding_label, gesture_capable_buttons, gesture_owner_label, menu_for, shown_gesture_owner,
    BindingMenu, BindingPopover, MouseModelView, ShownBindings, ShownText,
};
use openlogi::gui::picker::{
    action_icon_path, action_picker, action_rows, direction_clicked, flyout_card,
    gesture_overview, grouped_catalog, overview_binding, plus_card, MenuRow,
};

#[test]
fn gesture_owner_selector_keeps_physical_gesture_button_name() {
    assert_eq!(
        gesture_owner_label(ButtonId::GestureButton),
        "Gesture Button"
    );
}

#[test]
fn gestures_are_offered_where_the_device_has_the_button() {
    let labels = vec![
        ButtonId::Forward,
        ButtonId::LeftClick,
        ButtonId::GestureButton,
    ];
    let capable = gesture_capable_buttons(&labels);
    assert_eq!(capable, vec![ButtonId::GestureButton, ButtonId::Forward]);
    assert_eq!(
        shown_gesture_owner(Some(ButtonId::Forward), &capable),
        Some(ButtonId::Forward)
    );
    assert_eq!(shown_gesture_owner(Some(ButtonId::Back), &capable), None);
    assert_eq!(
        menu_for(ButtonId::Forward, Some(ButtonId::Forward)),
        BindingMenu::Gesture
    );
    assert_eq!(
        menu_for(ButtonId::Back, Some(ButtonId::Forward)),
        BindingMenu::Actions
    );
}

#[test]
fn closing_a_menu_leaves_another_one_open() {
    let mut view = MouseModelView::new();
    let back = BindingPopover::Label(ButtonId::Back);
    let forward = BindingPopover::Hotspot(ButtonId::Forward);
    view.set_binding_popover_open(back, true);
    view.set_binding_popover_open(forward, false);
    assert_eq!(view.open_binding_popover, Some(back));
    view.set_binding_popover_open(back, false);
    assert_eq!(view.open_binding_popover, None);

    view.trigger_clicked(back);
    assert_eq!(view.open_binding_popover, Some(back));
    view.trigger_clicked(back);
    assert_eq!(view.open_binding_popover, None);
}

#[test]
fn another_device_starts_with_nothing_open() {
    let mut view = MouseModelView::new();
    view.show_device(&Some("a".to_string()));
    view.hover_changed(ButtonId::Back, true);
    view.set_gesture_selected_dir(Some(GestureDirection::Up));
    view.show_device(&Some("a".to_string()));
    assert_eq!(view.highlight(None), Some(ButtonId::Back));
    view.show_device(&Some("b".to_string()));
    assert_eq!(view.highlight(None), None);
    assert_eq!(view.gesture_selected_dir(), None);
}

#[test]
fn the_catalog_is_grouped_without_loss() {
    let sections = grouped_catalog();
    let grouped: usize = sections.iter().map(|(_, actions)| actions.len()).sum();
    assert_eq!(grouped, Action::catalog().len());
    for (category, actions) in &sections {
        assert!(actions.iter().all(|action| action.category() == *category));
    }
    assert!(sections
        .iter()
        .any(|(category, _)| *category == Category::Editing));
}

#[test]
fn the_bound_action_is_the_selected_row() {
    let rows = action_rows(Some(&Action::Copy));
    let selected: Vec<&Action> = rows
        .iter()
        .filter_map(|row| match row {
            MenuRow::Entry {
                action,
                selected: true,
                ..
            } => Some(action),
            _ => None,
        })
        .collect();
    assert_eq!(selected, vec![&Action::Copy]);
    assert_ne!(
        action_icon_path(&Action::Copy),
        action_icon_path(&Action::LockScreen)
    );
}

#[test]
fn directions_open_and_close_their_action_list() {
    assert_eq!(
        direction_clicked(None, GestureDirection::Up),
        Some(GestureDirection::Up)
    );
    assert_eq!(
        direction_clicked(Some(GestureDirection::Up), GestureDirection::Up),
        None
    );
    let flyout = flyout_card(&window_navigation_binding(), Some(GestureDirection::Left));
    assert_eq!(
        flyout.map(|flyout| flyout.current),
        Some(Action::PreviousDesktop)
    );
    assert!(
        flyout_card(&default_pan_binding(), Some(GestureDirection::Left)).is_none(),
        "the directions of a Pan cannot be edited"
    );
    let cells = plus_card(&overview_binding(None), Some(GestureDirection::Down));
    assert_eq!(cells.len(), 5);
    assert!(cells.iter().all(|cell| cell.is_default));
    assert_eq!(cells.iter().filter(|cell| cell.active).count(), 1);
}

#[test]
fn the_gesture_menu_offers_pan_where_it_works() {
    let overview = gesture_overview(Some(default_pan_binding()), None, true);
    assert_eq!(overview.chips.len(), 3);
    assert_eq!(overview.chips.iter().filter(|chip| chip.selected).count(), 1);
    assert_eq!(overview.cells.len(), 5);
    assert!(overview.flyout.is_none());
    assert_eq!(
        gesture_overview(None, Some(GestureDirection::Up), false)
            .chips
            .len(),
        2
    );

    let mut bindings = ButtonMap::new();
    bindings.insert(ButtonId::Back, Action::Paste);
    let picker = action_picker(ButtonId::Back, &bindings);
    assert_eq!(picker.button, ButtonId::Back.label());
    assert!(picker.rows.iter().any(|row| matches!(
        row,
        MenuRow::Entry {
            action: Action::Paste,
            selected: true,
            ..
        }
    )));
}

#[test]
fn the_picture_shows_every_label_once() {
    let mut bindings = ButtonMap::new();
    bindings.insert(ButtonId::Back, Action::Copy);
    let labels = vec![ButtonId::Back, ButtonId::Forward];
    let mut view = MouseModelView::new();
    let screen = view.render(
        &Some("a".to_string()),
        &labels,
        &ShownBindings {
            active: Some(ButtonId::Forward),
            owner: None,
            gesture: None,
            bindings: &bindings,
        },
    );
    assert_eq!(screen.cards.len(), 2);
    assert_eq!(screen.highlight, Some(ButtonId::Forward));
    assert_eq!(screen.chips.len(), 3, "two buttons, or none");
}

#[test]
fn the_gesture_owner_shows_its_summary_whatever_it_is_bound_to() {
    let mut bindings = ButtonMap::new();
    bindings.insert(ButtonId::Back, Action::SetDpiPreset(255));
    let label = binding_label(ButtonId::Back, Some(ButtonId::Back), None, &bindings);
    assert!(!label.is_default);
    assert!(matches!(label.text, ShownText::Fixed(text) if text == "5 directions"));

    let labels = vec![ButtonId::Back, ButtonId::Forward];
    let screen = MouseModelView::new().render(
        &Some("a".to_string()),
        &labels,
        &ShownBindings {
            active: None,
            owner: Some(ButtonId::Back),
            gesture: None,
            bindings: &bindings,
        },
    );
    assert_eq!(screen.cards.len(), 2);
}
