//! Actions, their categories and labels, and the canonical bindings.

use openlogi::binding::{
    default_binding, default_pan_binding, window_navigation_binding, Action, Binding, ButtonId,
    Category, DirectionMap, GestureDirection, KeyCombo,
};

#[test]
fn catalog_has_at_least_29_entries() {
    let catalog = Action::catalog();
    assert!(
        catalog.len() >= 29,
        "catalog has {} entries, need ≥ 29",
        catalog.len()
    );
}

#[test]
fn catalog_excludes_custom_shortcut() {
    let catalog = Action::catalog();
    for action in &catalog {
        assert!(
            !matches!(action, Action::CustomShortcut(_)),
            "catalog must not contain CustomShortcut"
        );
    }
}

#[test]
fn window_navigation_preset_matches_options_plus() {
    let binding = window_navigation_binding();
    assert_eq!(
        binding.direction_action(GestureDirection::Left),
        Some(&Action::PreviousDesktop)
    );
    assert_eq!(
        binding.direction_action(GestureDirection::Right),
        Some(&Action::NextDesktop)
    );
    assert_eq!(
        binding.direction_action(GestureDirection::Up),
        Some(&Action::MissionControl)
    );
    assert_eq!(
        binding.direction_action(GestureDirection::Down),
        Some(&Action::AppExpose)
    );
    assert_eq!(binding.click_action(), Action::MissionControl);
}

#[test]
fn default_pan_click_is_smart_zoom() {
    assert_eq!(default_pan_binding().click_action(), Action::SmartZoom);
}

#[test]
fn key_combo_rendered_label_uses_display_when_set() {
    let combo = KeyCombo {
        modifiers: 0,
        key_code: 0,
        display: "preset".into(),
    };
    assert_eq!(combo.rendered_label(), "preset");
}

#[test]
fn key_combo_rendered_label_falls_back_to_modifiers_plus_key() {
    let combo = KeyCombo {
        modifiers: KeyCombo::MOD_CMD | KeyCombo::MOD_SHIFT,
        key_code: 0x23, // P
        display: String::new(),
    };
    assert_eq!(combo.rendered_label(), "⇧⌘P");
}

#[test]
fn category_editing_variants() {
    assert_eq!(Action::Copy.category(), Category::Editing);
    assert_eq!(Action::Undo.category(), Category::Editing);
    assert_eq!(Action::SelectAll.category(), Category::Editing);
    assert_eq!(Action::Find.category(), Category::Editing);
    assert_eq!(Action::Save.category(), Category::Editing);
    assert_eq!(Action::Cut.category(), Category::Editing);
    assert_eq!(Action::Redo.category(), Category::Editing);
    assert_eq!(Action::Paste.category(), Category::Editing);
}

#[test]
fn category_browser_variants() {
    assert_eq!(Action::BrowserBack.category(), Category::Browser);
    assert_eq!(Action::BrowserForward.category(), Category::Browser);
    assert_eq!(Action::NewTab.category(), Category::Browser);
    assert_eq!(Action::CloseTab.category(), Category::Browser);
    assert_eq!(Action::ReopenTab.category(), Category::Browser);
    assert_eq!(Action::NextTab.category(), Category::Browser);
    assert_eq!(Action::PrevTab.category(), Category::Browser);
    assert_eq!(Action::ReloadPage.category(), Category::Browser);
}

#[test]
fn category_media_variants() {
    assert_eq!(Action::PlayPause.category(), Category::Media);
    assert_eq!(Action::NextTrack.category(), Category::Media);
    assert_eq!(Action::PrevTrack.category(), Category::Media);
    assert_eq!(Action::VolumeUp.category(), Category::Media);
    assert_eq!(Action::VolumeDown.category(), Category::Media);
    assert_eq!(Action::MuteVolume.category(), Category::Media);
}

#[test]
fn category_mouse_variants() {
    assert_eq!(Action::LeftClick.category(), Category::Mouse);
    assert_eq!(Action::RightClick.category(), Category::Mouse);
    assert_eq!(Action::MiddleClick.category(), Category::Mouse);
}

#[test]
fn category_dpi_variants() {
    assert_eq!(Action::CycleDpiPresets.category(), Category::Dpi);
    assert_eq!(Action::ToggleSmartShift.category(), Category::Dpi);
}

#[test]
fn category_scroll_variants() {
    assert_eq!(Action::ScrollUp.category(), Category::Scroll);
    assert_eq!(Action::ScrollDown.category(), Category::Scroll);
    assert_eq!(Action::HorizontalScrollLeft.category(), Category::Scroll);
    assert_eq!(Action::HorizontalScrollRight.category(), Category::Scroll);
}

#[test]
fn category_navigation_variants() {
    assert_eq!(Action::MissionControl.category(), Category::Navigation);
    assert_eq!(Action::AppExpose.category(), Category::Navigation);
    assert_eq!(Action::PreviousDesktop.category(), Category::Navigation);
    assert_eq!(Action::NextDesktop.category(), Category::Navigation);
    assert_eq!(Action::ShowDesktop.category(), Category::Navigation);
    assert_eq!(Action::LaunchpadShow.category(), Category::Navigation);
}

#[test]
fn category_system_variants() {
    assert_eq!(Action::LockScreen.category(), Category::System);
    assert_eq!(Action::Screenshot.category(), Category::System);
}

#[test]
fn category_labels_are_nonempty() {
    let categories = [
        Category::Editing,
        Category::Browser,
        Category::Media,
        Category::Mouse,
        Category::Dpi,
        Category::Scroll,
        Category::Navigation,
        Category::System,
    ];
    for cat in categories {
        assert!(!cat.label().is_empty(), "label empty for {cat:?}");
    }
}

#[test]
fn dpi_toggle_default_is_cycle_dpi_presets() {
    assert_eq!(
        default_binding(ButtonId::DpiToggle),
        Action::CycleDpiPresets
    );
}

#[test]
fn missing_directions_are_filled_and_chosen_ones_kept() {
    let mut map = DirectionMap::new();
    map.insert(GestureDirection::Up, Action::Copy);
    let mut binding = Binding::Gesture(map);
    binding.fill_gesture_defaults();
    assert_eq!(
        binding.direction_action(GestureDirection::Up),
        Some(&Action::Copy)
    );
    for direction in GestureDirection::ALL {
        assert!(binding.direction_action(direction).is_some());
    }

    let mut single = Binding::Single(Action::Paste);
    single.upgrade_to_gesture();
    assert!(single.is_gesture());
    assert_eq!(single.click_action(), Action::Paste);
}

#[test]
fn shortcuts_without_a_known_key_show_its_code() {
    let combo = KeyCombo {
        modifiers: KeyCombo::MOD_CTRL | KeyCombo::MOD_OPTION,
        key_code: 0x7e,
        display: String::new(),
    };
    assert_eq!(combo.rendered_label(), "⌃⌥key 0x7E");
}

#[test]
fn labels_of_numbered_presets() {
    assert_eq!(Action::SetDpiPreset(1).label(), "DPI Preset 2");
    assert_eq!(Action::CaptureRegion.label(), "Capture Region");
    assert_eq!(Action::CaptureRegion.category(), Category::System);
    assert!(Action::catalog().contains(&Action::CaptureRegion));
}

#[test]
fn labels_tell_actions_apart() {
    let mut labels: Vec<String> = Action::catalog().iter().map(Action::label).collect();
    labels.extend((0..255).map(|index| Action::SetDpiPreset(index).label()));
    let count = labels.len();
    assert!(labels.iter().all(|label| !label.is_empty()));
    labels.sort();
    labels.dedup();
    assert_eq!(labels.len(), count);
    assert_eq!(Action::SetDpiPreset(0).label(), "DPI Preset 1");
    assert_eq!(Action::SetDpiPreset(254).label(), "DPI Preset 255");
}
