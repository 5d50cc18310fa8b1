//! Gesture presets: recognising, applying and editing whole bindings.

use openlogi::binding::{
    default_pan_binding, window_navigation_binding, Action, Binding, ButtonId, DirectionMap,
    GestureDirection, PanBinding,
};
use openlogi::config::Config;
use openlogi::gui::gesture_presets::{
    apply_binding_to_scope, available_gesture_presets, binding_for_gesture_direction_selection,
    binding_for_gesture_preset, binding_for_gesture_selection, binding_for_pan_click_selection,
    classify_complete_binding, classify_gesture_preset, gesture_binding_with_direction,
    pan_binding_with_click, CompleteBindingClass, GesturePreset,
};

fn directions(entries: &[(GestureDirection, Action)]) -> DirectionMap {
    let mut map = DirectionMap::new();
    for (direction, action) in entries {
        map.insert(*direction, action.clone());
    }
    map
}

#[test]
fn classifies_complete_bindings_independently() {
    assert_eq!(
        classify_complete_binding(&Binding::Single(Action::Copy)),
        CompleteBindingClass::Single
    );
    assert_eq!(
        classify_complete_binding(&window_navigation_binding()),
        CompleteBindingClass::WindowNavigation
    );
    assert_eq!(
        classify_complete_binding(&default_pan_binding()),
        CompleteBindingClass::Pan
    );
    assert_eq!(
        classify_complete_binding(&Binding::Gesture(directions(&[(
            GestureDirection::Left,
            Action::Copy,
        )]))),
        CompleteBindingClass::Custom
    );
}

#[test]
fn forward_pan_and_back_window_navigation_coexist() {
    let mut config = Config::default();
    apply_binding_to_scope(
        &mut config,
        "mouse",
        None,
        ButtonId::Forward,
        default_pan_binding(),
    );
    apply_binding_to_scope(
        &mut config,
        "mouse",
        None,
        ButtonId::Back,
        window_navigation_binding(),
    );

    let bindings = config.effective_bindings("mouse", None);
    assert_eq!(
        bindings.get(ButtonId::Forward),
        Some(&default_pan_binding())
    );
    assert_eq!(
        bindings.get(ButtonId::Back),
        Some(&window_navigation_binding())
    );
}

#[test]
fn replacing_back_does_not_mutate_forward() {
    let mut config = Config::default();
    apply_binding_to_scope(
        &mut config,
        "mouse",
        None,
        ButtonId::Forward,
        default_pan_binding(),
    );
    apply_binding_to_scope(
        &mut config,
        "mouse",
        None,
        ButtonId::Back,
        window_navigation_binding(),
    );
    apply_binding_to_scope(
        &mut config,
        "mouse",
        None,
        ButtonId::Back,
        Binding::Single(Action::Copy),
    );

    let bindings = config.effective_bindings("mouse", None);
    assert_eq!(
        bindings.get(ButtonId::Forward),
        Some(&default_pan_binding())
    );
    assert_eq!(
        bindings.get(ButtonId::Back),
        Some(&Binding::Single(Action::Copy))
    );
}

#[test]
fn per_app_replacement_changes_only_target_button() {
    let mut config = Config::default();
    apply_binding_to_scope(
        &mut config,
        "mouse",
        None,
        ButtonId::Forward,
        default_pan_binding(),
    );
    apply_binding_to_scope(
        &mut config,
        "mouse",
        None,
        ButtonId::Back,
        window_navigation_binding(),
    );
    apply_binding_to_scope(
        &mut config,
        "mouse",
        Some("com.apple.Safari"),
        ButtonId::Back,
        Binding::Single(Action::Copy),
    );

    let global = config.effective_bindings("mouse", None);
    let safari = config.effective_bindings("mouse", Some("com.apple.Safari"));
    assert_eq!(
        global.get(ButtonId::Back),
        Some(&window_navigation_binding())
    );
    assert_eq!(
        safari.get(ButtonId::Back),
        Some(&Binding::Single(Action::Copy))
    );
    assert_eq!(safari.get(ButtonId::Forward), Some(&default_pan_binding()));
}

#[test]
fn recognizes_exact_presets_and_custom_bindings() {
    assert_eq!(
        classify_gesture_preset(&window_navigation_binding()),
        GesturePreset::WindowNavigation
    );
    assert_eq!(
        classify_gesture_preset(&default_pan_binding()),
        GesturePreset::Pan
    );
    let custom = Binding::Gesture(directions(&[(GestureDirection::Click, Action::Copy)]));
    assert_eq!(classify_gesture_preset(&custom), GesturePreset::Custom);
}

#[test]
fn hides_pan_off_macos_but_keeps_existing_pan_classifiable() {
    assert_eq!(
        available_gesture_presets(false),
        vec![GesturePreset::WindowNavigation, GesturePreset::Custom]
    );
    assert_eq!(
        classify_gesture_preset(&default_pan_binding()),
        GesturePreset::Pan
    );
}

#[test]
fn preset_factories_use_core_canonical_bindings() {
    assert_eq!(
        binding_for_gesture_preset(GesturePreset::WindowNavigation),
        window_navigation_binding()
    );
    assert_eq!(
        binding_for_gesture_preset(GesturePreset::Pan),
        default_pan_binding()
    );
}

#[test]
fn applies_complete_global_and_per_app_values() {
    let mut config = Config::default();
    apply_binding_to_scope(
        &mut config,
        "mouse",
        None,
        ButtonId::Back,
        window_navigation_binding(),
    );
    apply_binding_to_scope(
        &mut config,
        "mouse",
        Some("com.apple.Safari"),
        ButtonId::Back,
        default_pan_binding(),
    );

    assert_eq!(
        config.bindings_for("mouse").get(ButtonId::Back),
        Some(&window_navigation_binding())
    );
    assert_eq!(
        config
            .effective_bindings("mouse", Some("com.apple.Safari"))
            .get(ButtonId::Back),
        Some(&default_pan_binding())
    );
}

#[test]
fn direction_edit_preserves_other_arms_and_becomes_custom() {
    let edited = gesture_binding_with_direction(
        &window_navigation_binding(),
        GestureDirection::Left,
        Action::Copy,
    );
    assert_eq!(classify_gesture_preset(&edited), GesturePreset::Custom);
    assert_eq!(
        edited.direction_action(GestureDirection::Left),
        Some(&Action::Copy)
    );
    assert_eq!(
        edited.direction_action(GestureDirection::Right),
        Some(&Action::NextDesktop)
    );
}

#[test]
fn pan_click_edit_preserves_pan_mode() {
    assert_eq!(
        pan_binding_with_click(&default_pan_binding(), Action::MissionControl),
        Binding::Pan(PanBinding {
            click: Action::MissionControl,
        })
    );
}

#[test]
fn reselecting_pan_preserves_custom_click_without_a_mutation() {
    let binding = Binding::Pan(PanBinding {
        click: Action::MissionControl,
    });

    assert_eq!(
        binding_for_gesture_selection(&binding, GesturePreset::Pan),
        None
    );
    assert_eq!(binding.click_action(), Action::MissionControl);
}

#[test]
fn reselecting_custom_preserves_the_complete_binding_without_a_mutation() {
    let binding = gesture_binding_with_direction(
        &window_navigation_binding(),
        GestureDirection::Left,
        Action::Copy,
    );

    assert_eq!(
        binding_for_gesture_selection(&binding, GesturePreset::Custom),
        None
    );
    assert_eq!(
        binding.direction_action(GestureDirection::Left),
        Some(&Action::Copy)
    );
}

#[test]
fn selecting_a_different_preset_returns_one_complete_binding_mutation() {
    let current = Binding::Pan(PanBinding {
        click: Action::MissionControl,
    });

    assert_eq!(
        binding_for_gesture_selection(&current, GesturePreset::WindowNavigation),
        Some(window_navigation_binding())
    );
}

#[test]
fn selecting_custom_promotes_a_single_binding() {
    let selected = binding_for_gesture_selection(
        &Binding::Single(Action::MouseBack),
        GesturePreset::Custom,
    );

    assert!(matches!(selected, Some(Binding::Gesture(_))));
}
