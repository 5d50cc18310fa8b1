//! Projection of the configuration onto the input paths.

use openlogi::binding::{
    default_binding, default_pan_binding, Action, Binding, ButtonId, DirectionMap,
    GestureDirection, PanBinding,
};
use openlogi::bindings::{
    bindings_for, hid_gesture_for, hid_gestures_for, oshook_gestures_for, GestureMode,
};
use openlogi::config::Config;

fn directions(entries: &[(GestureDirection, Action)]) -> DirectionMap {
    let mut map = DirectionMap::new();
    for (direction, action) in entries {
        map.insert(*direction, action.clone());
    }
    map
}

#[test]
fn hid_gesture_projects_pan_and_per_app_directional_overlay() {
    let mut cfg = Config::default();
    cfg.set_binding("2b042", ButtonId::GestureButton, default_pan_binding());
    cfg.set_per_app_binding(
        "2b042",
        "com.apple.Safari",
        ButtonId::GestureButton,
        Some(Binding::Gesture(directions(&[(
            GestureDirection::Click,
            Action::MissionControl,
        )]))),
    );

    assert_eq!(
        hid_gesture_for(&cfg, Some("2b042"), None),
        Some(GestureMode::Pan(PanBinding {
            click: Action::SmartZoom,
        }))
    );
    assert!(matches!(
        hid_gesture_for(&cfg, Some("2b042"), Some("com.apple.Safari")),
        Some(GestureMode::Directional(_))
    ));
}

#[test]
fn hid_gestures_route_back_directional_and_forward_pan_together() {
    let mut cfg = Config::default();
    cfg.set_binding(
        "2b042",
        ButtonId::Back,
        Binding::Gesture(directions(&[
            (GestureDirection::Click, Action::MissionControl),
            (GestureDirection::Left, Action::PreviousDesktop),
        ])),
    );
    cfg.set_binding("2b042", ButtonId::Forward, default_pan_binding());

    let modes = hid_gestures_for(&cfg, Some("2b042"), None);

    assert_eq!(modes.len(), 3, "the dedicated default remains capturable");
    assert!(matches!(
        modes.get(ButtonId::Back),
        Some(GestureMode::Directional(directions))
            if directions.get(GestureDirection::Click) == Some(&Action::MissionControl)
                && directions.get(GestureDirection::Left) == Some(&Action::PreviousDesktop)
    ));
    assert_eq!(
        modes.get(ButtonId::Forward),
        Some(&GestureMode::Pan(PanBinding {
            click: Action::SmartZoom,
        }))
    );
    assert!(matches!(
        modes.get(ButtonId::GestureButton),
        Some(GestureMode::Directional(_))
    ));
}

#[test]
fn hid_gestures_per_app_single_removes_only_overridden_button() {
    let mut cfg = Config::default();
    cfg.set_binding("2b042", ButtonId::Back, default_pan_binding());
    cfg.set_binding("2b042", ButtonId::Forward, default_pan_binding());
    cfg.set_per_app_binding(
        "2b042",
        "com.apple.Safari",
        ButtonId::Back,
        Some(Binding::Single(Action::BrowserBack)),
    );

    let modes = hid_gestures_for(&cfg, Some("2b042"), Some("com.apple.Safari"));

    assert!(!modes.contains_key(ButtonId::Back));
    assert!(matches!(
        modes.get(ButtonId::Forward),
        Some(GestureMode::Pan(_))
    ));
    assert!(modes.contains_key(ButtonId::GestureButton));
}

#[test]
fn oshook_pan_projects_as_typed_pan_not_an_action() {
    let mut cfg = Config::default();
    cfg.set_binding("2b042", ButtonId::Back, default_pan_binding());

    let modes = oshook_gestures_for(&cfg, Some("2b042"), None);
    assert!(matches!(
        modes.get(ButtonId::Back),
        Some(GestureMode::Pan(_))
    ));
}

#[test]
fn oshook_gestures_collects_back_directional_and_forward_pan() {
    let mut cfg = Config::default();
    cfg.set_binding(
        "2b042",
        ButtonId::Back,
        Binding::Gesture(directions(&[(
            GestureDirection::Left,
            Action::PreviousDesktop,
        )])),
    );
    cfg.set_binding("2b042", ButtonId::Forward, default_pan_binding());

    let modes = oshook_gestures_for(&cfg, Some("2b042"), None);
    assert!(matches!(
        modes.get(ButtonId::Back),
        Some(GestureMode::Directional(_))
    ));
    assert!(matches!(
        modes.get(ButtonId::Forward),
        Some(GestureMode::Pan(_))
    ));
}

#[test]
fn click_less_gesture_keeps_default_click_in_projection() {
    // A gesture binding with no explicit `Click` (a migrated sparse v1 map or
    // a hand-edited config) must not project to `Action::None` and silently
    // disable the button — the button's default click survives.
    let mut cfg = Config::default();
    let mut map = DirectionMap::new();
    map.insert(GestureDirection::Up, Action::Copy);
    cfg.set_binding("2b042", ButtonId::GestureButton, Binding::Gesture(map));

    let projected = bindings_for(&cfg, Some("2b042"), None);
    assert_eq!(
        projected.get(ButtonId::GestureButton),
        Some(&default_binding(ButtonId::GestureButton)),
        "a Click-less gesture must keep the default click, not None"
    );
}

#[test]
fn explicit_gesture_click_overrides_default_in_projection() {
    // A gesture binding that DOES define `Click` projects that action.
    let mut cfg = Config::default();
    let mut map = DirectionMap::new();
    map.insert(GestureDirection::Click, Action::Paste);
    cfg.set_binding("2b042", ButtonId::GestureButton, Binding::Gesture(map));

    let projected = bindings_for(&cfg, Some("2b042"), None);
    assert_eq!(
        projected.get(ButtonId::GestureButton),
        Some(&Action::Paste)
    );
}

#[test]
fn oshook_gestures_collects_only_os_hook_gesture_buttons() {
    let mut cfg = Config::default();
    // A gesture-mode Back (an OS-hook button) — included, raw map preserved.
    cfg.set_binding(
        "2b042",
        ButtonId::Back,
        Binding::Gesture(directions(&[(GestureDirection::Up, Action::Copy)])),
    );
    // A single-mode Middle — excluded (not a gesture button).
    cfg.set_binding("2b042", ButtonId::MiddleClick, Action::MiddleClick.into());
    // The dedicated HID++ gesture button — excluded (it never reaches the
    // OS hook, so it must not appear in the hook's gesture map).
    cfg.set_binding(
        "2b042",
        ButtonId::GestureButton,
        Binding::Gesture(directions(&[(
            GestureDirection::Up,
            Action::MissionControl,
        )])),
    );

    let oshook = oshook_gestures_for(&cfg, Some("2b042"), None);
    assert_eq!(oshook.len(), 1, "only the gesture-mode Back belongs here");
    let Some(GestureMode::Directional(directions)) = oshook.get(ButtonId::Back) else {
        panic!("Back should project as directional");
    };
    assert_eq!(directions.get(GestureDirection::Up), Some(&Action::Copy));
    assert!(!oshook.contains_key(ButtonId::MiddleClick));
    assert!(!oshook.contains_key(ButtonId::GestureButton));
}

#[test]
fn per_app_single_drops_only_its_oshook_gesture() {
    let mut cfg = Config::default();
    cfg.set_binding(
        "2b042",
        ButtonId::Back,
        Binding::Gesture(directions(&[(
            GestureDirection::Left,
            Action::PreviousDesktop,
        )])),
    );
    cfg.set_binding("2b042", ButtonId::Forward, default_pan_binding());

    cfg.set_per_app_binding(
        "2b042",
        "com.apple.Safari",
        ButtonId::Back,
        Some(Binding::Single(Action::NextTab)),
    );
    let safari = oshook_gestures_for(&cfg, Some("2b042"), Some("com.apple.Safari"));
    assert!(
        !safari.contains_key(ButtonId::Back),
        "the overridden Back binding becomes an ordinary action"
    );
    assert!(
        safari.contains_key(ButtonId::Forward),
        "the independent Forward Pan binding remains active"
    );

    assert!(
        oshook_gestures_for(&cfg, Some("2b042"), Some("com.other.App"))
            .contains_key(ButtonId::Back)
    );
}

#[test]
fn per_app_typed_binding_promotes_only_its_oshook_button() {
    let mut cfg = Config::default();
    cfg.set_binding("2b042", ButtonId::Back, Action::MouseBack.into());
    cfg.set_binding("2b042", ButtonId::Forward, Action::MouseForward.into());
    cfg.set_per_app_binding(
        "2b042",
        "com.apple.Safari",
        ButtonId::Forward,
        Some(default_pan_binding()),
    );

    let safari = oshook_gestures_for(&cfg, Some("2b042"), Some("com.apple.Safari"));
    assert_eq!(safari.len(), 1);
    assert!(matches!(
        safari.get(ButtonId::Forward),
        Some(GestureMode::Pan(_))
    ));
    assert!(!safari.contains_key(ButtonId::Back));
    assert!(
        oshook_gestures_for(&cfg, Some("2b042"), Some("com.other.App")).is_empty(),
        "the typed override does not promote the global binding"
    );
}

#[test]
fn dedicated_hid_gesture_coexists_with_oshook_gestures() {
    let mut cfg = Config::default();
    cfg.set_binding(
        "2b042",
        ButtonId::Back,
        Binding::Gesture(directions(&[(
            GestureDirection::Left,
            Action::PreviousDesktop,
        )])),
    );
    cfg.set_binding("2b042", ButtonId::Forward, default_pan_binding());
    cfg.set_binding(
        "2b042",
        ButtonId::GestureButton,
        Binding::Gesture(directions(&[(
            GestureDirection::Up,
            Action::MissionControl,
        )])),
    );

    let Some(GestureMode::Directional(defaults)) = hid_gesture_for(&cfg, Some("2b042"), None)
    else {
        panic!("the dedicated HID++ button should remain directional");
    };
    assert_eq!(
        defaults.get(GestureDirection::Up),
        Some(&Action::MissionControl)
    );
    let oshook = oshook_gestures_for(&cfg, Some("2b042"), None);
    assert!(oshook.contains_key(ButtonId::Back));
    assert!(oshook.contains_key(ButtonId::Forward));
}

#[test]
fn disabled_button_stays_disabled() {
    let mut cfg = Config::default();
    cfg.set_binding("2b042", ButtonId::Back, Action::DoNothing.into());
    let projected = bindings_for(&cfg, Some("2b042"), None);
    assert_eq!(projected.get(ButtonId::Back), Some(&Action::DoNothing));
}

#[test]
fn every_button_is_projected_without_a_device() {
    let projected = bindings_for(&Config::default(), None, None);
    assert_eq!(projected.len(), 10);
    assert_eq!(projected.get(ButtonId::Forward), Some(&Action::BrowserForward));
    assert!(oshook_gestures_for(&Config::default(), None, None).is_empty());
}
