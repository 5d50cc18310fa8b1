//! Per-device settings, per-application overlays and schema migration.

use openlogi::binding::{
    default_binding, default_gesture_binding, default_pan_binding, Action, Binding, ButtonId,
    DirectionMap, GestureDirection,
};
use openlogi::button_map::ButtonMap;
use openlogi::color::Rgb;
use openlogi::config::device::{button_named, DeviceIdentity, RawDeviceConfig};
use openlogi::config::settings::{
    AppSettings, Lighting, ScrollResolution, SmartShift, WheelMode,
};
use openlogi::config::{Config, RawConfig, SchemaError, SCHEMA_VERSION};
use openlogi::device::{Capabilities, DeviceKind};
use openlogi::text_map::TextMap;

fn directions(entries: &[(GestureDirection, Action)]) -> DirectionMap {
    let mut map = DirectionMap::new();
    for (direction, action) in entries {
        map.insert(*direction, action.clone());
    }
    map
}

/// A device block with nothing in it.
fn raw_device() -> RawDeviceConfig {
    RawDeviceConfig {
        gesture_owner: None,
        identity: None,
        bindings: ButtonMap::new(),
        button_bindings: ButtonMap::new(),
        gesture_bindings: DirectionMap::new(),
        per_app_bindings: TextMap::new(),
        dpi_presets: Vec::new(),
        dpi: None,
        lighting: None,
        smartshift: None,
        invert_scroll: false,
        scroll_resolution: None,
    }
}

/// A document of this version with one device in it.
fn document(schema_version: u32, key: &str, device: RawDeviceConfig) -> RawConfig {
    let mut devices = TextMap::new();
    devices.insert(key, device);
    RawConfig {
        schema_version,
        app_settings: AppSettings::default(),
        selected_device: None,
        devices,
    }
}

#[test]
fn per_app_overlay_takes_precedence() {
    let mut cfg = Config::default();
    cfg.set_binding(
        "2b042",
        ButtonId::Back,
        Binding::Single(Action::BrowserBack),
    );
    cfg.set_binding(
        "2b042",
        ButtonId::Forward,
        Binding::Single(Action::BrowserForward),
    );
    cfg.set_per_app_binding(
        "2b042",
        "com.microsoft.VSCode",
        ButtonId::Back,
        Some(Binding::Single(Action::Undo)),
    );

    // Global: both buttons are browser nav.
    let global = cfg.effective_bindings("2b042", None);
    assert_eq!(
        global.get(ButtonId::Back),
        Some(&Binding::Single(Action::BrowserBack))
    );
    assert_eq!(
        global.get(ButtonId::Forward),
        Some(&Binding::Single(Action::BrowserForward))
    );

    // VSCode: Back overridden (wrapped as Single), Forward inherits.
    let vscode = cfg.effective_bindings("2b042", Some("com.microsoft.VSCode"));
    assert_eq!(
        vscode.get(ButtonId::Back),
        Some(&Binding::Single(Action::Undo))
    );
    assert_eq!(
        vscode.get(ButtonId::Forward),
        Some(&Binding::Single(Action::BrowserForward))
    );

    // Unrelated app falls through.
    let other = cfg.effective_bindings("2b042", Some("com.apple.Safari"));
    assert_eq!(
        other.get(ButtonId::Back),
        Some(&Binding::Single(Action::BrowserBack))
    );
}

#[test]
fn per_app_binding_removal_prunes_empty_app() {
    let mut cfg = Config::default();
    cfg.set_per_app_binding(
        "2b042",
        "com.example.App",
        ButtonId::Back,
        Some(Binding::Single(Action::Copy)),
    );
    cfg.set_per_app_binding("2b042", "com.example.App", ButtonId::Back, None);
    assert!(
        cfg.devices
            .get("2b042")
            .is_some_and(|device| device.per_app_bindings.is_empty()),
        "removing last override should prune the app entry"
    );
}

#[test]
fn set_gesture_direction_upgrades_single_to_gesture() {
    let mut cfg = Config::default();
    // Start from a Single binding, then bind a swipe direction.
    cfg.set_binding(
        "2b042",
        ButtonId::Back,
        Binding::Single(Action::BrowserBack),
    );
    cfg.set_gesture_direction("2b042", ButtonId::Back, GestureDirection::Up, Action::Copy);

    match cfg.bindings_for("2b042").get(ButtonId::Back) {
        Some(Binding::Gesture(map)) => {
            // The prior single action is preserved as the Click entry.
            assert_eq!(
                map.get(GestureDirection::Click),
                Some(&Action::BrowserBack)
            );
            assert_eq!(map.get(GestureDirection::Up), Some(&Action::Copy));
        }
        other => panic!("expected Gesture after upgrade, got {other:?}"),
    }
}

#[test]
fn set_gesture_direction_on_fresh_gesture_button_seeds_click() {
    // Binding one direction on a never-configured gesture button must still
    // persist a `Click`, so the click projection is the canonical default
    // rather than `Action::None` (which reads as a no-op press).
    let mut cfg = Config::default();
    cfg.set_gesture_direction(
        "2b042",
        ButtonId::GestureButton,
        GestureDirection::Up,
        Action::Copy,
    );

    match cfg.bindings_for("2b042").get(ButtonId::GestureButton) {
        Some(Binding::Gesture(map)) => {
            assert_eq!(map.get(GestureDirection::Up), Some(&Action::Copy));
            assert_eq!(
                map.get(GestureDirection::Click),
                Some(&default_gesture_binding(
                    GestureDirection::Click
                )),
                "a fresh gesture button must seed a Click from its default"
            );
        }
        other => panic!("expected Gesture, got {other:?}"),
    }
}

#[test]
fn earlier_split_bindings_fold_into_one_map() {
    let mut raw = raw_device();
    raw.button_bindings.insert(ButtonId::Back, Action::BrowserBack);
    raw.gesture_bindings = directions(&[
        (GestureDirection::Up, Action::Copy),
        (GestureDirection::Click, Action::Paste),
    ]);

    let cfg = Config::migrate(document(1, "2b042", raw)).expect("an older document loads");
    assert_eq!(cfg.schema_version, SCHEMA_VERSION);
    let bindings = cfg.bindings_for("2b042");
    assert_eq!(
        bindings.get(ButtonId::Back),
        Some(&Binding::Single(Action::BrowserBack))
    );
    assert_eq!(
        bindings.get(ButtonId::GestureButton),
        Some(&Binding::Gesture(directions(&[
            (GestureDirection::Up, Action::Copy),
            (GestureDirection::Click, Action::Paste),
        ])))
    );
}

#[test]
fn migration_gesture_map_wins_over_legacy_single_gesture_button_entry() {
    let mut raw = raw_device();
    raw.button_bindings
        .insert(ButtonId::GestureButton, Action::MissionControl);
    raw.gesture_bindings = directions(&[
        (GestureDirection::Up, Action::Copy),
        (GestureDirection::Down, Action::Paste),
    ]);

    let cfg = Config::migrate(document(1, "2b042", raw)).expect("load v1");
    assert_eq!(
        cfg.bindings_for("2b042").get(ButtonId::GestureButton),
        Some(&Binding::Gesture(directions(&[
            (GestureDirection::Up, Action::Copy),
            (GestureDirection::Down, Action::Paste),
        ]))),
        "gesture map must win over the legacy single GestureButton entry"
    );
}

#[test]
fn migration_drops_vestigial_lone_gesture_button_single() {
    let mut raw = raw_device();
    raw.button_bindings
        .insert(ButtonId::GestureButton, Action::MissionControl);
    raw.button_bindings.insert(ButtonId::Back, Action::BrowserBack);

    let bindings = Config::migrate(document(1, "2b042", raw))
        .expect("load v1")
        .bindings_for("2b042");
    assert_eq!(
        bindings.get(ButtonId::Back),
        Some(&Binding::Single(Action::BrowserBack))
    );
    assert_eq!(bindings.get(ButtonId::GestureButton), None);
}

#[test]
fn rejects_newer_schema_version_but_accepts_v1() {
    assert!(matches!(
        Config::migrate(document(99, "2b042", raw_device())),
        Err(SchemaError::UnsupportedSchemaVersion { found: 99 })
    ));
    assert!(
        Config::migrate(document(1, "2b042", raw_device())).is_ok(),
        "v1 should still load"
    );
}

#[test]
fn selected_owner_keeps_its_pan_and_a_dormant_gesture_is_demoted() {
    let mut raw = raw_device();
    raw.gesture_owner = Some("Forward".to_string());
    raw.bindings.insert(ButtonId::Forward, default_pan_binding());
    raw.bindings.insert(
        ButtonId::Back,
        Binding::Gesture(directions(&[
            (GestureDirection::Click, Action::BrowserBack),
            (GestureDirection::Left, Action::PreviousDesktop),
            (GestureDirection::Right, Action::NextDesktop),
        ])),
    );

    let cfg = Config::migrate(document(3, "mouse", raw)).expect("load schema v3");
    assert_eq!(cfg.schema_version, 4);
    let bindings = cfg.bindings_for("mouse");
    assert!(matches!(bindings.get(ButtonId::Forward), Some(Binding::Pan(_))));
    assert_eq!(
        bindings.get(ButtonId::Back),
        Some(&Binding::Single(Action::BrowserBack))
    );
}

#[test]
fn gesture_owner_schema_v3_off_demotes_every_typed_binding() {
    let mut raw = raw_device();
    raw.gesture_owner = Some("Off".to_string());
    raw.bindings.insert(ButtonId::Forward, default_pan_binding());
    raw.bindings.insert(
        ButtonId::Back,
        Binding::Gesture(directions(&[
            (GestureDirection::Click, Action::BrowserBack),
            (GestureDirection::Up, Action::MissionControl),
        ])),
    );

    let bindings = Config::migrate(document(3, "mouse", raw))
        .expect("load schema v3")
        .bindings_for("mouse");
    assert_eq!(
        bindings.get(ButtonId::Forward),
        Some(&Binding::Single(Action::SmartZoom))
    );
    assert_eq!(
        bindings.get(ButtonId::Back),
        Some(&Binding::Single(Action::BrowserBack))
    );
}

#[test]
fn gesture_owner_schema_v3_invalid_or_missing_demotes_to_native_defaults() {
    for owner in [Some("bogus".to_string()), None] {
        let mut raw = raw_device();
        raw.gesture_owner = owner;
        raw.bindings.insert(
            ButtonId::Forward,
            Binding::Gesture(directions(&[(
                GestureDirection::Left,
                Action::PreviousDesktop,
            )])),
        );
        raw.bindings.insert(
            ButtonId::Back,
            Binding::Gesture(directions(&[(
                GestureDirection::Up,
                Action::MissionControl,
            )])),
        );

        let bindings = Config::migrate(document(3, "mouse", raw))
            .expect("invalid or missing owner must not fail the load")
            .bindings_for("mouse");
        assert_eq!(
            bindings.get(ButtonId::Forward),
            Some(&Binding::Single(default_binding(ButtonId::Forward)))
        );
        assert_eq!(
            bindings.get(ButtonId::Back),
            Some(&Binding::Single(default_binding(ButtonId::Back)))
        );
    }
}

#[test]
fn gesture_owner_schema_v3_absent_selected_binding_does_not_promote_it() {
    let mut raw = raw_device();
    raw.gesture_owner = Some("GestureButton".to_string());
    raw.bindings.insert(
        ButtonId::Back,
        Binding::Gesture(directions(&[
            (GestureDirection::Click, Action::BrowserBack),
            (GestureDirection::Up, Action::MissionControl),
        ])),
    );

    let bindings = Config::migrate(document(3, "mouse", raw))
        .expect("load schema v3")
        .bindings_for("mouse");
    assert_eq!(bindings.get(ButtonId::GestureButton), None);
    assert_eq!(
        bindings.get(ButtonId::Back),
        Some(&Binding::Single(Action::BrowserBack))
    );
}

#[test]
fn current_documents_keep_independent_pan_and_gesture_bindings() {
    let mut raw = raw_device();
    raw.bindings.insert(ButtonId::Forward, default_pan_binding());
    raw.bindings.insert(
        ButtonId::Back,
        Binding::Gesture(directions(&[
            (GestureDirection::Click, Action::MissionControl),
            (GestureDirection::Down, Action::AppExpose),
        ])),
    );

    let bindings = Config::migrate(document(4, "mouse", raw))
        .expect("load schema v4")
        .bindings_for("mouse");
    assert!(matches!(bindings.get(ButtonId::Forward), Some(Binding::Pan(_))));
    assert!(matches!(bindings.get(ButtonId::Back), Some(Binding::Gesture(_))));
}

#[test]
fn device_settings_read_back_and_are_absent_elsewhere() {
    let mut cfg = Config::default();
    let lighting = Lighting {
        enabled: true,
        color: Rgb {
            r: 0x00,
            g: 0xaa,
            b: 0xbb,
        },
        brightness: 75,
    };
    let smartshift = SmartShift {
        mode: WheelMode::Ratchet,
        auto_disengage: 16,
        tunable_torque: 30,
    };
    cfg.set_lighting("2b042", lighting);
    cfg.set_dpi("2b042", 1600);
    cfg.set_smartshift("2b042", smartshift);
    cfg.set_invert_scroll("2b042", true);
    cfg.set_scroll_resolution("2b042", Some(ScrollResolution::High));
    cfg.set_dpi_presets("2b042", vec![800, 1600, 3200]);

    assert_eq!(cfg.lighting("2b042"), Some(lighting));
    assert_eq!(cfg.dpi("2b042"), Some(1600));
    assert_eq!(cfg.smartshift("2b042"), Some(smartshift));
    assert!(cfg.invert_scroll("2b042"));
    assert_eq!(cfg.scroll_resolution("2b042"), Some(ScrollResolution::High));
    assert_eq!(cfg.dpi_presets("2b042"), vec![800, 1600, 3200]);

    assert_eq!(cfg.lighting("absent"), None);
    assert_eq!(cfg.dpi("absent"), None);
    assert_eq!(cfg.smartshift("absent"), None);
    assert!(!cfg.invert_scroll("absent"));
    assert_eq!(cfg.scroll_resolution("absent"), None);
    assert_eq!(cfg.dpi_presets("absent"), Vec::<u32>::new());
}

#[test]
fn identities_coexist_with_bindings_and_are_listed_by_key() {
    let mut cfg = Config::default();
    let mouse = DeviceIdentity {
        display_name: "MX Master 3S".to_string(),
        model_info: None,
        codename: None,
        kind: DeviceKind::Mouse,
        capabilities: Capabilities {
            buttons: true,
            pointer: true,
            lighting: false,
            scroll_inversion: false,
            hires_wheel: true,
        },
    };
    cfg.set_device_identity("2b034", mouse.clone());
    cfg.set_binding(
        "2b034",
        ButtonId::Back,
        Binding::Single(Action::BrowserBack),
    );

    assert_eq!(cfg.device_identity("2b034"), Some(&mouse));
    assert_eq!(cfg.device_identity("absent"), None);
    assert_eq!(
        cfg.bindings_for("2b034").get(ButtonId::Back),
        Some(&Binding::Single(Action::BrowserBack))
    );
    assert_eq!(cfg.known_identities(), vec![("2b034", &mouse)]);
}

#[test]
fn selected_device_is_remembered_and_cleared() {
    let mut cfg = Config::default();
    assert_eq!(cfg.selected_device(), None);
    cfg.set_selected_device(Some("2b042".to_string()));
    assert_eq!(cfg.selected_device(), Some("2b042"));
    cfg.set_selected_device(None);
    assert_eq!(cfg.selected_device(), None);
}

#[test]
fn buttons_are_found_by_their_stored_names() {
    assert_eq!(button_named("Back"), Some(ButtonId::Back));
    assert_eq!(button_named("GestureButton"), Some(ButtonId::GestureButton));
    assert_eq!(button_named("back"), None);
    assert_eq!(button_named(""), None);
}

#[test]
fn an_override_counts_only_where_it_was_set() {
    let mut cfg = Config::default();
    cfg.set_per_app_binding(
        "mouse",
        "com.apple.Safari",
        ButtonId::Back,
        Some(Binding::Single(Action::Copy)),
    );
    assert!(cfg.has_app_override("mouse", "com.apple.Safari"));
    assert!(!cfg.has_app_override("mouse", "com.example.Other"));
    assert!(!cfg.has_app_override("absent", "com.apple.Safari"));
    cfg.set_per_app_binding("mouse", "com.apple.Safari", ButtonId::Back, None);
    assert!(!cfg.has_app_override("mouse", "com.apple.Safari"));
}

#[test]
fn colors_are_stored_as_six_digits() {
    assert_eq!(Rgb::parse("00aabb"), Some(Rgb::new(0x00, 0xaa, 0xbb)));
    assert_eq!(Rgb::parse("#ff0000"), Some(Rgb::new(0xff, 0x00, 0x00)));
    assert_eq!(Rgb::parse("FF8000"), Some(Rgb::new(0xff, 0x80, 0x00)));
    assert_eq!(Rgb::parse("red"), None);
    assert_eq!(Rgb::parse("##ff000"), None);
    assert_eq!(Rgb::parse("ff00000"), None);
    assert_eq!(Rgb::parse(""), None);
    assert_eq!(Rgb::parse_or_white("red"), Rgb::white());
    assert_eq!(Rgb::new(0x00, 0xaa, 0xbb).to_hex(), "00aabb");
    for byte in 0..=255 {
        let color = Rgb::new(byte, 255 - byte, byte / 2);
        assert_eq!(Rgb::parse(&color.to_hex()), Some(color));
    }
}

#[test]
fn only_changed_settings_are_worth_storing() {
    let mut settings = AppSettings::default();
    assert!(settings.is_default());
    settings.launch_at_login = true;
    assert!(!settings.is_default());
    settings = AppSettings::default();
    settings.language = Some(String::new());
    assert!(!settings.is_default());
}
