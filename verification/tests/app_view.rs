//! What the window shows: gates, tabs, icons and cards.

use openlogi::config::settings::ScrollResolution;
use openlogi::config::Config;
use openlogi::device::{
    Capabilities, DeviceInventory, DeviceKind, DeviceModelInfo, DeviceRoute, DeviceTransports,
    PairedDevice, ReceiverInfo, DIRECT_DEVICE_INDEX,
};
use openlogi::gui::app::detail::{
    configuration_card, detail_content, detail_header, detail_tabs, device_details_card,
    invert_scroll_toggle, scrolling_card, tab_clicked, wheel_resolution_clicked,
    wheel_resolution_control,
};
use openlogi::gui::app::{
    accessibility_gate, connection_icon_path, input_monitoring_gate, permission_gate,
    request_accessibility, AppView, DetailTab, HomeBody, PermissionGate, Screen,
};
use openlogi::gui::permissions::Permission;
use openlogi::gui::permissions_page::permission_field_clicked;
use openlogi::gui::state::devices::DeviceRecord;
use openlogi::gui::state::{AgentLink, AppState, Command, UiEffect};
use openlogi::ipc::{AgentStatus, InventoryHealth, PermissionStatus, PROTOCOL_VERSION};
use openlogi::text_map::TextMap;

fn record(kind: DeviceKind, capabilities: Option<Capabilities>) -> DeviceRecord {
    DeviceRecord {
        config_key: "test".to_string(),
        persistent: true,
        model_key: "test".to_string(),
        display_name: "Test".to_string(),
        asset: None,
        model_info: None,
        codename: None,
        serial_number: None,
        unit_id: [0; 4],
        route: None,
        kind,
        capabilities,
        slot: 1,
        online: true,
        battery: None,
    }
}

#[test]
fn agent_permissions_gate_before_device_offline_state() {
    assert_eq!(
        permission_gate(false, PermissionStatus::Denied),
        Some(PermissionGate::Accessibility)
    );
    assert_eq!(
        permission_gate(true, PermissionStatus::Denied),
        Some(PermissionGate::InputMonitoring)
    );
    assert_eq!(
        permission_gate(true, PermissionStatus::Unknown),
        Some(PermissionGate::InputMonitoring)
    );
    assert_eq!(permission_gate(true, PermissionStatus::Granted), None);
}

#[test]
fn connection_icon_matches_route() {
    let bolt = DeviceRoute::Bolt {
        receiver_uid: "r".into(),
        slot: 1,
    };
    let uni = DeviceRoute::Unifying {
        receiver_uid: "r".into(),
        slot: 1,
    };
    let direct = DeviceRoute::Direct {
        vendor_id: 0x046d,
        product_id: 0xb019,
    };
    // Firmware transport tables (HID++ 0x0003): a wired-only device (G513),
    // a Bluetooth-capable one (MX Master on a cable or BT), and BLE-direct.
    let wired = DeviceTransports {
        usb: true,
        ..DeviceTransports::default()
    };
    let bt = DeviceTransports {
        usb: true,
        bluetooth: true,
        ..DeviceTransports::default()
    };
    let btle = DeviceTransports {
        btle: true,
        ..DeviceTransports::default()
    };
    assert_eq!(
        connection_icon_path(Some(&bolt), None),
        "action-icons/bolt.svg"
    );
    assert_eq!(
        connection_icon_path(Some(&uni), None),
        "action-icons/unifying.svg"
    );
    // Direct + radio-less firmware = the cable is the only possible link.
    assert_eq!(
        connection_icon_path(Some(&direct), Some(&wired)),
        "action-icons/usb.svg"
    );
    // eQuad is receiver-only, so an equad-only table on a *direct* route
    // still means a cable — not Bluetooth.
    let equad_only = DeviceTransports {
        equad: true,
        ..DeviceTransports::default()
    };
    assert_eq!(
        connection_icon_path(Some(&direct), Some(&equad_only)),
        "action-icons/usb.svg"
    );
    // An all-false table is "unknown", not "wired".
    assert_eq!(
        connection_icon_path(Some(&direct), Some(&DeviceTransports::default())),
        "action-icons/bluetooth.svg"
    );
    // Direct + any radio keeps the Bluetooth mark.
    assert_eq!(
        connection_icon_path(Some(&direct), Some(&bt)),
        "action-icons/bluetooth.svg"
    );
    assert_eq!(
        connection_icon_path(Some(&direct), Some(&btle)),
        "action-icons/bluetooth.svg"
    );
    // Unknown transports (no 0x0003 snapshot) keep the old default.
    assert_eq!(
        connection_icon_path(Some(&direct), None),
        "action-icons/bluetooth.svg"
    );
    // No route (e.g. a synthetic/placeholder card) falls back to Bluetooth.
    assert_eq!(
        connection_icon_path(None, None),
        "action-icons/bluetooth.svg"
    );
}

/// Tabs follow measured capabilities, not kind.
/// A device the Bolt register mislabels as Keyboard but whose 0x0005 probe
/// returns Mouse ends up with kind=Mouse; measured caps drive the tabs.
#[test]
fn tabs_follow_capabilities_not_kind() {
    let caps = Some(Capabilities {
        buttons: true,
        pointer: true,
        lighting: false,
        scroll_inversion: false,
        hires_wheel: false,
    });
    // After 0x0005 kind-correction the record has kind=Mouse, not Keyboard.
    let tabs = DetailTab::tabs_for(&record(DeviceKind::Mouse, caps));
    assert!(tabs.contains(&DetailTab::Buttons));
    assert!(tabs.contains(&DetailTab::Pointer));
    assert!(!tabs.contains(&DetailTab::Lighting));
}

/// A keyboard that exposes ReprogControls (buttons=true) but has no resolved
/// asset should not get the mouse-model Buttons panel — the generic mouse
/// hotspot layout (Middle Click, DPI Toggle, …) is wrong for a keyboard.
#[test]
fn keyboard_without_asset_hides_buttons_tab() {
    let caps = Some(Capabilities {
        buttons: true,
        pointer: false,
        lighting: true,
        scroll_inversion: false,
        hires_wheel: false,
    });
    let tabs = DetailTab::tabs_for(&record(DeviceKind::Keyboard, caps));
    assert!(
        !tabs.contains(&DetailTab::Buttons),
        "mouse model shown for keyboard"
    );
    assert!(tabs.contains(&DetailTab::Lighting));
}

/// Each panel is independent: a lighting-only device (e.g. a keyboard with
/// RGB but no remappable keys yet) shows only Lighting + Device.
#[test]
fn lighting_only_device_shows_only_lighting() {
    let caps = Some(Capabilities {
        lighting: true,
        ..Capabilities::default()
    });
    let tabs = DetailTab::tabs_for(&record(DeviceKind::Keyboard, caps));
    assert_eq!(tabs, vec![DetailTab::Lighting, DetailTab::Device]);
}

/// An unprobed (offline) device has no measured capabilities and falls back
/// to a kind presumption, so a sleeping mouse keeps its button/pointer tabs.
#[test]
fn unprobed_mouse_falls_back_to_presumed_capabilities() {
    let tabs = DetailTab::tabs_for(&record(DeviceKind::Mouse, None));
    assert!(tabs.contains(&DetailTab::Buttons));
    assert!(tabs.contains(&DetailTab::Pointer));
    assert!(!tabs.contains(&DetailTab::Lighting));
}

/// An unprobed, unidentified device presumes nothing — only the info tab,
/// rather than guessing wrong panels (the old Unknown+Direct→lighting bug).
#[test]
fn unprobed_unknown_device_shows_only_device_tab() {
    let tabs = DetailTab::tabs_for(&record(DeviceKind::Unknown, None));
    assert_eq!(tabs, vec![DetailTab::Device]);
}

fn ready(accessibility_granted: bool, inventory: InventoryHealth) -> AgentLink {
    AgentLink::Ready(AgentStatus {
        accessibility_granted,
        hook_installed: true,
        launch_at_login: false,
        inventory,
        protocol_version: PROTOCOL_VERSION,
        agent_version: "0.1.0".to_string(),
        input_monitoring: PermissionStatus::Granted,
    })
}

#[test]
fn permissions_come_before_devices() {
    let (mut state, _) = AppState::with_runtime(Config::default(), &Vec::new(), &TextMap::new());
    let mut view = AppView::new();
    assert!(matches!(view.render(&state), Screen::Connecting));
    let _ = state.set_agent_link(AgentLink::OutdatedGui);
    assert!(matches!(view.render(&state), Screen::OutdatedGui));
    let _ = state.set_agent_link(AgentLink::Unreachable);
    assert!(matches!(view.render(&state), Screen::Unreachable));
    let _ = state.set_agent_link(ready(false, InventoryHealth::Scanning));
    assert!(matches!(
        view.render(&state),
        Screen::Gate(PermissionGate::Accessibility)
    ));
    view.dismiss_accessibility();
    assert!(matches!(
        view.render(&state),
        Screen::Home(HomeBody::Scanning)
    ));
    let _ = state.set_agent_link(ready(true, InventoryHealth::Ready));
    assert!(matches!(view.render(&state), Screen::Home(HomeBody::Empty)));
    let _ = state.set_agent_link(ready(true, InventoryHealth::Unavailable));
    assert!(matches!(
        view.render(&state),
        Screen::Home(HomeBody::Unavailable)
    ));
}

#[test]
fn the_strip_shows_what_was_clicked() {
    let tabs = DetailTab::tabs_for(&record(DeviceKind::Mouse, None));
    for (index, tab) in tabs.iter().enumerate() {
        assert_eq!(tab_clicked(&tabs, index), *tab);
        assert_eq!(detail_tabs(&tabs, *tab), index);
    }
    assert_eq!(tab_clicked(&tabs, tabs.len()), DetailTab::Device);
    assert_eq!(DetailTab::default_for(&record(DeviceKind::Mouse, None)), tabs[0]);
}

#[test]
fn headers_and_controls_of_a_device() {
    let device = record(DeviceKind::Unknown, None);
    let tabs = DetailTab::tabs_for(&device);
    let header = detail_header(Some(&device), &tabs);
    assert_eq!(header.name, "Test");
    assert_eq!(header.online, Some(true));
    assert!(!header.tab_strip, "one section needs no strip");
    assert_eq!(detail_header(None, &tabs).name, "Device");

    assert_eq!(invert_scroll_toggle(true, true), "On");
    assert_eq!(invert_scroll_toggle(false, true), "Off");
    assert_eq!(invert_scroll_toggle(true, false), "Unavailable");

    let choices = wheel_resolution_control(Some(ScrollResolution::High));
    assert_eq!(
        choices
            .iter()
            .map(|choice| (choice.label, choice.selected))
            .collect::<Vec<_>>(),
        vec![
            ("Device default", false),
            ("Standard", false),
            ("High resolution", true)
        ]
    );
}

fn inventory(unit_id: [u8; 4], capabilities: Capabilities) -> DeviceInventory {
    DeviceInventory {
        receiver: ReceiverInfo {
            name: "MX Master 3S".to_string(),
            vendor_id: 0x046d,
            product_id: 0xb023,
            unique_id: None,
        },
        paired: vec![PairedDevice {
            slot: DIRECT_DEVICE_INDEX,
            codename: Some("MX Master 3S".to_string()),
            wpid: None,
            kind: DeviceKind::Mouse,
            online: true,
            battery: None,
            model_info: Some(DeviceModelInfo {
                entity_count: 1,
                serial_number: None,
                unit_id,
                transports: DeviceTransports::default(),
                model_ids: [0xb034, 0, 0],
                extended_model_id: 2,
            }),
            capabilities: Some(capabilities),
        }],
    }
}

fn two_devices() -> AppState {
    let capabilities = Capabilities {
        hires_wheel: true,
        scroll_inversion: true,
        ..Capabilities::presumed_from_kind(DeviceKind::Mouse)
    };
    let (mut state, _) = AppState::with_runtime(
        Config::default(),
        &vec![
            inventory([1, 1, 1, 1], capabilities),
            inventory([2, 2, 2, 2], capabilities),
        ],
        &TextMap::new(),
    );
    let _ = state.set_agent_link(ready(true, InventoryHealth::Ready));
    state
}

#[test]
fn a_device_screen_lives_while_its_device_is_selected() {
    let mut state = two_devices();
    let mut view = AppView::new();
    assert!(matches!(
        view.render(&state),
        Screen::Home(HomeBody::Gallery)
    ));
    let second = "direct:046d:b023:unit:02020202";
    let effects = view.open_device(second.to_string(), &mut state);
    assert!(!effects.is_empty(), "the selection is remembered");
    assert_eq!(state.config.selected_device(), Some(second));
    assert!(matches!(
        view.render(&state),
        Screen::Device {
            active: DetailTab::Buttons,
            ..
        }
    ));
    let _ = state.set_current_device(0);
    assert!(matches!(
        view.render(&state),
        Screen::Home(HomeBody::Gallery)
    ));

    let _ = view.open_device(second.to_string(), &mut state);
    view.go_home();
    assert!(matches!(
        view.render(&state),
        Screen::Home(HomeBody::Gallery)
    ));
    assert_eq!(state.config.selected_device(), Some(second));
}

#[test]
fn cards_of_the_selected_device() {
    let mut state = two_devices();
    let card = scrolling_card(&state, false);
    assert!(!card.inverted);
    assert!(card.inversion_supported);
    assert!(card.hires_supported);
    assert_eq!(
        card.resolution_description,
        "OpenLogi does not change the wheel resolution."
    );

    assert!(wheel_resolution_clicked(&mut state, None).is_empty());
    assert!(wheel_resolution_clicked(&mut state, Some(3)).is_empty());
    assert!(!wheel_resolution_clicked(&mut state, Some(1)).is_empty());
    let card = scrolling_card(&state, false);
    assert_eq!(card.resolution, Some(ScrollResolution::Low));
    assert_eq!(
        card.resolution_description,
        "Scrolls once per physical ratchet step."
    );

    let _ = state.commit_dpi_presets(vec![400, 800]);
    let configuration = configuration_card(&state);
    assert_eq!(configuration.preset_count, 2);
    assert_eq!(configuration.app_profile, "Default profile");

    let details = device_details_card(&state).expect("a device is selected");
    assert_eq!(details.name, "MX Master 3S");
    assert_eq!(details.slot, "255");
    assert_eq!(details.device_key, "direct:046d:b023:unit:01010101");
    assert!(detail_content(&state).is_none());
}

#[test]
fn an_offline_device_is_announced() {
    let (state, _) = AppState::with_runtime(Config::default(), &Vec::new(), &TextMap::new());
    assert_eq!(
        detail_content(&state),
        Some("Device offline — changes will apply when it reconnects.")
    );
    assert!(device_details_card(&state).is_none());
}

#[test]
fn asking_for_permissions() {
    let state = two_devices();
    let (effect, pane) = request_accessibility(Some(&state));
    assert!(matches!(
        effect,
        Some(UiEffect::Send(Command::RequestAccessibilityPrompt))
    ));
    assert_eq!(
        pane,
        "x-apple.systempreferences:com.apple.preference.security?Privacy_Accessibility"
    );
    assert!(request_accessibility(None).0.is_none());

    let (effect, pane) = permission_field_clicked(Permission::InputMonitoring, Some(&state));
    assert!(effect.is_none());
    assert_eq!(
        pane,
        "x-apple.systempreferences:com.apple.preference.security?Privacy_ListenEvent"
    );

    assert!(accessibility_gate().skip.is_some());
    assert!(
        input_monitoring_gate().skip.is_none(),
        "no device can be opened without it"
    );
}

#[test]
fn title_and_footer_follow_the_screen() {
    let (mut state, _) = AppState::with_runtime(Config::default(), &Vec::new(), &TextMap::new());
    let mut view = AppView::new();
    let connecting = view.render(&state);
    assert_eq!(connecting.fixed_title(), Some("OpenLogi"));
    assert_eq!(connecting.footer(&state.agent_link), None);

    let _ = state.set_agent_link(ready(false, InventoryHealth::Ready));
    let gate = view.render(&state);
    assert_eq!(gate.fixed_title(), Some("OpenLogi"));
    assert_eq!(gate.footer(&state.agent_link), None, "a gate has no footer");

    view.dismiss_accessibility();
    let home = view.render(&state);
    assert_eq!(home.fixed_title(), None);
    assert_eq!(home.footer(&state.agent_link), Some(false));

    let _ = state.set_agent_link(ready(true, InventoryHealth::Ready));
    assert_eq!(view.render(&state).footer(&state.agent_link), Some(true));
}
