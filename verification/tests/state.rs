//! The window's state: devices, settings, and reads that race with writes.

use openlogi::binding::{default_pan_binding, Action, Binding, ButtonId, GestureDirection};
use openlogi::config::device::DeviceIdentity;
use openlogi::config::settings::{
    Appearance, AssetSourcePreference, Lighting, ScrollResolution,
};
use openlogi::config::Config;
use openlogi::device::{
    Capabilities, DeviceInventory, DeviceKind, DeviceModelInfo, DeviceTransports, PairedDevice,
    ReceiverInfo, DIRECT_DEVICE_INDEX,
};
use openlogi::gui::gesture_presets::GesturePreset;
use openlogi::gui::state::devices::{
    build_device_list, pick_initial_device, DeviceList, DeviceRecord, INVENTORY_MISS_GRACE,
};
use openlogi::gui::state::load::{LazyDeviceData, Load, MAX_ATTEMPTS};
use openlogi::gui::state::{
    record_identities, reload_after_save, scroll_inversion_supported,
    set_scroll_resolution_if_supported, smartshift_read_is_current, smartshift_write_outcome,
    AgentLink, AppState, Command, SmartShiftWriteStatus, UiEffect, DEFAULT_DPI, MONITOR_HISTORY,
};
use openlogi::hid::{DpiCapabilities, DpiInfo, SmartShiftMode, SmartShiftStatus, WriteError};
use openlogi::ipc::MonitorEvent;
use openlogi::orchestrator::{build_devices, pick_current};
use openlogi::text_map::TextMap;

const STABLE_KEY: &str = "direct:046d:b023:unit:a393cae0";

fn direct_inventory(unit_id: [u8; 4]) -> DeviceInventory {
    direct_inventory_with(
        unit_id,
        DeviceKind::Mouse,
        Capabilities::presumed_from_kind(DeviceKind::Mouse),
    )
}

fn direct_inventory_with(
    unit_id: [u8; 4],
    kind: DeviceKind,
    capabilities: Capabilities,
) -> DeviceInventory {
    DeviceInventory {
        receiver: ReceiverInfo {
            name: "MX Master 3S".to_string(),
            vendor_id: 0x046d,
            product_id: 0xb023,
            unique_id: None,
        },
        paired: vec![PairedDevice {
            slot: DIRECT_DEVICE_INDEX,
            codename: Some("MX Master 3S".to_string()),
            wpid: None,
            kind,
            online: true,
            battery: None,
            model_info: Some(DeviceModelInfo {
                entity_count: 1,
                serial_number: None,
                unit_id,
                transports: DeviceTransports::default(),
                model_ids: [0xb034, 0, 0],
                extended_model_id: 2,
            }),
            capabilities: Some(capabilities),
        }],
    }
}

fn first(list: &DeviceList) -> &DeviceRecord {
    list.get(0).expect("a device")
}

fn records(list: &DeviceList) -> Vec<&DeviceRecord> {
    (0..list.len()).filter_map(|i| list.get(i)).collect()
}

/// The state with one device that answers.
fn one_device() -> AppState {
    let (state, _) = AppState::with_runtime(
        Config::default(),
        &vec![direct_inventory([0xa3, 0x93, 0xca, 0xe0])],
        &TextMap::new(),
    );
    state
}

#[test]
fn recording_runtime_identities_is_an_in_memory_change() {
    let assets = TextMap::new();
    let inventory = direct_inventory([1, 2, 3, 4]);
    let mut config = Config::default();
    let list = build_device_list(&vec![inventory], &assets, &config);

    assert!(record_identities(&mut config, &list));
    assert!(
        config
            .device_identity("direct:046d:b023:unit:01020304")
            .is_some()
    );
    assert!(!record_identities(&mut config, &list));
}

#[test]
fn native_scroll_inversion_remains_supported() {
    let capabilities = Capabilities {
        pointer: true,
        scroll_inversion: true,
        ..Capabilities::default()
    };
    let (state, _) = AppState::with_runtime(
        Config::default(),
        &vec![direct_inventory_with(
            [0xa3, 0x93, 0xca, 0xe0],
            DeviceKind::Mouse,
            capabilities,
        )],
        &TextMap::new());

    assert!(state.current_native_scroll_inversion_supported());
    assert!(state.current_scroll_inversion_supported(true));
}

#[test]
fn software_scroll_inversion_is_macos_only() {
    let capabilities = Some(Capabilities {
        pointer: true,
        scroll_inversion: false,
        ..Capabilities::default()
    });

    assert!(scroll_inversion_supported(capabilities, true, true));
    assert!(!scroll_inversion_supported(capabilities, true, false));
    assert!(!scroll_inversion_supported(capabilities, false, true));
}

#[test]
fn persistent_pointer_supports_macos_scroll_inversion_fallback() {
    let capabilities = Capabilities {
        pointer: true,
        scroll_inversion: false,
        ..Capabilities::default()
    };
    let (state, _) = AppState::with_runtime(
        Config::default(),
        &vec![direct_inventory_with(
            [0x65, 0x00, 0x00, 0x01],
            DeviceKind::Mouse,
            capabilities,
        )],
        &TextMap::new());

    assert!(!state.current_native_scroll_inversion_supported());
    assert!(state.current_scroll_inversion_supported(true));
}

#[test]
fn non_pointer_does_not_support_scroll_inversion_fallback() {
    let capabilities = Capabilities {
        pointer: false,
        scroll_inversion: false,
        ..Capabilities::default()
    };
    let (state, _) = AppState::with_runtime(
        Config::default(),
        &vec![direct_inventory_with(
            [0x65, 0x00, 0x00, 0x01],
            DeviceKind::Keyboard,
            capabilities,
        )],
        &TextMap::new());

    assert!(!state.current_scroll_inversion_supported(true));
}

#[test]
fn transient_pointer_does_not_support_scroll_inversion_fallback() {
    let capabilities = Capabilities {
        pointer: true,
        scroll_inversion: false,
        ..Capabilities::default()
    };
    let (state, _) = AppState::with_runtime(
        Config::default(),
        &vec![direct_inventory_with(
            [0; 4],
            DeviceKind::Mouse,
            capabilities,
        )],
        &TextMap::new());

    assert!(!state.current_scroll_inversion_supported(true));
}

#[test]
fn transient_identity_is_not_persisted_or_retained_after_resolution() {
    let assets = TextMap::new();
    let transient_inventory = direct_inventory([0; 4]);
    let (mut state, _) =
        AppState::with_runtime(Config::default(), &vec![transient_inventory], &assets);
    let transient_key = "direct:046d:b023:unit:00000000";

    assert_eq!(state.device_list.len(), 1);
    assert!(state.config.device_identity(transient_key).is_none());
    let _ = state.commit_dpi(2400);
    assert!(state.config.dpi(transient_key).is_none());

    let stable_list = build_device_list(
        &vec![direct_inventory([0xa3, 0x93, 0xca, 0xe0])],
        &assets,
        &state.config,
    );
    let merged = state.merge_inventory_snapshot(stable_list);

    assert_eq!(merged.len(), 1);
    assert_eq!(first(&merged).config_key, "direct:046d:b023:unit:a393cae0");
    assert!(first(&merged).is_persistent());
}

#[test]
fn transient_probe_folds_into_its_known_card() {
    // A half-read probe (all-zero unit id) of the only known device
    // with that vid/pid must not evict the known card or appear beside it —
    // the card keeps its identity and takes the live volatile state.
    let assets = TextMap::new();
    let (mut state, _) = AppState::with_runtime(
        Config::default(),
        &vec![direct_inventory([0xa3, 0x93, 0xca, 0xe0])],
        &assets);
    let stable_key = "direct:046d:b023:unit:a393cae0";
    assert_eq!(first(&state.device_list).config_key, stable_key);

    let transient_list = build_device_list(&vec![direct_inventory([0; 4])], &assets, &state.config);
    let merged = state.merge_inventory_snapshot(transient_list);

    assert_eq!(merged.len(), 1, "no second card for the half-read probe");
    assert_eq!(first(&merged).config_key, stable_key);
    assert!(first(&merged).is_persistent());
    assert!(first(&merged).online, "the live probe supplies volatile state");
    assert!(first(&merged).route.is_some(), "the live route is kept usable");
}

#[test]
fn transient_record_beside_its_live_device_is_dropped() {
    // Both a full and a half-read probe of the same wire product in one
    // snapshot: the transient record is probe noise, not a second device.
    let assets = TextMap::new();
    let (mut state, _) = AppState::with_runtime(
        Config::default(),
        &vec![direct_inventory([0xa3, 0x93, 0xca, 0xe0])],
        &assets);

    let both = build_device_list(
        &vec![
            direct_inventory([0xa3, 0x93, 0xca, 0xe0]),
            direct_inventory([0; 4]),
        ],
        &assets,
        &state.config,
    );
    assert_eq!(both.len(), 2);
    let merged = state.merge_inventory_snapshot(both);

    assert_eq!(merged.len(), 1);
    assert_eq!(first(&merged).config_key, "direct:046d:b023:unit:a393cae0");
    assert!(first(&merged).online);
}

#[test]
fn transient_probe_adopts_the_absent_sibling_of_a_live_twin() {
    // Two same-model devices; one probes complete, the other half-reads.
    // The live twin must not get the transient discarded as its own noise:
    // the half-read probe can only be the sibling, which keeps its card
    // online and routed.
    let assets = TextMap::new();
    let (mut state, _) = AppState::with_runtime(
        Config::default(),
        &vec![
            direct_inventory([1, 1, 1, 1]),
            direct_inventory([2, 2, 2, 2]),
        ],
        &assets);

    let snapshot = build_device_list(
        &vec![direct_inventory([1, 1, 1, 1]), direct_inventory([0; 4])],
        &assets,
        &state.config,
    );
    let merged = state.merge_inventory_snapshot(snapshot);

    assert_eq!(merged.len(), 2, "no third card for the half-read probe");
    let Some(sibling) = merged.find("direct:046d:b023:unit:02020202") else {
        panic!("the sibling card must survive under its physical key");
    };
    assert!(
        sibling.online,
        "the half-read probe keeps the sibling online"
    );
    assert!(sibling.route.is_some(), "the live route stays usable");
}

#[test]
fn ambiguous_transient_probe_is_not_adopted() {
    // Two same-model devices are known; a half-read probe could be either,
    // so neither card may steal it.
    let assets = TextMap::new();
    let (mut state, _) = AppState::with_runtime(
        Config::default(),
        &vec![
            direct_inventory([1, 1, 1, 1]),
            direct_inventory([2, 2, 2, 2]),
        ],
        &assets);
    assert_eq!(state.device_list.len(), 2);

    let transient_list = build_device_list(&vec![direct_inventory([0; 4])], &assets, &state.config);
    let merged = state.merge_inventory_snapshot(transient_list);

    assert_eq!(merged.len(), 3, "both known cards survive on grace");
    assert_eq!(
        records(&merged)
            .into_iter()
            .filter(|r| !r.is_persistent())
            .count(),
        1,
        "the transient card stays its own record"
    );
}

#[test]
fn historical_transient_lighting_is_not_exposed_without_a_live_record() {
    let transient_key = "direct:046d:b023:unit:00000000";
    let mut config = Config::default();
    config.set_lighting(transient_key, Lighting::default());
    assert!(config.lighting(transient_key).is_some());
    let (state, _) = AppState::with_runtime(config, &Vec::new(), &TextMap::new());

    assert!(state.device_list.is_empty());
    assert!(state.lighting_for(transient_key).is_none());
}

#[test]
fn smartshift_write_feedback_requires_the_written_value() {
    let expected = SmartShiftStatus {
        mode: SmartShiftMode::Ratchet,
        auto_disengage: 12,
        tunable_torque: 0,
    };
    assert_eq!(smartshift_write_outcome(expected, None), None);
    assert_eq!(
        smartshift_write_outcome(expected, Some(&Load::Ready(expected))),
        Some(SmartShiftWriteStatus::Confirmed)
    );
    assert_eq!(
        smartshift_write_outcome(
            expected,
            Some(&Load::Ready(SmartShiftStatus {
                auto_disengage: 13,
                ..expected
            })),
        ),
        Some(SmartShiftWriteStatus::Failed)
    );
    assert_eq!(
        smartshift_write_outcome(
            expected,
            Some(&Load::<SmartShiftStatus>::Failed("timeout".to_string(),))
        ),
        Some(SmartShiftWriteStatus::Failed)
    );
}

#[test]
fn stale_smartshift_reads_do_not_resolve_newer_writes() {
    let expected = SmartShiftStatus {
        mode: SmartShiftMode::Ratchet,
        auto_disengage: 12,
        tunable_torque: 0,
    };
    let applying = SmartShiftWriteStatus::Applying {
        expected,
        write_id: 2,
    };

    assert!(smartshift_read_is_current(Some(2), Some(&applying)));
    assert!(!smartshift_read_is_current(Some(1), Some(&applying)));
    assert!(!smartshift_read_is_current(None, Some(&applying)));
    assert!(!smartshift_read_is_current(
        Some(2),
        Some(&SmartShiftWriteStatus::Confirmed)
    ));
    assert!(smartshift_read_is_current(None, None));
}

#[test]
fn known_offline_device_is_an_asset_sync_target() {
    let model = DeviceModelInfo {
        entity_count: 0,
        serial_number: None,
        unit_id: [0; 4],
        transports: DeviceTransports::default(),
        model_ids: [0xb034, 0, 0],
        extended_model_id: 2,
    };
    let mut config = Config::default();
    config.set_device_identity(
        "2b034",
        DeviceIdentity {
            display_name: "MX Anywhere 3S".to_string(),
            kind: DeviceKind::Mouse,
            capabilities: Capabilities::presumed_from_kind(DeviceKind::Mouse),
            model_info: Some(model.clone()),
            codename: Some("MX Anywhere 3S".to_string()),
        },
    );
    let (state, _) = AppState::with_runtime(config, &Vec::new(), &TextMap::new());

    assert_eq!(
        state.asset_models(),
        vec![(model, Some("MX Anywhere 3S".to_string()))]
    );
}

#[test]
fn gui_state_saves_and_clears_supported_wheel_resolution() {
    let mut config = Config::default();
    assert!(set_scroll_resolution_if_supported(
        &mut config,
        "mouse",
        true,
        Some(ScrollResolution::Low),
    ));
    assert_eq!(
        config.scroll_resolution("mouse"),
        Some(ScrollResolution::Low)
    );

    assert!(set_scroll_resolution_if_supported(
        &mut config,
        "mouse",
        true,
        None,
    ));
    assert_eq!(config.scroll_resolution("mouse"), None);
}

#[test]
fn gui_state_ignores_unsupported_wheel_resolution() {
    let mut config = Config::default();
    assert!(!set_scroll_resolution_if_supported(
        &mut config,
        "mouse",
        false,
        Some(ScrollResolution::High),
    ));
    assert_eq!(config.scroll_resolution("mouse"), None);
}

#[test]
fn m650_fallback_commit_persists_and_reloads() {
    let capabilities = Capabilities {
        pointer: true,
        scroll_inversion: false,
        ..Capabilities::default()
    };
    let mut inventory =
        direct_inventory_with([0x65, 0x00, 0x00, 0x01], DeviceKind::Mouse, capabilities);
    inventory.receiver.name = "M650".to_string();
    inventory.paired[0].codename = Some("M650".to_string());
    let (mut state, _) =
        AppState::with_runtime(Config::default(), &vec![inventory], &TextMap::new());
    let Some(record) = state.current_record() else {
        panic!("M650 record");
    };
    let key = record.config_key.clone();

    let effects = state.commit_invert_scroll(true, true);

    assert!(state.current_invert_scroll());
    assert!(state.config.invert_scroll(&key));
    assert_eq!(effects.len(), 1);
    assert!(matches!(effects[0], UiEffect::SaveAndReload));
    assert!(matches!(reload_after_save(true), Some(Command::ReloadConfig)));
    assert!(reload_after_save(false).is_none());
}

#[test]
fn inverting_an_unsupported_wheel_changes_nothing() {
    let (mut state, _) = AppState::with_runtime(
        Config::default(),
        &vec![direct_inventory_with(
            [1, 2, 3, 4],
            DeviceKind::Mouse,
            Capabilities {
                pointer: true,
                ..Capabilities::default()
            },
        )],
        &TextMap::new(),
    );
    assert!(state.commit_invert_scroll(true, false).is_empty());
    assert!(!state.current_invert_scroll());
}

#[test]
fn a_card_survives_short_gaps_in_the_inventory() {
    let mut state = one_device();
    for _ in 0..INVENTORY_MISS_GRACE {
        let cards = state.merge_inventory_snapshot(DeviceList::new());
        assert!(cards.find(STABLE_KEY).is_some_and(|card| card.online));
    }
    assert!(
        state
            .merge_inventory_snapshot(DeviceList::new())
            .is_empty(),
        "a lasting absence removes the card"
    );
}

#[test]
fn a_known_device_that_is_not_listed_is_shown_offline() {
    let mut state = one_device();
    assert!(
        state
            .refresh_inventories(&Vec::new(), &TextMap::new(), false)
            .changed
    );
    let card = state.device_list.find(STABLE_KEY).expect("a known device");
    assert!(!card.online);
    assert!(card.route.is_none());
}

#[test]
fn an_unchanged_snapshot_is_not_a_change() {
    let mut state = one_device();
    let snapshot = vec![direct_inventory([0xa3, 0x93, 0xca, 0xe0])];
    let refresh = state.refresh_inventories(&snapshot, &TextMap::new(), false);
    assert!(!refresh.changed);
    assert!(!refresh.save);
    assert!(
        state
            .refresh_inventories(&snapshot, &TextMap::new(), true)
            .changed
    );
}

#[test]
fn dpi_is_snapped_written_and_stored() {
    let mut state = one_device();
    assert_eq!(state.normalize_active_dpi(1234), 1234, "nothing is known yet");

    let route = first(&state.device_list).route.clone();
    let capabilities = DpiCapabilities::new(vec![400, 800, 1600]).expect("a list");
    let _ = state.store_dpi_info(
        STABLE_KEY,
        &route.expect("a route"),
        Ok(DpiInfo {
            current: 800,
            capabilities,
        }),
    );
    assert_eq!(state.normalize_active_dpi(1234), 1600);

    let effects = state.commit_dpi(1600);
    assert!(effects
        .iter()
        .any(|effect| matches!(effect, UiEffect::Send(Command::SetDpi(_, 1600)))));
    assert_eq!(state.config.dpi(STABLE_KEY), Some(1600));
}

#[test]
fn smartshift_write_is_confirmed_by_its_own_read_only() {
    let mut state = one_device();
    let written = SmartShiftStatus {
        mode: SmartShiftMode::Ratchet,
        auto_disengage: 12,
        tunable_torque: 0,
    };
    let effects = state.commit_smartshift(SmartShiftMode::Ratchet, 12, 0);
    assert!(!effects.is_empty());
    assert_eq!(state.current_smartshift_ready(), Some(written));
    assert!(matches!(
        state.current_smartshift_write_status(),
        Some(SmartShiftWriteStatus::Applying { .. })
    ));
    let (key, route, write_id) = state
        .take_active_smartshift_confirm()
        .expect("a confirming read is due");
    assert_eq!(key, STABLE_KEY);
    assert!(state.take_active_smartshift_confirm().is_none());

    let _ = state.store_smartshift_status(&key, &route, Some(write_id + 1), Ok(written));
    assert!(
        matches!(
            state.current_smartshift_write_status(),
            Some(SmartShiftWriteStatus::Applying { .. })
        ),
        "a reply to another write says nothing of this one"
    );
    let _ = state.store_smartshift_status(&key, &route, Some(write_id), Ok(written));
    assert_eq!(
        state.current_smartshift_write_status(),
        Some(SmartShiftWriteStatus::Confirmed)
    );
}

#[test]
fn failed_reads_are_retried_and_then_reported() {
    let mut data: LazyDeviceData<u32> = LazyDeviceData::new();
    assert!(data.unqueried("a"));
    for attempt in 1..=MAX_ATTEMPTS {
        data.mark_loading("a");
        assert!(!data.unqueried("a"));
        assert!(!data.store("a", Err(WriteError::RequestTimedOut), false, true, true));
        assert_eq!(data.unqueried("a"), attempt < MAX_ATTEMPTS);
    }
    assert!(matches!(data.get("a"), Some(Load::Failed(message)) if message == "request timed out"));
    data.retry("a");
    assert!(data.unqueried("a"));
    assert!(data.store("a", Ok(7), false, true, true));
    assert!(matches!(data.get("a"), Some(Load::Ready(7))));
    assert!(!data.store("a", Ok(9), false, false, true), "an old route");
    assert!(matches!(data.get("a"), Some(Load::Ready(7))));
    assert!(!data.store("b", Err(WriteError::EmptyDpiList), true, true, true));
    assert!(matches!(data.get("b"), Some(Load::Unsupported(_))));
}

#[test]
fn write_errors_in_words() {
    let words = |error: WriteError| error.message();
    assert_eq!(
        words(WriteError::FeatureUnsupported {
            feature_hex: 0x2201
        }),
        "device does not support feature 0x2201"
    );
    assert_eq!(
        words(WriteError::HidppFeature {
            feature_hex: 0x2111
        }),
        "device rejected a request for feature 0x2111"
    );
    assert_eq!(
        words(WriteError::UnsupportedResponse { feature_hex: 0x1 }),
        "unexpected response for feature 0x0001"
    );
    assert_eq!(
        words(WriteError::RuntimeInit {
            message: "no threads".to_string()
        }),
        "could not start worker: no threads"
    );
    assert_eq!(words(WriteError::AgentUnavailable), "agent unavailable");
    assert!(matches!(
        DpiCapabilities::new(vec![]),
        Err(WriteError::EmptyDpiList)
    ));
}

#[test]
fn bindings_are_stored_shown_and_sent_on() {
    let mut state = one_device();
    let effects = state.commit_binding(ButtonId::Back, Action::Copy);
    assert!(matches!(effects[..], [UiEffect::SaveAndReload]));
    assert_eq!(
        state.current_complete_binding(ButtonId::Back),
        Some(Binding::Single(Action::Copy))
    );

    let _ = state.commit_gesture_preset(ButtonId::Forward, GesturePreset::Pan);
    assert_eq!(
        state.current_complete_binding(ButtonId::Forward),
        Some(default_pan_binding())
    );
    assert!(
        state
            .commit_gesture_preset(ButtonId::Forward, GesturePreset::Pan)
            .is_empty(),
        "the active preset is not written again"
    );
    let _ = state.commit_pan_click(ButtonId::Forward, Action::MissionControl);
    assert_eq!(
        state
            .current_complete_binding(ButtonId::Forward)
            .map(|binding| binding.click_action()),
        Some(Action::MissionControl)
    );

    let _ = state.commit_gesture_preset(ButtonId::Back, GesturePreset::WindowNavigation);
    let _ = state.commit_gesture_direction(ButtonId::Back, GestureDirection::Left, Action::Paste);
    let binding = state
        .current_complete_binding(ButtonId::Back)
        .expect("a binding");
    assert_eq!(
        binding.direction_action(GestureDirection::Left),
        Some(&Action::Paste)
    );
}

#[test]
fn sensitivity_is_kept_within_its_range() {
    let mut state = one_device();
    let _ = state.set_thumbwheel_sensitivity(1000);
    assert_eq!(state.app_settings().thumbwheel_sensitivity, 100);
    let _ = state.set_thumbwheel_sensitivity(-5);
    assert_eq!(state.app_settings().thumbwheel_sensitivity, 1);
}

#[test]
fn the_event_log_keeps_the_newest_entries() {
    let mut state = one_device();
    let events = (0..MONITOR_HISTORY + 5)
        .map(|n| MonitorEvent::Scroll {
            delta_x_bits: n as u32,
            delta_y_bits: 0,
        })
        .collect();
    state.push_monitor_events(events);
    assert_eq!(state.monitor_events().len(), MONITOR_HISTORY);
    assert_eq!(
        state.monitor_events().last(),
        Some(&MonitorEvent::Scroll {
            delta_x_bits: (MONITOR_HISTORY + 4) as u32,
            delta_y_bits: 0,
        })
    );
}

#[test]
fn a_new_state_waits_for_the_agent() {
    let mut state = one_device();
    assert!(matches!(state.agent_link(), AgentLink::Connecting));
    assert!(state.set_agent_link(AgentLink::Unreachable));
    assert!(!state.set_agent_link(AgentLink::Unreachable));
    assert!(state.agent_status().is_none());
    assert!(state.dpi_presets().is_empty());
    assert_eq!(DEFAULT_DPI, 1600);
}

#[test]
fn a_write_without_an_answer_fails_only_itself() {
    let mut state = one_device();
    let _ = state.commit_smartshift(SmartShiftMode::Free, 10, 5);
    let (key, _, first_write) = state
        .take_active_smartshift_confirm()
        .expect("a confirming read is due");
    let _ = state.commit_smartshift(SmartShiftMode::Ratchet, 20, 5);
    state.fail_smartshift_confirm(&key, first_write);
    assert!(
        matches!(
            state.current_smartshift_write_status(),
            Some(SmartShiftWriteStatus::Applying { .. })
        ),
        "the newer write is still open"
    );
    let (key, _, second_write) = state
        .take_active_smartshift_confirm()
        .expect("the newer read is due");
    state.fail_smartshift_confirm(&key, second_write);
    assert_eq!(
        state.current_smartshift_write_status(),
        Some(SmartShiftWriteStatus::Failed)
    );
}

#[test]
fn reads_are_marked_given_up_and_retried() {
    let mut state = one_device();
    assert!(state.current_dpi_unqueried());
    state.mark_dpi_loading(STABLE_KEY);
    assert!(!state.current_dpi_unqueried());
    assert!(matches!(state.current_dpi_status(), Load::Loading));
    state.clear_dpi_loading(STABLE_KEY);
    assert!(state.current_dpi_unqueried());

    assert!(state.current_smartshift_unqueried());
    state.mark_smartshift_loading(STABLE_KEY);
    assert!(matches!(state.current_smartshift_status(), Load::Loading));
    state.clear_smartshift_loading(STABLE_KEY);
    let route = first(&state.device_list).route.clone().expect("a route");
    for _ in 0..MAX_ATTEMPTS {
        state.store_smartshift_status(
            STABLE_KEY,
            &route,
            None,
            Err(WriteError::RequestTimedOut),
        );
    }
    assert!(matches!(state.current_smartshift_status(), Load::Failed(_)));
    state.retry_active_smartshift();
    assert!(state.current_smartshift_unqueried());

    state.store_dpi_info(STABLE_KEY, &route, Err(WriteError::EmptyDpiList));
    assert!(matches!(
        state.dpi_status_for(STABLE_KEY),
        Some(Load::Unsupported(_))
    ));
    state.retry_active_dpi();
    assert!(state.current_dpi_unqueried());
}

#[test]
fn lighting_and_presets_are_stored_for_the_selected_device() {
    let mut state = one_device();
    let lighting = Lighting {
        enabled: false,
        brightness: 10,
        ..Lighting::default()
    };
    let effects = state.commit_lighting(lighting);
    assert!(matches!(
        effects.first(),
        Some(UiEffect::Send(Command::SetLighting(_, _)))
    ));
    assert_eq!(state.lighting(), lighting);
    assert_eq!(state.lighting_for(STABLE_KEY), Some(lighting));

    let _ = state.commit_dpi_presets(vec![400, 3200]);
    assert_eq!(state.dpi_presets(), vec![400, 3200]);
}

#[test]
fn settings_are_written_only_when_they_change() {
    let mut state = one_device();
    assert!(state.set_launch_at_login(false).is_empty());
    assert!(!state.set_launch_at_login(true).is_empty());
    assert!(state.app_settings().launch_at_login);
    assert!(!state.set_show_in_menu_bar(false).is_empty());
    assert!(!state.set_check_for_updates(true).is_empty());
    assert!(!state.set_auto_install_updates(true).is_empty());
    assert!(!state.set_appearance(Appearance::Dark).is_empty());
    assert!(!state.set_ui_radius(Some(4)).is_empty());
    assert!(state.set_ui_radius(Some(4)).is_empty());
    assert!(!state.set_auto_download_assets(false).is_empty());
    assert!(!state
        .set_asset_source(AssetSourcePreference::OpenLogi)
        .is_empty());
    assert!(!state.set_theme(true, Some("Nord".to_string())).is_empty());
    assert!(state.set_theme(true, Some("Nord".to_string())).is_empty());
    assert_eq!(state.app_settings().theme_dark.as_deref(), Some("Nord"));
    assert_eq!(state.app_settings().theme_light, None);

    let _ = state.record_update_consent(false);
    assert!(!state.app_settings().check_for_updates);
    assert!(state.app_settings().update_prompt_seen);

    let effects = state.set_language(Some("de".to_string()));
    assert!(matches!(
        effects[..],
        [UiEffect::Save, UiEffect::SwitchLanguage]
    ));
    assert_eq!(state.language(), Some("de"));
    assert!(state.set_language(Some("de".to_string())).is_empty());
}

#[test]
fn wheel_resolution_follows_the_hardware() {
    let mut state = one_device();
    assert!(!state.current_hires_wheel_supported());
    assert!(state
        .commit_scroll_resolution(Some(ScrollResolution::High))
        .is_empty());
    assert_eq!(state.current_scroll_resolution(), None);

    let (mut state, _) = AppState::with_runtime(
        Config::default(),
        &vec![direct_inventory_with(
            [1, 2, 3, 4],
            DeviceKind::Mouse,
            Capabilities {
                hires_wheel: true,
                ..Capabilities::presumed_from_kind(DeviceKind::Mouse)
            },
        )],
        &TextMap::new(),
    );
    assert!(!state
        .commit_scroll_resolution(Some(ScrollResolution::High))
        .is_empty());
    assert_eq!(
        state.current_scroll_resolution(),
        Some(ScrollResolution::High)
    );
}

#[test]
fn snapping_prefers_the_first_of_two_equally_near() {
    let capabilities = DpiCapabilities::new(vec![400, 800]).expect("a list");
    assert_eq!(capabilities.snap(600), 400);
    assert_eq!(capabilities.snap(601), 800);
    assert_eq!(capabilities.snap(800), 800);
    assert_eq!(capabilities.snap(u32::MAX), 800);
}

#[test]
fn inventories_are_kept_as_they_came() {
    let mut state = one_device();
    assert!(state.last_inventory().is_empty());
    state.store_inventory_snapshot(vec![direct_inventory([1, 2, 3, 4])]);
    assert_eq!(state.last_inventory().len(), 1);
    assert_eq!(state.config_summary(), (4, 1));
}

#[test]
fn agent_and_window_pick_the_same_first_device() {
    let list_of = |units: [[u8; 4]; 2]| {
        let inventories = || units.iter().map(|unit| direct_inventory(*unit)).collect();
        let agent = build_devices(&inventories());
        let window = build_device_list(&inventories(), &TextMap::new(), &Config::default());
        let picked = agent[pick_current(&agent, None)].config_key.clone();
        let shown = window
            .get(pick_initial_device(&window, None))
            .expect("a card")
            .config_key
            .clone();
        (picked, shown)
    };
    for units in [[[2, 0, 0, 1], [1, 0, 0, 2]], [[1, 0, 0, 2], [2, 0, 0, 1]]] {
        let (picked, shown) = list_of(units);
        assert_eq!(picked, shown);
        assert_eq!(picked, "direct:046d:b023:unit:01000002");
    }
}
