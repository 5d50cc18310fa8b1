//! Device snapshots, settings to re-apply and what is published.

use openlogi::binding::{Action, Binding, ButtonId};
use openlogi::config::settings::ScrollResolution;
use openlogi::config::Config;
use openlogi::device::{
    Capabilities, DeviceInventory, DeviceKind, DeviceModelInfo, DeviceRoute, DeviceTransports,
    PairedDevice, ReceiverInfo, DIRECT_DEVICE_INDEX,
};
use openlogi::ipc::InventoryHealth;
use openlogi::orchestrator::{
    build_devices, configured_wheel_mode, pick_current, plan_reapply, reapply_targets,
    reapply_volatile_settings, AgentDevice, Orchestrator, ReapplyPlan,
};
use openlogi::text_map::TextMap;

fn queue(key: &str) -> TextMap<()> {
    let mut keys = TextMap::new();
    keys.insert(key, ());
    keys
}

fn dev(key: &str, slot: u8, online: bool) -> AgentDevice {
    AgentDevice {
        config_key: key.to_string(),
        model_key: key.to_string(),
        route: Some(DeviceRoute::Bolt {
            receiver_uid: "AA00".to_string(),
            slot,
        }),
        slot,
        serial: None,
        unit_id: [0; 4],
        capabilities: None,
        online,
    }
}

fn direct_inventory(serial_number: Option<&str>, unit_id: [u8; 4]) -> DeviceInventory {
    DeviceInventory {
        receiver: ReceiverInfo {
            name: "MX Master 3S".to_string(),
            vendor_id: 0x046d,
            product_id: 0xb023,
            unique_id: None,
        },
        paired: vec![PairedDevice {
            slot: DIRECT_DEVICE_INDEX,
            codename: Some("MX Master 3S".to_string()),
            wpid: None,
            kind: DeviceKind::Mouse,
            online: true,
            battery: None,
            model_info: Some(DeviceModelInfo {
                entity_count: 1,
                serial_number: serial_number.map(str::to_string),
                unit_id,
                transports: DeviceTransports::default(),
                model_ids: [0xb034, 0, 0],
                extended_model_id: 2,
            }),
            capabilities: Some(Capabilities::presumed_from_kind(DeviceKind::Mouse)),
        }],
    }
}

#[test]
fn app_switch_and_rebuild_invalidate_capture_input_epoch() {
    let (mut orchestrator, _) = Orchestrator::new(Config::default());
    let initial = orchestrator.capture_epoch.current();

    orchestrator.set_current_app(Some("com.apple.Safari".to_string()));
    let after_app_switch = orchestrator.capture_epoch.current();
    assert_ne!(after_app_switch, initial);

    orchestrator.set_current_app(Some("com.apple.Safari".to_string()));
    assert_eq!(
        orchestrator.capture_epoch.current(),
        after_app_switch,
        "an unchanged app projection must not invalidate the live session"
    );

    orchestrator.reload_config(Config::default());
    assert_ne!(
        orchestrator.capture_epoch.current(),
        after_app_switch
    );
}

#[test]
fn build_devices_skips_transient_zero_unit_direct_identity() {
    assert!(build_devices(&vec![direct_inventory(None, [0; 4])]).is_empty());

    let devices = build_devices(&vec![direct_inventory(Some("ABC123"), [0; 4])]);
    assert_eq!(devices.len(), 1);
    assert_eq!(devices[0].config_key, "direct:046d:b023:serial:abc123");
}

#[test]
fn configured_wheel_mode_gates_resolution_and_inversion_independently() {
    let mut config = Config::default();
    config.set_scroll_resolution("a", Some(ScrollResolution::Low));
    config.set_invert_scroll("a", true);
    let mut device = dev("a", 1, true);

    device.capabilities = Some(Capabilities {
        hires_wheel: true,
        scroll_inversion: false,
        ..Capabilities::default()
    });
    assert_eq!(
        configured_wheel_mode(&config, &device),
        (Some(ScrollResolution::Low), None)
    );

    device.capabilities = Some(Capabilities {
        hires_wheel: false,
        scroll_inversion: true,
        ..Capabilities::default()
    });
    assert_eq!(configured_wheel_mode(&config, &device), (None, Some(true)));

    device.capabilities = None;
    assert_eq!(configured_wheel_mode(&config, &device), (None, None));
}

#[test]
fn configured_wheel_mode_leaves_unset_resolution_unmanaged() {
    let config = Config::default();
    let mut device = dev("a", 1, true);
    device.capabilities = Some(Capabilities {
        hires_wheel: true,
        scroll_inversion: false,
        ..Capabilities::default()
    });

    assert_eq!(configured_wheel_mode(&config, &device), (None, None));
}

#[test]
fn reapply_targets_new_arrivals_and_transitions() {
    // First sighting of an online device → re-apply.
    assert_eq!(reapply_targets(&vec![], &vec![dev("a", 1, true)], false), vec![0]);
    // Steady state → nothing.
    assert!(reapply_targets(&vec![dev("a", 1, true)], &vec![dev("a", 1, true)], false).is_empty());
    // Replug under a new route (same key, new slot) → re-apply.
    assert_eq!(
        reapply_targets(&vec![dev("a", 1, true)], &vec![dev("a", 2, true)], false),
        vec![0]
    );
    // Waking from device sleep (offline → online) → re-apply.
    assert_eq!(
        reapply_targets(&vec![dev("a", 1, false)], &vec![dev("a", 1, true)], false),
        vec![0]
    );
    // Going to sleep (online → offline) → nothing.
    assert!(reapply_targets(&vec![dev("a", 1, true)], &vec![dev("a", 1, false)], false).is_empty());
}

#[test]
fn reapply_targets_disambiguates_same_model_duplicates() {
    // Two devices can share a model key but are distinct physical units at
    // different Bolt slots, so they have distinct stable ids. A steady tick
    // with both already online must target NEITHER.
    let prev = vec![dev("dup", 1, true), dev("dup", 2, true)];
    let next = vec![dev("dup", 1, true), dev("dup", 2, true)];
    assert!(reapply_targets(&prev, &next, false).is_empty());
}

#[test]
fn reapply_targets_skip_offline_and_routeless_devices() {
    // A paired-but-asleep new arrival waits for its online transition —
    // writing now would only time out against a sleeping device.
    assert!(reapply_targets(&vec![], &vec![dev("a", 1, false)], false).is_empty());
    let routeless = AgentDevice {
        route: None,
        ..dev("b", 2, true)
    };
    assert!(reapply_targets(&vec![], &vec![routeless], false).is_empty());
}

#[test]
fn reapply_all_targets_every_online_device() {
    let prev = vec![dev("a", 1, true), dev("b", 2, false)];
    let next = vec![dev("a", 1, true), dev("b", 2, false)];
    // The post-wake snapshot looks identical to the pre-sleep one; the
    // flag still re-applies to the online device (and only that one).
    assert_eq!(reapply_targets(&prev, &next, true), vec![0]);
}

#[test]
fn plan_reapply_confirms_a_first_sighting_once() {
    // First sighting: applied now, queued for one confirming re-apply.
    let ReapplyPlan { targets, followup } = plan_reapply(&vec![], &vec![dev("a", 1, true)], &TextMap::new(), false);
    assert_eq!(targets, vec![0]);
    assert!(followup.contains_key("a"));
    assert_eq!(followup.len(), 1);
    // Next refresh: the confirming apply fires, then the queue drains.
    let prev = vec![dev("a", 1, true)];
    let ReapplyPlan { targets, followup } = plan_reapply(&prev, &prev, &followup, false);
    assert_eq!(targets, vec![0]);
    assert!(followup.is_empty());
    // Steady state after that: nothing.
    let ReapplyPlan { targets, .. } = plan_reapply(&prev, &prev, &followup, false);
    assert!(targets.is_empty());
}

#[test]
fn plan_reapply_transitions_are_not_queued_for_confirmation() {
    // A wake from device sleep re-applies once — the device was already
    // booted, so no confirming write is queued.
    let ReapplyPlan { targets, followup } = plan_reapply(
        &vec![dev("a", 1, false)],
        &vec![dev("a", 1, true)],
        &TextMap::new(),
        false,
    );
    assert_eq!(targets, vec![0]);
    assert!(followup.is_empty());
}

#[test]
fn plan_reapply_skips_a_followup_that_went_offline() {
    let prev = vec![dev("a", 1, true)];
    let ReapplyPlan { targets, followup } = plan_reapply(
        &prev,
        &vec![dev("a", 1, false)],
        &queue("a"),
        false,
    );
    assert!(targets.is_empty());
    assert!(followup.is_empty());
}

/// An *empty* snapshot still flips the health to `Ready`: the watcher only
/// forwards completed enumerations, so "checked and found nothing" must not
/// be reported as "still scanning" — that's the whole distinction the
/// health exists to carry.
#[test]
fn empty_refresh_marks_inventory_ready() {
    let (mut orch, _) = Orchestrator::new(Config::default());
    assert_eq!(orch.inventory_health(), InventoryHealth::Scanning);
    orch.refresh_inventory(vec![]);
    assert_eq!(orch.inventory_health(), InventoryHealth::Ready);
}

/// `Unavailable` is a startup-only downgrade: it reports "enumeration has
/// never worked", recovers when a snapshot finally lands, and never
/// clobbers a live device set on a mid-session failure (mirroring the
/// watcher's keep-last-snapshot policy).
#[test]
fn unavailable_only_downgrades_a_pending_inventory() {
    let (mut orch, _) = Orchestrator::new(Config::default());
    orch.mark_inventory_unavailable();
    assert_eq!(orch.inventory_health(), InventoryHealth::Unavailable);
    orch.refresh_inventory(vec![]);
    assert_eq!(orch.inventory_health(), InventoryHealth::Ready);
    orch.mark_inventory_unavailable();
    assert_eq!(orch.inventory_health(), InventoryHealth::Ready);
}

#[test]
fn the_saved_device_is_current_when_it_is_there() {
    let devices = vec![dev("a", 1, true), dev("b", 2, true)];
    assert_eq!(pick_current(&devices, Some("b")), 1);
    assert_eq!(pick_current(&devices, Some("absent")), 0);
    assert_eq!(pick_current(&devices, None), 0);
}

#[test]
fn a_reload_publishes_the_new_bindings() {
    let mut config = Config::default();
    config.set_binding(
        "direct:046d:b023:serial:abc123",
        ButtonId::Back,
        Binding::Single(Action::Copy),
    );
    let (mut orchestrator, _) = Orchestrator::new(Config::default());
    let _ = orchestrator.refresh_inventory(vec![direct_inventory(Some("ABC123"), [0; 4])]);
    let outcome = orchestrator.reload_config(config);
    assert_eq!(
        outcome.publication.hook_maps.bindings.get(ButtonId::Back),
        Some(&Action::Copy)
    );
}

#[test]
fn only_configured_settings_are_written_to_a_device() {
    let device = dev("a", 1, true);
    let Some(untouched) = reapply_volatile_settings(&Config::default(), &device) else {
        panic!("the device can be reached");
    };
    assert!(untouched.mouse.is_none());
    assert!(untouched.lighting.is_none());

    let mut config = Config::default();
    config.set_dpi("a", 1600);
    let mouse = reapply_volatile_settings(&config, &device).and_then(|write| write.mouse);
    assert_eq!(mouse.and_then(|write| write.dpi), Some(1600));
    assert!(
        reapply_volatile_settings(
            &config,
            &AgentDevice {
                route: None,
                ..dev("a", 1, true)
            }
        )
        .is_none(),
        "a device that cannot be reached is not written to"
    );
}

#[test]
fn every_publication_starts_a_capture_epoch() {
    let (mut orchestrator, publication) = Orchestrator::new(Config::default());
    assert_eq!(
        publication.epoch_start.epoch(),
        orchestrator.capture_epoch.current()
    );
    let switched = orchestrator
        .set_current_app(Some("com.apple.Safari".to_string()))
        .expect("another application is published");
    assert_eq!(
        switched.epoch_start.epoch(),
        orchestrator.capture_epoch.current()
    );
    assert_ne!(switched.epoch_start.epoch(), publication.epoch_start.epoch());
    let reloaded = orchestrator.reload_config(Config::default());
    assert_eq!(
        reloaded.publication.epoch_start.epoch(),
        switched.epoch_start.epoch() + 1
    );
}

#[test]
fn switching_applications_keeps_what_is_due_to_the_devices() {
    let (mut orchestrator, _) = Orchestrator::new(Config::default());
    orchestrator.reapply_volatile_on_next_refresh();
    orchestrator.set_current_app(Some("com.apple.Safari".to_string()));
    assert!(orchestrator.reapply_all_next_refresh);
    orchestrator.reload_config(Config::default());
    assert!(orchestrator.reapply_all_next_refresh);
}
