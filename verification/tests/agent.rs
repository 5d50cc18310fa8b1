//! The agent's pairing sessions and its main loop.

use openlogi::agent::pairing::{
    command_taken, start, CommandAction, DiscoveredDevice, PairingEvent, PairingManager,
};
use openlogi::agent::runtime::{AgentLoop, HookAction, InventoryEvent};
use openlogi::config::Config;
use openlogi::ipc::{
    InventoryHealth, PairingCommandError, PairingError, PairingUpdate, PermissionStatus,
    PROTOCOL_VERSION,
};
use openlogi::orchestrator::Orchestrator;

#[test]
fn a_failed_start_leaves_no_session_behind() {
    let mut manager = PairingManager::new();
    assert_eq!(
        start(&mut manager, false, false),
        Err(PairingCommandError::ReceiverBusy)
    );
    assert_eq!(
        start(&mut manager, true, false),
        Err(PairingCommandError::WatcherUnavailable)
    );
    assert_eq!(manager.sessions, 0);
    assert!(!manager.lease_held);
    assert_eq!(manager.cancel(), CommandAction::Nothing);
}

#[test]
fn a_second_start_is_refused_and_the_first_goes_on() {
    let mut manager = PairingManager::new();
    assert_eq!(start(&mut manager, true, true), Ok(()));
    assert_eq!(
        start(&mut manager, true, true),
        Err(PairingCommandError::AlreadyActive)
    );
    assert_eq!(manager.sessions, 1);
    assert!(manager.lease_held);
    assert_eq!(manager.cancel(), CommandAction::Send);
}

#[test]
fn the_end_of_a_session_releases_the_receiver() {
    let mut manager = PairingManager::new();
    assert_eq!(start(&mut manager, true, true), Ok(()));
    assert!(matches!(
        manager.translate(PairingEvent::Searching),
        PairingUpdate::Searching
    ));
    assert!(manager.lease_held);
    assert!(matches!(
        manager.translate(PairingEvent::Paired { slot: 3 }),
        PairingUpdate::Paired { slot: 3 }
    ));
    assert!(!manager.lease_held);
    assert_eq!(manager.sessions, 0);

    assert_eq!(start(&mut manager, true, true), Ok(()));
    assert!(matches!(
        manager.translate(PairingEvent::Failed(PairingError::Timeout)),
        PairingUpdate::Failed(_)
    ));
    assert!(!manager.lease_held);

    assert_eq!(start(&mut manager, true, true), Ok(()));
    manager.watcher_closed();
    assert!(!manager.lease_held);
}

#[test]
fn only_discovered_devices_can_be_paired() {
    let mut manager = PairingManager::new();
    assert_eq!(start(&mut manager, true, true), Ok(()));
    assert!(matches!(
        manager.pair(&[1, 2, 3, 4, 5, 6]),
        Err(PairingCommandError::UnknownDevice)
    ));
    assert_eq!(command_taken(true), Ok(()));
    assert_eq!(
        command_taken(false),
        Err(PairingCommandError::WatcherUnavailable)
    );
}

#[test]
fn the_hook_follows_the_permission() {
    let config = Config::default();
    let mut agent = AgentLoop::new(&config);
    agent.capture_mouse_events = true;
    assert!(agent.prompts_for_accessibility(false));
    assert!(!agent.prompts_for_accessibility(true));
    assert_eq!(agent.accessibility_changed(true), HookAction::Install);
    agent.hook_started(true);
    assert_eq!(agent.accessibility_changed(true), HookAction::Keep);
    assert_eq!(agent.accessibility_changed(false), HookAction::Drop);
    agent.capture_mouse_events = false;
    assert_eq!(agent.accessibility_changed(true), HookAction::SwitchedOff);
}

#[test]
fn the_status_tells_how_enumeration_stands() {
    let config = Config::default();
    let mut agent = AgentLoop::new(&config);
    let (mut orchestrator, _) = Orchestrator::new(config);
    let outcome =
        agent.inventory_event(&mut orchestrator, Some(InventoryEvent::Snapshot(Vec::new())));
    assert!(outcome.is_some());
    assert!(agent
        .inventory_event(&mut orchestrator, Some(InventoryEvent::SystemWake))
        .is_none());
    let (status, inventories) = agent.snapshot(
        &orchestrator,
        true,
        "0.1.0".to_string(),
        PermissionStatus::Granted,
    );
    assert_eq!(status.inventory, InventoryHealth::Ready);
    assert_eq!(status.protocol_version, PROTOCOL_VERSION);
    assert!(inventories.is_empty());
    assert!(agent.inventory_event(&mut orchestrator, None).is_none());
    assert!(!agent.inventory_open);
    assert_eq!(orchestrator.inventory_health(), InventoryHealth::Ready);
}

#[test]
fn the_discovered_device_is_handed_over_for_pairing() {
    let found = |last: u8, authentication: u8, name: &str| {
        PairingEvent::DeviceFound(DiscoveredDevice {
            address: [1, 2, 3, 4, 5, last],
            authentication,
            kind: 2,
            name: name.to_string(),
        })
    };
    let mut manager = PairingManager::new();
    assert_eq!(start(&mut manager, true, true), Ok(()));
    assert!(matches!(
        manager.translate(found(6, 1, "Mouse")),
        PairingUpdate::DeviceFound(device)
            if device.address == [1, 2, 3, 4, 5, 6] && device.name == "Mouse"
    ));
    let _ = manager.translate(found(7, 2, "Keyboard"));
    let _ = manager.translate(found(6, 3, "Renamed"));
    let mouse = manager.pair(&[1, 2, 3, 4, 5, 6]).expect("a known device");
    assert_eq!((mouse.authentication, mouse.kind), (3, 2));
    assert_eq!(mouse.name, "Renamed", "the latest report of an address counts");
    let keyboard = manager.pair(&[1, 2, 3, 4, 5, 7]).expect("a known device");
    assert_eq!(keyboard.authentication, 2);
    assert!(!manager.is_discovered(&[1, 2, 3, 4, 5, 8]));

    let _ = manager.translate(PairingEvent::Paired { slot: 1 });
    assert_eq!(start(&mut manager, true, true), Ok(()));
    assert!(
        !manager.is_discovered(&[1, 2, 3, 4, 5, 6]),
        "a new session forgets the earlier discovery"
    );
}
