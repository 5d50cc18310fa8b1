//! System permissions as seen by the agent and by the interface.

use openlogi::agent::permissions::{
    classify_input_monitoring, input_monitoring, request_input_monitoring,
};
use openlogi::gui::permissions::{
    bluetooth, classify, hidraw_access, is_hidraw_name, is_logitech_hidraw, open_pane, Permission,
    ProbeOutcome,
};
use openlogi::gui::permissions_page::{access_hint, permissions_page, status_badge, Marker};
use openlogi::ipc::PermissionStatus;

#[test]
fn input_monitoring_access_values_preserve_denied_and_unknown() {
    assert_eq!(classify_input_monitoring(0), PermissionStatus::Granted);
    assert_eq!(classify_input_monitoring(1), PermissionStatus::Denied);
    assert_eq!(classify_input_monitoring(2), PermissionStatus::Unknown);
    assert_eq!(classify_input_monitoring(99), PermissionStatus::Unknown);
}

#[test]
fn classify_granted_when_both_ok() {
    assert_eq!(classify(true, Some(true)), PermissionStatus::Granted);
}

#[test]
fn classify_denied_when_uinput_not_ok() {
    assert_eq!(classify(false, Some(true)), PermissionStatus::Denied);
    assert_eq!(classify(false, Some(false)), PermissionStatus::Denied);
    assert_eq!(classify(false, None), PermissionStatus::Denied);
}

#[test]
fn classify_denied_when_hidraw_denied() {
    assert_eq!(classify(true, Some(false)), PermissionStatus::Denied);
}

#[test]
fn classify_unknown_when_no_logitech_device_connected() {
    assert_eq!(classify(true, None), PermissionStatus::Unknown);
}

#[test]
fn input_monitoring_without_a_system_answer_is_granted() {
    assert_eq!(input_monitoring(None), PermissionStatus::Granted);
    assert_eq!(input_monitoring(Some(1)), PermissionStatus::Denied);
    assert!(!request_input_monitoring(Some(0)));
}

#[test]
fn bluetooth_authorization_values() {
    assert_eq!(bluetooth(Some(3)), PermissionStatus::Granted);
    assert_eq!(bluetooth(Some(0)), PermissionStatus::Unknown);
}

#[test]
fn one_readable_node_is_enough() {
    assert_eq!(hidraw_access(&vec![]), None);
    assert_eq!(hidraw_access(&vec![ProbeOutcome::Denied]), Some(false));
    assert_eq!(
        hidraw_access(&vec![ProbeOutcome::Denied, ProbeOutcome::Opened]),
        Some(true)
    );
}

#[test]
fn hidraw_nodes_are_recognised_by_name_and_vendor() {
    assert!(is_hidraw_name("hidraw0"));
    assert!(!is_hidraw_name("input0"));
    assert!(is_logitech_hidraw(
        "DRIVER=logitech-hidpp-device\nHID_ID=0005:0000046D:0000B023\nHID_NAME=MX Master 3S"
    ));
    assert!(!is_logitech_hidraw("HID_ID=0003:00001532:0000007B"));
    assert!(!is_logitech_hidraw(""));
}

#[test]
fn panes_badges_and_hints() {
    assert!(open_pane(Permission::Accessibility).contains("Privacy_Accessibility"));
    assert_ne!(
        open_pane(Permission::Accessibility),
        open_pane(Permission::InputMonitoring)
    );
    assert_eq!(status_badge(PermissionStatus::Granted), ("Granted", Marker::Connected));
    assert!(access_hint(PermissionStatus::Granted).is_none());
    assert!(access_hint(PermissionStatus::Denied).is_some());
    let rows = permissions_page(None, PermissionStatus::Granted);
    assert!(!rows.is_empty());
}
