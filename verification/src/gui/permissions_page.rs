//! The permissions page of the settings window.

use crate::gui::permissions::{open_pane, pane_anchor, Permission};
use crate::gui::state::{AppState, Command, UiEffect};
use crate::ipc::{AgentStatus, PermissionStatus};
use vstd::prelude::*;

verus! {

/// Colour of a status marker.
#[derive(Clone, Copy, Debug, PartialEq, Eq, Structural)]
pub enum Marker {
    /// Everything works.
    Connected,
    /// Something is to be done.
    Connecting,
    /// Nothing is known.
    Offline,
}

/// The word for a permission's status.
pub open spec fn badge_label(status: PermissionStatus) -> Seq<char> {
    match status {
        PermissionStatus::Granted => "Granted"@,
        PermissionStatus::Denied => "Not granted"@,
        PermissionStatus::Unknown => "Unknown"@,
    }
}

/// The word for a permission's status, and the colour beside it.
#[must_use]
pub fn status_badge(status: PermissionStatus) -> (badge: (&'static str, Marker))
    ensures
        badge.0@ == badge_label(status),
        badge.1 == match status {
            PermissionStatus::Granted => Marker::Connected,
            PermissionStatus::Denied => Marker::Connecting,
            PermissionStatus::Unknown => Marker::Offline,
        },
{
    match status {
        PermissionStatus::Granted => ("Granted", Marker::Connected),
        PermissionStatus::Denied => ("Not granted", Marker::Connecting),
        PermissionStatus::Unknown => ("Unknown", Marker::Offline),
    }
}

/// One row of the page.
#[derive(Debug)]
pub struct PermissionRow {
    /// Identifier of the row.
    pub id: &'static str,
    /// Its title.
    pub title: &'static str,
    /// What the permission is for.
    pub description: &'static str,
    /// The permission that the row's button opens the pane of.
    pub permission: Permission,
    /// Its status.
    pub status: PermissionStatus,
}

/// The texts of a permission's row: identifier, title and description.
pub open spec fn row_texts(permission: Permission) -> (Seq<char>, Seq<char>, Seq<char>) {
    match permission {
        Permission::Accessibility => (
            "perm-accessibility"@,
            "Accessibility"@,
            "Needed for gesture and button remapping (event tap)."@,
        ),
        Permission::InputMonitoring => (
            "perm-input-monitoring"@,
            "Input Monitoring"@,
            "Needed to read HID++ data, including Bluetooth-direct mice."@,
        ),
        Permission::Bluetooth => (
            "perm-bluetooth"@,
            "Bluetooth"@,
            "Allows OpenLogi to use CoreBluetooth (not required for HID access)."@,
        ),
    }
}

/// The status of a permission: the agent's own ones as it reports them, and unknown
/// while it is not connected.
pub open spec fn row_status(
    permission: Permission,
    agent: Option<AgentStatus>,
    bluetooth: PermissionStatus,
) -> PermissionStatus {
    match permission {
        Permission::Accessibility => match agent {
            Some(status) => if status.accessibility_granted {
                PermissionStatus::Granted
            } else {
                PermissionStatus::Denied
            },
            None => PermissionStatus::Unknown,
        },
        Permission::InputMonitoring => match agent {
            Some(status) => status.input_monitoring,
            None => PermissionStatus::Unknown,
        },
        Permission::Bluetooth => bluetooth,
    }
}

/// A row shows a permission.
pub open spec fn is_row_of(
    row: PermissionRow,
    permission: Permission,
    agent: Option<AgentStatus>,
    bluetooth: PermissionStatus,
) -> bool {
    &&& (row.id@, row.title@, row.description@) == row_texts(permission)
    &&& row.permission == permission
    &&& row.status == row_status(permission, agent, bluetooth)
}

/// What a borrowed status is.
pub open spec fn status_of(agent: Option<&AgentStatus>) -> Option<AgentStatus> {
    match agent {
        Some(status) => Some(*status),
        None => None,
    }
}

/// The row of a permission.
#[must_use]
pub fn permission_item(
    permission: Permission,
    agent: Option<&AgentStatus>,
    bluetooth: PermissionStatus,
) -> (row: PermissionRow)
    ensures
        is_row_of(row, permission, status_of(agent), bluetooth),
{
    match permission {
        Permission::Accessibility => PermissionRow {
            id: "perm-accessibility",
            title: "Accessibility",
            description: "Needed for gesture and button remapping (event tap).",
            permission,
            status: match agent {
                Some(status) => if status.accessibility_granted {
                    PermissionStatus::Granted
                } else {
                    PermissionStatus::Denied
                },
                None => PermissionStatus::Unknown,
            },
        },
        Permission::InputMonitoring => PermissionRow {
            id: "perm-input-monitoring",
            title: "Input Monitoring",
            description: "Needed to read HID++ data, including Bluetooth-direct mice.",
            permission,
            status: match agent {
                Some(status) => status.input_monitoring,
                None => PermissionStatus::Unknown,
            },
        },
        Permission::Bluetooth => PermissionRow {
            id: "perm-bluetooth",
            title: "Bluetooth",
            description: "Allows OpenLogi to use CoreBluetooth (not required for HID access).",
            permission,
            status: bluetooth,
        },
    }
}

/// The page on macOS: the agent's two permissions, then Bluetooth.
#[must_use]
pub fn permissions_page(agent: Option<&AgentStatus>, bluetooth: PermissionStatus) -> (rows: Vec<
    PermissionRow,
>)
    ensures
        rows@.len() == 3,
        is_row_of(rows@[0], Permission::Accessibility, status_of(agent), bluetooth),
        is_row_of(rows@[1], Permission::InputMonitoring, status_of(agent), bluetooth),
        is_row_of(rows@[2], Permission::Bluetooth, status_of(agent), bluetooth),
{
    let mut rows: Vec<PermissionRow> = Vec::new();
    rows.push(permission_item(Permission::Accessibility, agent, bluetooth));
    rows.push(permission_item(Permission::InputMonitoring, agent, bluetooth));
    rows.push(permission_item(Permission::Bluetooth, agent, bluetooth));
    rows
}

/// What to do about device-file access.
pub open spec fn access_advice(status: PermissionStatus) -> Option<Seq<char>> {
    match status {
        PermissionStatus::Denied => Some(
            "OpenLogi needs write access to /dev/uinput (for button remapping) and read/write access to /dev/hidraw* (for HID++ communication). Install the OpenLogi udev rules to grant access — see the Linux install guide."@,
        ),
        PermissionStatus::Unknown => Some(
            "No Logitech device detected. Connect your device or verify the hidraw udev rules are installed."@,
        ),
        PermissionStatus::Granted => None,
    }
}

/// The hint below the one row of the Linux page; none where access is granted.
#[must_use]
pub fn access_hint(status: PermissionStatus) -> (hint: Option<&'static str>)
    ensures
        crate::text::opt_view(hint) == access_advice(status),
{
    match status {
        PermissionStatus::Denied => Some(
            "OpenLogi needs write access to /dev/uinput (for button remapping) and read/write access to /dev/hidraw* (for HID++ communication). Install the OpenLogi udev rules to grant access — see the Linux install guide.",
        ),
        PermissionStatus::Unknown => Some(
            "No Logitech device detected. Connect your device or verify the hidraw udev rules are installed.",
        ),
        PermissionStatus::Granted => None,
    }
}

/// What the button of a row does: the Accessibility prompt has to come from the
/// agent, which owns the hook; every button opens its permission's pane.
#[must_use]
pub fn permission_field_clicked(permission: Permission, state: Option<&AppState>) -> (result: (
    Option<UiEffect>,
    String,
))
    ensures
        result.0 == if permission == Permission::Accessibility && state is Some {
            Some(UiEffect::Send(Command::RequestAccessibilityPrompt))
        } else {
            None
        },
        result.1@ == "x-apple.systempreferences:com.apple.preference.security?"@ + pane_anchor(
            permission,
        ),
{
    let effect = match (permission, state) {
        (Permission::Accessibility, Some(state)) => Some(state.request_accessibility_prompt()),
        _ => None,
    };
    (effect, open_pane(permission))
}

/// While the agent is not connected its permissions read as unknown, never as
/// denied.
pub proof fn law_unconnected_agent_reads_unknown(bluetooth: PermissionStatus)
    ensures
        row_status(Permission::Accessibility, None, bluetooth) == PermissionStatus::Unknown,
        row_status(Permission::InputMonitoring, None, bluetooth) == PermissionStatus::Unknown,
{
}

/// What the badges say.
pub proof fn law_badges_say(status: PermissionStatus)
    ensures
        status is Granted ==> badge_label(status) == "Granted"@,
        status is Denied ==> badge_label(status) == "Not granted"@,
        status is Unknown ==> badge_label(status) == "Unknown"@,
        status is Granted <==> access_advice(status) is None,
        status is Unknown ==> access_advice(status) == Some(
            "No Logitech device detected. Connect your device or verify the hidraw udev rules are installed."@,
        ),
{
}

/// What a row shows: its own permission, and of it what the agent says, or of Bluetooth
/// what the system says.
pub proof fn law_row_shows_its_permission(
    row: PermissionRow,
    permission: Permission,
    status: AgentStatus,
    agent: Option<AgentStatus>,
    bluetooth: PermissionStatus,
)
    requires
        is_row_of(row, permission, agent, bluetooth),
    ensures
        row.permission == permission,
        permission is Accessibility ==> row.id@ == "perm-accessibility"@ && row.title@
            == "Accessibility"@,
        permission is InputMonitoring ==> row.id@ == "perm-input-monitoring"@ && row.title@
            == "Input Monitoring"@,
        permission is Bluetooth ==> row.id@ == "perm-bluetooth"@ && row.title@ == "Bluetooth"@,
        permission is Bluetooth ==> row.status == bluetooth,
        permission is Accessibility && agent == Some(status) ==> (row.status is Granted
            <==> status.accessibility_granted) && (row.status is Denied
            <==> !status.accessibility_granted),
        permission is InputMonitoring && agent == Some(status) ==> row.status
            == status.input_monitoring,
        !(permission is Bluetooth) && agent is None ==> row.status is Unknown,
        permission is Accessibility ==> row.description@
            == "Needed for gesture and button remapping (event tap)."@,
        permission is InputMonitoring ==> row.description@
            == "Needed to read HID++ data, including Bluetooth-direct mice."@,
        permission is Bluetooth ==> row.description@
            == "Allows OpenLogi to use CoreBluetooth (not required for HID access)."@,
{
}

} // verus!
