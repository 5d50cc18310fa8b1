//! The values that the background agent and the window exchange.

use crate::device::DeviceInventory;
use vstd::prelude::*;

verus! {

/// Wire-protocol version. Bumped only on a breaking change to the exchanged
/// types. The window checks it on connect and refuses to drive a mismatch.
pub const PROTOCOL_VERSION: u32 = 11;

/// State of a privacy permission owned by the background agent.
#[derive(Clone, Copy, Debug, PartialEq, Eq, Structural)]
pub enum PermissionStatus {
    /// The operating system permits the operation.
    Granted,
    /// The operation is currently denied.
    Denied,
    /// The operating system has not resolved the request yet.
    Unknown,
}

/// Where the agent's device enumeration stands. An empty inventory list is
/// ambiguous on its own: not looked yet, looked and found nothing, or unable to
/// look.
#[derive(Clone, Copy, Debug, PartialEq, Eq, Structural)]
pub enum InventoryHealth {
    /// The first enumeration hasn't completed yet.
    Scanning,
    /// At least one enumeration has completed; the inventory list is
    /// authoritative.
    Ready,
    /// Enumeration has never succeeded and is no longer treated as starting.
    Unavailable,
}

/// Agent health the window surfaces.
#[derive(Debug)]
pub struct AgentStatus {
    /// Whether the agent is trusted for Accessibility.
    pub accessibility_granted: bool,
    /// Whether the OS hook is live.
    pub hook_installed: bool,
    /// Whether the agent starts with the session.
    pub launch_at_login: bool,
    /// Enumeration progress.
    pub inventory: InventoryHealth,
    /// Wire-protocol version the agent speaks.
    pub protocol_version: u32,
    /// Version of the agent.
    pub agent_version: String,
    /// Input Monitoring permission of the agent.
    pub input_monitoring: PermissionStatus,
}

impl AgentStatus {
    /// The same status, texts counting by their characters.
    pub open spec fn same_as(self, other: AgentStatus) -> bool {
        &&& self.accessibility_granted == other.accessibility_granted
        &&& self.hook_installed == other.hook_installed
        &&& self.launch_at_login == other.launch_at_login
        &&& self.inventory == other.inventory
        &&& self.protocol_version == other.protocol_version
        &&& self.agent_version@ == other.agent_version@
        &&& self.input_monitoring == other.input_monitoring
    }
}

impl Clone for AgentStatus {
    fn clone(&self) -> (copy: Self)
        ensures
            copy == *self,
    {
        AgentStatus {
            accessibility_granted: self.accessibility_granted,
            hook_installed: self.hook_installed,
            launch_at_login: self.launch_at_login,
            inventory: self.inventory,
            protocol_version: self.protocol_version,
            agent_version: self.agent_version.clone(),
            input_monitoring: self.input_monitoring,
        }
    }
}

impl PartialEq for AgentStatus {
    fn eq(&self, other: &Self) -> (same: bool) {
        self.accessibility_granted == other.accessibility_granted && self.hook_installed
            == other.hook_installed && self.launch_at_login == other.launch_at_login
            && self.inventory == other.inventory && self.protocol_version
            == other.protocol_version && crate::text::str_eq(
            self.agent_version.as_str(),
            other.agent_version.as_str(),
        ) && self.input_monitoring == other.input_monitoring
    }
}

impl Eq for AgentStatus {

}

impl vstd::std_specs::cmp::PartialEqSpecImpl for AgentStatus {
    open spec fn obeys_eq_spec() -> bool {
        true
    }

    open spec fn eq_spec(&self, other: &Self) -> bool {
        self.same_as(*other)
    }
}

/// Status and inventory as one poll result, so that readiness and list never come
/// from different states.
#[derive(Debug)]
pub struct AgentSnapshot {
    /// The status.
    pub status: AgentStatus,
    /// The inventory.
    pub inventory: Vec<DeviceInventory>,
}

/// A nearby unpaired device surfaced during discovery: a name to show and the
/// address to pair by.
#[derive(Debug)]
pub struct FoundDevice {
    /// The address.
    pub address: [u8; 6],
    /// The name.
    pub name: String,
}

/// Terminal failure reason for a pairing session.
#[derive(Debug)]
pub enum PairingFailure {
    /// The HID transport returned an error.
    Hid {
        /// What it said.
        message: String,
    },
    /// No connected receiver supports pairing.
    ReceiverNotFound,
    /// HID++ receiver register access failed.
    Register {
        /// What it said.
        message: String,
    },
    /// The device or receiver did not complete pairing before its deadline.
    Timeout,
    /// The receiver reported a protocol-level pairing error code.
    Device {
        /// The code.
        code: u8,
    },
    /// The user cancelled the pairing session.
    Cancelled,
    /// The agent could not obtain exclusive receiver ownership for pairing.
    ReceiverBusy,
    /// The pairing watcher is unavailable inside the agent process.
    WatcherUnavailable,
    /// The background agent restarted during an active pairing session.
    AgentRestarted,
    /// The agent could not store its exclusive receiver ownership lease.
    ReceiverAccessUnavailable,
    /// A pairing session is already active.
    AlreadyActive,
    /// The address to pair is not in the current discovery cache.
    UnknownDevice,
    /// There is no pairing session to receive this command.
    NoActiveSession,
}

/// Immediate command-acceptance failure for pairing commands.
#[derive(Clone, Copy, Debug, PartialEq, Eq, Structural)]
pub enum PairingCommandError {
    /// A pairing session is already active.
    AlreadyActive,
    /// The agent could not obtain exclusive receiver ownership for pairing.
    ReceiverBusy,
    /// The pairing watcher is unavailable inside the agent process.
    WatcherUnavailable,
    /// The address to pair is not in the current discovery cache.
    UnknownDevice,
    /// There is no pairing session to receive this command.
    NoActiveSession,
}

impl From<PairingCommandError> for PairingFailure {
    fn from(error: PairingCommandError) -> (failure: Self) {
        match error {
            PairingCommandError::AlreadyActive => PairingFailure::AlreadyActive,
            PairingCommandError::ReceiverBusy => PairingFailure::ReceiverBusy,
            PairingCommandError::WatcherUnavailable => PairingFailure::WatcherUnavailable,
            PairingCommandError::UnknownDevice => PairingFailure::UnknownDevice,
            PairingCommandError::NoActiveSession => PairingFailure::NoActiveSession,
        }
    }
}

impl vstd::std_specs::convert::FromSpecImpl<PairingCommandError> for PairingFailure {
    open spec fn obeys_from_spec() -> bool {
        true
    }

    open spec fn from_spec(error: PairingCommandError) -> PairingFailure {
        match error {
            PairingCommandError::AlreadyActive => PairingFailure::AlreadyActive,
            PairingCommandError::ReceiverBusy => PairingFailure::ReceiverBusy,
            PairingCommandError::WatcherUnavailable => PairingFailure::WatcherUnavailable,
            PairingCommandError::UnknownDevice => PairingFailure::UnknownDevice,
            PairingCommandError::NoActiveSession => PairingFailure::NoActiveSession,
        }
    }
}

/// Why the pairing protocol itself ended.
#[derive(Debug)]
pub enum PairingError {
    /// The HID transport returned an error.
    Hid(String),
    /// No connected receiver supports pairing.
    ReceiverNotFound,
    /// HID++ receiver register access failed.
    Register(String),
    /// The deadline passed.
    Timeout,
    /// The receiver reported an error code.
    Device(u8),
    /// The user cancelled.
    Cancelled,
    /// A notification could not be understood.
    MalformedNotification(String),
}

/// How a protocol error is reported: a notification that could not be understood
/// counts as a transport failure.
pub open spec fn reports(failure: PairingFailure, error: PairingError) -> bool {
    match error {
        PairingError::Hid(message) => failure == (PairingFailure::Hid { message }),
        PairingError::ReceiverNotFound => failure == PairingFailure::ReceiverNotFound,
        PairingError::Register(message) => failure == (PairingFailure::Register { message }),
        PairingError::Timeout => failure == PairingFailure::Timeout,
        PairingError::Device(code) => failure == (PairingFailure::Device { code }),
        PairingError::Cancelled => failure == PairingFailure::Cancelled,
        PairingError::MalformedNotification(what) => failure matches PairingFailure::Hid {
            message,
        } && message@ == "malformed pairing notification ("@ + what@ + ")"@,
    }
}

impl PairingFailure {
    /// Report a protocol error.
    #[must_use]
    pub fn from_error(error: PairingError) -> (failure: PairingFailure)
        ensures
            reports(failure, error),
    {
        match error {
            PairingError::Hid(message) => PairingFailure::Hid { message },
            PairingError::ReceiverNotFound => PairingFailure::ReceiverNotFound,
            PairingError::Register(message) => PairingFailure::Register { message },
            PairingError::Timeout => PairingFailure::Timeout,
            PairingError::Device(code) => PairingFailure::Device { code },
            PairingError::Cancelled => PairingFailure::Cancelled,
            PairingError::MalformedNotification(what) => {
                let mut message = "malformed pairing notification (".to_owned();
                message.append(what.as_str());
                message.append(")");
                PairingFailure::Hid { message }
            },
        }
    }
}

/// A mouse button to click when entering a passkey with a pointer.
#[derive(Clone, Copy, Debug, PartialEq, Eq, Structural)]
pub enum Click {
    /// The left button.
    Left,
    /// The right button.
    Right,
}

/// How the user proves to be at the device.
#[derive(Debug)]
pub enum PasskeyMethod {
    /// Type these digits on the keyboard.
    Keyboard(String),
    /// Click this sequence with the pointer.
    Pointer {
        /// The passkey.
        passkey: String,
        /// The sequence.
        clicks: Vec<Click>,
    },
}

/// One step of a pairing session as the window sees it.
#[derive(Debug)]
pub enum PairingUpdate {
    /// Discovery or the pairing lock is open.
    Searching,
    /// A nearby unpaired device was discovered.
    DeviceFound(FoundDevice),
    /// The device asks the user to authenticate with a passkey.
    Passkey(PasskeyMethod),
    /// A device paired.
    Paired {
        /// Into this slot.
        slot: u8,
    },
    /// The flow ended without pairing a device.
    Failed(PairingFailure),
}

/// One input event that the OS hook observed. Pointer moves are left out: they
/// would flood the buffer.
#[derive(Debug)]
pub enum MonitorEvent {
    /// A mouse button changed state.
    Button {
        /// The button's display label.
        button: String,
        /// Whether it went down.
        pressed: bool,
    },
    /// A scroll-wheel tick.
    Scroll {
        /// Bit pattern of the horizontal amount, a 32-bit float; positive is
        /// right.
        delta_x_bits: u32,
        /// Bit pattern of the vertical amount, a 32-bit float; positive is down.
        delta_y_bits: u32,
    },
    /// The system interrupted capture.
    CaptureInterrupted,
}

/// The content of a [`MonitorEvent`].
pub enum MonitorModel {
    /// A mouse button changed state.
    Button {
        /// The button's display label.
        button: Seq<char>,
        /// Whether it went down.
        pressed: bool,
    },
    /// A scroll-wheel tick.
    Scroll {
        /// Bit pattern of the horizontal amount.
        delta_x_bits: u32,
        /// Bit pattern of the vertical amount.
        delta_y_bits: u32,
    },
    /// The system interrupted capture.
    CaptureInterrupted,
}

impl View for MonitorEvent {
    type V = MonitorModel;

    open spec fn view(&self) -> MonitorModel {
        match *self {
            MonitorEvent::Button { button, pressed } => MonitorModel::Button {
                button: button@,
                pressed,
            },
            MonitorEvent::Scroll { delta_x_bits, delta_y_bits } => MonitorModel::Scroll {
                delta_x_bits,
                delta_y_bits,
            },
            MonitorEvent::CaptureInterrupted => MonitorModel::CaptureInterrupted,
        }
    }
}

/// The number that a 32-bit float's bit pattern stands for is none.
pub open spec fn is_nan(bits: u32) -> bool {
    0x7f80_0000 < bits < 0x8000_0000 || 0xff80_0000 < bits
}

/// The bit pattern is that of a zero, of either sign.
pub open spec fn is_zero(bits: u32) -> bool {
    bits == 0 || bits == 0x8000_0000
}

/// Two bit patterns of 32-bit floats stand for the same number. One that stands for
/// none is not even the same as itself, and the two zeroes are the same.
pub open spec fn same_number(a: u32, b: u32) -> bool {
    !is_nan(a) && !is_nan(b) && (a == b || is_zero(a) && is_zero(b))
}

/// Whether two bit patterns of 32-bit floats stand for the same number.
fn numbers_agree(a: u32, b: u32) -> (agree: bool)
    ensures
        agree == same_number(a, b),
{
    let a_is_nan = (0x7f80_0000 < a && a < 0x8000_0000) || 0xff80_0000 < a;
    let b_is_nan = (0x7f80_0000 < b && b < 0x8000_0000) || 0xff80_0000 < b;
    let both_zero = (a == 0 || a == 0x8000_0000) && (b == 0 || b == 0x8000_0000);
    !a_is_nan && !b_is_nan && (a == b || both_zero)
}

impl PartialEq for MonitorEvent {
    fn eq(&self, other: &Self) -> (same: bool) {
        match (self, other) {
            (
                MonitorEvent::Button { button: a, pressed: p },
                MonitorEvent::Button { button: b, pressed: q },
            ) => crate::text::str_eq(a.as_str(), b.as_str()) && *p == *q,
            (
                MonitorEvent::Scroll { delta_x_bits: a, delta_y_bits: b },
                MonitorEvent::Scroll { delta_x_bits: c, delta_y_bits: d },
            ) => numbers_agree(*a, *c) && numbers_agree(*b, *d),
            (MonitorEvent::CaptureInterrupted, MonitorEvent::CaptureInterrupted) => true,
            _ => false,
        }
    }
}

impl vstd::std_specs::cmp::PartialEqSpecImpl for MonitorEvent {
    open spec fn obeys_eq_spec() -> bool {
        true
    }

    open spec fn eq_spec(&self, other: &Self) -> bool {
        match (self@, other@) {
            (
                MonitorModel::Scroll { delta_x_bits: a, delta_y_bits: b },
                MonitorModel::Scroll { delta_x_bits: c, delta_y_bits: d },
            ) => same_number(a, c) && same_number(b, d),
            (a, b) => a == b,
        }
    }
}

/// A command's rejection is reported to the window under the same name.
pub proof fn law_command_errors_keep_their_name(a: PairingCommandError, b: PairingCommandError)
    requires
        <PairingFailure as vstd::std_specs::convert::FromSpec<PairingCommandError>>::from_spec(a)
            == <PairingFailure as vstd::std_specs::convert::FromSpec<
            PairingCommandError,
        >>::from_spec(b),
    ensures
        a == b,
{
}

/// A refused command is reported under its own name.
pub proof fn law_refusals_are_reported(error: PairingCommandError)
    ensures
        ({
            let failure = <PairingFailure as vstd::std_specs::convert::FromSpec<
                PairingCommandError,
            >>::from_spec(error);
            &&& error is AlreadyActive <==> failure is AlreadyActive
            &&& error is ReceiverBusy <==> failure is ReceiverBusy
            &&& error is WatcherUnavailable <==> failure is WatcherUnavailable
            &&& error is UnknownDevice <==> failure is UnknownDevice
            &&& error is NoActiveSession <==> failure is NoActiveSession
        }),
{
}

/// A pairing error is reported under its own name, with what it carries; a notification
/// that could not be read is reported as an error of the device's interface.
pub proof fn law_errors_are_reported(failure: PairingFailure, error: PairingError)
    requires
        reports(failure, error),
    ensures
        error is ReceiverNotFound <==> failure is ReceiverNotFound,
        error is Timeout <==> failure is Timeout,
        error is Cancelled <==> failure is Cancelled,
        error matches PairingError::Hid(message) ==> failure == (PairingFailure::Hid { message }),
        error matches PairingError::Register(message) ==> failure == (PairingFailure::Register {
            message,
        }),
        error matches PairingError::Device(code) ==> failure == (PairingFailure::Device { code }),
        error matches PairingError::MalformedNotification(what) ==> (failure matches
            PairingFailure::Hid { message } && message@ == "malformed pairing notification ("@
            + what@ + ")"@),
        error is Register <==> failure is Register,
        error is Device <==> failure is Device,
{
}

/// Two states of the agent are the same when everything they tell is.
pub proof fn law_same_states(a: AgentStatus, b: AgentStatus)
    ensures
        a.same_as(b) ==> a.accessibility_granted == b.accessibility_granted && a.hook_installed
            == b.hook_installed && a.launch_at_login == b.launch_at_login && a.inventory
            == b.inventory && a.protocol_version == b.protocol_version && a.agent_version@
            == b.agent_version@ && a.input_monitoring == b.input_monitoring,
        a.accessibility_granted == b.accessibility_granted && a.hook_installed == b.hook_installed
            && a.launch_at_login == b.launch_at_login && a.inventory == b.inventory
            && a.protocol_version == b.protocol_version && a.agent_version@ == b.agent_version@
            && a.input_monitoring == b.input_monitoring ==> a.same_as(b),
        PROTOCOL_VERSION == 11,
{
}

/// When two scroll amounts are the same number: by their bits, except that the two zeros
/// are one number and that what is no number is never the same as anything.
pub proof fn law_amounts_compare_as_numbers(a: u32, b: u32)
    ensures
        same_number(a, b) == same_number(b, a),
        same_number(a, a) <==> !(a > 0x7f80_0000 && a <= 0x7fff_ffff || a > 0xff80_0000),
        same_number(0, 0x8000_0000),
        a != b && same_number(a, b) ==> (a == 0 && b == 0x8000_0000) || (a == 0x8000_0000 && b
            == 0),
{
}

/// What an event of the monitor shows is what it holds.
pub proof fn law_monitor_event_shows_itself(event: MonitorEvent)
    ensures
        event matches MonitorEvent::Button { button, pressed } ==> event@ == (MonitorModel::Button {
            button: button@,
            pressed,
        }),
        event matches MonitorEvent::Scroll { delta_x_bits, delta_y_bits } ==> event@ == (
        MonitorModel::Scroll { delta_x_bits, delta_y_bits }),
        event is CaptureInterrupted <==> event@ is CaptureInterrupted,
{
}

} // verus!
