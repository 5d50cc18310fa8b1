//! The root view: which screen it shows.

use crate::device::{Capabilities, DeviceKind, DeviceRoute, DeviceTransports};
use crate::gui::permissions::{open_pane, pane_anchor, Permission};
use crate::gui::state::{
    is_selection_stored, saved_if, AgentLink, AppModel, AppState, Command, DeviceRecord, UiEffect,
};
use crate::ipc::{AgentStatus, InventoryHealth, PermissionStatus};
use crate::text;
use vstd::prelude::*;

pub mod detail;

verus! {

/// Which screen the root view is on. The detail route names its device by key, so
/// that a hot-plug that reorders or drops devices cannot swap the user onto another
/// device's settings.
#[derive(Debug)]
pub enum Route {
    /// The device gallery.
    Home,
    /// A device's settings.
    Device {
        /// The device's key.
        config_key: String,
    },
}

/// A section of the device screen.
#[derive(Clone, Copy, Debug, PartialEq, Eq, Structural)]
pub enum DetailTab {
    /// The mouse model with its hotspots.
    Buttons,
    /// Pointer tuning.
    Pointer,
    /// RGB lighting.
    Lighting,
    /// Device info and configuration.
    Device,
}

/// What a device offers: as measured, or as presumed from its kind.
pub open spec fn offered(record: DeviceRecord) -> Capabilities {
    match record.capabilities {
        Some(capabilities) => capabilities,
        None => Capabilities::presumed(record.kind),
    }
}

/// The mouse model fits the device: it has artwork with its own layout, or is a
/// pointing device.
pub open spec fn fits_mouse_model(record: DeviceRecord) -> bool {
    record.asset is Some || record.kind == DeviceKind::Mouse || record.kind
        == DeviceKind::Trackball
}

/// A section is shown for a device.
pub open spec fn has_tab(record: DeviceRecord, tab: DetailTab) -> bool {
    match tab {
        DetailTab::Buttons => offered(record).buttons && fits_mouse_model(record),
        DetailTab::Pointer => offered(record).pointer,
        DetailTab::Lighting => offered(record).lighting,
        DetailTab::Device => true,
    }
}

/// A section, where it is shown.
pub open spec fn tab_if(record: DeviceRecord, tab: DetailTab) -> Seq<DetailTab> {
    if has_tab(record, tab) {
        seq![tab]
    } else {
        Seq::empty()
    }
}

/// The sections that are shown for a device, in order.
pub open spec fn tabs_of(record: DeviceRecord) -> Seq<DetailTab> {
    tab_if(record, DetailTab::Buttons) + tab_if(record, DetailTab::Pointer) + tab_if(
        record,
        DetailTab::Lighting,
    ) + seq![DetailTab::Device]
}

/// The name of a section.
pub open spec fn tab_label(tab: DetailTab) -> Seq<char> {
    match tab {
        DetailTab::Buttons => "Buttons"@,
        DetailTab::Pointer => "Pointer"@,
        DetailTab::Lighting => "Lighting"@,
        DetailTab::Device => "Device"@,
    }
}

impl DetailTab {
    /// The sections shown for a device, in order. Each follows what the device
    /// offers, not its kind; a device that was never probed is presumed to offer
    /// what its kind does. A device without artwork that does not point has no
    /// button section: the generic mouse layout would be wrong for it.
    #[must_use]
    pub fn tabs_for(record: &DeviceRecord) -> (tabs: Vec<DetailTab>)
        ensures
            tabs@ == tabs_of(*record),
    {
        let capabilities = match record.capabilities {
            Some(capabilities) => capabilities,
            None => Capabilities::presumed_from_kind(record.kind),
        };
        let can_show_mouse_model = record.asset.is_some() || matches!(
            record.kind,
            DeviceKind::Mouse | DeviceKind::Trackball
        );
        let mut tabs: Vec<DetailTab> = Vec::new();
        if capabilities.buttons && can_show_mouse_model {
            tabs.push(DetailTab::Buttons);
        }
        if capabilities.pointer {
            tabs.push(DetailTab::Pointer);
        }
        if capabilities.lighting {
            tabs.push(DetailTab::Lighting);
        }
        tabs.push(DetailTab::Device);
        assert(tabs@ =~= tabs_of(*record));
        tabs
    }

    /// The section that a freshly opened device shows.
    #[must_use]
    pub fn default_for(record: &DeviceRecord) -> (tab: DetailTab)
        ensures
            tab == tabs_of(*record)[0],
    {
        let tabs = DetailTab::tabs_for(record);
        tabs[0]
    }

    /// The name of the section.
    #[must_use]
    pub fn label(self) -> (label: &'static str)
        ensures
            label@ == tab_label(self),
    {
        match self {
            DetailTab::Buttons => "Buttons",
            DetailTab::Pointer => "Pointer",
            DetailTab::Lighting => "Lighting",
            DetailTab::Device => "Device",
        }
    }
}

/// A permission that stands before everything else.
#[derive(Clone, Copy, Debug, PartialEq, Eq, Structural)]
pub enum PermissionGate {
    /// The agent may not watch input events.
    Accessibility,
    /// The agent may not open input devices.
    InputMonitoring,
}

/// The permission that is missing first.
pub open spec fn missing_permission(
    accessibility_granted: bool,
    input_monitoring: PermissionStatus,
) -> Option<PermissionGate> {
    if !accessibility_granted {
        Some(PermissionGate::Accessibility)
    } else if input_monitoring != PermissionStatus::Granted {
        Some(PermissionGate::InputMonitoring)
    } else {
        None
    }
}

/// The permission that is missing first: Accessibility, then Input Monitoring.
#[must_use]
pub fn permission_gate(accessibility_granted: bool, input_monitoring: PermissionStatus) -> (gate:
    Option<PermissionGate>)
    ensures
        gate == missing_permission(accessibility_granted, input_monitoring),
{
    if !accessibility_granted {
        Some(PermissionGate::Accessibility)
    } else if input_monitoring != PermissionStatus::Granted {
        Some(PermissionGate::InputMonitoring)
    } else {
        None
    }
}

/// The missing permission that is asked for: Accessibility can be put off.
pub open spec fn shown_gate(status: AgentStatus, dismissed: bool) -> Option<PermissionGate> {
    match missing_permission(status.accessibility_granted, status.input_monitoring) {
        Some(PermissionGate::Accessibility) => if dismissed {
            None
        } else {
            Some(PermissionGate::Accessibility)
        },
        other => other,
    }
}

/// What a permission gate says.
#[derive(Clone, Copy, Debug)]
pub struct GateTexts {
    /// Its title.
    pub title: &'static str,
    /// What the permission is for.
    pub reason: &'static str,
    /// How it is granted.
    pub instruction: &'static str,
    /// What is written on its button.
    pub button: &'static str,
    /// When the grant takes effect.
    pub note: &'static str,
    /// What puts it off, where that is possible.
    pub skip: Option<&'static str>,
}

/// What the Accessibility gate says.
#[must_use]
pub fn accessibility_gate() -> (texts: GateTexts)
    ensures
        texts.title@ == "Accessibility permission required"@,
        texts.reason@
            == "OpenLogi captures mouse buttons (Back / Forward / gesture button) through the system Accessibility permission and runs the actions you bind. Features that talk to the device directly — DPI, SmartShift — are unaffected."@,
        texts.instruction@
            == "Enable “OpenLogi Agent” in the Accessibility list — the background agent owns the mouse hook, not the OpenLogi app. If it already shows as enabled, remove the stale entry with the − button and add it back."@,
        texts.button@ == "Open System Settings to grant access"@,
        texts.note@ == "Takes effect automatically once granted — no restart needed."@,
        text::opt_view(texts.skip) == Some("Not now (use DPI and other features only)"@),
{
    GateTexts {
        title: "Accessibility permission required",
        reason: "OpenLogi captures mouse buttons (Back / Forward / gesture button) through the system Accessibility permission and runs the actions you bind. Features that talk to the device directly — DPI, SmartShift — are unaffected.",
        instruction: "Enable “OpenLogi Agent” in the Accessibility list — the background agent owns the mouse hook, not the OpenLogi app. If it already shows as enabled, remove the stale entry with the − button and add it back.",
        button: "Open System Settings to grant access",
        note: "Takes effect automatically once granted — no restart needed.",
        skip: Some("Not now (use DPI and other features only)"),
    }
}

/// What the Input Monitoring gate says. It cannot be put off: without the
/// permission the agent cannot open any device.
#[must_use]
pub fn input_monitoring_gate() -> (texts: GateTexts)
    ensures
        texts.title@ == "Input Monitoring"@,
        texts.reason@ == "Needed to read HID++ data, including Bluetooth-direct mice."@,
        texts.instruction@
            == "Grant Input Monitoring to “OpenLogiAgent”. Without it, macOS blocks the background agent from opening the mouse; the device is not actually offline."@,
        texts.button@ == "Open System Settings to grant access"@,
        texts.note@ == "Takes effect automatically once granted — no restart needed."@,
        texts.skip is None,
{
    GateTexts {
        title: "Input Monitoring",
        reason: "Needed to read HID++ data, including Bluetooth-direct mice.",
        instruction: "Grant Input Monitoring to “OpenLogiAgent”. Without it, macOS blocks the background agent from opening the mouse; the device is not actually offline.",
        button: "Open System Settings to grant access",
        note: "Takes effect automatically once granted — no restart needed.",
        skip: None,
    }
}

/// Icon of the link to a device.
pub open spec fn link_icon(route: Option<DeviceRoute>, transports: Option<DeviceTransports>) -> Seq<
    char,
> {
    match route {
        Some(DeviceRoute::Bolt { .. }) => "action-icons/bolt.svg"@,
        Some(DeviceRoute::Unifying { .. }) => "action-icons/unifying.svg"@,
        Some(DeviceRoute::Direct { .. }) => match transports {
            Some(transports) => if (transports.usb || transports.equad) && !transports.btle
                && !transports.bluetooth {
                "action-icons/usb.svg"@
            } else {
                "action-icons/bluetooth.svg"@
            },
            None => "action-icons/bluetooth.svg"@,
        },
        None => "action-icons/bluetooth.svg"@,
    }
}

/// Icon of the link to a device: its receiver's, a cable for a direct device
/// without a radio of its own, and Bluetooth for everything else.
#[must_use]
pub fn connection_icon_path(
    route: Option<&DeviceRoute>,
    transports: Option<&DeviceTransports>,
) -> (path: &'static str)
    ensures
        path@ == link_icon(
            match route {
                Some(route) => Some(*route),
                None => None,
            },
            match transports {
                Some(transports) => Some(*transports),
                None => None,
            },
        ),
{
    match route {
        Some(DeviceRoute::Bolt { .. }) => "action-icons/bolt.svg",
        Some(DeviceRoute::Unifying { .. }) => "action-icons/unifying.svg",
        Some(DeviceRoute::Direct { .. }) => match transports {
            Some(transports) => if (transports.usb || transports.equad) && !transports.btle
                && !transports.bluetooth {
                "action-icons/usb.svg"
            } else {
                "action-icons/bluetooth.svg"
            },
            None => "action-icons/bluetooth.svg",
        },
        None => "action-icons/bluetooth.svg",
    }
}

/// What the gallery screen shows below its header.
#[derive(Clone, Copy, Debug, PartialEq, Eq, Structural)]
pub enum HomeBody {
    /// The device cards.
    Gallery,
    /// The first enumeration is still running.
    Scanning,
    /// Enumerating failed.
    Unavailable,
    /// There are no devices.
    Empty,
}

/// What the root view shows.
#[derive(Debug)]
pub enum Screen {
    /// The agent has not answered yet.
    Connecting,
    /// The agent cannot be reached.
    Unreachable,
    /// The agent is newer than this process.
    OutdatedGui,
    /// A permission is missing.
    Gate(PermissionGate),
    /// The device gallery.
    Home(HomeBody),
    /// A device's settings.
    Device {
        /// The sections in their order.
        tabs: Vec<DetailTab>,
        /// The section that is shown.
        active: DetailTab,
    },
}

/// The content of a [`Screen`].
#[verifier::ext_equal]
pub enum ScreenModel {
    /// The agent has not answered yet.
    Connecting,
    /// The agent cannot be reached.
    Unreachable,
    /// The agent is newer than this process.
    OutdatedGui,
    /// A permission is missing.
    Gate(PermissionGate),
    /// The device gallery.
    Home(HomeBody),
    /// A device's settings.
    Device {
        /// The sections in their order.
        tabs: Seq<DetailTab>,
        /// The section that is shown.
        active: DetailTab,
    },
}

impl View for Screen {
    type V = ScreenModel;

    open spec fn view(&self) -> ScreenModel {
        match *self {
            Screen::Connecting => ScreenModel::Connecting,
            Screen::Unreachable => ScreenModel::Unreachable,
            Screen::OutdatedGui => ScreenModel::OutdatedGui,
            Screen::Gate(gate) => ScreenModel::Gate(gate),
            Screen::Home(body) => ScreenModel::Home(body),
            Screen::Device { tabs, active } => ScreenModel::Device { tabs: tabs@, active },
        }
    }
}

impl ScreenModel {
    /// The screen is not about the devices, so that the window has no more than the
    /// application's name to show.
    pub open spec fn is_neutral(self) -> bool {
        self is Connecting || self is Unreachable || self is OutdatedGui || self is Gate
    }
}

impl Screen {
    /// The window's title where it does not depend on the devices: the application's
    /// name while nothing is known of them or a permission is missing.
    #[must_use]
    pub fn fixed_title(&self) -> (title: Option<&'static str>)
        ensures
            title is Some <==> self@.is_neutral(),
            title matches Some(name) ==> name@ == "OpenLogi"@,
    {
        match self {
            Screen::Connecting | Screen::Unreachable | Screen::OutdatedGui | Screen::Gate(_) => Some(
                "OpenLogi",
            ),
            Screen::Home(_) | Screen::Device { .. } => None,
        }
    }

    /// What the footer says of Accessibility: whether it is granted. Only the screens
    /// about the devices have a footer, and they are shown only once the agent has
    /// answered.
    #[must_use]
    pub fn footer(&self, link: &AgentLink) -> (granted: Option<bool>)
        ensures
            granted == match *link {
                AgentLink::Ready(status) => if self@.is_neutral() {
                    None
                } else {
                    Some(status.accessibility_granted)
                },
                _ => None,
            },
    {
        match (self, link) {
            (Screen::Home(_) | Screen::Device { .. }, AgentLink::Ready(status)) => Some(
                status.accessibility_granted,
            ),
            _ => None,
        }
    }
}

/// Root application view.
#[derive(Debug)]
pub struct AppView {
    /// The screen that was navigated to.
    pub route: Route,
    /// The Accessibility gate has been put off.
    pub accessibility_dismissed: bool,
    /// The section of the device screen.
    pub active_tab: DetailTab,
}

/// The content of an [`AppView`]: the key of the device navigated to, if any.
pub struct ViewModel {
    /// The device navigated to.
    pub device: Option<Seq<char>>,
    /// The Accessibility gate has been put off.
    pub dismissed: bool,
    /// The section of the device screen.
    pub tab: DetailTab,
}

impl View for AppView {
    type V = ViewModel;

    open spec fn view(&self) -> ViewModel {
        ViewModel {
            device: match self.route {
                Route::Home => None,
                Route::Device { config_key } => Some(config_key@),
            },
            dismissed: self.accessibility_dismissed,
            tab: self.active_tab,
        }
    }
}

/// The section to show: the chosen one where the device has it, else its first.
pub open spec fn live_tab(tabs: Seq<DetailTab>, chosen: DetailTab) -> DetailTab {
    if tabs.contains(chosen) {
        chosen
    } else {
        tabs[0]
    }
}

/// What the gallery screen shows.
pub open spec fn home_body(state: AppModel, status: AgentStatus) -> HomeBody {
    if state.devices != Map::<Seq<char>, DeviceRecord>::empty() {
        HomeBody::Gallery
    } else {
        match status.inventory {
            InventoryHealth::Scanning => HomeBody::Scanning,
            InventoryHealth::Unavailable => HomeBody::Unavailable,
            InventoryHealth::Ready => HomeBody::Empty,
        }
    }
}

impl ViewModel {
    /// The device screen is shown: its device is still the selected one.
    pub open spec fn shows_device(self, state: AppModel) -> bool {
        self.device is Some && state.current_key() == self.device
    }

    /// What the view shows in a state.
    pub open spec fn screen(self, state: AppModel) -> ScreenModel {
        match state.link {
            AgentLink::Connecting => ScreenModel::Connecting,
            AgentLink::Unreachable => ScreenModel::Unreachable,
            AgentLink::OutdatedGui => ScreenModel::OutdatedGui,
            AgentLink::Ready(status) => match shown_gate(status, self.dismissed) {
                Some(gate) => ScreenModel::Gate(gate),
                None => if self.shows_device(state) {
                    let tabs = tabs_of(state.record().unwrap());
                    ScreenModel::Device { tabs, active: live_tab(tabs, self.tab) }
                } else {
                    ScreenModel::Home(home_body(state, status))
                },
            },
        }
    }

    /// The view after it has been drawn: a device screen whose device is gone or no
    /// longer selected falls back to the gallery.
    pub open spec fn drawn(self, state: AppModel) -> ViewModel {
        match self.screen(state) {
            ScreenModel::Home(_) => ViewModel { device: None, ..self },
            _ => self,
        }
    }
}

/// The effects and the state of opening a device.
pub open spec fn is_opened(
    before: AppModel,
    after: AppModel,
    effects: Seq<UiEffect>,
    key: Seq<char>,
) -> bool {
    exists|index: int|
        {
            &&& 0 <= index < before.order.len()
            &&& #[trigger] before.order[index] == key
            &&& if index == before.current {
                after == before && effects == Seq::<UiEffect>::empty()
            } else {
                let moved = before.with_selection(index);
                &&& is_selection_stored(moved, after)
                &&& effects == saved_if(moved.stored_key() is Some)
            }
        }
}

impl AppView {
    /// The view at launch.
    #[must_use]
    pub fn new() -> (view: AppView)
        ensures
            view@ == (ViewModel { device: None, dismissed: false, tab: DetailTab::Buttons }),
    {
        AppView {
            route: Route::Home,
            accessibility_dismissed: false,
            active_tab: DetailTab::Buttons,
        }
    }

    /// Open a device's settings from the gallery: it becomes the selected device,
    /// and its first section is shown.
    pub fn open_device(&mut self, config_key: String, state: &mut AppState) -> (effects: Vec<
        UiEffect,
    >)
        ensures
            if old(state)@.devices.contains_key(config_key@) {
                is_opened(old(state)@, final(state)@, effects@, config_key@)
            } else {
                final(state)@ == old(state)@ && effects@ == Seq::<UiEffect>::empty()
            },
            final(self)@ == (ViewModel {
                device: Some(config_key@),
                tab: match final(state)@.record() {
                    Some(record) => tabs_of(record)[0],
                    None => DetailTab::Device,
                },
                ..old(self)@
            }),
    {
        let effects = match state.device_list.position(config_key.as_str()) {
            Some(index) => {
                let ghost before = state@;
                let effects = state.set_current_device(index);
                assert(before.order[index as int] == config_key@);
                effects
            },
            None => Vec::new(),
        };
        self.route = Route::Device { config_key };
        self.active_tab = match state.current_record() {
            Some(record) => DetailTab::default_for(record),
            None => DetailTab::Device,
        };
        effects
    }

    /// Return to the gallery; the selected device stays selected.
    pub fn go_home(&mut self)
        ensures
            final(self)@ == (ViewModel { device: None, ..old(self)@ }),
    {
        self.route = Route::Home;
    }

    /// Put the Accessibility gate off.
    pub fn dismiss_accessibility(&mut self)
        ensures
            final(self)@ == (ViewModel { dismissed: true, ..old(self)@ }),
    {
        self.accessibility_dismissed = true;
    }

    /// The missing permission that is asked for in place of everything else.
    #[must_use]
    pub fn active_permission_gate(&self, status: &AgentStatus) -> (gate: Option<PermissionGate>)
        ensures
            gate == shown_gate(*status, self@.dismissed),
    {
        match permission_gate(status.accessibility_granted, status.input_monitoring) {
            Some(PermissionGate::Accessibility) => if self.accessibility_dismissed {
                None
            } else {
                Some(PermissionGate::Accessibility)
            },
            Some(PermissionGate::InputMonitoring) => Some(PermissionGate::InputMonitoring),
            None => None,
        }
    }

    /// Decide what to show. Until the agent has answered there is a neutral frame,
    /// then come the permission gates, and only then the devices. A device screen
    /// lives only while its device is the selected one.
    pub fn render(&mut self, state: &AppState) -> (screen: Screen)
        ensures
            screen@ == old(self)@.screen(state@),
            final(self)@ == old(self)@.drawn(state@),
    {
        let status = match &state.agent_link {
            AgentLink::Connecting => {
                return Screen::Connecting;
            },
            AgentLink::Unreachable => {
                return Screen::Unreachable;
            },
            AgentLink::OutdatedGui => {
                return Screen::OutdatedGui;
            },
            AgentLink::Ready(status) => status,
        };
        if let Some(gate) = self.active_permission_gate(status) {
            return Screen::Gate(gate);
        }
        let current = state.current_record();
        let shown = match &self.route {
            Route::Home => None,
            Route::Device { config_key } => match current {
                Some(record) => if text::str_eq(
                    record.config_key.as_str(),
                    config_key.as_str(),
                ) {
                    Some(record)
                } else {
                    None
                },
                None => None,
            },
        };
        match shown {
            Some(record) => {
                let tabs = DetailTab::tabs_for(record);
                let active = if has_entry(&tabs, self.active_tab) {
                    self.active_tab
                } else {
                    tabs[0]
                };
                Screen::Device { tabs, active }
            },
            None => {
                self.route = Route::Home;
                if !state.device_list.is_empty() {
                    return Screen::Home(HomeBody::Gallery);
                }
                match status.inventory {
                    InventoryHealth::Scanning => Screen::Home(HomeBody::Scanning),
                    InventoryHealth::Unavailable => Screen::Home(HomeBody::Unavailable),
                    InventoryHealth::Ready => Screen::Home(HomeBody::Empty),
                }
            },
        }
    }
}

/// Whether a section is among others.
fn has_entry(tabs: &Vec<DetailTab>, tab: DetailTab) -> (found: bool)
    ensures
        found == tabs@.contains(tab),
{
    let mut i: usize = 0;
    while i < tabs.len()
        invariant
            i <= tabs@.len(),
            forall|j: int| 0 <= j < i ==> tabs@[j] != tab,
        decreases tabs@.len() - i,
    {
        if tabs[i] == tab {
            assert(tabs@[i as int] == tab);
            return true;
        }
        i += 1;
    }
    false
}

/// Ask for Accessibility: the agent shows the system's prompt, since the grant has
/// to go to it, and the settings pane opens.
#[must_use]
pub fn request_accessibility(state: Option<&AppState>) -> (result: (Option<UiEffect>, String))
    ensures
        result.0 == match state {
            Some(_) => Some(UiEffect::Send(Command::RequestAccessibilityPrompt)),
            None => None,
        },
        result.1@ == "x-apple.systempreferences:com.apple.preference.security?"@ + pane_anchor(
            Permission::Accessibility,
        ),
{
    let effect = match state {
        Some(state) => Some(state.request_accessibility_prompt()),
        None => None,
    };
    (effect, open_pane(Permission::Accessibility))
}

/// Every device has at least the info section, which comes last, and no section
/// twice.
pub proof fn law_every_device_has_its_info(record: DeviceRecord)
    ensures
        tabs_of(record).len() > 0,
        tabs_of(record).last() == DetailTab::Device,
        tabs_of(record).no_duplicates(),
        forall|tab: DetailTab| tabs_of(record).contains(tab) <==> #[trigger] has_tab(record, tab),
{
    let tabs = tabs_of(record);
    assert forall|tab: DetailTab| tabs.contains(tab) <==> #[trigger] has_tab(record, tab) by {
        let buttons = tab_if(record, DetailTab::Buttons);
        let pointer = tab_if(record, DetailTab::Pointer);
        let lighting = tab_if(record, DetailTab::Lighting);
        if has_tab(record, tab) {
            match tab {
                DetailTab::Buttons => {
                    assert(tabs[0] == tab);
                },
                DetailTab::Pointer => {
                    assert(tabs[buttons.len() as int] == tab);
                },
                DetailTab::Lighting => {
                    assert(tabs[(buttons.len() + pointer.len()) as int] == tab);
                },
                DetailTab::Device => {
                    assert(tabs[(buttons.len() + pointer.len() + lighting.len()) as int] == tab);
                },
            }
        }
    }
}

/// No screen claims a denied permission or a missing device before the agent has
/// answered.
pub proof fn law_nothing_is_claimed_before_the_agent_answers(view: ViewModel, state: AppModel)
    requires
        !(state.link is Ready),
    ensures
        !(view.screen(state) is Gate),
        !(view.screen(state) is Home),
        !(view.screen(state) is Device),
        view.drawn(state) == view,
{
}

/// A missing permission comes before any device state, unless it is the
/// Accessibility one and has been put off.
pub proof fn law_permissions_gate_before_devices(
    view: ViewModel,
    state: AppModel,
    status: AgentStatus,
)
    requires
        state.link == AgentLink::Ready(status),
    ensures
        status.accessibility_granted && status.input_monitoring != PermissionStatus::Granted
            ==> view.screen(state) == ScreenModel::Gate(PermissionGate::InputMonitoring),
        !status.accessibility_granted && !view.dismissed ==> view.screen(state)
            == ScreenModel::Gate(PermissionGate::Accessibility),
        view.screen(state) is Device ==> state.current_key() == view.device,
{
}

/// Which tabs a device has: buttons where it has some and is drawn as a mouse, the
/// pointer and the lighting where it has them, and always its information. Without a
/// report, what its kind is presumed to have counts.
pub proof fn law_tabs_follow_the_capabilities(record: DeviceRecord, tab: DetailTab)
    ensures
        ({
            let mouse = record.kind is Mouse || record.kind is Trackball;
            let reported = record.capabilities is Some;
            let buttons = if reported {
                record.capabilities->0.buttons
            } else {
                mouse
            };
            let pointer = if reported {
                record.capabilities->0.pointer
            } else {
                mouse
            };
            let lighting = reported && record.capabilities->0.lighting;
            &&& tab is Buttons ==> (tabs_of(record).contains(tab) <==> buttons && (mouse
                || record.asset is Some))
            &&& tab is Pointer ==> (tabs_of(record).contains(tab) <==> pointer)
            &&& tab is Lighting ==> (tabs_of(record).contains(tab) <==> lighting)
            &&& tab is Device ==> tabs_of(record).contains(tab)
            &&& tabs_of(record)[0] is Buttons <==> buttons && (mouse || record.asset is Some)
            &&& tabs_of(record)[0] is Pointer <==> pointer && !(buttons && (mouse || record.asset
                is Some))
            &&& tabs_of(record)[0] is Device <==> !pointer && !lighting && !(buttons && (mouse
                || record.asset is Some))
        }),
{
    law_every_device_has_its_info(record);
    assert(tabs_of(record).contains(tab) <==> has_tab(record, tab));
}

/// The tabs stand in their order: buttons, pointer, lighting, device.
pub proof fn law_tabs_stand_in_order(record: DeviceRecord, i: int, j: int)
    requires
        0 <= i < j < tabs_of(record).len(),
    ensures
        !(tabs_of(record)[i] is Device),
        !(tabs_of(record)[j] is Buttons),
        tabs_of(record)[i] is Lighting ==> tabs_of(record)[j] is Device,
        tabs_of(record)[i] is Pointer ==> tabs_of(record)[j] is Lighting || tabs_of(record)[j]
            is Device,
{
}

/// What the tabs are called.
pub proof fn law_tabs_are_named(tab: DetailTab)
    ensures
        tab is Buttons ==> tab_label(tab) == "Buttons"@,
        tab is Pointer ==> tab_label(tab) == "Pointer"@,
        tab is Lighting ==> tab_label(tab) == "Lighting"@,
        tab is Device ==> tab_label(tab) == "Device"@,
{
}

/// Which permission is asked for: Accessibility first, and Input Monitoring once that is
/// granted. Only the first can be dismissed, and nothing is asked for beyond them.
pub proof fn law_permissions_are_asked_in_order(
    status: AgentStatus,
    granted: bool,
    monitoring: PermissionStatus,
)
    ensures
        !granted ==> missing_permission(granted, monitoring) == Some(PermissionGate::Accessibility),
        granted && !(monitoring is Granted) ==> missing_permission(granted, monitoring) == Some(
            PermissionGate::InputMonitoring,
        ),
        granted && monitoring is Granted ==> missing_permission(granted, monitoring) is None,
        !status.accessibility_granted ==> shown_gate(status, true) is None && shown_gate(
            status,
            false,
        ) == Some(PermissionGate::Accessibility),
        status.accessibility_granted && !(status.input_monitoring is Granted) ==> shown_gate(
            status,
            true,
        ) == Some(PermissionGate::InputMonitoring) && shown_gate(status, false) == Some(
            PermissionGate::InputMonitoring,
        ),
        status.accessibility_granted && status.input_monitoring is Granted ==> shown_gate(
            status,
            true,
        ) is None && shown_gate(status, false) is None,
{
}

/// Which icon stands for a connection: that of the receiver; for a direct one the cable
/// where the device has a cable or a dongle and no Bluetooth, and Bluetooth otherwise.
pub proof fn law_icon_follows_the_connection(
    route: DeviceRoute,
    transports: DeviceTransports,
    given: Option<DeviceTransports>,
)
    ensures
        route is Bolt ==> link_icon(Some(route), given) == "action-icons/bolt.svg"@,
        route is Unifying ==> link_icon(Some(route), given) == "action-icons/unifying.svg"@,
        route is Direct ==> link_icon(Some(route), None) == "action-icons/bluetooth.svg"@,
        route is Direct && (transports.btle || transports.bluetooth) ==> link_icon(
            Some(route),
            Some(transports),
        ) == "action-icons/bluetooth.svg"@,
        route is Direct && !transports.btle && !transports.bluetooth && (transports.usb
            || transports.equad) ==> link_icon(Some(route), Some(transports))
            == "action-icons/usb.svg"@,
        route is Direct && !transports.usb && !transports.equad ==> link_icon(
            Some(route),
            Some(transports),
        ) == "action-icons/bluetooth.svg"@,
        link_icon(None, given) == "action-icons/bluetooth.svg"@,
{
}

/// What is on the screen: without the agent its state; with it the missing permission;
/// then the device that is open, while it is the current one; and otherwise the home
/// screen, to which the view then returns.
pub proof fn law_screen_follows_the_state(view: ViewModel, state: AppModel, status: AgentStatus)
    ensures
        state.link is Connecting <==> view.screen(state) is Connecting,
        state.link is Unreachable <==> view.screen(state) is Unreachable,
        state.link is OutdatedGui <==> view.screen(state) is OutdatedGui,
        state.link == AgentLink::Ready(status) ==> {
            let gate = if !status.accessibility_granted {
                if view.dismissed {
                    None
                } else {
                    Some(PermissionGate::Accessibility)
                }
            } else if !(status.input_monitoring is Granted) {
                Some(PermissionGate::InputMonitoring)
            } else {
                None
            };
            let open = view.device is Some && state.current_key() == view.device;
            &&& gate is Some ==> view.screen(state) == ScreenModel::Gate(gate->0)
            &&& gate is None && open ==> view.screen(state) is Device
            &&& gate is None && !open ==> view.screen(state) is Home
        },
        view.screen(state) is Home ==> view.drawn(state).device is None,
        !(view.screen(state) is Home) ==> view.drawn(state).device == view.device,
        view.drawn(state).dismissed == view.dismissed,
        view.drawn(state).tab == view.tab,
{
}

/// An open device shows its own tabs, with the chosen one active while it has it, and the
/// first otherwise.
pub proof fn law_open_device_shows_its_tabs(view: ViewModel, state: AppModel)
    requires
        view.screen(state) is Device,
    ensures
        view.screen(state) matches ScreenModel::Device { tabs, active } && tabs == tabs_of(
            state.record()->0,
        ) && (tabs.contains(view.tab) ==> active == view.tab) && (!tabs.contains(view.tab)
            ==> active == tabs[0]),
{
}

/// What the home screen shows: the devices where there are any, and otherwise how the
/// search for them stands.
pub proof fn law_home_shows_devices_or_the_search(state: AppModel, status: AgentStatus)
    ensures
        state.devices != Map::<Seq<char>, DeviceRecord>::empty() <==> home_body(state, status)
            is Gallery,
        state.devices == Map::<Seq<char>, DeviceRecord>::empty() ==> {
            &&& status.inventory is Scanning <==> home_body(state, status) is Scanning
            &&& status.inventory is Unavailable <==> home_body(state, status) is Unavailable
            &&& status.inventory is Ready <==> home_body(state, status) is Empty
        },
{
}

/// Which screens name no device.
pub proof fn law_neutral_screens(screen: ScreenModel)
    ensures
        screen.is_neutral() <==> !(screen is Home || screen is Device),
{
}

/// Opening a device selects it; what was selected already stays as it is, and nothing is
/// saved.
pub proof fn law_opened_device_is_selected(
    before: AppModel,
    after: AppModel,
    effects: Seq<UiEffect>,
    key: Seq<char>,
)
    requires
        is_opened(before, after, effects, key),
        forall|i: int, j: int| 0 <= i < j < before.order.len() ==> before.order[i] != before.order[j],
    ensures
        after.current_key() == Some(key),
        before.current_key() == Some(key) ==> after == before && effects.len() == 0,
        before.current_key() != Some(key) && after.stored_key() is Some ==> effects == seq![
            UiEffect::SaveAndReload,
        ],
        effects.len() <= 1,
{
}

} // verus!
