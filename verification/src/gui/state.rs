//! Application-wide UI state.
//!
//! Anything that more than one view needs to read lives in [`AppState`]. Its
//! operations are pure: what has to reach the disk or the agent is returned as a
//! list of [`UiEffect`]s, in the order in which they are to happen.

use crate::binding::{default_binding_for, Action, Binding, ButtonId, GestureDirection};
use crate::bindings::{bindings_for, click_projection, effective};
use crate::button_map::{lemma_same_slots, ButtonMap};
use crate::config::{
    AppSettings, Appearance, AssetSourcePreference, Config, ConfigModel, DeviceIdentity,
    DeviceModel, Lighting, ScrollResolution, SmartShift, MAX_THUMBWHEEL_SENSITIVITY,
    MIN_THUMBWHEEL_SENSITIVITY,
};
use crate::device::{
    clone_opt_route, clone_opt_text, opt_route, opt_route_eq, opt_text, opt_text_eq, same_text,
    Capabilities, DeviceInventory, DeviceModelInfo, DeviceRoute,
};
use crate::gui::gesture_presets::{
    apply_binding_to_scope, binding_for_gesture_direction_selection,
    binding_for_gesture_selection, binding_for_pan_click_selection, direction_edit, scoped,
    selection, with_pan_click, GesturePreset,
};
use crate::hid::{
    stored_mode, DpiCapabilities, DpiInfo, SmartShiftMode, SmartShiftStatus, WriteError,
};
use crate::ipc::{AgentStatus, MonitorEvent};
use crate::text;
use crate::text_map::TextMap;
use vstd::prelude::*;

pub mod devices;
pub mod load;

pub use devices::{DeviceList, DeviceRecord};
use devices::{
    build_device_list, clone_opt_model, is_device_list, is_transient, merge_result,
    merge_snapshot, ordered_keys, pick_initial_device, transient_key,
};
pub use load::{LazyDeviceData, LazyModel, Load, LoadModel};

verus! {

/// Pointer resolution shown until a device's own is known.
pub const DEFAULT_DPI: u32 = 1600;

/// How many live-monitor events are kept.
pub const MONITOR_HISTORY: usize = 200;

/// Result of confirming a SmartShift write by reading the value back.
#[derive(Clone, Copy, Debug, PartialEq, Eq, Structural)]
pub enum SmartShiftWriteStatus {
    /// The optimistic value is visible while the confirming read runs.
    Applying {
        /// Value written optimistically.
        expected: SmartShiftStatus,
        /// Identity used to reject replies from older writes.
        write_id: u64,
    },
    /// The device returned the value that was written.
    Confirmed,
    /// The confirming read failed, closed, or returned a different value.
    Failed,
}

/// What the window knows of the agent: its latest status, or why there is none.
#[derive(Debug)]
pub enum AgentLink {
    /// No snapshot yet.
    Connecting,
    /// Still no snapshot well past startup.
    Unreachable,
    /// The agent speaks a newer protocol than this process.
    OutdatedGui,
    /// Connected: the agent's latest status.
    Ready(AgentStatus),
}

impl AgentLink {
    /// The same link, texts counting by their characters.
    pub open spec fn same_as(self, other: AgentLink) -> bool {
        match (self, other) {
            (AgentLink::Connecting, AgentLink::Connecting) => true,
            (AgentLink::Unreachable, AgentLink::Unreachable) => true,
            (AgentLink::OutdatedGui, AgentLink::OutdatedGui) => true,
            (AgentLink::Ready(a), AgentLink::Ready(b)) => a.same_as(b),
            _ => false,
        }
    }
}

impl PartialEq for AgentLink {
    fn eq(&self, other: &Self) -> (same: bool) {
        match (self, other) {
            (AgentLink::Connecting, AgentLink::Connecting) => true,
            (AgentLink::Unreachable, AgentLink::Unreachable) => true,
            (AgentLink::OutdatedGui, AgentLink::OutdatedGui) => true,
            (AgentLink::Ready(a), AgentLink::Ready(b)) => *a == *b,
            _ => false,
        }
    }
}

impl Eq for AgentLink {

}

impl vstd::std_specs::cmp::PartialEqSpecImpl for AgentLink {
    open spec fn obeys_eq_spec() -> bool {
        true
    }

    open spec fn eq_spec(&self, other: &Self) -> bool {
        self.same_as(*other)
    }
}

/// A request to the agent.
#[derive(Debug)]
pub enum Command {
    /// Read the configuration file again.
    ReloadConfig,
    /// Show the Accessibility prompt.
    RequestAccessibilityPrompt,
    /// Set the pointer resolution.
    SetDpi(DeviceRoute, u32),
    /// Set the wheel configuration.
    SetSmartShift(DeviceRoute, SmartShiftMode, u8, u8),
    /// Set the lighting.
    SetLighting(DeviceRoute, Lighting),
}

/// Something that has to happen outside the state.
#[derive(Debug)]
pub enum UiEffect {
    /// Write the configuration file.
    Save,
    /// Write the configuration file and, if that succeeds, have the agent reload
    /// it.
    SaveAndReload,
    /// Send a request to the agent.
    Send(Command),
    /// Switch the interface to the stored language and repaint.
    SwitchLanguage,
}

/// What follows a save that the agent is to learn of: on a failed write the file
/// still holds the previous configuration, so a reload would hand the agent stale
/// values.
#[must_use]
pub fn reload_after_save(saved: bool) -> (command: Option<Command>)
    ensures
        command == if saved {
            Some(Command::ReloadConfig)
        } else {
            None
        },
{
    if saved {
        Some(Command::ReloadConfig)
    } else {
        None
    }
}

/// Application-wide UI state.
#[derive(Debug)]
pub struct AppState {
    /// Position in [`Self::device_list`] of the visible device.
    pub current_device: usize,
    /// Identifier of the application in front.
    pub current_app_bundle: Option<String>,
    /// The hotspot that was clicked last.
    pub active_button: Option<ButtonId>,
    /// What is known of the agent.
    pub agent_link: AgentLink,
    /// Single actions of the selected device's buttons.
    pub button_bindings: ButtonMap<Action>,
    /// Gesture and Pan bindings of the selected device's buttons.
    pub gesture_bindings: ButtonMap<Binding>,
    /// Pointer resolution of the selected device.
    pub dpi: u32,
    /// Pointer resolutions, by device key.
    pub dpi_data: LazyDeviceData<DpiInfo>,
    /// Consecutive snapshots that missed a device, by device key.
    pub inventory_misses: TextMap<u8>,
    /// Wheel configurations, by device key.
    pub smartshift_data: LazyDeviceData<SmartShiftStatus>,
    /// Writes that still need a confirming read, by device key.
    pub smartshift_pending_confirm: TextMap<u64>,
    /// Identity of the next confirmable write.
    pub next_smartshift_write_id: u64,
    /// Outcome of the last write, by device key.
    pub smartshift_write_status: TextMap<SmartShiftWriteStatus>,
    /// The device cards.
    pub device_list: DeviceList,
    /// The configuration.
    pub config: Config,
    /// The last completed inventory.
    pub last_inventory: Vec<DeviceInventory>,
    /// Recent live-monitor events, oldest first.
    pub monitor_events: Vec<MonitorEvent>,
}

/// The content of an [`AppState`].
#[verifier::ext_equal]
pub struct AppModel {
    /// Position of the visible device.
    pub current: int,
    /// Identifier of the application in front.
    pub app: Option<Seq<char>>,
    /// The hotspot that was clicked last.
    pub active_button: Option<ButtonId>,
    /// What is known of the agent.
    pub link: AgentLink,
    /// Single actions of the selected device's buttons.
    pub button_bindings: ButtonMap<Action>,
    /// Gesture and Pan bindings of the selected device's buttons.
    pub gesture_bindings: ButtonMap<Binding>,
    /// Pointer resolution of the selected device.
    pub dpi: u32,
    /// Pointer resolutions.
    pub dpi_data: LazyModel<DpiInfo>,
    /// Consecutive snapshots that missed a device.
    pub misses: Map<Seq<char>, u8>,
    /// Wheel configurations.
    pub smartshift_data: LazyModel<SmartShiftStatus>,
    /// Writes that still need a confirming read.
    pub pending: Map<Seq<char>, u64>,
    /// Identity of the next confirmable write.
    pub next_write: u64,
    /// Outcome of the last write.
    pub write_status: Map<Seq<char>, SmartShiftWriteStatus>,
    /// The device cards.
    pub devices: Map<Seq<char>, DeviceRecord>,
    /// The keys of the device cards, in order.
    pub order: Seq<Seq<char>>,
    /// The configuration.
    pub config: ConfigModel,
    /// The last completed inventory.
    pub last_inventory: Seq<DeviceInventory>,
    /// Recent live-monitor events.
    pub monitor_events: Seq<MonitorEvent>,
}

impl View for AppState {
    type V = AppModel;

    open spec fn view(&self) -> AppModel {
        AppModel {
            current: self.current_device as int,
            app: opt_text(self.current_app_bundle),
            active_button: self.active_button,
            link: self.agent_link,
            button_bindings: self.button_bindings,
            gesture_bindings: self.gesture_bindings,
            dpi: self.dpi,
            dpi_data: self.dpi_data@,
            misses: self.inventory_misses@,
            smartshift_data: self.smartshift_data@,
            pending: self.smartshift_pending_confirm@,
            next_write: self.next_smartshift_write_id,
            write_status: self.smartshift_write_status@,
            devices: self.device_list@,
            order: self.device_list.keys(),
            config: self.config@,
            last_inventory: self.last_inventory@,
            monitor_events: self.monitor_events@,
        }
    }
}

/// The single action of every button.
pub open spec fn click_map(stored: ButtonMap<Binding>) -> ButtonMap<Action> {
    ButtonMap {
        left_click: Some(click_projection(stored.left_click, ButtonId::LeftClick)),
        right_click: Some(click_projection(stored.right_click, ButtonId::RightClick)),
        middle_click: Some(click_projection(stored.middle_click, ButtonId::MiddleClick)),
        back: Some(click_projection(stored.back, ButtonId::Back)),
        forward: Some(click_projection(stored.forward, ButtonId::Forward)),
        dpi_toggle: Some(click_projection(stored.dpi_toggle, ButtonId::DpiToggle)),
        thumbwheel: Some(click_projection(stored.thumbwheel, ButtonId::Thumbwheel)),
        thumbwheel_scroll_up: Some(
            click_projection(stored.thumbwheel_scroll_up, ButtonId::ThumbwheelScrollUp),
        ),
        thumbwheel_scroll_down: Some(
            click_projection(stored.thumbwheel_scroll_down, ButtonId::ThumbwheelScrollDown),
        ),
        gesture_button: Some(click_projection(stored.gesture_button, ButtonId::GestureButton)),
    }
}

/// A slot's binding, unless it is a single action.
pub open spec fn gesture_slot(slot: Option<Binding>) -> Option<Binding> {
    match slot {
        Some(Binding::Single(_)) => None,
        other => other,
    }
}

/// The gesture and Pan bindings.
pub open spec fn gesture_map(stored: ButtonMap<Binding>) -> ButtonMap<Binding> {
    ButtonMap {
        left_click: gesture_slot(stored.left_click),
        right_click: gesture_slot(stored.right_click),
        middle_click: gesture_slot(stored.middle_click),
        back: gesture_slot(stored.back),
        forward: gesture_slot(stored.forward),
        dpi_toggle: gesture_slot(stored.dpi_toggle),
        thumbwheel: gesture_slot(stored.thumbwheel),
        thumbwheel_scroll_up: gesture_slot(stored.thumbwheel_scroll_up),
        thumbwheel_scroll_down: gesture_slot(stored.thumbwheel_scroll_down),
        gesture_button: gesture_slot(stored.gesture_button),
    }
}

impl AppModel {
    /// The selected device.
    pub open spec fn record(self) -> Option<DeviceRecord> {
        if 0 <= self.current < self.order.len() {
            Some(self.devices[self.order[self.current]])
        } else {
            None
        }
    }

    /// The key of the selected device.
    pub open spec fn current_key(self) -> Option<Seq<char>> {
        if 0 <= self.current < self.order.len() {
            Some(self.order[self.current])
        } else {
            None
        }
    }

    /// The key under which the selected device's settings are stored.
    pub open spec fn stored_key(self) -> Option<Seq<char>> {
        match self.record() {
            Some(record) => record.stored_key(),
            None => None,
        }
    }

    /// The stored settings of the selected device.
    pub open spec fn stored_device(self) -> DeviceModel {
        match self.stored_key() {
            Some(key) => self.config.device(key),
            None => DeviceModel::fresh(),
        }
    }

    /// The selected device's resolution as far as it is known.
    pub open spec fn known_dpi(self) -> u32 {
        match self.current_key() {
            Some(key) => match self.dpi_data.state(key) {
                LoadModel::Ready(info) => info.current as u32,
                _ => DEFAULT_DPI,
            },
            None => DEFAULT_DPI,
        }
    }

    /// The bindings in effect on the selected device.
    pub open spec fn effective(self) -> ButtonMap<Binding> {
        effective(self.config, self.stored_key(), self.app)
    }

    /// With the shown bindings taken from the configuration.
    pub open spec fn with_bindings(self) -> AppModel {
        AppModel {
            button_bindings: click_map(self.effective()),
            gesture_bindings: gesture_map(self.effective()),
            ..self
        }
    }

    /// With everything shown of the selected device taken from what is known.
    pub open spec fn with_display(self) -> AppModel {
        AppModel { dpi: self.known_dpi(), ..self }.with_bindings()
    }

    /// With the stored settings of the selected device replaced.
    pub open spec fn with_stored_device(self, device: DeviceModel) -> AppModel {
        match self.stored_key() {
            Some(key) => AppModel { config: self.config.with_device(key, device), ..self },
            None => self,
        }
    }

    /// With the preferences replaced.
    pub open spec fn with_settings(self, settings: AppSettings) -> AppModel {
        AppModel { config: ConfigModel { app_settings: settings, ..self.config }, ..self }
    }

    /// The complete binding of a button on the selected device.
    pub open spec fn complete_binding(self, button: ButtonId) -> Option<Binding> {
        if self.stored_key() is Some {
            Some(
                match self.effective().slot(button) {
                    Some(binding) => binding,
                    None => crate::binding::default_for(button),
                },
            )
        } else {
            None
        }
    }
}

/// An effect, where something is to be stored for the selected device.
pub open spec fn saved_if(stored: bool) -> Seq<UiEffect> {
    if stored {
        seq![UiEffect::SaveAndReload]
    } else {
        Seq::empty()
    }
}

/// The effects of an optional one.
fn effects_of(effect: Option<UiEffect>) -> (effects: Vec<UiEffect>)
    ensures
        effects@ == match effect {
            Some(effect) => seq![effect],
            None => Seq::<UiEffect>::empty(),
        },
{
    let mut effects: Vec<UiEffect> = Vec::new();
    if let Some(effect) = effect {
        effects.push(effect);
    }
    effects
}

/// A device is fully probed at the moment, so its identity can be recorded.
pub open spec fn is_recordable(record: DeviceRecord) -> bool {
    record.online && record.persistent && record.capabilities is Some
}

/// An identity describes a device.
pub open spec fn describes(identity: DeviceIdentity, record: DeviceRecord) -> bool {
    &&& identity.display_name@ == record.display_name@
    &&& identity.kind == record.kind
    &&& record.capabilities == Some(identity.capabilities)
    &&& same_text(identity.codename, record.codename)
    &&& match (identity.model_info, record.model_info) {
        (None, None) => true,
        (Some(known), Some(model)) => {
            &&& known.entity_count == model.entity_count
            &&& known.serial_number is None
            &&& known.unit_id@ =~= seq![0u8, 0u8, 0u8, 0u8]
            &&& known.transports == model.transports
            &&& known.model_ids@ =~= model.model_ids@
            &&& known.extended_model_id == model.extended_model_id
        },
        _ => false,
    }
}

/// The recorded identity of a device has to be renewed.
pub open spec fn is_news(
    config: ConfigModel,
    cards: Map<Seq<char>, DeviceRecord>,
    key: Seq<char>,
) -> bool {
    &&& cards.contains_key(key)
    &&& is_recordable(cards[key])
    &&& !(config.device(key).identity matches Some(identity) && describes(identity, cards[key]))
}

/// The configuration after the identities of all fully probed devices have been
/// recorded.
pub open spec fn identities_recorded(
    before: ConfigModel,
    after: ConfigModel,
    cards: Map<Seq<char>, DeviceRecord>,
) -> bool {
    &&& after == (ConfigModel { devices: after.devices, ..before })
    &&& forall|key: Seq<char>| #[trigger]
        after.devices.contains_key(key) <==> before.devices.contains_key(key) || is_news(
            before,
            cards,
            key,
        )
    &&& forall|key: Seq<char>| #[trigger]
        after.devices.contains_key(key) ==> if is_news(before, cards, key) {
            &&& after.devices[key] == (DeviceModel {
                identity: after.devices[key].identity,
                ..before.device(key)
            })
            &&& after.devices[key].identity matches Some(identity)
            &&& describes(identity, cards[key])
        } else {
            after.devices[key] == before.devices[key]
        }
}

/// Only the first `n` cards have been looked at.
spec fn first_cards(
    cards: Map<Seq<char>, DeviceRecord>,
    keys: Seq<Seq<char>>,
    n: int,
) -> Map<Seq<char>, DeviceRecord> {
    cards.restrict(keys.take(n).to_set())
}

/// Record the identity of every fully probed device. Only online devices with
/// measured capabilities are recorded, so a placeholder never persists empty
/// panels. Returns whether anything changed.
pub fn record_identities(config: &mut Config, list: &DeviceList) -> (changed: bool)
    ensures
        identities_recorded(old(config)@, final(config)@, list@),
        changed == exists|key: Seq<char>| is_news(old(config)@, list@, key),
{
    let ghost before = config@;
    let ghost keys = list.keys();
    let mut changed = false;
    let count = list.len();
    let mut n: usize = 0;
    assert(identities_recorded(before, config@, first_cards(list@, keys, 0)));
    while n < count
        invariant
            count == keys.len(),
            keys == list.keys(),
            ordered_keys(keys, list@),
            n <= count,
            identities_recorded(before, config@, first_cards(list@, keys, n as int)),
            changed == exists|key: Seq<char>|
                is_news(before, first_cards(list@, keys, n as int), key),
        decreases count - n,
    {
        let ghost earlier = first_cards(list@, keys, n as int);
        let ghost later = first_cards(list@, keys, n + 1);
        let ghost here = keys[n as int];
        let ghost middle = config@;
        let ghost had_changed = changed;
        proof {
            assert(keys.take(n + 1) =~= keys.take(n as int).push(here));
            if earlier.contains_key(here) {
                let k = choose|k: int| 0 <= k < n && keys.take(n as int)[k] == here;
                assert(keys[k] == here);
                assert(text::text_less(keys[k], keys[n as int]));
                text::lemma_text_order(here, here);
            }
            assert(list@.contains_key(here)) by {
                assert(keys.contains(here));
            }
            assert forall|key: Seq<char>| #[trigger] later.contains_key(key) <==> earlier.contains_key(
                key,
            ) || key == here by {
                if later.contains_key(key) {
                    let next = keys.take(n + 1);
                    let k = choose|k: int| 0 <= k < n + 1 && next[k] == key;
                    if k < n {
                        assert(keys.take(n as int)[k] == key);
                        assert(keys.take(n as int).contains(key));
                    }
                }
                if earlier.contains_key(key) {
                    let k = choose|k: int| 0 <= k < n && keys.take(n as int)[k] == key;
                    assert(keys.take(n + 1)[k] == key);
                    assert(keys.take(n + 1).contains(key));
                }
                assert(keys.take(n + 1)[n as int] == here);
                assert(keys.take(n + 1).contains(here));
            }
            assert(!is_news(before, earlier, here));
            assert(middle.device(here) == before.device(here));
        }
        if let Some(record) = list.get(n) {
            if record.online && record.persistent {
                if let Some(capabilities) = record.capabilities {
                    let identity = DeviceIdentity {
                        display_name: record.display_name.clone(),
                        kind: record.kind,
                        capabilities,
                        model_info: match &record.model_info {
                            Some(model) => Some(model.anonymized()),
                            None => None,
                        },
                        codename: clone_opt_text(&record.codename),
                    };
                    assert(describes(identity, *record));
                    let key = record.config_key.as_str();
                    let known = match config.device_identity(key) {
                        Some(stored) => *stored == identity,
                        None => false,
                    };
                    assert(known == !is_news(before, later, here));
                    if !known {
                        config.set_device_identity(key, identity);
                        changed = true;
                    }
                }
            }
        }
        proof {
            assert forall|key: Seq<char>| key != here implies is_news(before, later, key)
                == is_news(before, earlier, key) by {}
            if is_news(before, later, here) {
                assert(changed);
            } else {
                assert(config@ == middle);
            }
            assert forall|key: Seq<char>| #[trigger]
                config@.devices.contains_key(key) <==> before.devices.contains_key(key) || is_news(
                    before,
                    later,
                    key,
                ) by {
                assert(middle.devices.contains_key(key) <==> before.devices.contains_key(key)
                    || is_news(before, earlier, key));
            }
            assert forall|key: Seq<char>| #[trigger] config@.devices.contains_key(key) implies (
            if is_news(before, later, key) {
                &&& config@.devices[key] == (DeviceModel {
                    identity: config@.devices[key].identity,
                    ..before.device(key)
                })
                &&& config@.devices[key].identity matches Some(identity)
                &&& describes(identity, later[key])
            } else {
                config@.devices[key] == before.devices[key]
            }) by {
                if key != here {
                    assert(middle.devices.contains_key(key));
                }
            }
            if exists|key: Seq<char>| is_news(before, later, key) {
                let key = choose|key: Seq<char>| is_news(before, later, key);
                if key != here {
                    assert(is_news(before, earlier, key));
                }
            }
            if had_changed {
                let key = choose|key: Seq<char>| is_news(before, earlier, key);
                assert(is_news(before, later, key));
            }
        }
        n += 1;
    }
    proof {
        assert(keys.take(n as int) =~= keys);
        assert(first_cards(list@, keys, n as int) =~= list@);
    }
    changed
}

/// Recording the same devices again changes nothing.
pub proof fn law_recording_is_idempotent(
    before: ConfigModel,
    after: ConfigModel,
    cards: Map<Seq<char>, DeviceRecord>,
    key: Seq<char>,
)
    requires
        identities_recorded(before, after, cards),
    ensures
        !is_news(after, cards, key),
{
    assert(after.devices.contains_key(key) <==> before.devices.contains_key(key) || is_news(
        before,
        cards,
        key,
    ));
}

/// A half-read probe, an offline device or one whose capabilities have not been
/// measured is never recorded.
pub proof fn law_only_probed_devices_are_recorded(
    before: ConfigModel,
    after: ConfigModel,
    cards: Map<Seq<char>, DeviceRecord>,
    key: Seq<char>,
)
    requires
        identities_recorded(before, after, cards),
        cards.contains_key(key) ==> !is_recordable(cards[key]),
    ensures
        after.device(key) == before.device(key),
{
    assert(after.devices.contains_key(key) <==> before.devices.contains_key(key) || is_news(
        before,
        cards,
        key,
    ));
}

/// Two cards show the same device in the same state.
pub open spec fn same_card(a: DeviceRecord, b: DeviceRecord) -> bool {
    opt_route(a.route) == opt_route(b.route) && a.online == b.online && a.capabilities
        == b.capabilities
}

/// Every card of one list is in the other, in the same state.
pub open spec fn cards_within(
    a: Map<Seq<char>, DeviceRecord>,
    b: Map<Seq<char>, DeviceRecord>,
) -> bool {
    forall|key: Seq<char>| #[trigger]
        a.contains_key(key) ==> b.contains_key(key) && same_card(a[key], b[key])
}

/// Two lists have the same cards in the same state.
pub open spec fn same_cards(
    a: Map<Seq<char>, DeviceRecord>,
    b: Map<Seq<char>, DeviceRecord>,
) -> bool {
    cards_within(a, b) && cards_within(b, a)
}

/// The devices that are shown and have not come back on another route.
pub open spec fn settled(
    before: Map<Seq<char>, DeviceRecord>,
    after: Map<Seq<char>, DeviceRecord>,
) -> Set<Seq<char>> {
    Set::new(
        |key: Seq<char>|
            after.contains_key(key) && !(before.contains_key(key) && opt_route(before[key].route)
                != opt_route(after[key].route)),
    )
}

/// Whether every card of one list is in the other, in the same state.
fn is_within(a: &DeviceList, b: &DeviceList) -> (within: bool)
    ensures
        within == cards_within(a@, b@),
{
    let count = a.len();
    let mut n: usize = 0;
    while n < count
        invariant
            count == a.keys().len(),
            n <= count,
            forall|k: int|
                0 <= k < n ==> b@.contains_key(#[trigger] a.keys()[k]) && same_card(
                    a@[a.keys()[k]],
                    b@[a.keys()[k]],
                ),
        decreases count - n,
    {
        if let Some(card) = a.get(n) {
            let same = match b.find(card.config_key.as_str()) {
                Some(other) => opt_route_eq(&card.route, &other.route) && card.online
                    == other.online && card.capabilities == other.capabilities,
                None => false,
            };
            if !same {
                return false;
            }
        }
        n += 1;
    }
    proof {
        assert forall|key: Seq<char>| #[trigger] a@.contains_key(key) implies b@.contains_key(key)
            && same_card(a@[key], b@[key]) by {
            assert(a.keys().contains(key));
        }
    }
    true
}

/// The devices that are shown and have not come back on another route.
fn settled_keys(before: &DeviceList, after: &DeviceList) -> (keys: TextMap<()>)
    ensures
        keys@.dom() == settled(before@, after@),
{
    let mut keys: TextMap<()> = TextMap::new();
    let count = after.len();
    let mut n: usize = 0;
    while n < count
        invariant
            count == after.keys().len(),
            ordered_keys(after.keys(), after@),
            n <= count,
            forall|key: Seq<char>| #[trigger]
                keys@.contains_key(key) ==> settled(before@, after@).contains(key),
            forall|k: int|
                0 <= k < n && settled(before@, after@).contains(#[trigger] after.keys()[k])
                    ==> keys@.contains_key(after.keys()[k]),
        decreases count - n,
    {
        if let Some(card) = after.get(n) {
            let moved = match before.find(card.config_key.as_str()) {
                Some(old_card) => !opt_route_eq(&old_card.route, &card.route),
                None => false,
            };
            if !moved {
                keys.insert(card.config_key.as_str(), ());
            }
        }
        n += 1;
    }
    proof {
        assert forall|key: Seq<char>| settled(before@, after@).contains(key) implies keys@.contains_key(
        key) by {
            assert(after.keys().contains(key));
            let k = choose|k: int| 0 <= k < after.keys().len() && after.keys()[k] == key;
            assert(settled(before@, after@).contains(after.keys()[k]));
        }
        assert(keys@.dom() =~= settled(before@, after@));
    }
    keys
}

/// Where the selection goes: to the device that was selected, or to the first.
pub open spec fn selects(order: Seq<Seq<char>>, current: int, key: Option<Seq<char>>) -> bool {
    match key {
        Some(key) => if order.contains(key) {
            0 <= current < order.len() && order[current] == key
        } else {
            current == 0
        },
        None => current == 0,
    }
}

impl AppModel {
    /// With a merged list of cards.
    pub open spec fn with_cards(
        self,
        cards: Map<Seq<char>, DeviceRecord>,
        order: Seq<Seq<char>>,
        current: int,
    ) -> AppModel {
        let keys = settled(self.devices, cards);
        AppModel {
            devices: cards,
            order,
            current,
            dpi_data: self.dpi_data.restricted(keys),
            smartshift_data: self.smartshift_data.restricted(keys),
            pending: self.pending.restrict(keys),
            write_status: self.write_status.restrict(keys),
            ..self
        }.with_display()
    }
}

/// What came of an inventory.
#[derive(Clone, Copy, Debug, PartialEq, Eq, Structural)]
pub struct Refresh {
    /// The shown cards changed, so the windows are to be repainted.
    pub changed: bool,
    /// An identity was recorded, so the configuration is to be written.
    pub save: bool,
}

/// The state after a snapshot of the cards.
pub open spec fn is_snapshot_applied(
    before: AppModel,
    after: AppModel,
    snapshot: Map<Seq<char>, DeviceRecord>,
    keys: Seq<Seq<char>>,
    force: bool,
    refresh: Refresh,
) -> bool {
    let (cards, misses) = merge_result(before.devices, before.misses, snapshot, keys);
    let noted = AppModel { misses, config: after.config, ..before };
    &&& identities_recorded(before.config, after.config, cards)
    &&& refresh.save == exists|key: Seq<char>| is_news(before.config, cards, key)
    &&& refresh.changed == (force || !same_cards(cards, before.devices))
    &&& if refresh.changed {
        &&& after == noted.with_cards(cards, after.order, after.current)
        &&& ordered_keys(after.order, cards)
        &&& selects(after.order, after.current, before.current_key())
    } else {
        after == noted
    }
}

impl AppState {
    /// The state at launch: the cards of the inventories, with the saved selection
    /// where it still exists. Returns whether an identity was recorded, so that the
    /// configuration is to be written.
    #[must_use]
    pub fn with_runtime(
        config: Config,
        inventories: &Vec<DeviceInventory>,
        assets: &TextMap<String>,
    ) -> (result: (AppState, bool))
        ensures
            ({
                let (state, save) = result;
                let after = state@;
                &&& is_device_list(after.devices, inventories@, config@, assets@)
                &&& ordered_keys(after.order, after.devices)
                &&& selects(after.order, after.current, opt_text(config@.selected_device))
                &&& identities_recorded(config@, after.config, after.devices)
                &&& save == exists|key: Seq<char>| is_news(config@, after.devices, key)
                &&& after == (AppModel {
                    current: after.current,
                    app: None,
                    active_button: None,
                    link: AgentLink::Connecting,
                    button_bindings: ButtonMap::empty(),
                    gesture_bindings: ButtonMap::empty(),
                    dpi: DEFAULT_DPI,
                    dpi_data: LazyModel::fresh(),
                    misses: Map::empty(),
                    smartshift_data: LazyModel::fresh(),
                    pending: Map::empty(),
                    next_write: 0,
                    write_status: Map::empty(),
                    devices: after.devices,
                    order: after.order,
                    config: after.config,
                    last_inventory: Seq::empty(),
                    monitor_events: Seq::empty(),
                }).with_bindings()
            }),
    {
        let device_list = build_device_list(inventories, assets, &config);
        let mut config = config;
        let save = record_identities(&mut config, &device_list);
        let current_device = pick_initial_device(&device_list, config.selected_device());
        let _ = device_list.len();
        proof {
            if let Some(key) = opt_text(config@.selected_device) {
                if device_list.keys().contains(key) {
                    assert(device_list@.contains_key(key));
                }
            }
        }
        let mut state = AppState {
            current_device,
            current_app_bundle: None,
            active_button: None,
            agent_link: AgentLink::Connecting,
            button_bindings: ButtonMap::new(),
            gesture_bindings: ButtonMap::new(),
            dpi: DEFAULT_DPI,
            dpi_data: LazyDeviceData::new(),
            inventory_misses: TextMap::new(),
            smartshift_data: LazyDeviceData::new(),
            smartshift_pending_confirm: TextMap::new(),
            next_smartshift_write_id: 0,
            smartshift_write_status: TextMap::new(),
            device_list,
            config,
            last_inventory: Vec::new(),
            monitor_events: Vec::new(),
        };
        state.refresh_bindings();
        (state, save)
    }

    /// The selected device.
    #[must_use]
    pub fn current_record(&self) -> (record: Option<&DeviceRecord>)
        ensures
            match record {
                Some(record) => self@.record() == Some(*record) && self@.current_key() == Some(
                    record.config_key@,
                ),
                None => self@.record() is None && self@.current_key() is None,
            },
    {
        self.device_list.get(self.current_device)
    }

    /// The key of the selected device.
    fn current_key(&self) -> (key: Option<String>)
        ensures
            opt_text(key) == self@.current_key(),
    {
        match self.current_record() {
            Some(record) => Some(record.config_key.clone()),
            None => None,
        }
    }

    /// The key under which the selected device's settings are stored.
    fn stored_key(&self) -> (key: Option<String>)
        ensures
            opt_text(key) == self@.stored_key(),
    {
        match self.current_record() {
            Some(record) => match record.persistent_config_key() {
                Some(key) => Some(key.to_owned()),
                None => None,
            },
            None => None,
        }
    }

    /// The single actions of the selected device's buttons.
    fn bindings_for_current(&self) -> (bindings: ButtonMap<Action>)
        ensures
            bindings == click_map(self@.effective()),
    {
        let key = self.stored_key();
        let key = match &key {
            Some(key) => Some(key.as_str()),
            None => None,
        };
        let app = match &self.current_app_bundle {
            Some(app) => Some(app.as_str()),
            None => None,
        };
        let bindings = bindings_for(&self.config, key, app);
        proof {
            let shown = click_map(self@.effective());
            assert forall|button: ButtonId| #[trigger] bindings.slot(button) == shown.slot(
                button,
            ) by {}
            lemma_same_slots(bindings, shown);
        }
        bindings
    }

    /// The bindings in effect on the selected device.
    fn effective_for_current(&self) -> (bindings: ButtonMap<Binding>)
        ensures
            bindings == self@.effective(),
    {
        match self.stored_key() {
            Some(key) => match &self.current_app_bundle {
                Some(app) => self.config.effective_bindings(key.as_str(), Some(app.as_str())),
                None => self.config.effective_bindings(key.as_str(), None),
            },
            None => ButtonMap::new(),
        }
    }

    /// The gesture and Pan bindings of the selected device's buttons.
    fn gesture_bindings_for_current(&self) -> (bindings: ButtonMap<Binding>)
        ensures
            bindings == gesture_map(self@.effective()),
    {
        let stored = self.effective_for_current();
        ButtonMap {
            left_click: only_gesture(stored.left_click),
            right_click: only_gesture(stored.right_click),
            middle_click: only_gesture(stored.middle_click),
            back: only_gesture(stored.back),
            forward: only_gesture(stored.forward),
            dpi_toggle: only_gesture(stored.dpi_toggle),
            thumbwheel: only_gesture(stored.thumbwheel),
            thumbwheel_scroll_up: only_gesture(stored.thumbwheel_scroll_up),
            thumbwheel_scroll_down: only_gesture(stored.thumbwheel_scroll_down),
            gesture_button: only_gesture(stored.gesture_button),
        }
    }

    /// Take the shown bindings from the configuration.
    fn refresh_bindings(&mut self)
        ensures
            final(self)@ == old(self)@.with_bindings(),
    {
        let shown = self.bindings_for_current();
        let gestures = self.gesture_bindings_for_current();
        self.button_bindings = shown;
        self.gesture_bindings = gestures;
    }

    /// The selected device's resolution as far as it is known.
    fn dpi_for_current(&self) -> (dpi: u32)
        ensures
            dpi == self@.known_dpi(),
    {
        match self.current_record() {
            Some(record) => match self.dpi_data.get(record.config_key.as_str()) {
                Some(Load::Ready(info)) => info.current as u32,
                _ => DEFAULT_DPI,
            },
            None => DEFAULT_DPI,
        }
    }

    /// Take everything shown of the selected device from what is known.
    fn refresh_display(&mut self)
        ensures
            final(self)@ == old(self)@.with_display(),
    {
        let dpi = self.dpi_for_current();
        self.dpi = dpi;
        self.refresh_bindings();
    }

    /// Fold a snapshot of the cards into the shown ones, counting the misses.
    pub fn merge_inventory_snapshot(&mut self, snapshot: DeviceList) -> (cards: DeviceList)
        ensures
            ({
                let (merged, misses) = merge_result(
                    old(self)@.devices,
                    old(self)@.misses,
                    snapshot@,
                    snapshot.keys(),
                );
                cards@ == merged && final(self)@ == (AppModel { misses, ..old(self)@ })
            }),
    {
        let (cards, misses) = merge_snapshot(
            &self.device_list,
            &self.inventory_misses,
            snapshot,
        );
        self.inventory_misses = misses;
        cards
    }

    /// Show a snapshot of the cards. The selection follows its device, or falls
    /// back to the first card when that is gone; what was read from a device that
    /// is gone or has come back on another route is forgotten. Nothing but the
    /// misses and the recorded identities changes when the cards stay as they are,
    /// unless a rebuild is forced.
    pub fn apply_snapshot(&mut self, snapshot: DeviceList, force: bool) -> (refresh: Refresh)
        ensures
            is_snapshot_applied(
                old(self)@,
                final(self)@,
                snapshot@,
                snapshot.keys(),
                force,
                refresh,
            ),
    {
        let cards = self.merge_inventory_snapshot(snapshot);
        let save = record_identities(&mut self.config, &cards);
        let ghost noted = self@;
        let unchanged = is_within(&cards, &self.device_list) && is_within(
            &self.device_list,
            &cards,
        );
        if unchanged && !force {
            return Refresh { changed: false, save };
        }
        let current = match self.current_key() {
            Some(key) => match cards.position(key.as_str()) {
                Some(at) => at,
                None => 0,
            },
            None => 0,
        };
        let _ = cards.len();
        proof {
            if let Some(key) = noted.current_key() {
                if cards.keys().contains(key) {
                    assert(cards@.contains_key(key));
                }
            }
        }
        let keys = settled_keys(&self.device_list, &cards);
        self.device_list = cards;
        self.dpi_data.retain_present(&keys);
        self.smartshift_data.retain_present(&keys);
        self.smartshift_pending_confirm.retain_keys(&keys);
        self.smartshift_write_status.retain_keys(&keys);
        self.current_device = current;
        self.refresh_display();
        Refresh { changed: true, save }
    }

    /// Show a fresh inventory.
    pub fn refresh_inventories(
        &mut self,
        inventories: &Vec<DeviceInventory>,
        assets: &TextMap<String>,
        force: bool,
    ) -> (refresh: Refresh)
        ensures
            exists|snapshot: Map<Seq<char>, DeviceRecord>, keys: Seq<Seq<char>>|
                {
                    &&& is_device_list(snapshot, inventories@, old(self)@.config, assets@)
                    &&& ordered_keys(keys, snapshot)
                    &&& #[trigger] is_snapshot_applied(
                        old(self)@,
                        final(self)@,
                        snapshot,
                        keys,
                        force,
                        refresh,
                    )
                },
    {
        let snapshot = build_device_list(inventories, assets, &self.config);
        let _ = snapshot.len();
        let ghost cards = snapshot@;
        let ghost keys = snapshot.keys();
        let refresh = self.apply_snapshot(snapshot, force);
        assert(is_snapshot_applied(old(self)@, self@, cards, keys, force, refresh));
        refresh
    }
}

/// A state that is to be read again when its device is selected.
pub open spec fn renewed<T>(data: LazyModel<T>, key: Seq<char>) -> LazyModel<T> {
    if data.state(key) is Failed {
        data.without(key)
    } else {
        data
    }
}

impl AppModel {
    /// With another device selected.
    pub open spec fn with_selection(self, index: int) -> AppModel {
        let key = self.order[index];
        let moved = AppModel {
            current: index,
            dpi_data: renewed(self.dpi_data, key),
            smartshift_data: renewed(self.smartshift_data, key),
            write_status: if self.smartshift_data.state(key) is Failed {
                self.write_status.remove(key)
            } else {
                self.write_status
            },
            ..self
        }.with_display();
        moved
    }
}

/// The selected device is stored by its key.
pub open spec fn is_selection_stored(before: AppModel, after: AppModel) -> bool {
    match before.stored_key() {
        Some(key) => {
            &&& after == (AppModel {
                config: ConfigModel {
                    selected_device: after.config.selected_device,
                    ..before.config
                },
                ..before
            })
            &&& opt_text(after.config.selected_device) == Some(key)
        },
        None => after == before,
    }
}

/// Whether a resolution could not be read for a reason that does not pass.
pub open spec fn is_permanent_dpi_error(error: WriteError) -> bool {
    error is FeatureUnsupported || error is EmptyDpiList
}

/// Whether a pointer-resolution read failed for a reason that does not pass: the
/// device lacks the feature or reports nothing usable.
#[must_use]
pub fn dpi_error_is_permanent(error: &WriteError) -> (permanent: bool)
    ensures
        permanent == is_permanent_dpi_error(*error),
{
    matches!(error, WriteError::FeatureUnsupported { .. } | WriteError::EmptyDpiList)
}

/// Whether a SmartShift read failed for a reason that does not pass: the device
/// lacks the feature.
#[must_use]
pub fn smartshift_error_is_permanent(error: &WriteError) -> (permanent: bool)
    ensures
        permanent == (*error is FeatureUnsupported),
{
    matches!(error, WriteError::FeatureUnsupported { .. })
}

/// What a confirming read says of a write.
pub open spec fn write_outcome(
    expected: SmartShiftStatus,
    load: Option<LoadModel<SmartShiftStatus>>,
) -> Option<SmartShiftWriteStatus> {
    match load {
        Some(LoadModel::Ready(actual)) => Some(
            if actual == expected {
                SmartShiftWriteStatus::Confirmed
            } else {
                SmartShiftWriteStatus::Failed
            },
        ),
        Some(LoadModel::Failed(_)) => Some(SmartShiftWriteStatus::Failed),
        Some(LoadModel::Unsupported(_)) => Some(SmartShiftWriteStatus::Failed),
        _ => None,
    }
}

/// The content of what is recorded for a device.
pub open spec fn opt_load<T>(load: Option<&Load<T>>) -> Option<LoadModel<T>> {
    match load {
        Some(load) => Some(load@),
        None => None,
    }
}

/// What a confirming read says of a write: confirmed where the device has the
/// written value, failed where it has another or cannot be read, and nothing while
/// the read is outstanding.
#[must_use]
pub fn smartshift_write_outcome(
    expected: SmartShiftStatus,
    load: Option<&Load<SmartShiftStatus>>,
) -> (outcome: Option<SmartShiftWriteStatus>)
    ensures
        outcome == write_outcome(expected, opt_load(load)),
{
    match load {
        Some(Load::Ready(actual)) => if *actual == expected {
            Some(SmartShiftWriteStatus::Confirmed)
        } else {
            Some(SmartShiftWriteStatus::Failed)
        },
        Some(Load::Failed(_)) => Some(SmartShiftWriteStatus::Failed),
        Some(Load::Unsupported(_)) => Some(SmartShiftWriteStatus::Failed),
        _ => None,
    }
}

/// A read result belongs to the device's present state: while a write is being
/// confirmed only its own read counts, otherwise only an unprompted one.
pub open spec fn read_is_current(
    read_id: Option<u64>,
    status: Option<SmartShiftWriteStatus>,
) -> bool {
    match status {
        Some(SmartShiftWriteStatus::Applying { write_id, .. }) => read_id == Some(write_id),
        _ => read_id is None,
    }
}

/// Whether a read result belongs to the device's present state.
#[must_use]
pub fn smartshift_read_is_current(
    read_id: Option<u64>,
    write_status: Option<&SmartShiftWriteStatus>,
) -> (current: bool)
    ensures
        current == read_is_current(
            read_id,
            match write_status {
                Some(status) => Some(*status),
                None => None,
            },
        ),
{
    match write_status {
        Some(SmartShiftWriteStatus::Applying { write_id, .. }) => match read_id {
            Some(read_id) => read_id == *write_id,
            None => false,
        },
        _ => read_id.is_none(),
    }
}

/// A device's wheel can be inverted, by itself or by the host.
pub open spec fn can_invert(
    capabilities: Option<Capabilities>,
    persistent: bool,
    macos_fallback: bool,
) -> bool {
    persistent && (capabilities matches Some(c) && (c.scroll_inversion || (macos_fallback
        && c.pointer)))
}

/// Whether a device's wheel can be inverted: natively, or on macOS by the host for
/// any pointer whose settings can be stored.
#[must_use]
pub fn scroll_inversion_supported(
    capabilities: Option<Capabilities>,
    persistent: bool,
    macos_fallback: bool,
) -> (supported: bool)
    ensures
        supported == can_invert(capabilities, persistent, macos_fallback),
{
    persistent && match capabilities {
        Some(capabilities) => capabilities.scroll_inversion || (macos_fallback
            && capabilities.pointer),
        None => false,
    }
}

/// Store a wheel resolution for a device that supports it. Returns whether it was
/// stored.
pub fn set_scroll_resolution_if_supported(
    config: &mut Config,
    key: &str,
    supported: bool,
    resolution: Option<ScrollResolution>,
) -> (stored: bool)
    ensures
        stored == supported,
        final(config)@ == if supported {
            old(config)@.with_device(
                key@,
                DeviceModel { scroll_resolution: resolution, ..old(config)@.device(key@) },
            )
        } else {
            old(config)@
        },
{
    if !supported {
        return false;
    }
    config.set_scroll_resolution(key, resolution);
    true
}

impl AppModel {
    /// The device with this key is reached by this route.
    pub open spec fn is_routed(self, key: Seq<char>, route: DeviceRoute) -> bool {
        self.devices.contains_key(key) && opt_route(self.devices[key].route) == Some(route@)
    }

    /// The outcome of the last write to a device.
    pub open spec fn write_status_of(self, key: Seq<char>) -> Option<SmartShiftWriteStatus> {
        if self.write_status.contains_key(key) {
            Some(self.write_status[key])
        } else {
            None
        }
    }

    /// With the outcome of a resolution read.
    pub open spec fn with_dpi_read(
        self,
        key: Seq<char>,
        route: DeviceRoute,
        result: Result<DpiInfo, WriteError>,
    ) -> AppModel {
        AppModel {
            dpi_data: self.dpi_data.stored(
                key,
                result,
                result matches Err(error) && is_permanent_dpi_error(error),
                self.is_routed(key, route),
                self.devices.contains_key(key),
            ),
            dpi: match result {
                Ok(info) => if self.is_routed(key, route) && self.current_key() == Some(key) {
                    info.current as u32
                } else {
                    self.dpi
                },
                Err(_) => self.dpi,
            },
            ..self
        }
    }

    /// With the outcome of a SmartShift read.
    pub open spec fn with_smartshift_read(
        self,
        key: Seq<char>,
        route: DeviceRoute,
        write_id: Option<u64>,
        result: Result<SmartShiftStatus, WriteError>,
    ) -> AppModel {
        if !read_is_current(write_id, self.write_status_of(key)) {
            self
        } else {
            let data = self.smartshift_data.stored(
                key,
                result,
                result matches Err(error) && error is FeatureUnsupported,
                self.is_routed(key, route),
                self.devices.contains_key(key),
            );
            let load = if data.states.contains_key(key) {
                Some(data.states[key])
            } else {
                None
            };
            let outcome = match self.write_status_of(key) {
                Some(SmartShiftWriteStatus::Applying { expected, .. }) => write_outcome(
                    expected,
                    load,
                ),
                _ => None,
            };
            AppModel {
                smartshift_data: data,
                write_status: match outcome {
                    Some(outcome) => self.write_status.insert(key, outcome),
                    None => self.write_status,
                },
                ..self
            }
        }
    }

    /// With a wheel configuration written to the selected device.
    pub open spec fn with_smartshift_write(self, expected: SmartShiftStatus) -> AppModel {
        match self.record() {
            None => self,
            Some(record) => {
                let key = record.config_key@;
                let stored = self.with_stored_device(
                    DeviceModel {
                        smartshift: Some(
                            SmartShift {
                                mode: stored_mode(expected.mode),
                                auto_disengage: expected.auto_disengage,
                                tunable_torque: expected.tunable_torque,
                            },
                        ),
                        ..self.stored_device()
                    },
                );
                let shown = AppModel {
                    smartshift_data: stored.smartshift_data.settled(key, expected),
                    ..stored
                };
                if record.route is Some {
                    AppModel {
                        pending: shown.pending.insert(key, self.next_write),
                        next_write: if self.next_write < u64::MAX {
                            (self.next_write + 1) as u64
                        } else {
                            u64::MAX
                        },
                        write_status: shown.write_status.insert(
                            key,
                            SmartShiftWriteStatus::Applying {
                                expected,
                                write_id: self.next_write,
                            },
                        ),
                        ..shown
                    }
                } else {
                    AppModel {
                        write_status: shown.write_status.insert(key, SmartShiftWriteStatus::Failed),
                        ..shown
                    }
                }
            },
        }
    }
}

/// The effects of a change that is sent to the selected device and stored for it.
pub open spec fn sent_and_saved(state: AppModel, command: spec_fn(DeviceRoute) -> Command) -> Seq<
    UiEffect,
> {
    match state.record() {
        None => Seq::empty(),
        Some(record) => {
            let sent = match record.route {
                Some(route) => seq![UiEffect::Send(command(route))],
                None => Seq::empty(),
            };
            sent + saved_if(record.persistent)
        },
    }
}

impl AppState {
    /// Keep a completed inventory for the diagnostics report.
    pub fn store_inventory_snapshot(&mut self, inventory: Vec<DeviceInventory>)
        ensures
            final(self)@ == (AppModel { last_inventory: inventory@, ..old(self)@ }),
    {
        self.last_inventory = inventory;
    }

    /// The last completed inventory.
    #[must_use]
    pub fn last_inventory(&self) -> (inventory: &Vec<DeviceInventory>)
        ensures
            inventory@ == self@.last_inventory,
    {
        &self.last_inventory
    }

    /// Append live-monitor events; only the most recent ones are kept.
    pub fn push_monitor_events(&mut self, events: Vec<MonitorEvent>)
        ensures
            ({
                let all = old(self)@.monitor_events + events@;
                final(self)@ == (AppModel {
                    monitor_events: if all.len() > MONITOR_HISTORY {
                        all.skip(all.len() - MONITOR_HISTORY)
                    } else {
                        all
                    },
                    ..old(self)@
                })
            }),
    {
        let ghost before = self.monitor_events@;
        let ghost batch = events@;
        let ghost all = before + batch;
        let mut fresh = events;
        let mut kept: Vec<MonitorEvent> = Vec::new();
        core::mem::swap(&mut self.monitor_events, &mut kept);
        if fresh.len() >= MONITOR_HISTORY {
            let extra: usize = fresh.len() - MONITOR_HISTORY;
            let recent = fresh.split_off(extra);
            assert(recent@ =~= all.skip(all.len() - MONITOR_HISTORY));
            self.monitor_events = recent;
            assert(self.monitor_events@ =~= if all.len() > MONITOR_HISTORY {
                all.skip(all.len() - MONITOR_HISTORY)
            } else {
                all
            });
        } else {
            let room: usize = MONITOR_HISTORY - fresh.len();
            if kept.len() > room {
                let drop: usize = kept.len() - room;
                let mut tail = kept.split_off(drop);
                tail.append(&mut fresh);
                assert(tail@ =~= all.skip(all.len() - MONITOR_HISTORY));
                self.monitor_events = tail;
            } else {
                kept.append(&mut fresh);
                assert(kept@ =~= all);
                self.monitor_events = kept;
            }
        }
    }

    /// Recent live-monitor events, oldest first.
    #[must_use]
    pub fn monitor_events(&self) -> (events: &Vec<MonitorEvent>)
        ensures
            events@ == self@.monitor_events,
    {
        &self.monitor_events
    }

    /// Schema version of the configuration, and the number of devices with stored
    /// settings.
    #[must_use]
    pub fn config_summary(&self) -> (summary: (u32, usize))
        ensures
            summary.0 == self@.config.schema_version,
            summary.1 == self.config.devices.keys().len(),
    {
        (self.config.schema_version, self.config.devices.len())
    }

    /// What is recorded of a device's resolution.
    #[must_use]
    pub fn dpi_status_for(&self, key: &str) -> (status: Option<&Load<DpiInfo>>)
        ensures
            match status {
                Some(status) => self@.dpi_data.states.contains_key(key@) && status@
                    == self@.dpi_data.states[key@],
                None => !self@.dpi_data.states.contains_key(key@),
            },
    {
        self.dpi_data.get(key)
    }

    /// Ask the agent for the Accessibility prompt: the agent owns the hook, so the
    /// system dialog must name and authorize it.
    #[must_use]
    pub fn request_accessibility_prompt(&self) -> (effect: UiEffect)
        ensures
            effect == UiEffect::Send(Command::RequestAccessibilityPrompt),
    {
        UiEffect::Send(Command::RequestAccessibilityPrompt)
    }

    /// What is known of the agent.
    #[must_use]
    pub fn agent_link(&self) -> (link: &AgentLink)
        ensures
            *link == self@.link,
    {
        &self.agent_link
    }

    /// The agent's latest status, while it is connected.
    #[must_use]
    pub fn agent_status(&self) -> (status: Option<&AgentStatus>)
        ensures
            match status {
                Some(status) => self@.link == AgentLink::Ready(*status),
                None => !(self@.link is Ready),
            },
    {
        match &self.agent_link {
            AgentLink::Ready(status) => Some(status),
            _ => None,
        }
    }

    /// Replace the link. Returns whether it changed: most polls deliver an
    /// identical status, and nothing is repainted for those.
    pub fn set_agent_link(&mut self, link: AgentLink) -> (changed: bool)
        ensures
            changed == !old(self)@.link.same_as(link),
            final(self)@ == if changed {
                AppModel { link, ..old(self)@ }
            } else {
                old(self)@
            },
    {
        if self.agent_link == link {
            return false;
        }
        self.agent_link = link;
        true
    }

    /// Select the card at a position. Positions out of range, and the selected one,
    /// are ignored. A device whose reads have failed is read afresh. The selection
    /// is stored by key, unless the device is a half-read probe.
    pub fn set_current_device(&mut self, index: usize) -> (effects: Vec<UiEffect>)
        ensures
            if index >= old(self)@.order.len() || index == old(self)@.current {
                final(self)@ == old(self)@ && effects@ == Seq::<UiEffect>::empty()
            } else {
                let moved = old(self)@.with_selection(index as int);
                &&& is_selection_stored(moved, final(self)@)
                &&& effects@ == saved_if(moved.stored_key() is Some)
            },
    {
        if index >= self.device_list.len() || index == self.current_device {
            return effects_of(None);
        }
        self.current_device = index;
        let ghost selected = self@;
        if let Some(key) = self.current_key() {
            if let Some(Load::Failed(_)) = self.dpi_data.get(key.as_str()) {
                self.dpi_data.retry(key.as_str());
            }
            if let Some(Load::Failed(_)) = self.smartshift_data.get(key.as_str()) {
                self.smartshift_data.retry(key.as_str());
                let _ = self.smartshift_write_status.remove(key.as_str());
            }
        }
        self.refresh_display();
        assert(self@ == old(self)@.with_selection(index as int));
        match self.stored_key() {
            Some(key) => {
                self.config.set_selected_device(Some(key));
                effects_of(Some(UiEffect::SaveAndReload))
            },
            None => effects_of(None),
        }
    }

    /// Replace the resolution presets of the selected device.
    pub fn commit_dpi_presets(&mut self, presets: Vec<u32>) -> (effects: Vec<UiEffect>)
        ensures
            final(self)@ == old(self)@.with_stored_device(
                DeviceModel { dpi_presets: presets@, ..old(self)@.stored_device() },
            ),
            effects@ == saved_if(old(self)@.stored_key() is Some),
    {
        match self.stored_key() {
            Some(key) => {
                self.config.set_dpi_presets(key.as_str(), presets);
                effects_of(Some(UiEffect::SaveAndReload))
            },
            None => effects_of(None),
        }
    }

    /// The resolution presets of the selected device.
    #[must_use]
    pub fn dpi_presets(&self) -> (presets: Vec<u32>)
        ensures
            presets@ == self@.stored_device().dpi_presets,
    {
        match self.stored_key() {
            Some(key) => self.config.dpi_presets(key.as_str()),
            None => Vec::new(),
        }
    }

    /// How far the selected device's resolution has come.
    #[must_use]
    pub fn current_dpi_status(&self) -> (status: Load<DpiInfo>)
        ensures
            match self@.current_key() {
                Some(key) => match (self@.dpi_data.state(key), status@) {
                    (LoadModel::Ready(a), LoadModel::Ready(b)) => a@ == b@,
                    (a, b) => a == b,
                },
                None => status@ is Unknown,
            },
    {
        match self.current_record() {
            Some(record) => match self.dpi_data.get(record.config_key.as_str()) {
                Some(status) => status.clone(),
                None => Load::Unknown,
            },
            None => Load::Unknown,
        }
    }

    /// Whether the selected device's resolution is still to be asked for.
    #[must_use]
    pub fn current_dpi_unqueried(&self) -> (unqueried: bool)
        ensures
            unqueried == (self@.current_key() matches Some(key) && self@.dpi_data.state(
                key,
            ) is Unknown),
    {
        match self.current_record() {
            Some(record) => self.dpi_data.unqueried(record.config_key.as_str()),
            None => false,
        }
    }

    /// Record that a device's resolution is being read.
    pub fn mark_dpi_loading(&mut self, key: &str)
        ensures
            final(self)@ == (AppModel {
                dpi_data: old(self)@.dpi_data.with_state(key@, LoadModel::Loading),
                ..old(self)@
            }),
    {
        self.dpi_data.mark_loading(key);
    }

    /// Give up a resolution read that delivered no result.
    pub fn clear_dpi_loading(&mut self, key: &str)
        ensures
            final(self)@ == (AppModel {
                dpi_data: old(self)@.dpi_data.loading_cleared(key@),
                ..old(self)@
            }),
    {
        self.dpi_data.clear_loading(key);
    }

    /// Read the selected device's resolution afresh.
    pub fn retry_active_dpi(&mut self)
        ensures
            final(self)@ == match old(self)@.current_key() {
                Some(key) => AppModel {
                    dpi_data: old(self)@.dpi_data.without(key),
                    ..old(self)@
                },
                None => old(self)@,
            },
    {
        if let Some(key) = self.current_key() {
            self.dpi_data.retry(key.as_str());
        }
    }

    /// Whether a device is reached by a route.
    fn matches_route(&self, key: &str, route: &DeviceRoute) -> (matches_route: bool)
        ensures
            matches_route == self@.is_routed(key@, *route),
    {
        match self.device_list.find(key) {
            Some(record) => match &record.route {
                Some(found) => *found == *route,
                None => false,
            },
            None => false,
        }
    }

    /// Record the outcome of a resolution read, if it still belongs to the device's
    /// route. Only the selected device's result is shown.
    pub fn store_dpi_info(
        &mut self,
        key: &str,
        route: &DeviceRoute,
        result: Result<DpiInfo, WriteError>,
    )
        ensures
            final(self)@ == old(self)@.with_dpi_read(key@, *route, result),
    {
        let is_active = match self.current_record() {
            Some(record) => text::str_eq(record.config_key.as_str(), key),
            None => false,
        };
        let matches_route = self.matches_route(key, route);
        let still_present = self.device_list.find(key).is_some();
        let permanent = match &result {
            Err(error) => dpi_error_is_permanent(error),
            Ok(_) => false,
        };
        let shown: u32 = match &result {
            Ok(info) => info.current as u32,
            Err(_) => self.dpi,
        };
        let ready = self.dpi_data.store(key, result, permanent, matches_route, still_present);
        if ready && is_active {
            self.dpi = shown;
        }
    }

    /// The resolutions that the selected device supports, once they are known.
    #[must_use]
    pub fn active_dpi_capabilities(&self) -> (capabilities: Option<&DpiCapabilities>)
        ensures
            match capabilities {
                Some(capabilities) => self@.current_key() matches Some(key)
                    && self@.dpi_data.state(key) matches LoadModel::Ready(info)
                    && info.capabilities == *capabilities,
                None => !(self@.current_key() matches Some(key) && self@.dpi_data.state(
                    key,
                ) is Ready),
            },
    {
        match self.current_record() {
            Some(record) => match self.dpi_data.get(record.config_key.as_str()) {
                Some(Load::Ready(info)) => Some(&info.capabilities),
                _ => None,
            },
            None => None,
        }
    }

    /// Snap a resolution to one that the selected device supports, once those are
    /// known.
    #[must_use]
    pub fn normalize_active_dpi(&self, dpi: u32) -> (snapped: u32)
        ensures
            match self@.current_key() {
                Some(key) => match self@.dpi_data.state(key) {
                    LoadModel::Ready(info) => crate::hid::is_nearest(
                        info.capabilities@,
                        dpi as int,
                        snapped as int,
                    ),
                    _ => snapped == dpi,
                },
                None => snapped == dpi,
            },
    {
        match self.active_dpi_capabilities() {
            Some(capabilities) => capabilities.snap(dpi),
            None => dpi,
        }
    }

    /// How far the selected device's wheel configuration has come.
    #[must_use]
    pub fn current_smartshift_status(&self) -> (status: Load<SmartShiftStatus>)
        ensures
            status@ == match self@.current_key() {
                Some(key) => self@.smartshift_data.state(key),
                None => LoadModel::Unknown,
            },
    {
        match self.current_record() {
            Some(record) => match self.smartshift_data.get(record.config_key.as_str()) {
                Some(status) => status.clone(),
                None => Load::Unknown,
            },
            None => Load::Unknown,
        }
    }

    /// Whether the selected device's wheel configuration is still to be asked for.
    #[must_use]
    pub fn current_smartshift_unqueried(&self) -> (unqueried: bool)
        ensures
            unqueried == (self@.current_key() matches Some(key) && self@.smartshift_data.state(
                key,
            ) is Unknown),
    {
        match self.current_record() {
            Some(record) => self.smartshift_data.unqueried(record.config_key.as_str()),
            None => false,
        }
    }

    /// The selected device's wheel configuration, once it is known.
    #[must_use]
    pub fn current_smartshift_ready(&self) -> (status: Option<SmartShiftStatus>)
        ensures
            status == match self@.current_key() {
                Some(key) => match self@.smartshift_data.state(key) {
                    LoadModel::Ready(status) => Some(status),
                    _ => None,
                },
                None => None,
            },
    {
        match self.current_record() {
            Some(record) => match self.smartshift_data.get(record.config_key.as_str()) {
                Some(Load::Ready(status)) => Some(*status),
                _ => None,
            },
            None => None,
        }
    }

    /// The outcome of the last write to the selected device.
    #[must_use]
    pub fn current_smartshift_write_status(&self) -> (status: Option<SmartShiftWriteStatus>)
        ensures
            status == match self@.current_key() {
                Some(key) => self@.write_status_of(key),
                None => None,
            },
    {
        match self.current_record() {
            Some(record) => match self.smartshift_write_status.get(record.config_key.as_str()) {
                Some(status) => Some(*status),
                None => None,
            },
            None => None,
        }
    }

    /// Record that a device's wheel configuration is being read.
    pub fn mark_smartshift_loading(&mut self, key: &str)
        ensures
            final(self)@ == (AppModel {
                smartshift_data: old(self)@.smartshift_data.with_state(key@, LoadModel::Loading),
                ..old(self)@
            }),
    {
        self.smartshift_data.mark_loading(key);
    }

    /// Give up a wheel-configuration read that delivered no result.
    pub fn clear_smartshift_loading(&mut self, key: &str)
        ensures
            final(self)@ == (AppModel {
                smartshift_data: old(self)@.smartshift_data.loading_cleared(key@),
                ..old(self)@
            }),
    {
        self.smartshift_data.clear_loading(key);
    }

    /// Read the selected device's wheel configuration afresh.
    pub fn retry_active_smartshift(&mut self)
        ensures
            final(self)@ == match old(self)@.current_key() {
                Some(key) => AppModel {
                    smartshift_data: old(self)@.smartshift_data.without(key),
                    write_status: old(self)@.write_status.remove(key),
                    ..old(self)@
                },
                None => old(self)@,
            },
    {
        if let Some(key) = self.current_key() {
            self.smartshift_data.retry(key.as_str());
            let _ = self.smartshift_write_status.remove(key.as_str());
        }
    }

    /// Record the outcome of a wheel-configuration read, if it still belongs to the
    /// device's route and to its last write.
    pub fn store_smartshift_status(
        &mut self,
        key: &str,
        route: &DeviceRoute,
        write_id: Option<u64>,
        result: Result<SmartShiftStatus, WriteError>,
    )
        ensures
            final(self)@ == old(self)@.with_smartshift_read(key@, *route, write_id, result),
    {
        if !smartshift_read_is_current(write_id, self.smartshift_write_status.get(key)) {
            return;
        }
        let matches_route = self.matches_route(key, route);
        let still_present = self.device_list.find(key).is_some();
        let permanent = match &result {
            Err(error) => smartshift_error_is_permanent(error),
            Ok(_) => false,
        };
        let _ = self.smartshift_data.store(key, result, permanent, matches_route, still_present);
        let expected = match self.smartshift_write_status.get(key) {
            Some(SmartShiftWriteStatus::Applying { expected, .. }) => Some(*expected),
            _ => None,
        };
        if let Some(expected) = expected {
            if let Some(outcome) = smartshift_write_outcome(
                expected,
                self.smartshift_data.get(key),
            ) {
                self.smartshift_write_status.insert(key, outcome);
            }
        }
    }

    /// Write a wheel configuration to the selected device and store it. The value
    /// shows at once; a device that can be reached gets a confirming read, so that
    /// a write that did not arrive does not show as applied forever.
    pub fn commit_smartshift(
        &mut self,
        mode: SmartShiftMode,
        auto_disengage: u8,
        tunable_torque: u8,
    ) -> (effects: Vec<UiEffect>)
        ensures
            final(self)@ == old(self)@.with_smartshift_write(
                SmartShiftStatus { mode, auto_disengage, tunable_torque },
            ),
            effects@ == sent_and_saved(
                old(self)@,
                |route: DeviceRoute|
                    Command::SetSmartShift(route, mode, auto_disengage, tunable_torque),
            ),
    {
        let mut effects: Vec<UiEffect> = Vec::new();
        let (key, persistent, route) = match self.current_record() {
            None => {
                return effects;
            },
            Some(record) => (
                record.config_key.clone(),
                record.persistent,
                clone_opt_route(&record.route),
            ),
        };
        let can_confirm = route.is_some();
        if let Some(route) = route {
            effects.push(
                UiEffect::Send(
                    Command::SetSmartShift(route, mode, auto_disengage, tunable_torque),
                ),
            );
        }
        if persistent {
            self.config.set_smartshift(
                key.as_str(),
                SmartShift { mode: mode.into(), auto_disengage, tunable_torque },
            );
            effects.push(UiEffect::SaveAndReload);
        }
        let expected = SmartShiftStatus { mode, auto_disengage, tunable_torque };
        self.smartshift_data.set_ready(key.as_str(), expected);
        if can_confirm {
            let write_id: u64 = self.next_smartshift_write_id;
            if write_id < u64::MAX {
                self.next_smartshift_write_id = write_id + 1;
            }
            self.smartshift_pending_confirm.insert(key.as_str(), write_id);
            self.smartshift_write_status.insert(
                key.as_str(),
                SmartShiftWriteStatus::Applying { expected, write_id },
            );
        } else {
            self.smartshift_write_status.insert(key.as_str(), SmartShiftWriteStatus::Failed);
        }
        effects
    }

    /// Whether the selected device's scroll wheel is inverted.
    #[must_use]
    pub fn current_invert_scroll(&self) -> (inverted: bool)
        ensures
            inverted == (self@.stored_key() is Some && self@.stored_device().invert_scroll),
    {
        match self.stored_key() {
            Some(key) => self.config.invert_scroll(key.as_str()),
            None => false,
        }
    }

    /// Whether the selected device inverts its wheel by itself.
    #[must_use]
    pub fn current_native_scroll_inversion_supported(&self) -> (supported: bool)
        ensures
            supported == (self@.record() matches Some(record) && record.capabilities matches Some(
                capabilities,
            ) && capabilities.scroll_inversion),
    {
        match self.current_record() {
            Some(record) => match record.capabilities {
                Some(capabilities) => capabilities.scroll_inversion,
                None => false,
            },
            None => false,
        }
    }

    /// Whether the selected device's wheel can be inverted.
    #[must_use]
    pub fn current_scroll_inversion_supported(&self, macos: bool) -> (supported: bool)
        ensures
            supported == (self@.record() matches Some(record) && can_invert(
                record.capabilities,
                record.persistent,
                macos,
            )),
    {
        match self.current_record() {
            Some(record) => scroll_inversion_supported(
                record.capabilities,
                record.persistent,
                macos,
            ),
            None => false,
        }
    }

    /// Invert the selected device's scroll wheel, if that is supported.
    pub fn commit_invert_scroll(&mut self, invert: bool, macos: bool) -> (effects: Vec<UiEffect>)
        ensures
            ({
                let supported = old(self)@.record() matches Some(record) && can_invert(
                    record.capabilities,
                    record.persistent,
                    macos,
                );
                &&& effects@ == saved_if(supported)
                &&& final(self)@ == if supported {
                    old(self)@.with_stored_device(
                        DeviceModel { invert_scroll: invert, ..old(self)@.stored_device() },
                    )
                } else {
                    old(self)@
                }
            }),
    {
        if !self.current_scroll_inversion_supported(macos) {
            return effects_of(None);
        }
        match self.stored_key() {
            Some(key) => {
                self.config.set_invert_scroll(key.as_str(), invert);
                effects_of(Some(UiEffect::SaveAndReload))
            },
            None => effects_of(None),
        }
    }

    /// The selected device's stored wheel resolution.
    #[must_use]
    pub fn current_scroll_resolution(&self) -> (resolution: Option<ScrollResolution>)
        ensures
            resolution == self@.stored_device().scroll_resolution,
    {
        match self.stored_key() {
            Some(key) => self.config.scroll_resolution(key.as_str()),
            None => None,
        }
    }

    /// Whether the selected device's wheel resolution can be switched.
    #[must_use]
    pub fn current_hires_wheel_supported(&self) -> (supported: bool)
        ensures
            supported == (self@.record() matches Some(record) && record.capabilities matches Some(
                capabilities,
            ) && capabilities.hires_wheel),
    {
        match self.current_record() {
            Some(record) => match record.capabilities {
                Some(capabilities) => capabilities.hires_wheel,
                None => false,
            },
            None => false,
        }
    }

    /// Store the selected device's wheel resolution, if it can be switched.
    pub fn commit_scroll_resolution(&mut self, resolution: Option<ScrollResolution>) -> (effects:
        Vec<UiEffect>)
        ensures
            ({
                let supported = old(self)@.stored_key() is Some && (old(self)@.record() matches Some(
                    record,
                ) && record.capabilities matches Some(capabilities) && capabilities.hires_wheel);
                &&& effects@ == saved_if(supported)
                &&& final(self)@ == if supported {
                    old(self)@.with_stored_device(
                        DeviceModel { scroll_resolution: resolution, ..old(self)@.stored_device() },
                    )
                } else {
                    old(self)@
                }
            }),
    {
        let supported = self.current_hires_wheel_supported();
        match self.stored_key() {
            Some(key) => if set_scroll_resolution_if_supported(
                &mut self.config,
                key.as_str(),
                supported,
                resolution,
            ) {
                effects_of(Some(UiEffect::SaveAndReload))
            } else {
                effects_of(None)
            },
            None => effects_of(None),
        }
    }

    /// Take the confirming read that the selected device still needs, once.
    pub fn take_active_smartshift_confirm(&mut self) -> (confirm: Option<
        (String, DeviceRoute, u64),
    >)
        ensures
            match old(self)@.record() {
                Some(record) => if record.route is Some && old(self)@.pending.contains_key(
                    record.config_key@,
                ) {
                    &&& confirm matches Some((key, route, write_id))
                    &&& key@ == record.config_key@
                    &&& record.route == Some(route)
                    &&& write_id == old(self)@.pending[record.config_key@]
                    &&& final(self)@ == (AppModel {
                        pending: old(self)@.pending.remove(record.config_key@),
                        ..old(self)@
                    })
                } else {
                    confirm is None && final(self)@ == old(self)@
                },
                None => confirm is None && final(self)@ == old(self)@,
            },
    {
        let (key, route) = match self.current_record() {
            Some(record) => match &record.route {
                Some(route) => (record.config_key.clone(), route.clone()),
                None => {
                    return None;
                },
            },
            None => {
                return None;
            },
        };
        match self.smartshift_pending_confirm.remove(key.as_str()) {
            Some(write_id) => Some((key, route, write_id)),
            None => {
                assert(self@.pending =~= old(self)@.pending);
                None
            },
        }
    }

    /// Record that the confirming read of a write got no reply.
    pub fn fail_smartshift_confirm(&mut self, key: &str, write_id: u64)
        ensures
            final(self)@ == if old(self)@.write_status_of(
                key@,
            ) matches Some(SmartShiftWriteStatus::Applying { write_id: current, .. }) && current
                == write_id {
                AppModel {
                    write_status: old(self)@.write_status.insert(
                        key@,
                        SmartShiftWriteStatus::Failed,
                    ),
                    ..old(self)@
                }
            } else {
                old(self)@
            },
    {
        let failed = match self.smartshift_write_status.get(key) {
            Some(SmartShiftWriteStatus::Applying { write_id: current, .. }) => *current
                == write_id,
            _ => false,
        };
        if failed {
            self.smartshift_write_status.insert(key, SmartShiftWriteStatus::Failed);
        }
    }

    /// The selected device's lighting, or the default.
    #[must_use]
    pub fn lighting(&self) -> (lighting: Lighting)
        ensures
            lighting == match self@.stored_device().lighting {
                Some(lighting) => lighting,
                None => Lighting::fresh(),
            },
    {
        let stored = match self.stored_key() {
            Some(key) => self.config.lighting(key.as_str()),
            None => None,
        };
        match stored {
            Some(lighting) => lighting,
            None => Lighting::default(),
        }
    }

    /// The stored lighting of a device. What may once have been stored for a
    /// half-read probe is not shown.
    #[must_use]
    pub fn lighting_for(&self, key: &str) -> (lighting: Option<Lighting>)
        ensures
            lighting == if transient_key(key@) || (self@.devices.contains_key(key@)
                && !self@.devices[key@].persistent) {
                None
            } else {
                self@.config.device(key@).lighting
            },
    {
        if is_transient(key) {
            return None;
        }
        if let Some(record) = self.device_list.find(key) {
            if !record.persistent {
                return None;
            }
        }
        self.config.lighting(key)
    }

    /// Send the selected device a lighting, and store it.
    pub fn commit_lighting(&mut self, lighting: Lighting) -> (effects: Vec<UiEffect>)
        ensures
            final(self)@ == old(self)@.with_stored_device(
                DeviceModel { lighting: Some(lighting), ..old(self)@.stored_device() },
            ),
            effects@ == sent_and_saved(
                old(self)@,
                |route: DeviceRoute| Command::SetLighting(route, lighting),
            ),
    {
        let mut effects: Vec<UiEffect> = Vec::new();
        if let Some(record) = self.current_record() {
            if let Some(route) = clone_opt_route(&record.route) {
                effects.push(UiEffect::Send(Command::SetLighting(route, lighting)));
            }
        }
        if let Some(key) = self.stored_key() {
            self.config.set_lighting(key.as_str(), lighting);
            effects.push(UiEffect::SaveAndReload);
        }
        effects
    }

    /// Send the selected device a resolution, show it and store it.
    pub fn commit_dpi(&mut self, dpi: u32) -> (effects: Vec<UiEffect>)
        ensures
            final(self)@ == (AppModel { dpi, ..old(self)@ }).with_stored_device(
                DeviceModel { dpi: Some(dpi), ..old(self)@.stored_device() },
            ),
            effects@ == sent_and_saved(
                old(self)@,
                |route: DeviceRoute| Command::SetDpi(route, dpi),
            ),
    {
        self.dpi = dpi;
        let mut effects: Vec<UiEffect> = Vec::new();
        if let Some(record) = self.current_record() {
            if let Some(route) = clone_opt_route(&record.route) {
                effects.push(UiEffect::Send(Command::SetDpi(route, dpi)));
            }
        }
        if let Some(key) = self.stored_key() {
            self.config.set_dpi(key.as_str(), dpi);
            effects.push(UiEffect::SaveAndReload);
        }
        effects
    }

    /// The preferences.
    #[must_use]
    pub fn app_settings(&self) -> (settings: &AppSettings)
        ensures
            *settings == self@.config.app_settings,
    {
        &self.config.app_settings
    }

    /// Whether the agent starts with the session. Nothing happens where it is unchanged.
    pub fn set_launch_at_login(&mut self, enabled: bool) -> (effects: Vec<UiEffect>)
        ensures
            final(self)@ == old(self)@.with_settings(
                (AppSettings { launch_at_login: enabled, ..old(self)@.config.app_settings }),
            ),
            effects@ == if old(self)@.config.app_settings.launch_at_login == enabled {
                Seq::<UiEffect>::empty()
            } else {
                seq![UiEffect::SaveAndReload]
            },
    {
        if self.config.app_settings.launch_at_login == enabled {
            return effects_of(None);
        }
        self.config.app_settings.launch_at_login = enabled;
        effects_of(Some(UiEffect::SaveAndReload))
    }

    /// Whether the menu-bar icon is shown. Nothing happens where it is unchanged.
    pub fn set_show_in_menu_bar(&mut self, enabled: bool) -> (effects: Vec<UiEffect>)
        ensures
            final(self)@ == old(self)@.with_settings(
                (AppSettings { show_in_menu_bar: enabled, ..old(self)@.config.app_settings }),
            ),
            effects@ == if old(self)@.config.app_settings.show_in_menu_bar == enabled {
                Seq::<UiEffect>::empty()
            } else {
                seq![UiEffect::SaveAndReload]
            },
    {
        if self.config.app_settings.show_in_menu_bar == enabled {
            return effects_of(None);
        }
        self.config.app_settings.show_in_menu_bar = enabled;
        effects_of(Some(UiEffect::SaveAndReload))
    }

    /// Whether updates are looked for at launch. Nothing happens where it is unchanged.
    pub fn set_check_for_updates(&mut self, enabled: bool) -> (effects: Vec<UiEffect>)
        ensures
            final(self)@ == old(self)@.with_settings(
                (AppSettings { check_for_updates: enabled, ..old(self)@.config.app_settings }),
            ),
            effects@ == if old(self)@.config.app_settings.check_for_updates == enabled {
                Seq::<UiEffect>::empty()
            } else {
                seq![UiEffect::Save]
            },
    {
        if self.config.app_settings.check_for_updates == enabled {
            return effects_of(None);
        }
        self.config.app_settings.check_for_updates = enabled;
        effects_of(Some(UiEffect::Save))
    }

    /// Whether found updates are installed without asking. Nothing happens where it is unchanged.
    pub fn set_auto_install_updates(&mut self, enabled: bool) -> (effects: Vec<UiEffect>)
        ensures
            final(self)@ == old(self)@.with_settings(
                (AppSettings { auto_install_updates: enabled, ..old(self)@.config.app_settings }),
            ),
            effects@ == if old(self)@.config.app_settings.auto_install_updates == enabled {
                Seq::<UiEffect>::empty()
            } else {
                seq![UiEffect::Save]
            },
    {
        if self.config.app_settings.auto_install_updates == enabled {
            return effects_of(None);
        }
        self.config.app_settings.auto_install_updates = enabled;
        effects_of(Some(UiEffect::Save))
    }

    /// Light or dark rendering. Nothing happens where it is unchanged.
    pub fn set_appearance(&mut self, appearance: Appearance) -> (effects: Vec<UiEffect>)
        ensures
            final(self)@ == old(self)@.with_settings(
                (AppSettings { appearance: appearance, ..old(self)@.config.app_settings }),
            ),
            effects@ == if old(self)@.config.app_settings.appearance == appearance {
                Seq::<UiEffect>::empty()
            } else {
                seq![UiEffect::Save]
            },
    {
        if self.config.app_settings.appearance == appearance {
            return effects_of(None);
        }
        self.config.app_settings.appearance = appearance;
        effects_of(Some(UiEffect::Save))
    }

    /// The corner-radius override. Nothing happens where it is unchanged.
    pub fn set_ui_radius(&mut self, radius: Option<u8>) -> (effects: Vec<UiEffect>)
        ensures
            final(self)@ == old(self)@.with_settings(
                (AppSettings { ui_radius: radius, ..old(self)@.config.app_settings }),
            ),
            effects@ == if old(self)@.config.app_settings.ui_radius == radius {
                Seq::<UiEffect>::empty()
            } else {
                seq![UiEffect::Save]
            },
    {
        if self.config.app_settings.ui_radius == radius {
            return effects_of(None);
        }
        self.config.app_settings.ui_radius = radius;
        effects_of(Some(UiEffect::Save))
    }

    /// Whether device artwork is downloaded. Nothing happens where it is unchanged.
    pub fn set_auto_download_assets(&mut self, enabled: bool) -> (effects: Vec<UiEffect>)
        ensures
            final(self)@ == old(self)@.with_settings(
                (AppSettings { auto_download_assets: enabled, ..old(self)@.config.app_settings }),
            ),
            effects@ == if old(self)@.config.app_settings.auto_download_assets == enabled {
                Seq::<UiEffect>::empty()
            } else {
                seq![UiEffect::Save]
            },
    {
        if self.config.app_settings.auto_download_assets == enabled {
            return effects_of(None);
        }
        self.config.app_settings.auto_download_assets = enabled;
        effects_of(Some(UiEffect::Save))
    }

    /// Where device artwork comes from. Nothing happens where it is unchanged.
    pub fn set_asset_source(&mut self, source: AssetSourcePreference) -> (effects: Vec<UiEffect>)
        ensures
            final(self)@ == old(self)@.with_settings(
                (AppSettings { asset_source: source, ..old(self)@.config.app_settings }),
            ),
            effects@ == if old(self)@.config.app_settings.asset_source == source {
                Seq::<UiEffect>::empty()
            } else {
                seq![UiEffect::Save]
            },
    {
        if self.config.app_settings.asset_source == source {
            return effects_of(None);
        }
        self.config.app_settings.asset_source = source;
        effects_of(Some(UiEffect::Save))
    }

    /// The theme for light or dark mode. Nothing happens where it is unchanged.
    pub fn set_theme(&mut self, dark: bool, name: Option<String>) -> (effects: Vec<UiEffect>)
        ensures
            ({
                let settings = old(self)@.config.app_settings;
                let stored = if dark {
                    settings.theme_dark
                } else {
                    settings.theme_light
                };
                if same_text(stored, name) {
                    final(self)@ == old(self)@ && effects@ == Seq::<UiEffect>::empty()
                } else {
                    &&& effects@ == seq![UiEffect::Save]
                    &&& final(self)@ == old(self)@.with_settings(
                        if dark {
                            AppSettings { theme_dark: name, ..settings }
                        } else {
                            AppSettings { theme_light: name, ..settings }
                        },
                    )
                }
            }),
    {
        if dark {
            if opt_text_eq(&self.config.app_settings.theme_dark, &name) {
                return effects_of(None);
            }
            self.config.app_settings.theme_dark = name;
        } else {
            if opt_text_eq(&self.config.app_settings.theme_light, &name) {
                return effects_of(None);
            }
            self.config.app_settings.theme_light = name;
        }
        effects_of(Some(UiEffect::Save))
    }

    /// The thumb-wheel sensitivity, brought into its range. Nothing happens where
    /// it is unchanged.
    pub fn set_thumbwheel_sensitivity(&mut self, sensitivity: i32) -> (effects: Vec<UiEffect>)
        ensures
            ({
                let settings = old(self)@.config.app_settings;
                let clamped = clamped_sensitivity(sensitivity);
                &&& final(self)@ == old(self)@.with_settings(
                    AppSettings { thumbwheel_sensitivity: clamped, ..settings },
                )
                &&& effects@ == saved_if(settings.thumbwheel_sensitivity != clamped)
            }),
    {
        let clamped: i32 = if sensitivity < MIN_THUMBWHEEL_SENSITIVITY {
            MIN_THUMBWHEEL_SENSITIVITY
        } else if sensitivity > MAX_THUMBWHEEL_SENSITIVITY {
            MAX_THUMBWHEEL_SENSITIVITY
        } else {
            sensitivity
        };
        if self.config.app_settings.thumbwheel_sensitivity == clamped {
            return effects_of(None);
        }
        self.config.app_settings.thumbwheel_sensitivity = clamped;
        effects_of(Some(UiEffect::SaveAndReload))
    }

    /// Record the answer to the update prompt, which then never reappears.
    pub fn record_update_consent(&mut self, enabled: bool) -> (effects: Vec<UiEffect>)
        ensures
            final(self)@ == old(self)@.with_settings(
                (AppSettings {
                    check_for_updates: enabled,
                    update_prompt_seen: true,
                    ..old(self)@.config.app_settings
                }),
            ),
            effects@ == seq![UiEffect::Save],
    {
        self.config.app_settings.check_for_updates = enabled;
        self.config.app_settings.update_prompt_seen = true;
        effects_of(Some(UiEffect::Save))
    }

    /// The stored language: none follows the system.
    #[must_use]
    pub fn language(&self) -> (language: Option<&str>)
        ensures
            text::opt_view(language) == opt_text(self@.config.app_settings.language),
    {
        match &self.config.app_settings.language {
            Some(language) => Some(language.as_str()),
            None => None,
        }
    }

    /// The language of the interface. Nothing happens where it is unchanged.
    pub fn set_language(&mut self, language: Option<String>) -> (effects: Vec<UiEffect>)
        ensures
            if same_text(old(self)@.config.app_settings.language, language) {
                final(self)@ == old(self)@ && effects@ == Seq::<UiEffect>::empty()
            } else {
                &&& effects@ == seq![UiEffect::Save, UiEffect::SwitchLanguage]
                &&& final(self)@ == old(self)@.with_settings(
                    AppSettings { language, ..old(self)@.config.app_settings },
                )
            },
    {
        if opt_text_eq(&self.config.app_settings.language, &language) {
            return effects_of(None);
        }
        self.config.app_settings.language = language;
        let mut effects = effects_of(Some(UiEffect::Save));
        effects.push(UiEffect::SwitchLanguage);
        effects
    }

    /// The models whose artwork can be looked up, with their codenames, in card
    /// order.
    #[must_use]
    pub fn asset_models(&self) -> (models: Vec<(DeviceModelInfo, Option<String>)>)
        ensures
            models@ == models_of(self@.devices, self@.order, self@.order.len() as int),
    {
        let mut models: Vec<(DeviceModelInfo, Option<String>)> = Vec::new();
        let count = self.device_list.len();
        let mut n: usize = 0;
        while n < count
            invariant
                count == self@.order.len(),
                n <= count,
                models@ == models_of(self@.devices, self@.order, n as int),
            decreases count - n,
        {
            if let Some(record) = self.device_list.get(n) {
                if let Some(model) = clone_opt_model(&record.model_info) {
                    models.push((model, clone_opt_text(&record.codename)));
                }
            }
            n += 1;
        }
        models
    }

    /// Bind a button to a single action.
    pub fn commit_binding(&mut self, button: ButtonId, action: Action) -> (effects: Vec<UiEffect>)
        ensures
            final(self)@ == old(self)@.with_complete_binding(button, Binding::Single(action)),
            effects@ == saved_if(old(self)@.stored_key() is Some),
    {
        self.commit_complete_binding(button, Binding::Single(action))
    }

    /// The complete binding of a button on the selected device, with the front
    /// application's override.
    #[must_use]
    pub fn current_complete_binding(&self, button: ButtonId) -> (binding: Option<Binding>)
        ensures
            binding == self@.complete_binding(button),
    {
        if self.stored_key().is_none() {
            return None;
        }
        let mut stored = self.effective_for_current();
        match stored.remove(button) {
            Some(binding) => Some(binding),
            None => Some(default_binding_for(button)),
        }
    }

    /// Replace a button's complete binding for the front application, or for the
    /// device, in one step. On a device whose settings cannot be stored a single
    /// action is only shown.
    pub fn commit_complete_binding(&mut self, button: ButtonId, binding: Binding) -> (effects: Vec<
        UiEffect,
    >)
        ensures
            final(self)@ == old(self)@.with_complete_binding(button, binding),
            effects@ == saved_if(old(self)@.stored_key() is Some),
    {
        match self.stored_key() {
            None => {
                if let Binding::Single(action) = binding {
                    self.button_bindings.insert(button, action);
                }
                effects_of(None)
            },
            Some(key) => {
                match &self.current_app_bundle {
                    Some(app) => apply_binding_to_scope(
                        &mut self.config,
                        key.as_str(),
                        Some(app.as_str()),
                        button,
                        binding,
                    ),
                    None => apply_binding_to_scope(
                        &mut self.config,
                        key.as_str(),
                        None,
                        button,
                        binding,
                    ),
                }
                self.refresh_bindings();
                effects_of(Some(UiEffect::SaveAndReload))
            },
        }
    }

    /// Install a whole gesture preset on a button in one step. Selecting the active
    /// preset again keeps what was customized in it.
    pub fn commit_gesture_preset(&mut self, button: ButtonId, preset: GesturePreset) -> (effects:
        Vec<UiEffect>)
        ensures
            ({
                let chosen = match old(self)@.complete_binding(button) {
                    Some(current) => selection(current, preset),
                    None => None,
                };
                is_binding_committed(old(self)@, final(self)@, effects@, button, chosen)
            }),
    {
        match self.current_complete_binding(button) {
            Some(current) => match binding_for_gesture_selection(&current, preset) {
                Some(binding) => self.commit_complete_binding(button, binding),
                None => effects_of(None),
            },
            None => effects_of(None),
        }
    }

    /// Replace the click of a button's Pan binding in one step. A delayed edit
    /// after the button has left Pan is ignored.
    pub fn commit_pan_click(&mut self, button: ButtonId, action: Action) -> (effects: Vec<UiEffect>)
        ensures
            ({
                let chosen = match old(self)@.complete_binding(button) {
                    Some(current) => if current is Pan {
                        Some(with_pan_click(current, action))
                    } else {
                        None
                    },
                    None => None,
                };
                is_binding_committed(old(self)@, final(self)@, effects@, button, chosen)
            }),
    {
        match self.current_complete_binding(button) {
            Some(current) => match binding_for_pan_click_selection(&current, action) {
                Some(binding) => self.commit_complete_binding(button, binding),
                None => effects_of(None),
            },
            None => effects_of(None),
        }
    }

    /// Replace one direction of a button's gesture in one step. A delayed edit
    /// after the button has left gesture mode is ignored.
    pub fn commit_gesture_direction(
        &mut self,
        button: ButtonId,
        direction: GestureDirection,
        action: Action,
    ) -> (effects: Vec<UiEffect>)
        ensures
            ({
                let chosen = match old(self)@.complete_binding(button) {
                    Some(current) => direction_edit(current, direction, action),
                    None => None,
                };
                is_binding_committed(old(self)@, final(self)@, effects@, button, chosen)
            }),
    {
        match self.current_complete_binding(button) {
            Some(current) => match binding_for_gesture_direction_selection(
                &current,
                direction,
                action,
            ) {
                Some(binding) => self.commit_complete_binding(button, binding),
                None => effects_of(None),
            },
            None => effects_of(None),
        }
    }
}

/// A sensitivity within its range.
pub open spec fn clamped_sensitivity(sensitivity: i32) -> i32 {
    if sensitivity < MIN_THUMBWHEEL_SENSITIVITY {
        MIN_THUMBWHEEL_SENSITIVITY
    } else if sensitivity > MAX_THUMBWHEEL_SENSITIVITY {
        MAX_THUMBWHEEL_SENSITIVITY
    } else {
        sensitivity
    }
}

/// The models of the first `n` cards, with their codenames.
pub open spec fn models_of(
    cards: Map<Seq<char>, DeviceRecord>,
    order: Seq<Seq<char>>,
    n: int,
) -> Seq<(DeviceModelInfo, Option<String>)>
    decreases n,
{
    if n <= 0 {
        Seq::empty()
    } else {
        let record = cards[order[n - 1]];
        match record.model_info {
            Some(model) => models_of(cards, order, n - 1).push((model, record.codename)),
            None => models_of(cards, order, n - 1),
        }
    }
}

impl AppModel {
    /// With a button's complete binding replaced.
    pub open spec fn with_complete_binding(self, button: ButtonId, binding: Binding) -> AppModel {
        match self.stored_key() {
            Some(key) => AppModel {
                config: scoped(self.config, key, self.app, button, binding),
                ..self
            }.with_bindings(),
            None => match binding {
                Binding::Single(action) => AppModel {
                    button_bindings: self.button_bindings.with(button, action),
                    ..self
                },
                _ => self,
            },
        }
    }
}

/// A chosen binding has been installed, or nothing has happened where there is
/// none.
pub open spec fn is_binding_committed(
    before: AppModel,
    after: AppModel,
    effects: Seq<UiEffect>,
    button: ButtonId,
    chosen: Option<Binding>,
) -> bool {
    match chosen {
        Some(binding) => {
            &&& after == before.with_complete_binding(button, binding)
            &&& effects == saved_if(before.stored_key() is Some)
        },
        None => after == before && effects == Seq::<UiEffect>::empty(),
    }
}

/// A slot's binding, unless it is a single action.
fn only_gesture(slot: Option<Binding>) -> (kept: Option<Binding>)
    ensures
        kept == gesture_slot(slot),
{
    match slot {
        Some(Binding::Single(_)) => None,
        other => other,
    }
}

/// Binding a button to a single action shows that action, wherever the binding is
/// stored.
pub proof fn law_committed_action_is_shown(state: AppModel, button: ButtonId, action: Action)
    ensures
        state.with_complete_binding(button, Binding::Single(action)).button_bindings.slot(button)
            == Some(action),
{
    let after = state.with_complete_binding(button, Binding::Single(action));
    match state.stored_key() {
        Some(key) => {
            let other = if button == ButtonId::LeftClick {
                ButtonId::RightClick
            } else {
                ButtonId::LeftClick
            };
            crate::gui::gesture_presets::law_scoped_replacement_is_local(
                state.config,
                key,
                state.app,
                button,
                Binding::Single(action),
                other,
                state.app,
            );
            assert(after.stored_key() == Some(key));
            assert(after.effective().slot(button) == Some(Binding::Single(action)));
        },
        None => {
            crate::button_map::law_button_read_after_write(
                state.button_bindings,
                button,
                button,
                Some(action),
            );
        },
    }
}

/// Nothing is ever stored for a half-read probe: its settings are sent or shown,
/// but the configuration stays as it is and is not written.
pub proof fn law_probe_settings_are_not_stored(
    state: AppModel,
    record: DeviceRecord,
    device: DeviceModel,
    button: ButtonId,
    binding: Binding,
    expected: SmartShiftStatus,
    command: spec_fn(DeviceRoute) -> Command,
)
    requires
        state.record() == Some(record),
        !record.persistent,
    ensures
        state.with_stored_device(device).config == state.config,
        state.with_complete_binding(button, binding).config == state.config,
        state.with_smartshift_write(expected).config == state.config,
        !sent_and_saved(state, command).contains(UiEffect::SaveAndReload),
{
    let effects = sent_and_saved(state, command);
    assert forall|i: int| 0 <= i < effects.len() implies effects[i] != UiEffect::SaveAndReload by {}
}

/// The confirming read of an older write never decides about a newer one: neither
/// the shown value nor the outcome changes.
pub proof fn law_older_read_does_not_resolve_newer_write(
    state: AppModel,
    record: DeviceRecord,
    first: SmartShiftStatus,
    second: SmartShiftStatus,
    route: DeviceRoute,
    result: Result<SmartShiftStatus, WriteError>,
)
    requires
        state.record() == Some(record),
        record.route is Some,
        state.next_write < u64::MAX,
    ensures
        ({
            let older = state.next_write;
            let after = state.with_smartshift_write(first).with_smartshift_write(second);
            after.with_smartshift_read(record.config_key@, route, Some(older), result) == after
        }),
{
    let once = state.with_smartshift_write(first);
    assert(once.record() == Some(record));
}

/// The confirming read of the last write settles it: confirmed where the device has
/// the written value, failed where it has another.
pub proof fn law_confirming_read_settles_the_write(
    state: AppModel,
    record: DeviceRecord,
    route: DeviceRoute,
    expected: SmartShiftStatus,
    actual: SmartShiftStatus,
)
    requires
        state.record() == Some(record),
        record.route == Some(route),
        state.is_routed(record.config_key@, route),
    ensures
        ({
            let key = record.config_key@;
            let written = state.with_smartshift_write(expected);
            let after = written.with_smartshift_read(
                key,
                route,
                Some(state.next_write),
                Ok(actual),
            );
            &&& after.write_status_of(key) == Some(
                if actual == expected {
                    SmartShiftWriteStatus::Confirmed
                } else {
                    SmartShiftWriteStatus::Failed
                },
            )
            &&& after.smartshift_data.state(key) == LoadModel::Ready(actual)
        }),
{
}

/// A resolution that is read for another device than the selected one does not
/// change the shown value.
pub proof fn law_background_read_is_not_shown(
    state: AppModel,
    key: Seq<char>,
    route: DeviceRoute,
    result: Result<DpiInfo, WriteError>,
)
    requires
        state.current_key() != Some(key),
    ensures
        state.with_dpi_read(key, route, result).dpi == state.dpi,
{
}

/// A device that comes back on another route is read afresh; one that stays where
/// it was keeps what was read.
pub proof fn law_rerouted_device_is_read_afresh(
    state: AppModel,
    cards: Map<Seq<char>, DeviceRecord>,
    order: Seq<Seq<char>>,
    current: int,
    key: Seq<char>,
)
    requires
        state.devices.contains_key(key),
        cards.contains_key(key),
    ensures
        ({
            let after = state.with_cards(cards, order, current);
            if opt_route(state.devices[key].route) == opt_route(cards[key].route) {
                &&& after.dpi_data.state(key) == state.dpi_data.state(key)
                &&& after.smartshift_data.state(key) == state.smartshift_data.state(key)
                &&& after.write_status_of(key) == state.write_status_of(key)
            } else {
                &&& after.dpi_data.state(key) is Unknown
                &&& after.smartshift_data.state(key) is Unknown
                &&& after.write_status_of(key) is None
                &&& !after.pending.contains_key(key)
            }
        }),
{
}

/// What is shown of the bindings: of each button its click action, and of those with a
/// gesture or a Pan that.
pub proof fn law_shown_bindings_follow_the_stored(stored: ButtonMap<Binding>, button: ButtonId)
    ensures
        click_map(stored).slot(button) == Some(click_projection(stored.slot(button), button)),
        stored.slot(button) is None ==> gesture_map(stored).slot(button) is None,
        stored.slot(button) matches Some(binding) ==> (binding is Single ==> gesture_map(
            stored,
        ).slot(button) is None) && (!(binding is Single) ==> gesture_map(stored).slot(button)
            == Some(binding)),
{
}

/// Which device is the current one: the one at its place in the order; and where its
/// settings are: under its own key where it can be stored, and nowhere otherwise.
pub proof fn law_current_device_is_at_its_place(state: AppModel)
    ensures
        0 <= state.current < state.order.len() ==> state.current_key() == Some(
            state.order[state.current],
        ) && state.record() == Some(state.devices[state.order[state.current]]),
        !(0 <= state.current < state.order.len()) ==> state.current_key() is None && state.record()
            is None && state.stored_key() is None,
        state.record() matches Some(record) ==> (record.persistent ==> state.stored_key() == Some(
            record.config_key@,
        ) && state.stored_device() == state.config.device(record.config_key@)) && (
        !record.persistent ==> state.stored_key() is None && state.stored_device()
            == DeviceModel::fresh()),
        state.record() is None ==> state.stored_device() == DeviceModel::fresh(),
{
}

/// Which resolution is shown: the one read from the device, and sixteen hundred until one
/// is.
pub proof fn law_resolution_is_the_read_one(state: AppModel, key: Seq<char>, info: DpiInfo)
    ensures
        state.current_key() is None ==> state.known_dpi() == 1600,
        state.current_key() == Some(key) && state.dpi_data.state(key) == LoadModel::Ready(info)
            ==> state.known_dpi() == info.current,
        state.current_key() == Some(key) && !(state.dpi_data.state(key) is Ready)
            ==> state.known_dpi() == 1600,
        state.with_display().dpi == state.known_dpi(),
        state.with_display().config == state.config,
        state.with_display().devices == state.devices,
        state.with_display().current == state.current,
{
}

/// What storing settings of the current device does: its own settings become the given
/// ones and nothing else of the configuration changes; of a device that cannot be stored
/// nothing changes at all.
pub proof fn law_settings_are_stored_under_the_key(
    state: AppModel,
    device: DeviceModel,
    key: Seq<char>,
    other: Seq<char>,
)
    ensures
        state.stored_key() is None ==> state.with_stored_device(device) == state,
        state.stored_key() == Some(key) ==> {
            let after = state.with_stored_device(device);
            &&& after.config.device(key) == device
            &&& other != key ==> after.config.device(other) == state.config.device(other)
            &&& after.config.app_settings == state.config.app_settings
            &&& after.config.selected_device == state.config.selected_device
            &&& after.devices == state.devices && after.current == state.current && after.order
                == state.order && after.dpi == state.dpi
        },
{
}

/// Changing the application's settings changes nothing else.
pub proof fn law_app_settings_are_stored(state: AppModel, settings: AppSettings)
    ensures
        state.with_settings(settings).config.app_settings == settings,
        state.with_settings(settings).config.devices == state.config.devices,
        state.with_settings(settings).config.selected_device == state.config.selected_device,
        state.with_settings(settings).devices == state.devices,
        state.with_settings(settings).current == state.current,
{
}

/// Which binding a button has in full: the one in force, or its default; and none for a
/// device that cannot be stored.
pub proof fn law_complete_binding_is_in_force(state: AppModel, button: ButtonId)
    ensures
        state.stored_key() is None ==> state.complete_binding(button) is None,
        state.stored_key() is Some && state.effective().slot(button) is Some
            ==> state.complete_binding(button) == state.effective().slot(button),
        state.stored_key() is Some && state.effective().slot(button) is None
            ==> state.complete_binding(button) == Some(crate::binding::default_for(button)),
{
}

/// What committing a binding does: it is stored in the application in front, or for the
/// device, and shown; of a device that cannot be stored an action is only shown.
pub proof fn law_binding_is_committed(
    state: AppModel,
    button: ButtonId,
    binding: Binding,
    key: Seq<char>,
    action: Action,
    other: ButtonId,
)
    ensures
        state.stored_key() == Some(key) && state.app is None ==> state.with_complete_binding(
            button,
            binding,
        ).config.device(key).bindings.slot(button) == Some(binding),
        state.stored_key() == Some(key) && state.app is Some ==> {
            let after = state.with_complete_binding(button, binding).config.device(key);
            &&& after.bindings == state.config.device(key).bindings
            &&& after.per_app_bindings.contains_key(state.app->0)
            &&& after.per_app_bindings[state.app->0].slot(button) == Some(binding)
        },
        state.stored_key() is None ==> {
            let after = state.with_complete_binding(button, binding);
            &&& after.config == state.config
            &&& !(binding is Single) ==> after == state
            &&& binding == Binding::Single(action) ==> after.button_bindings.slot(button) == Some(
                action,
            )
            &&& other != button ==> after.button_bindings.slot(other)
                == state.button_bindings.slot(other)
        },
{
    if state.stored_key() == Some(key) {
        let bundle = if state.app is Some {
            state.app->0
        } else {
            Seq::<char>::empty()
        };
        crate::gui::gesture_presets::law_binding_is_put_in_its_scope(
            state.config,
            key,
            bundle,
            button,
            binding,
            key,
        );
    }
    if let Binding::Single(shown) = binding {
        crate::button_map::law_bound_until_removed(state.button_bindings, button, shown);
    }
}

/// What a change has carried out: it is sent where the device has a route, and then saved
/// where it can be stored; without a device nothing is.
pub proof fn law_changes_are_sent_and_saved(
    state: AppModel,
    record: DeviceRecord,
    route: DeviceRoute,
    command: spec_fn(DeviceRoute) -> Command,
)
    ensures
        state.record() is None ==> sent_and_saved(state, command).len() == 0,
        state.record() == Some(record) && record.route == Some(route) && record.persistent
            ==> sent_and_saved(state, command) == seq![
            UiEffect::Send(command(route)),
            UiEffect::SaveAndReload,
        ],
        state.record() == Some(record) && record.route == Some(route) && !record.persistent
            ==> sent_and_saved(state, command) == seq![UiEffect::Send(command(route))],
        state.record() == Some(record) && record.route is None && record.persistent
            ==> sent_and_saved(state, command) == seq![UiEffect::SaveAndReload],
        state.record() == Some(record) && record.route is None && !record.persistent
            ==> sent_and_saved(state, command).len() == 0,
        saved_if(true) == seq![UiEffect::SaveAndReload],
        saved_if(false).len() == 0,
{
}

/// Which errors are for good, and which answer settles a write: the same value confirms
/// it, another or an error fails it, and without an answer it stays open.
pub proof fn law_answers_settle_writes(
    error: WriteError,
    expected: SmartShiftStatus,
    actual: SmartShiftStatus,
    load: LoadModel<SmartShiftStatus>,
)
    ensures
        is_permanent_dpi_error(error) <==> error is FeatureUnsupported || error is EmptyDpiList,
        write_outcome(expected, Some(LoadModel::Ready(expected))) == Some(
            SmartShiftWriteStatus::Confirmed,
        ),
        actual != expected ==> write_outcome(expected, Some(LoadModel::Ready(actual))) == Some(
            SmartShiftWriteStatus::Failed,
        ),
        load is Failed || load is Unsupported ==> write_outcome(expected, Some(load)) == Some(
            SmartShiftWriteStatus::Failed,
        ),
        load is Unknown || load is Loading ==> write_outcome(expected, Some(load)) is None,
        write_outcome(expected, None) is None,
{
}

/// Which readings count: while a write is being applied only the one made for it, and
/// otherwise only those made for none.
pub proof fn law_only_the_current_reading_counts(
    read_id: Option<u64>,
    expected: SmartShiftStatus,
    write_id: u64,
)
    ensures
        read_is_current(read_id, Some(SmartShiftWriteStatus::Applying { expected, write_id }))
            <==> read_id == Some(write_id),
        read_is_current(read_id, Some(SmartShiftWriteStatus::Confirmed)) <==> read_id is None,
        read_is_current(read_id, Some(SmartShiftWriteStatus::Failed)) <==> read_id is None,
        read_is_current(read_id, None) <==> read_id is None,
{
}

/// When scrolling can be inverted: for a device that can be stored, where it reports so,
/// or on macOS where it has a pointer.
pub proof fn law_inversion_needs_a_report(capabilities: Capabilities, persistent: bool, macos: bool)
    ensures
        can_invert(Some(capabilities), persistent, macos) <==> persistent && (
        capabilities.scroll_inversion || macos && capabilities.pointer),
        !can_invert(None, persistent, macos),
{
}

/// What a reading of the resolution does: it is stored for the device, and shown where
/// that is the current one, and only where the device is still reached the same way.
pub proof fn law_resolution_reading_is_stored(
    state: AppModel,
    key: Seq<char>,
    route: DeviceRoute,
    info: DpiInfo,
    error: WriteError,
)
    ensures
        state.is_routed(key, route) <==> state.devices.contains_key(key) && opt_route(
            state.devices[key].route,
        ) == Some(route@),
        state.is_routed(key, route) ==> state.with_dpi_read(
            key,
            route,
            Ok(info),
        ).dpi_data.state(key) == LoadModel::Ready(info),
        state.is_routed(key, route) && state.current_key() == Some(key) ==> state.with_dpi_read(
            key,
            route,
            Ok(info),
        ).dpi == info.current,
        !state.is_routed(key, route) ==> state.with_dpi_read(key, route, Ok(info)).dpi == state.dpi,
        state.with_dpi_read(key, route, Err(error)).dpi == state.dpi,
        state.is_routed(key, route) && (error is FeatureUnsupported || error is EmptyDpiList)
            ==> state.with_dpi_read(key, route, Err(error)).dpi_data.state(key)
            == LoadModel::<DpiInfo>::Unsupported(error.text()),
        state.with_dpi_read(key, route, Ok(info)).config == state.config,
        state.with_dpi_read(key, route, Ok(info)).smartshift_data == state.smartshift_data,
{
}

/// What writing a wheel mode does: it is shown as read, stored where the device can be,
/// and applied under a number of its own where the device has a route; without a route
/// it has failed.
pub proof fn law_wheel_mode_is_written(
    state: AppModel,
    record: DeviceRecord,
    expected: SmartShiftStatus,
)
    ensures
        state.record() is None ==> state.with_smartshift_write(expected) == state,
        state.record() == Some(record) ==> {
            let after = state.with_smartshift_write(expected);
            let key = record.config_key@;
            &&& after.smartshift_data.state(key) == LoadModel::Ready(expected)
            &&& record.route is Some ==> after.write_status_of(key) == Some(
                SmartShiftWriteStatus::Applying { expected, write_id: state.next_write },
            ) && after.pending.contains_key(key) && after.pending[key] == state.next_write
            &&& record.route is Some && state.next_write < u64::MAX ==> after.next_write
                == state.next_write + 1
            &&& record.route is None ==> after.write_status_of(key) == Some(
                SmartShiftWriteStatus::Failed,
            ) && after.next_write == state.next_write && after.pending == state.pending
            &&& record.persistent ==> (after.config.device(key).smartshift matches Some(stored)
                && (stored.mode is Free <==> expected.mode is Free) && stored.auto_disengage
                == expected.auto_disengage && stored.tunable_torque == expected.tunable_torque)
            &&& !record.persistent ==> after.config == state.config
            &&& after.dpi == state.dpi
        },
{
}

/// What a reading of the wheel mode does: one that does not count changes nothing; one
/// that does is stored for the device.
pub proof fn law_wheel_reading_is_stored(
    state: AppModel,
    key: Seq<char>,
    route: DeviceRoute,
    write_id: Option<u64>,
    status: SmartShiftStatus,
)
    ensures
        !read_is_current(write_id, state.write_status_of(key)) ==> state.with_smartshift_read(
            key,
            route,
            write_id,
            Ok(status),
        ) == state,
        read_is_current(write_id, state.write_status_of(key)) && state.is_routed(key, route)
            ==> state.with_smartshift_read(
            key,
            route,
            write_id,
            Ok(status),
        ).smartshift_data.state(key) == LoadModel::Ready(status),
        read_is_current(write_id, state.write_status_of(key)) && write_id is None
            ==> state.with_smartshift_read(key, route, write_id, Ok(status)).write_status
            == state.write_status,
        state.with_smartshift_read(key, route, write_id, Ok(status)).config == state.config,
        state.with_smartshift_read(key, route, write_id, Ok(status)).dpi_data == state.dpi_data,
        state.write_status.contains_key(key) ==> state.write_status_of(key) == Some(
            state.write_status[key],
        ),
        !state.write_status.contains_key(key) ==> state.write_status_of(key) is None,
{
}

/// The sensitivity stays between one and a hundred, and within them as it is.
pub proof fn law_sensitivity_is_kept_in_range(sensitivity: i32)
    ensures
        sensitivity < 1 ==> clamped_sensitivity(sensitivity) == 1,
        1 <= sensitivity <= 100 ==> clamped_sensitivity(sensitivity) == sensitivity,
        sensitivity > 100 ==> clamped_sensitivity(sensitivity) == 100,
{
}

/// What selecting a device does: it becomes the current one; a reading of it that failed
/// is to be made again, with the write that failed on it forgotten, and everything else
/// that was read stays.
pub proof fn law_selection_reads_failures_again(
    state: AppModel,
    index: int,
    key: Seq<char>,
    other: Seq<char>,
)
    requires
        0 <= index < state.order.len(),
        state.order[index] == key,
        other != key,
    ensures
        ({
            let after = state.with_selection(index);
            &&& after.current == index
            &&& after.current_key() == Some(key)
            &&& state.dpi_data.state(key) is Failed ==> after.dpi_data.state(key) is Unknown
            &&& !(state.dpi_data.state(key) is Failed) ==> after.dpi_data == state.dpi_data
            &&& state.smartshift_data.state(key) is Failed ==> after.smartshift_data.state(key)
                is Unknown && after.write_status_of(key) is None
            &&& !(state.smartshift_data.state(key) is Failed) ==> after.smartshift_data
                == state.smartshift_data && after.write_status == state.write_status
            &&& after.dpi_data.state(other) == state.dpi_data.state(other)
            &&& after.smartshift_data.state(other) == state.smartshift_data.state(other)
            &&& after.config == state.config
            &&& after.devices == state.devices
        }),
{
}

/// What storing a selection does: the key of a device that can be stored becomes the
/// selected one, and nothing else changes.
pub proof fn law_selection_is_stored(before: AppModel, after: AppModel, key: Seq<char>)
    requires
        is_selection_stored(before, after),
    ensures
        before.stored_key() is None ==> after == before,
        before.stored_key() == Some(key) ==> opt_text(after.config.selected_device) == Some(key)
            && after.config.devices == before.config.devices && after.config.app_settings
            == before.config.app_settings && after.devices == before.devices && after.current
            == before.current,
{
}

/// Which place is selected: that of the key where it is listed, and the first otherwise.
pub proof fn law_key_is_selected(order: Seq<Seq<char>>, current: int, key: Seq<char>)
    ensures
        selects(order, current, None) <==> current == 0,
        selects(order, current, Some(key)) && order.contains(key) ==> 0 <= current < order.len()
            && order[current] == key,
        selects(order, current, Some(key)) && !order.contains(key) ==> current == 0,
{
}

/// Which devices are recorded: those online that can be stored and have reported what
/// they can do, where what is recorded of them differs; and what is recorded is free of
/// the owner's traces.
pub proof fn law_what_is_recorded(
    config: ConfigModel,
    cards: Map<Seq<char>, DeviceRecord>,
    key: Seq<char>,
    record: DeviceRecord,
    identity: DeviceIdentity,
)
    ensures
        is_recordable(record) <==> record.online && record.persistent && record.capabilities
            is Some,
        cards.contains_key(key) && cards[key] == record && config.device(key).identity is None
            ==> (is_news(config, cards, key) <==> record.online && record.persistent
            && record.capabilities is Some),
        !cards.contains_key(key) ==> !is_news(config, cards, key),
        cards.contains_key(key) && config.device(key).identity == Some(identity) && describes(
            identity,
            cards[key],
        ) ==> !is_news(config, cards, key),
        describes(identity, record) ==> {
            &&& identity.display_name@ == record.display_name@
            &&& identity.kind == record.kind
            &&& record.capabilities == Some(identity.capabilities)
            &&& same_text(identity.codename, record.codename)
            &&& identity.model_info is Some <==> record.model_info is Some
            &&& identity.model_info matches Some(known) ==> known.serial_number is None
                && known.unit_id@ == seq![0u8, 0u8, 0u8, 0u8] && known.model_ids@
                == record.model_info->0.model_ids@ && known.extended_model_id
                == record.model_info->0.extended_model_id && known.transports
                == record.model_info->0.transports && known.entity_count
                == record.model_info->0.entity_count
        },
{
}

/// When two lists of cards look alike: when they list the same devices, each reached the
/// same way, as much online and able to do the same.
pub proof fn law_lists_look_alike(
    a: Map<Seq<char>, DeviceRecord>,
    b: Map<Seq<char>, DeviceRecord>,
    key: Seq<char>,
)
    requires
        same_cards(a, b),
    ensures
        a.contains_key(key) <==> b.contains_key(key),
        a.contains_key(key) ==> opt_route(a[key].route) == opt_route(b[key].route) && a[key].online
            == b[key].online && a[key].capabilities == b[key].capabilities,
        same_cards(b, a),
{
}

/// Two lists that agree in that look alike.
pub proof fn law_agreeing_lists_look_alike(
    a: Map<Seq<char>, DeviceRecord>,
    b: Map<Seq<char>, DeviceRecord>,
)
    requires
        forall|key: Seq<char>| #[trigger] a.contains_key(key) <==> b.contains_key(key),
        forall|key: Seq<char>| #[trigger]
            a.contains_key(key) ==> opt_route(a[key].route) == opt_route(b[key].route)
                && a[key].online == b[key].online && a[key].capabilities == b[key].capabilities,
    ensures
        same_cards(a, b),
{
    assert forall|key: Seq<char>| #[trigger] b.contains_key(key) implies a.contains_key(key)
        && same_card(b[key], a[key]) by {
        assert(a.contains_key(key));
    }
}

/// What a new list does: it takes the place of the old one; what was read of a device
/// that is still reached the same way stays, and of any other it is forgotten.
pub proof fn law_new_list_keeps_what_holds(
    state: AppModel,
    cards: Map<Seq<char>, DeviceRecord>,
    order: Seq<Seq<char>>,
    current: int,
    key: Seq<char>,
)
    ensures
        ({
            let after = state.with_cards(cards, order, current);
            let holds = cards.contains_key(key) && (!state.devices.contains_key(key) || opt_route(
                state.devices[key].route,
            ) == opt_route(cards[key].route));
            &&& after.devices == cards && after.order == order && after.current == current
            &&& after.config == state.config
            &&& settled(state.devices, cards).contains(key) <==> holds
            &&& holds ==> after.dpi_data.state(key) == state.dpi_data.state(key)
                && after.smartshift_data.state(key) == state.smartshift_data.state(key)
                && after.write_status_of(key) == state.write_status_of(key)
            &&& !holds ==> after.dpi_data.state(key) is Unknown && after.smartshift_data.state(
                key,
            ) is Unknown && after.write_status_of(key) is None && !after.pending.contains_key(key)
        }),
{
}

/// What a snapshot does: it is merged into the list, what is new is recorded and then
/// saved, and the list is shown anew exactly where it looks different or it is asked for;
/// the current device stays the current one while it is listed.
pub proof fn law_snapshot_is_applied(
    before: AppModel,
    after: AppModel,
    snapshot: Map<Seq<char>, DeviceRecord>,
    keys: Seq<Seq<char>>,
    force: bool,
    refresh: Refresh,
    key: Seq<char>,
)
    requires
        is_snapshot_applied(before, after, snapshot, keys, force, refresh),
    ensures
        ({
            let (cards, misses) = merge_result(before.devices, before.misses, snapshot, keys);
            &&& refresh.changed <==> force || !same_cards(cards, before.devices)
            &&& is_news(before.config, cards, key) ==> refresh.save
            &&& after.misses == misses
            &&& refresh.changed ==> after.devices == cards
            &&& !refresh.changed ==> after.devices == before.devices && after.current
                == before.current
            &&& refresh.changed && before.current_key() == Some(key) && cards.contains_key(key)
                ==> after.current_key() == Some(key)
            &&& after.config.app_settings == before.config.app_settings
            &&& after.config.selected_device == before.config.selected_device
        }),
{
    let (cards, misses) = merge_result(before.devices, before.misses, snapshot, keys);
    if refresh.changed && before.current_key() == Some(key) && cards.contains_key(key) {
        assert(after.order.contains(key));
    }
}

/// When two states of the link are the same.
pub proof fn law_same_links(a: AgentLink, b: AgentLink, s: AgentStatus, t: AgentStatus)
    ensures
        a.same_as(b) ==> (a is Connecting <==> b is Connecting) && (a is Unreachable
            <==> b is Unreachable) && (a is OutdatedGui <==> b is OutdatedGui) && (a is Ready
            <==> b is Ready),
        !(a is Ready) && a == b ==> a.same_as(b),
        AgentLink::Ready(s).same_as(AgentLink::Ready(t)) <==> s.same_as(t),
{
}

/// What is committed: what was chosen, saved where the device can be stored; and where
/// nothing was, nothing changes.
pub proof fn law_choice_is_committed(
    before: AppModel,
    after: AppModel,
    effects: Seq<UiEffect>,
    button: ButtonId,
    chosen: Option<Binding>,
    binding: Binding,
)
    requires
        is_binding_committed(before, after, effects, button, chosen),
    ensures
        chosen is None ==> after == before && effects.len() == 0,
        chosen == Some(binding) ==> after == before.with_complete_binding(button, binding),
        chosen is Some && before.stored_key() is Some ==> effects == seq![UiEffect::SaveAndReload],
        chosen is Some && before.stored_key() is None ==> effects.len() == 0,
{
}

/// Which models assets are looked up for: those of the listed devices that report one,
/// with their codename, in their order.
pub proof fn law_models_are_listed(
    cards: Map<Seq<char>, DeviceRecord>,
    order: Seq<Seq<char>>,
    n: int,
)
    requires
        0 <= n < order.len(),
    ensures
        cards[order[n]].model_info is None ==> models_of(cards, order, n + 1) == models_of(
            cards,
            order,
            n,
        ),
        cards[order[n]].model_info matches Some(model) ==> {
            &&& models_of(cards, order, n + 1).len() == models_of(cards, order, n).len() + 1
            &&& models_of(cards, order, n + 1).last() == (model, cards[order[n]].codename)
            &&& models_of(cards, order, n + 1).drop_last() == models_of(cards, order, n)
        },
        models_of(cards, order, 0).len() == 0,
        MONITOR_HISTORY == 200,
{
    if cards[order[n]].model_info is Some {
        assert(models_of(cards, order, n + 1).drop_last() =~= models_of(cards, order, n));
    }
}

/// What the window's state shows is what it holds.
pub proof fn law_state_shows_itself(state: AppState)
    ensures
        state@.current == state.current_device,
        state@.app == opt_text(state.current_app_bundle),
        state@.link == state.agent_link,
        state@.button_bindings == state.button_bindings,
        state@.gesture_bindings == state.gesture_bindings,
        state@.dpi == state.dpi,
        state@.devices == state.device_list@,
        state@.order == state.device_list.keys(),
        state@.config == state.config@,
        state@.misses == state.inventory_misses@,
        state@.pending == state.smartshift_pending_confirm@,
        state@.write_status == state.smartshift_write_status@,
        state@.next_write == state.next_smartshift_write_id,
        state@.active_button == state.active_button,
        state@.monitor_events == state.monitor_events@,
{
}

} // verus!
