//! User configuration.
//!
//! Per-device state lives under [`Config::devices`], keyed by a stable
//! physical-device identifier such as `"receiver:abc123:slot:2"`.

use crate::binding::{
    default_binding_for, default_for, Action, Binding, ButtonId, DirectionMap, GestureDirection,
};
use crate::button_map::ButtonMap;
use crate::text;
use crate::text_map::TextMap;
use vstd::prelude::*;

pub mod device;
pub mod settings;

pub use device::{DeviceConfig, DeviceIdentity, DeviceModel, RawDeviceConfig};
pub use settings::{
    AppSettings, Appearance, AssetSourcePreference, Lighting, ScrollResolution, SmartShift,
    WheelMode, DEFAULT_THUMBWHEEL_SENSITIVITY, MAX_THUMBWHEEL_SENSITIVITY,
    MIN_THUMBWHEEL_SENSITIVITY,
};

verus! {

/// The schema version that is written. Earlier versions are migrated when they
/// are read: the first split the bindings over two maps, the second merged them,
/// the third keyed devices physically and had a single gesture owner per device.
pub const SCHEMA_VERSION: u32 = 4;

/// The schema version whose per-device gesture owner is consumed on load.
pub const OWNER_SCHEMA_VERSION: u32 = 3;

/// Top-level configuration document.
#[derive(Debug)]
pub struct Config {
    /// Schema version of the document.
    pub schema_version: u32,
    /// Preferences that are not tied to a device.
    pub app_settings: AppSettings,
    /// Key of the carousel-selected device; `None` falls back to the first.
    pub selected_device: Option<String>,
    /// Per-device state, keyed by the stable physical-device identifier.
    pub devices: TextMap<DeviceConfig>,
}

/// The mathematical content of a [`Config`].
#[verifier::ext_equal]
pub struct ConfigModel {
    /// Schema version of the document.
    pub schema_version: u32,
    /// Preferences that are not tied to a device.
    pub app_settings: AppSettings,
    /// Key of the carousel-selected device.
    pub selected_device: Option<String>,
    /// Per-device state.
    pub devices: Map<Seq<char>, DeviceModel>,
}

impl ConfigModel {
    /// A configuration without any devices.
    pub open spec fn fresh() -> ConfigModel {
        ConfigModel {
            schema_version: SCHEMA_VERSION,
            app_settings: AppSettings::fresh(),
            selected_device: None,
            devices: Map::empty(),
        }
    }

    /// A device's settings; fresh ones when it has no entry.
    pub open spec fn device(self, key: Seq<char>) -> DeviceModel {
        if self.devices.contains_key(key) {
            self.devices[key]
        } else {
            DeviceModel::fresh()
        }
    }

    /// The configuration with one device's settings replaced.
    pub open spec fn with_device(self, key: Seq<char>, device: DeviceModel) -> ConfigModel {
        ConfigModel { devices: self.devices.insert(key, device), ..self }
    }

    /// The bindings in effect on a device while an application is in front.
    pub open spec fn effective(self, key: Seq<char>, app: Option<Seq<char>>) -> ButtonMap<Binding> {
        if self.devices.contains_key(key) {
            self.devices[key].effective(app)
        } else {
            ButtonMap::empty()
        }
    }

    /// What a button does after one direction of its gesture is set: it starts
    /// from its binding or its default, a single action becomes the click of a
    /// gesture map, and a Pan binding stays as it is.
    pub open spec fn direction_set(
        self,
        key: Seq<char>,
        button: ButtonId,
        direction: GestureDirection,
        action: Action,
    ) -> Binding {
        let start = match self.device(key).bindings.slot(button) {
            Some(binding) => binding,
            None => default_for(button),
        };
        match start.upgraded() {
            Binding::Gesture(map) => Binding::Gesture(map.with(direction, action)),
            other => other,
        }
    }
}

impl View for Config {
    type V = ConfigModel;

    open spec fn view(&self) -> ConfigModel {
        ConfigModel {
            schema_version: self.schema_version,
            app_settings: self.app_settings,
            selected_device: self.selected_device,
            devices: device_models(self.devices@),
        }
    }
}

/// The content of every device's settings.
pub open spec fn device_models(devices: Map<Seq<char>, DeviceConfig>) -> Map<
    Seq<char>,
    DeviceModel,
> {
    devices.map_values(|device: DeviceConfig| device@)
}

impl Default for Config {
    fn default() -> (config: Self)
        ensures
            config@ == ConfigModel::fresh(),
    {
        let config = Config {
            schema_version: SCHEMA_VERSION,
            app_settings: AppSettings::default(),
            selected_device: None,
            devices: TextMap::new(),
        };
        assert(config@ =~= ConfigModel::fresh());
        config
    }
}

/// A document as read from a configuration file of any schema.
#[derive(Debug)]
pub struct RawConfig {
    /// Schema version that the file declares.
    pub schema_version: u32,
    /// Preferences that are not tied to a device.
    pub app_settings: AppSettings,
    /// Key of the carousel-selected device.
    pub selected_device: Option<String>,
    /// Per-device state as written.
    pub devices: TextMap<RawDeviceConfig>,
}

/// Why a document cannot be used.
#[derive(Clone, Copy, Debug, PartialEq, Eq, Structural)]
pub enum SchemaError {
    /// The document declares a version newer than this build understands;
    /// failing loudly avoids silently dropping what a newer build wrote.
    UnsupportedSchemaVersion {
        /// The declared version.
        found: u32,
    },
}

/// What a device's raw settings become when a document of this version is
/// read: folded into the current shape, and — for the schema that had one —
/// with the gesture owner consumed.
pub open spec fn migrated_device(raw: RawDeviceConfig, version: u32, device: DeviceModel) -> bool {
    exists|owner: Option<device::LegacyGestureOwner>| #[trigger]
        raw.records_owner(owner) && device == if version == OWNER_SCHEMA_VERSION {
            raw.folded(owner).owner_normalized()
        } else {
            raw.folded(owner)
        }
}

impl Config {
    /// Bring a document of any known schema into the current one.
    ///
    /// Any version up to the current one is accepted. Only a newer document is
    /// refused, so that a downgraded build refuses to load (and later wipe) a
    /// configuration it cannot represent.
    pub fn migrate(raw: RawConfig) -> (config: Result<Config, SchemaError>)
        ensures
            match config {
                Err(SchemaError::UnsupportedSchemaVersion { found }) => raw.schema_version
                    > SCHEMA_VERSION && found == raw.schema_version,
                Ok(config) => {
                    &&& raw.schema_version <= SCHEMA_VERSION
                    &&& config@.schema_version == SCHEMA_VERSION
                    &&& config@.app_settings == raw.app_settings
                    &&& config@.selected_device == raw.selected_device
                    &&& config@.devices.dom() == raw.devices@.dom()
                    &&& forall|key: Seq<char>| #[trigger]
                        config@.devices.contains_key(key) ==> migrated_device(
                            raw.devices@[key],
                            raw.schema_version,
                            config@.devices[key],
                        )
                },
            },
    {
        if raw.schema_version > SCHEMA_VERSION {
            return Err(SchemaError::UnsupportedSchemaVersion { found: raw.schema_version });
        }
        let version: u32 = raw.schema_version;
        let ghost all = raw.devices@;
        let mut rest = raw.devices;
        let mut devices: TextMap<DeviceConfig> = TextMap::new();
        let mut more = true;
        while more
            invariant
                forall|k: Seq<char>| #[trigger] rest@.contains_key(k) ==> all.contains_key(k)
                    && rest@[k] == all[k],
                forall|k: Seq<char>| #[trigger] devices@.contains_key(k) ==> all.contains_key(k)
                    && migrated_device(all[k], version, devices@[k]@),
                forall|k: Seq<char>| #[trigger]
                    all.contains_key(k) ==> devices@.contains_key(k) || rest@.contains_key(k),
                !more ==> rest@ == Map::<Seq<char>, RawDeviceConfig>::empty(),
            decreases rest.keys().len(), if more { 1int } else { 0 },
        {
            match rest.pop_last() {
                Some((key, settings)) => {
                    let mut device = settings.into_device();
                    let ghost owner = device@.legacy_gesture_owner;
                    if version == OWNER_SCHEMA_VERSION {
                        device.normalize_legacy_gesture_owner();
                    }
                    assert(settings.records_owner(owner));
                    devices.insert(key.as_str(), device);
                },
                None => {
                    more = false;
                },
            }
        }
        let config = Config {
            schema_version: SCHEMA_VERSION,
            app_settings: raw.app_settings,
            selected_device: raw.selected_device,
            devices,
        };
        assert(config@.devices.dom() =~= all.dom());
        Ok(config)
    }

    /// Take a device's settings out to be changed; fresh ones when it has none.
    fn take_device(&mut self, key: &str) -> (device: DeviceConfig)
        ensures
            device@ == old(self)@.device(key@),
            final(self).schema_version == old(self).schema_version,
            final(self).app_settings == old(self).app_settings,
            final(self).selected_device == old(self).selected_device,
            final(self).devices@ == old(self).devices@.remove(key@),
    {
        match self.devices.remove(key) {
            Some(device) => device,
            None => DeviceConfig::default(),
        }
    }

    /// Put a device's changed settings back.
    fn put_device(&mut self, key: &str, device: DeviceConfig)
        ensures
            final(self).schema_version == old(self).schema_version,
            final(self).app_settings == old(self).app_settings,
            final(self).selected_device == old(self).selected_device,
            final(self)@.devices == old(self)@.devices.insert(key@, device@),
    {
        self.devices.insert(key, device);
        assert(self@.devices =~= old(self)@.devices.insert(key@, device@));
    }

    /// The bindings stored for a device, or an empty map when it has none yet.
    #[must_use]
    pub fn bindings_for(&self, device_key: &str) -> (bindings: ButtonMap<Binding>)
        ensures
            bindings == self@.device(device_key@).bindings,
    {
        match self.devices.get(device_key) {
            Some(device) => device.bindings.clone(),
            None => ButtonMap::new(),
        }
    }

    /// Record a button's complete binding on a device, creating the device entry
    /// if needed. Use [`Self::set_gesture_direction`] to edit one direction of a
    /// gesture binding in place.
    pub fn set_binding(&mut self, device_key: &str, button: ButtonId, binding: Binding)
        ensures
            final(self)@ == old(self)@.with_device(
                device_key@,
                (DeviceModel {
                    bindings: old(self)@.device(device_key@).bindings.with(button, binding),
                    ..old(self)@.device(device_key@)
                }),
            ),
    {
        let mut device = self.take_device(device_key);
        device.bindings.insert(button, binding);
        self.put_device(device_key, device);
        assert(self@.devices =~= old(self)@.devices.remove(device_key@).insert(device_key@, self@.devices[device_key@]));
    }

    /// The gesture sub-bindings of a device's gesture button, or an empty map if
    /// it isn't in gesture mode.
    #[must_use]
    pub fn gesture_bindings_for(&self, device_key: &str) -> (directions: DirectionMap)
        ensures
            directions == match self@.device(device_key@).bindings.gesture_button {
                Some(Binding::Gesture(map)) => map,
                _ => DirectionMap::empty(),
            },
    {
        match self.devices.get(device_key) {
            Some(device) => match device.bindings.get(ButtonId::GestureButton) {
                Some(Binding::Gesture(map)) => map.clone(),
                _ => DirectionMap::new(),
            },
            None => DirectionMap::new(),
        }
    }

    /// Record the action for one direction of a button's gesture binding,
    /// creating the device entry if needed.
    ///
    /// A button with no binding yet is seeded from its canonical default — for
    /// the gesture button that is the full default direction map, so its click is
    /// never a no-op. A prior single action is kept as the click entry.
    pub fn set_gesture_direction(
        &mut self,
        device_key: &str,
        button: ButtonId,
        direction: GestureDirection,
        action: Action,
    )
        ensures
            final(self)@ == old(self)@.with_device(
                device_key@,
                (DeviceModel {
                    bindings: old(self)@.device(device_key@).bindings.with(
                        button,
                        old(self)@.direction_set(device_key@, button, direction, action),
                    ),
                    ..old(self)@.device(device_key@)
                }),
            ),
    {
        let mut device = self.take_device(device_key);
        let mut binding = match device.bindings.remove(button) {
            Some(binding) => binding,
            None => default_binding_for(button),
        };
        binding.upgrade_to_gesture();
        if let Binding::Gesture(map) = &mut binding {
            map.insert(direction, action);
        }
        device.bindings.insert(button, binding);
        self.put_device(device_key, device);
        assert(self@.devices =~= old(self)@.devices.remove(device_key@).insert(device_key@, self@.devices[device_key@]));
    }

    /// The effective binding map for a device, with the overlay of the
    /// application in front (if any) laid over the device's own bindings. An
    /// overlay replaces a button's whole binding; everything else falls through.
    #[must_use]
    pub fn effective_bindings(&self, device_key: &str, bundle_id: Option<&str>) -> (bindings:
        ButtonMap<Binding>)
        ensures
            bindings == self@.effective(device_key@, text::opt_view(bundle_id)),
    {
        let device = match self.devices.get(device_key) {
            Some(device) => device,
            None => {
                return ButtonMap::new();
            },
        };
        let mut out = device.bindings.clone();
        if let Some(bundle) = bundle_id {
            if let Some(overlay) = device.per_app_bindings.get(bundle) {
                out.overlay(overlay);
            }
        }
        out
    }

    /// Record a per-application override, creating the device and application
    /// entries as needed. A binding of `None` removes the override; overlays that
    /// bind nothing are dropped.
    pub fn set_per_app_binding(
        &mut self,
        device_key: &str,
        bundle_id: &str,
        button: ButtonId,
        binding: Option<Binding>,
    )
        ensures
            final(self)@ == old(self)@.with_device(
                device_key@,
                old(self)@.device(device_key@).with_app_slot(bundle_id@, button, binding),
            ),
    {
        let mut device = self.take_device(device_key);
        let ghost before = device@;
        let mut overlay = match device.per_app_bindings.remove(bundle_id) {
            Some(overlay) => overlay,
            None => ButtonMap::new(),
        };
        match binding {
            Some(binding) => {
                overlay.insert(button, binding);
            },
            None => {
                let _ = overlay.remove(button);
            },
        }
        device.per_app_bindings.insert(bundle_id, overlay);
        assert(device@.per_app_bindings =~= before.per_app_bindings.insert(
            bundle_id@,
            before.overlay(bundle_id@).with_slot(button, binding),
        ));
        device.prune_overlays();
        assert(device@ =~= before.with_app_slot(bundle_id@, button, binding));
        self.put_device(device_key, device);
        assert(self@.devices =~= old(self)@.devices.remove(device_key@).insert(device_key@, self@.devices[device_key@]));
    }

    /// Key of the carousel-selected device, if any.
    #[must_use]
    pub fn selected_device(&self) -> (key: Option<&str>)
        ensures
            match key {
                Some(found) => self@.selected_device matches Some(stored) && stored@ == found@,
                None => self@.selected_device is None,
            },
    {
        match &self.selected_device {
            Some(key) => Some(key.as_str()),
            None => None,
        }
    }

    /// Update the carousel-selected device; `None` clears the selection.
    pub fn set_selected_device(&mut self, key: Option<String>)
        ensures
            final(self)@ == (ConfigModel { selected_device: key, ..old(self)@ }),
    {
        self.selected_device = key;
    }

    /// The ordered DPI preset list of a device; empty when it has none.
    #[must_use]
    pub fn dpi_presets(&self, device_key: &str) -> (presets: Vec<u32>)
        ensures
            presets@ == self@.device(device_key@).dpi_presets,
    {
        match self.devices.get(device_key) {
            Some(device) => copy_presets(&device.dpi_presets),
            None => Vec::new(),
        }
    }

    /// Replace the DPI preset list of a device; an empty list clears it.
    pub fn set_dpi_presets(&mut self, device_key: &str, presets: Vec<u32>)
        ensures
            final(self)@ == old(self)@.with_device(
                device_key@,
                (DeviceModel { dpi_presets: presets@, ..old(self)@.device(device_key@) }),
            ),
    {
        let mut device = self.take_device(device_key);
        device.dpi_presets = presets;
        self.put_device(device_key, device);
        assert(self@.devices =~= old(self)@.devices.remove(device_key@).insert(device_key@, self@.devices[device_key@]));
    }

    /// The last-known identity of a device, or `None` if it has never been seen
    /// online.
    #[must_use]
    pub fn device_identity(&self, device_key: &str) -> (identity: Option<&DeviceIdentity>)
        ensures
            match identity {
                Some(found) => self@.device(device_key@).identity == Some(*found),
                None => self@.device(device_key@).identity is None,
            },
    {
        match self.devices.get(device_key) {
            Some(device) => device.identity.as_ref(),
            None => None,
        }
    }

    /// Record (or refresh) the identity captured for a device while it was online.
    pub fn set_device_identity(&mut self, device_key: &str, identity: DeviceIdentity)
        ensures
            final(self)@ == old(self)@.with_device(
                device_key@,
                (DeviceModel { identity: Some(identity), ..old(self)@.device(device_key@) }),
            ),
    {
        let mut device = self.take_device(device_key);
        device.identity = Some(identity);
        self.put_device(device_key, device);
        assert(self@.devices =~= old(self)@.devices.remove(device_key@).insert(device_key@, self@.devices[device_key@]));
    }

    /// Whether a device has an overlay that binds something for an application.
    #[must_use]
    pub fn has_app_override(&self, device_key: &str, app: &str) -> (overridden: bool)
        ensures
            overridden == (self@.device(device_key@).overlay(app@) != ButtonMap::<
                Binding,
            >::empty()),
    {
        match self.devices.get(device_key) {
            Some(device) => match device.per_app_bindings.get(app) {
                Some(overlay) => !overlay.is_empty(),
                None => false,
            },
            None => false,
        }
    }

    /// Every device with a recorded identity, in key order.
    #[must_use]
    pub fn known_identities(&self) -> (known: Vec<(&str, &DeviceIdentity)>)
        ensures
            forall|i: int, j: int|
                0 <= i < j < known@.len() ==> #[trigger] text::text_less(
                    known@[i].0@,
                    known@[j].0@,
                ),
            forall|i: int|
                0 <= i < known@.len() ==> {
                    &&& self@.devices.contains_key((#[trigger] known@[i]).0@)
                    &&& self@.devices[known@[i].0@].identity == Some(*known@[i].1)
                },
            forall|key: Seq<char>|
                #[trigger] self@.devices.contains_key(key) && self@.devices[key].identity is Some
                    ==> exists|i: int| 0 <= i < known@.len() && (#[trigger] known@[i]).0@ == key,
    {
        let mut known: Vec<(&str, &DeviceIdentity)> = Vec::new();
        let count = self.devices.len();
        let ghost keys = self.devices.keys();
        let ghost mut from: Seq<int> = Seq::empty();
        let mut i: usize = 0;
        while i < count
            invariant
                count == keys.len(),
                keys == self.devices.keys(),
                i <= count,
                from.len() == known@.len(),
                forall|a: int|
                    0 <= a < known@.len() ==> {
                        &&& 0 <= #[trigger] from[a] < i
                        &&& known@[a].0@ == keys[from[a]]
                        &&& self.devices@.contains_key(keys[from[a]])
                        &&& self.devices@[keys[from[a]]].identity == Some(*known@[a].1)
                    },
                forall|a: int, b: int|
                    0 <= a < b < from.len() ==> #[trigger] from[a] < #[trigger] from[b],
                forall|p: int|
                    0 <= p < i && self.devices@[#[trigger] keys[p]].identity is Some
                        ==> from.contains(p),
            decreases count - i,
        {
            let (key, device) = self.devices.entry(i);
            if let Some(identity) = &device.identity {
                let ghost before = from;
                known.push((key, identity));
                proof {
                    from = from.push(i as int);
                    assert(from[from.len() - 1] == i);
                    assert forall|p: int| before.contains(p) implies from.contains(p) by {
                        let a = choose|a: int| 0 <= a < before.len() && before[a] == p;
                        assert(from[a] == p);
                    }
                }
            }
            i += 1;
        }
        proof {
            assert forall|a: int, b: int| 0 <= a < b < known@.len() implies #[trigger] text::text_less(
                known@[a].0@,
                known@[b].0@,
            ) by {
                assert(from[a] < from[b]);
                assert(text::text_less(keys[from[a]], keys[from[b]]));
            }
            assert forall|a: int| 0 <= a < known@.len() implies {
                &&& self@.devices.contains_key((#[trigger] known@[a]).0@)
                &&& self@.devices[known@[a].0@].identity == Some(*known@[a].1)
            } by {
                assert(0 <= from[a] < i);
            }
            assert forall|key: Seq<char>|
                #[trigger] self@.devices.contains_key(key) && self@.devices[key].identity is Some implies exists|
                i: int,
            |
                0 <= i < known@.len() && (#[trigger] known@[i]).0@ == key by {
                assert(self.devices@.contains_key(key));
                assert(keys.contains(key));
                let p = choose|p: int| 0 <= p < keys.len() && keys[p] == key;
                assert(self.devices@[keys[p]].identity is Some);
                let a = choose|a: int| 0 <= a < from.len() && from[a] == p;
                assert(known@[a].0@ == key);
            }
        }
        known
    }

    /// The lighting of a device, or `None` if never set.
    #[must_use]
    pub fn lighting(&self, device_key: &str) -> (value: Option<Lighting>)
        ensures
            value == self@.device(device_key@).lighting,
    {
        match self.devices.get(device_key) {
            Some(device) => device.lighting,
            None => None,
        }
    }

    /// Replace the lighting of a device.
    pub fn set_lighting(&mut self, device_key: &str, lighting: Lighting)
        ensures
            final(self)@ == old(self)@.with_device(
                device_key@,
                (DeviceModel { lighting: Some(lighting), ..old(self)@.device(device_key@) }),
            ),
    {
        let mut device = self.take_device(device_key);
        device.lighting = Some(lighting);
        self.put_device(device_key, device);
        assert(self@.devices =~= old(self)@.devices.remove(device_key@).insert(device_key@, self@.devices[device_key@]));
    }

    /// The committed sensor DPI of a device, or `None` if never set.
    #[must_use]
    pub fn dpi(&self, device_key: &str) -> (value: Option<u32>)
        ensures
            value == self@.device(device_key@).dpi,
    {
        match self.devices.get(device_key) {
            Some(device) => device.dpi,
            None => None,
        }
    }

    /// Record the committed sensor DPI of a device.
    pub fn set_dpi(&mut self, device_key: &str, dpi: u32)
        ensures
            final(self)@ == old(self)@.with_device(
                device_key@,
                (DeviceModel { dpi: Some(dpi), ..old(self)@.device(device_key@) }),
            ),
    {
        let mut device = self.take_device(device_key);
        device.dpi = Some(dpi);
        self.put_device(device_key, device);
        assert(self@.devices =~= old(self)@.devices.remove(device_key@).insert(device_key@, self@.devices[device_key@]));
    }

    /// The SmartShift wheel configuration of a device, or `None` if never set.
    #[must_use]
    pub fn smartshift(&self, device_key: &str) -> (value: Option<SmartShift>)
        ensures
            value == self@.device(device_key@).smartshift,
    {
        match self.devices.get(device_key) {
            Some(device) => device.smartshift,
            None => None,
        }
    }

    /// Record the SmartShift wheel configuration of a device.
    pub fn set_smartshift(&mut self, device_key: &str, smartshift: SmartShift)
        ensures
            final(self)@ == old(self)@.with_device(
                device_key@,
                (DeviceModel { smartshift: Some(smartshift), ..old(self)@.device(device_key@) }),
            ),
    {
        let mut device = self.take_device(device_key);
        device.smartshift = Some(smartshift);
        self.put_device(device_key, device);
        assert(self@.devices =~= old(self)@.devices.remove(device_key@).insert(device_key@, self@.devices[device_key@]));
    }

    /// Whether the scroll wheel of a device is inverted; `false` for an absent one.
    #[must_use]
    pub fn invert_scroll(&self, device_key: &str) -> (value: bool)
        ensures
            value == self@.device(device_key@).invert_scroll,
    {
        match self.devices.get(device_key) {
            Some(device) => device.invert_scroll,
            None => false,
        }
    }

    /// Set whether the scroll wheel of a device is inverted.
    pub fn set_invert_scroll(&mut self, device_key: &str, invert: bool)
        ensures
            final(self)@ == old(self)@.with_device(
                device_key@,
                (DeviceModel { invert_scroll: invert, ..old(self)@.device(device_key@) }),
            ),
    {
        let mut device = self.take_device(device_key);
        device.invert_scroll = invert;
        self.put_device(device_key, device);
        assert(self@.devices =~= old(self)@.devices.remove(device_key@).insert(device_key@, self@.devices[device_key@]));
    }

    /// The configured wheel resolution of a device, or `None` when it is unmanaged.
    #[must_use]
    pub fn scroll_resolution(&self, device_key: &str) -> (value: Option<ScrollResolution>)
        ensures
            value == self@.device(device_key@).scroll_resolution,
    {
        match self.devices.get(device_key) {
            Some(device) => device.scroll_resolution,
            None => None,
        }
    }

    /// Set the wheel resolution of a device; `None` leaves it unmanaged.
    pub fn set_scroll_resolution(&mut self, device_key: &str, resolution: Option<ScrollResolution>)
        ensures
            final(self)@ == old(self)@.with_device(
                device_key@,
                (DeviceModel { scroll_resolution: resolution, ..old(self)@.device(device_key@) }),
            ),
    {
        let mut device = self.take_device(device_key);
        device.scroll_resolution = resolution;
        self.put_device(device_key, device);
        assert(self@.devices =~= old(self)@.devices.remove(device_key@).insert(device_key@, self@.devices[device_key@]));
    }
}

/// Copy a preset list.
fn copy_presets(presets: &Vec<u32>) -> (copy: Vec<u32>)
    ensures
        copy@ == presets@,
{
    let mut copy: Vec<u32> = Vec::new();
    let mut i: usize = 0;
    while i < presets.len()
        invariant
            i <= presets@.len(),
            copy@ == presets@.take(i as int),
        decreases presets@.len() - i,
    {
        copy.push(presets[i]);
        i += 1;
        assert(copy@ =~= presets@.take(i as int));
    }
    assert(presets@.take(i as int) =~= presets@);
    copy
}

/// What is written for a device is read back, and no other device changes.
pub proof fn law_device_read_after_write(
    config: ConfigModel,
    written: Seq<char>,
    read: Seq<char>,
    device: DeviceModel,
)
    ensures
        config.with_device(written, device).device(read) == if read == written {
            device
        } else {
            config.device(read)
        },
        config.with_device(written, device).app_settings == config.app_settings,
        config.with_device(written, device).selected_device == config.selected_device,
        config.with_device(written, device).schema_version == config.schema_version,
{
}

/// While an application is in front, a button that its overlay binds does what
/// the overlay says; every other button falls through to the device's own
/// binding, as every button does for applications without an overlay.
pub proof fn law_overlay_takes_precedence(device: DeviceModel, bundle: Seq<char>, button: ButtonId)
    ensures
        device.effective(Some(bundle)).slot(button) == match device.overlay(bundle).slot(button) {
            Some(binding) => Some(binding),
            None => device.bindings.slot(button),
        },
        device.effective(None) == device.bindings,
{
}

/// Setting an override for one application and button is read back, changes no
/// other application's overlay and no other button, and leaves no overlay that
/// binds nothing.
pub proof fn law_override_read_after_write(
    device: DeviceModel,
    bundle: Seq<char>,
    button: ButtonId,
    slot: Option<Binding>,
    other_bundle: Seq<char>,
    other_button: ButtonId,
)
    ensures
        ({
            let after = device.with_app_slot(bundle, button, slot);
            &&& after.overlay(bundle).slot(button) == slot
            &&& other_button != button ==> after.overlay(bundle).slot(other_button)
                == device.overlay(bundle).slot(other_button)
            &&& other_bundle != bundle ==> after.overlay(other_bundle) == device.overlay(
                other_bundle,
            )
            &&& after.bindings == device.bindings
            &&& after.per_app_bindings.contains_key(other_bundle)
                ==> after.per_app_bindings[other_bundle] != ButtonMap::<Binding>::empty()
        }),
{
    let after = device.with_app_slot(bundle, button, slot);
    let written = device.overlay(bundle).with_slot(button, slot);
    assert(after.overlay(bundle) == written);
    crate::button_map::law_button_read_after_write(
        device.overlay(bundle),
        button,
        other_button,
        slot,
    );
    crate::button_map::law_button_read_after_write(device.overlay(bundle), button, button, slot);
}

/// Removing the last override of an application drops its overlay.
pub proof fn law_removal_prunes_empty_overlay(
    device: DeviceModel,
    bundle: Seq<char>,
    button: ButtonId,
)
    requires
        forall|b: ButtonId| b != button ==> (#[trigger] device.overlay(bundle).slot(b)) is None,
    ensures
        !device.with_app_slot(bundle, button, None).per_app_bindings.contains_key(bundle),
{
    let written = device.overlay(bundle).without(button);
    assert forall|b: ButtonId| #[trigger] written.slot(b) == ButtonMap::<Binding>::empty().slot(
        b,
    ) by {
        crate::button_map::law_button_read_after_write(device.overlay(bundle), button, b, None);
        assert(b != button ==> device.overlay(bundle).slot(b) is None);
    }
    crate::button_map::lemma_same_slots(written, ButtonMap::<Binding>::empty());
}

/// Setting one direction of a button that is not in Pan mode binds that
/// direction, keeps the other directions of an existing gesture, and keeps the
/// click unless it is the click that is set.
pub proof fn law_direction_set(
    config: ConfigModel,
    key: Seq<char>,
    button: ButtonId,
    direction: GestureDirection,
    action: Action,
)
    ensures
        ({
            let start = match config.device(key).bindings.slot(button) {
                Some(binding) => binding,
                None => default_for(button),
            };
            let after = config.direction_set(key, button, direction, action);
            &&& start is Pan ==> after == start
            &&& !(start is Pan) ==> after is Gesture && after.direction(direction) == Some(action)
            &&& !(start is Pan) && direction != GestureDirection::Click ==> after.click()
                == start.click()
        }),
{
}

/// A document of the current schema keeps every binding it holds, whatever
/// shape the binding has.
pub proof fn law_current_schema_keeps_bindings(raw: RawDeviceConfig, device: DeviceModel)
    requires
        migrated_device(raw, SCHEMA_VERSION, device),
        raw.button_bindings == ButtonMap::<Action>::empty(),
        raw.gesture_bindings == DirectionMap::empty(),
    ensures
        device.bindings == raw.bindings,
        device.per_app_bindings == raw.per_app_bindings@,
{
}

/// The migrated form of a device's settings is determined by the document.
pub proof fn law_migration_is_deterministic(
    raw: RawDeviceConfig,
    version: u32,
    a: DeviceModel,
    b: DeviceModel,
)
    requires
        migrated_device(raw, version, a),
        migrated_device(raw, version, b),
    ensures
        a == b,
{
    let x = choose|owner: Option<device::LegacyGestureOwner>| #[trigger]
        raw.records_owner(owner) && a == if version == OWNER_SCHEMA_VERSION {
            raw.folded(owner).owner_normalized()
        } else {
            raw.folded(owner)
        };
    let y = choose|owner: Option<device::LegacyGestureOwner>| #[trigger]
        raw.records_owner(owner) && b == if version == OWNER_SCHEMA_VERSION {
            raw.folded(owner).owner_normalized()
        } else {
            raw.folded(owner)
        };
    match raw.gesture_owner {
        Some(value) => {
            device::law_owner_reading_is_unique(value@, x, y);
        },
        None => {},
    }
}

/// A configuration starts at the fourth schema, without devices and without a selection.
pub proof fn law_fresh_config_is_empty(key: Seq<char>)
    ensures
        ConfigModel::fresh().schema_version == 4,
        ConfigModel::fresh().selected_device is None,
        !ConfigModel::fresh().devices.contains_key(key),
        ConfigModel::fresh().app_settings == AppSettings::fresh(),
        ConfigModel::fresh().device(key) == DeviceModel::fresh(),
{
}

/// A device that is not configured reads as a fresh one, with nothing in force; one that
/// is reads as stored.
pub proof fn law_device_reads_as_stored(
    config: ConfigModel,
    key: Seq<char>,
    app: Option<Seq<char>>,
    button: ButtonId,
)
    ensures
        config.devices.contains_key(key) ==> config.device(key) == config.devices[key],
        !config.devices.contains_key(key) ==> config.device(key) == DeviceModel::fresh(),
        config.effective(key, app).slot(button) == config.device(key).effective(app).slot(button),
        !config.devices.contains_key(key) ==> config.effective(key, app).slot(button) is None,
{
}

/// What a migrated device is: of the third schema its folded tables with the recorded
/// owner applied, of any other its folded tables.
pub proof fn law_owner_is_applied_once(
    raw: RawDeviceConfig,
    version: u32,
    device: DeviceModel,
    owner: Option<device::LegacyGestureOwner>,
    button: ButtonId,
)
    requires
        migrated_device(raw, version, device),
        raw.records_owner(owner),
    ensures
        version == 3 ==> device == raw.folded(owner).owner_normalized(),
        version != 3 ==> device == raw.folded(owner),
        version == 3 ==> device.legacy_gesture_owner is None,
        version != 3 && raw.bindings.slot(button) is Some ==> device.bindings.slot(button)
            == raw.bindings.slot(button),
{
    let other = choose|other: Option<device::LegacyGestureOwner>| #[trigger]
        raw.records_owner(other) && device == if version == OWNER_SCHEMA_VERSION {
            raw.folded(other).owner_normalized()
        } else {
            raw.folded(other)
        };
    if let Some(value) = raw.gesture_owner {
        device::law_owner_reading_is_unique(value@, owner, other);
    }
    device::law_earlier_bindings_are_folded(raw, owner, button, Action::DoNothing);
}

/// Setting a direction starts from the button's binding, or its default; an action
/// becomes the click of a new gesture, a Pan stays as it is, and every other direction
/// stays as it was.
pub proof fn law_direction_is_added(
    config: ConfigModel,
    key: Seq<char>,
    button: ButtonId,
    direction: GestureDirection,
    action: Action,
    other: GestureDirection,
)
    requires
        other != direction,
    ensures
        ({
            let stored = config.device(key).bindings.slot(button);
            let start = if stored is Some {
                stored->0
            } else {
                default_for(button)
            };
            let after = config.direction_set(key, button, direction, action);
            &&& start is Pan ==> after == start
            &&& start matches Binding::Gesture(map) ==> {
                &&& after matches Binding::Gesture(new_map)
                &&& new_map.slot(direction) == Some(action)
                &&& new_map.slot(other) == map.slot(other)
            }
            &&& start matches Binding::Single(click) ==> {
                &&& after matches Binding::Gesture(new_map)
                &&& new_map.slot(direction) == Some(action)
                &&& other == GestureDirection::Click ==> new_map.slot(other) == Some(click)
                &&& other != GestureDirection::Click ==> new_map.slot(other) is None
            }
        }),
{
}

/// What a configuration shows is what it stores, device by device.
pub proof fn law_config_shows_its_settings(config: Config, key: Seq<char>)
    ensures
        config@.schema_version == config.schema_version,
        config@.app_settings == config.app_settings,
        config@.selected_device == config.selected_device,
        config@.devices.contains_key(key) <==> config.devices@.contains_key(key),
        config.devices@.contains_key(key) ==> config@.devices[key] == config.devices@[key]@,
{
}

} // verus!
