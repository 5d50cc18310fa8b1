//! Device identity, capabilities and inventory.

use crate::text;
use vstd::prelude::*;

verus! {

/// What sort of device it is.
#[derive(Clone, Copy, Debug, PartialEq, Eq, Hash, Structural)]
pub enum DeviceKind {
    /// A mouse.
    Mouse,
    /// A keyboard.
    Keyboard,
    /// A trackball.
    Trackball,
    /// Not classified.
    Unknown,
}

/// Which settings a device offers.
#[derive(Clone, Copy, Debug, PartialEq, Eq, Structural)]
pub struct Capabilities {
    /// Rebindable buttons.
    pub buttons: bool,
    /// Adjustable pointer resolution.
    pub pointer: bool,
    /// RGB lighting.
    pub lighting: bool,
    /// Native scroll-wheel inversion.
    pub scroll_inversion: bool,
    /// Switchable wheel resolution.
    pub hires_wheel: bool,
}

impl Capabilities {
    /// No capability at all.
    pub open spec fn none() -> Capabilities {
        Capabilities {
            buttons: false,
            pointer: false,
            lighting: false,
            scroll_inversion: false,
            hires_wheel: false,
        }
    }

    /// What a device of this kind is presumed to offer until it is probed.
    pub open spec fn presumed(kind: DeviceKind) -> Capabilities {
        match kind {
            DeviceKind::Mouse | DeviceKind::Trackball => Capabilities {
                buttons: true,
                pointer: true,
                ..Capabilities::none()
            },
            _ => Capabilities::none(),
        }
    }

    /// What a device of this kind is presumed to offer until it is probed:
    /// pointing devices have buttons and a pointer, others nothing.
    #[must_use]
    pub fn presumed_from_kind(kind: DeviceKind) -> (capabilities: Capabilities)
        ensures
            capabilities == Capabilities::presumed(kind),
    {
        let pointing = matches!(kind, DeviceKind::Mouse | DeviceKind::Trackball);
        Capabilities {
            buttons: pointing,
            pointer: pointing,
            lighting: false,
            scroll_inversion: false,
            hires_wheel: false,
        }
    }
}

impl Default for Capabilities {
    fn default() -> (capabilities: Self)
        ensures
            capabilities == Capabilities::none(),
    {
        Capabilities {
            buttons: false,
            pointer: false,
            lighting: false,
            scroll_inversion: false,
            hires_wheel: false,
        }
    }
}

/// The transports a device model supports.
#[derive(Clone, Copy, Debug, PartialEq, Eq, Structural)]
pub struct DeviceTransports {
    /// Wired USB.
    pub usb: bool,
    /// The receiver's radio link.
    pub equad: bool,
    /// Bluetooth Low Energy.
    pub btle: bool,
    /// Classic Bluetooth.
    pub bluetooth: bool,
}

impl Default for DeviceTransports {
    fn default() -> (transports: Self)
        ensures
            transports == (DeviceTransports {
                usb: false,
                equad: false,
                btle: false,
                bluetooth: false,
            }),
    {
        DeviceTransports { usb: false, equad: false, btle: false, bluetooth: false }
    }
}

/// Two optional texts are both absent, or hold the same characters.
pub open spec fn same_text(a: Option<String>, b: Option<String>) -> bool {
    match (a, b) {
        (Some(x), Some(y)) => x@ == y@,
        (None, None) => true,
        _ => false,
    }
}

/// Whether two optional texts are both absent or equal.
pub fn opt_text_eq(a: &Option<String>, b: &Option<String>) -> (same: bool)
    ensures
        same == same_text(*a, *b),
{
    match (a, b) {
        (Some(x), Some(y)) => text::str_eq(x.as_str(), y.as_str()),
        (None, None) => true,
        _ => false,
    }
}

/// Copy an optional text.
pub fn clone_opt_text(value: &Option<String>) -> (copy: Option<String>)
    ensures
        copy == *value,
{
    match value {
        Some(found) => Some(found.clone()),
        None => None,
    }
}

/// HID++ model identity.
#[derive(Debug)]
pub struct DeviceModelInfo {
    /// Number of firmware entities.
    pub entity_count: u8,
    /// Serial number, when the device reports one.
    pub serial_number: Option<String>,
    /// Per-unit identifier; all zero when a probe did not read it.
    pub unit_id: [u8; 4],
    /// Supported transports.
    pub transports: DeviceTransports,
    /// Product identifiers per transport.
    pub model_ids: [u16; 3],
    /// Variant of the model.
    pub extended_model_id: u8,
}

impl DeviceModelInfo {
    /// The same model identity, texts counting by their characters.
    pub open spec fn same_as(self, other: DeviceModelInfo) -> bool {
        &&& self.entity_count == other.entity_count
        &&& same_text(self.serial_number, other.serial_number)
        &&& self.unit_id@ =~= other.unit_id@
        &&& self.transports == other.transports
        &&& self.model_ids@ =~= other.model_ids@
        &&& self.extended_model_id == other.extended_model_id
    }

    /// The identity without anything that tells one unit of the model from
    /// another.
    pub open spec fn is_anonymized(self, original: DeviceModelInfo) -> bool {
        &&& self.entity_count == original.entity_count
        &&& self.serial_number is None
        &&& self.unit_id@ == seq![0u8, 0u8, 0u8, 0u8]
        &&& self.transports == original.transports
        &&& self.model_ids == original.model_ids
        &&& self.extended_model_id == original.extended_model_id
    }

    /// A copy without the serial number and the unit identifier.
    #[must_use]
    pub fn anonymized(&self) -> (model: DeviceModelInfo)
        ensures
            model.is_anonymized(*self),
    {
        let model = DeviceModelInfo {
            entity_count: self.entity_count,
            serial_number: None,
            unit_id: [0, 0, 0, 0],
            transports: self.transports,
            model_ids: self.model_ids,
            extended_model_id: self.extended_model_id,
        };
        assert(model.unit_id@ =~= seq![0u8, 0u8, 0u8, 0u8]);
        model
    }
}

impl Clone for DeviceModelInfo {
    fn clone(&self) -> (copy: Self)
        ensures
            copy == *self,
    {
        DeviceModelInfo {
            entity_count: self.entity_count,
            serial_number: clone_opt_text(&self.serial_number),
            unit_id: self.unit_id,
            transports: self.transports,
            model_ids: self.model_ids,
            extended_model_id: self.extended_model_id,
        }
    }
}

impl PartialEq for DeviceModelInfo {
    fn eq(&self, other: &Self) -> (same: bool) {
        let units = self.unit_id[0] == other.unit_id[0] && self.unit_id[1] == other.unit_id[1]
            && self.unit_id[2] == other.unit_id[2] && self.unit_id[3] == other.unit_id[3];
        let models = self.model_ids[0] == other.model_ids[0] && self.model_ids[1]
            == other.model_ids[1] && self.model_ids[2] == other.model_ids[2];
        proof {
            if units {
                assert(self.unit_id@ =~= other.unit_id@);
            }
            if models {
                assert(self.model_ids@ =~= other.model_ids@);
            }
        }
        self.entity_count == other.entity_count && opt_text_eq(
            &self.serial_number,
            &other.serial_number,
        ) && units && self.transports == other.transports && models && self.extended_model_id
            == other.extended_model_id
    }
}

impl Eq for DeviceModelInfo {

}

impl vstd::std_specs::cmp::PartialEqSpecImpl for DeviceModelInfo {
    open spec fn obeys_eq_spec() -> bool {
        true
    }

    open spec fn eq_spec(&self, other: &Self) -> bool {
        self.same_as(*other)
    }
}

/// Charge level bands.
#[derive(Clone, Copy, Debug, PartialEq, Eq, Structural)]
pub enum BatteryLevel {
    /// Nearly empty.
    Critical,
    /// Low.
    Low,
    /// Good.
    Good,
    /// Full.
    Full,
    /// Not reported.
    Unknown,
}

/// Whether the battery is charging.
#[derive(Clone, Copy, Debug, PartialEq, Eq, Structural)]
pub enum BatteryStatus {
    /// Running on battery.
    Discharging,
    /// Charging.
    Charging,
    /// Fully charged.
    Full,
    /// Not reported.
    Unknown,
}

/// Battery reading of a device.
#[derive(Clone, Copy, Debug, PartialEq, Eq, Structural)]
pub struct BatteryInfo {
    /// Charge in percent.
    pub percentage: u8,
    /// Charge band.
    pub level: BatteryLevel,
    /// Charging state.
    pub status: BatteryStatus,
}

/// How a device is reached.
#[derive(Debug)]
pub enum DeviceRoute {
    /// Through a Bolt receiver.
    Bolt {
        /// Unique identifier of the receiver.
        receiver_uid: String,
        /// Pairing slot.
        slot: u8,
    },
    /// Through a Unifying receiver.
    Unifying {
        /// Unique identifier of the receiver.
        receiver_uid: String,
        /// Pairing slot.
        slot: u8,
    },
    /// Directly, by cable or Bluetooth.
    Direct {
        /// USB vendor id.
        vendor_id: u16,
        /// USB product id.
        product_id: u16,
    },
}

impl DeviceRoute {
    /// The same route, texts counting by their characters.
    pub open spec fn same_as(self, other: DeviceRoute) -> bool {
        match (self, other) {
            (
                DeviceRoute::Bolt { receiver_uid: a, slot: s },
                DeviceRoute::Bolt { receiver_uid: b, slot: t },
            ) => a@ == b@ && s == t,
            (
                DeviceRoute::Unifying { receiver_uid: a, slot: s },
                DeviceRoute::Unifying { receiver_uid: b, slot: t },
            ) => a@ == b@ && s == t,
            (
                DeviceRoute::Direct { vendor_id: a, product_id: s },
                DeviceRoute::Direct { vendor_id: b, product_id: t },
            ) => a == b && s == t,
            _ => false,
        }
    }
}

impl Clone for DeviceRoute {
    fn clone(&self) -> (copy: Self)
        ensures
            copy == *self,
    {
        match self {
            DeviceRoute::Bolt { receiver_uid, slot } => DeviceRoute::Bolt {
                receiver_uid: receiver_uid.clone(),
                slot: *slot,
            },
            DeviceRoute::Unifying { receiver_uid, slot } => DeviceRoute::Unifying {
                receiver_uid: receiver_uid.clone(),
                slot: *slot,
            },
            DeviceRoute::Direct { vendor_id, product_id } => DeviceRoute::Direct {
                vendor_id: *vendor_id,
                product_id: *product_id,
            },
        }
    }
}

impl PartialEq for DeviceRoute {
    fn eq(&self, other: &Self) -> (same: bool) {
        match (self, other) {
            (
                DeviceRoute::Bolt { receiver_uid: a, slot: s },
                DeviceRoute::Bolt { receiver_uid: b, slot: t },
            ) => text::str_eq(a.as_str(), b.as_str()) && *s == *t,
            (
                DeviceRoute::Unifying { receiver_uid: a, slot: s },
                DeviceRoute::Unifying { receiver_uid: b, slot: t },
            ) => text::str_eq(a.as_str(), b.as_str()) && *s == *t,
            (
                DeviceRoute::Direct { vendor_id: a, product_id: s },
                DeviceRoute::Direct { vendor_id: b, product_id: t },
            ) => *a == *b && *s == *t,
            _ => false,
        }
    }
}

impl Eq for DeviceRoute {

}

impl vstd::std_specs::cmp::PartialEqSpecImpl for DeviceRoute {
    open spec fn obeys_eq_spec() -> bool {
        true
    }

    open spec fn eq_spec(&self, other: &Self) -> bool {
        self.same_as(*other)
    }
}

/// The content of a [`DeviceRoute`].
pub enum RouteModel {
    /// Through a Bolt receiver.
    Bolt {
        /// Unique identifier of the receiver.
        receiver_uid: Seq<char>,
        /// Pairing slot.
        slot: u8,
    },
    /// Through a Unifying receiver.
    Unifying {
        /// Unique identifier of the receiver.
        receiver_uid: Seq<char>,
        /// Pairing slot.
        slot: u8,
    },
    /// Directly.
    Direct {
        /// USB vendor id.
        vendor_id: u16,
        /// USB product id.
        product_id: u16,
    },
}

impl View for DeviceRoute {
    type V = RouteModel;

    open spec fn view(&self) -> RouteModel {
        match *self {
            DeviceRoute::Bolt { receiver_uid, slot } => RouteModel::Bolt {
                receiver_uid: receiver_uid@,
                slot,
            },
            DeviceRoute::Unifying { receiver_uid, slot } => RouteModel::Unifying {
                receiver_uid: receiver_uid@,
                slot,
            },
            DeviceRoute::Direct { vendor_id, product_id } => RouteModel::Direct {
                vendor_id,
                product_id,
            },
        }
    }
}

/// The content of an optional route.
pub open spec fn opt_route(route: Option<DeviceRoute>) -> Option<RouteModel> {
    match route {
        Some(found) => Some(found@),
        None => None,
    }
}

/// The content of an optional text.
pub open spec fn opt_text(text: Option<String>) -> Option<Seq<char>> {
    match text {
        Some(found) => Some(found@),
        None => None,
    }
}

/// Copy an optional route.
pub fn clone_opt_route(route: &Option<DeviceRoute>) -> (copy: Option<DeviceRoute>)
    ensures
        copy == *route,
{
    match route {
        Some(found) => Some(found.clone()),
        None => None,
    }
}

/// Whether two optional routes are both absent or the same.
pub fn opt_route_eq(a: &Option<DeviceRoute>, b: &Option<DeviceRoute>) -> (same: bool)
    ensures
        same == (opt_route(*a) == opt_route(*b)),
{
    match (a, b) {
        (Some(x), Some(y)) => *x == *y,
        (None, None) => true,
        _ => false,
    }
}

/// The device index of a device that is connected directly.
pub const DIRECT_DEVICE_INDEX: u8 = 0xff;

/// USB product id of a Bolt receiver.
pub const BOLT_PRODUCT_ID: u16 = 0xc548;

/// The receiver (or the device itself, when connected directly) that answers.
#[derive(Debug)]
pub struct ReceiverInfo {
    /// Its name.
    pub name: String,
    /// USB vendor id.
    pub vendor_id: u16,
    /// USB product id.
    pub product_id: u16,
    /// Unique identifier, for receivers.
    pub unique_id: Option<String>,
}

/// A device behind a receiver.
#[derive(Debug)]
pub struct PairedDevice {
    /// Pairing slot, or [`DIRECT_DEVICE_INDEX`].
    pub slot: u8,
    /// Firmware codename.
    pub codename: Option<String>,
    /// Wireless product id.
    pub wpid: Option<u16>,
    /// What sort of device it is.
    pub kind: DeviceKind,
    /// Whether it answers at the moment.
    pub online: bool,
    /// Battery reading.
    pub battery: Option<BatteryInfo>,
    /// Model identity, once it has been read.
    pub model_info: Option<DeviceModelInfo>,
    /// Capabilities, once they have been measured.
    pub capabilities: Option<Capabilities>,
}

/// One receiver with the devices behind it.
#[derive(Debug)]
pub struct DeviceInventory {
    /// The receiver.
    pub receiver: ReceiverInfo,
    /// The devices.
    pub paired: Vec<PairedDevice>,
}

impl DeviceModelInfo {
    /// The key of the model: its variant and first product id in hexadecimal.
    pub open spec fn model_key(self) -> Seq<char> {
        hex_short(self.extended_model_id) + text::hex_u16(self.model_ids@[0])
    }

    /// The key of the model: its variant and first product id in hexadecimal.
    #[must_use]
    pub fn config_key(&self) -> (key: String)
        ensures
            key@ == self.model_key(),
    {
        let mut key = String::new();
        if self.extended_model_id >= 16 {
            text::push_hex_byte(&mut key, self.extended_model_id);
        } else {
            let mut wide = String::new();
            text::push_hex_byte(&mut wide, self.extended_model_id);
            key.push(wide.as_str().get_char(1));
        }
        assert(key@ =~= hex_short(self.extended_model_id));
        text::push_hex_u16(&mut key, self.model_ids[0]);
        key
    }
}

/// A byte in lower-case hexadecimal, without a leading zero.
pub open spec fn hex_short(b: u8) -> Seq<char> {
    if b < 16 {
        seq![text::hex_digit_lower(b as nat)]
    } else {
        text::hex_byte(b)
    }
}

/// How a device of an inventory is reached: directly, or through its receiver
/// when that has an identifier.
pub open spec fn route_of(inventory: DeviceInventory, slot: u8) -> Option<RouteModel> {
    if slot == DIRECT_DEVICE_INDEX {
        Some(
            RouteModel::Direct {
                vendor_id: inventory.receiver.vendor_id,
                product_id: inventory.receiver.product_id,
            },
        )
    } else {
        match inventory.receiver.unique_id {
            Some(uid) => if inventory.receiver.product_id == BOLT_PRODUCT_ID {
                Some(RouteModel::Bolt { receiver_uid: uid@, slot })
            } else {
                Some(RouteModel::Unifying { receiver_uid: uid@, slot })
            },
            None => None,
        }
    }
}

impl DeviceRoute {
    /// How a device of an inventory is reached.
    #[must_use]
    pub fn device_route_for(inventory: &DeviceInventory, slot: u8) -> (route: Option<DeviceRoute>)
        ensures
            opt_route(route) == route_of(*inventory, slot),
    {
        if slot == DIRECT_DEVICE_INDEX {
            return Some(
                DeviceRoute::Direct {
                    vendor_id: inventory.receiver.vendor_id,
                    product_id: inventory.receiver.product_id,
                },
            );
        }
        match &inventory.receiver.unique_id {
            Some(uid) => if inventory.receiver.product_id == BOLT_PRODUCT_ID {
                Some(DeviceRoute::Bolt { receiver_uid: uid.clone(), slot })
            } else {
                Some(DeviceRoute::Unifying { receiver_uid: uid.clone(), slot })
            },
            None => None,
        }
    }
}

/// What a kind is presumed able to do: mice and trackballs have buttons and a pointer,
/// and nothing is presumed beyond that.
pub proof fn law_only_pointers_are_presumed(kind: DeviceKind)
    ensures
        ({
            let presumed = Capabilities::presumed(kind);
            &&& presumed.buttons <==> kind is Mouse || kind is Trackball
            &&& presumed.pointer <==> kind is Mouse || kind is Trackball
            &&& !presumed.lighting && !presumed.scroll_inversion && !presumed.hires_wheel
        }),
        !Capabilities::none().buttons,
        !Capabilities::none().pointer,
        !Capabilities::none().lighting,
        !Capabilities::none().scroll_inversion,
        !Capabilities::none().hires_wheel,
{
}

/// How a device is reached: at the last slot it is the receiver itself, by its vendor and
/// product; at any other slot over the receiver, as a Bolt or a Unifying one by its
/// product, and not at all where the receiver has no identifier.
pub proof fn law_route_follows_the_slot(inventory: DeviceInventory, slot: u8, uid: String)
    ensures
        slot == 0xff ==> route_of(inventory, slot) == Some(
            RouteModel::Direct {
                vendor_id: inventory.receiver.vendor_id,
                product_id: inventory.receiver.product_id,
            },
        ),
        slot != 0xff && inventory.receiver.unique_id is None ==> route_of(inventory, slot) is None,
        slot != 0xff && inventory.receiver.unique_id == Some(uid) && inventory.receiver.product_id
            == 0xc548 ==> route_of(inventory, slot) == Some(
            RouteModel::Bolt { receiver_uid: uid@, slot },
        ),
        slot != 0xff && inventory.receiver.unique_id == Some(uid) && inventory.receiver.product_id
            != 0xc548 ==> route_of(inventory, slot) == Some(
            RouteModel::Unifying { receiver_uid: uid@, slot },
        ),
{
}

/// Two routes are the same exactly when they show the same: the same kind, and the same
/// receiver and slot or the same vendor and product.
pub proof fn law_same_routes(a: DeviceRoute, b: DeviceRoute)
    ensures
        a.same_as(b) <==> a@ == b@,
        a is Bolt <==> a@ is Bolt,
        a is Unifying <==> a@ is Unifying,
        a is Direct <==> a@ is Direct,
        a matches DeviceRoute::Bolt { receiver_uid, slot } ==> a@ == (RouteModel::Bolt {
            receiver_uid: receiver_uid@,
            slot,
        }),
        a matches DeviceRoute::Unifying { receiver_uid, slot } ==> a@ == (RouteModel::Unifying {
            receiver_uid: receiver_uid@,
            slot,
        }),
        a matches DeviceRoute::Direct { vendor_id, product_id } ==> a@ == (RouteModel::Direct {
            vendor_id,
            product_id,
        }),
        opt_route(Some(a)) == Some(a@),
        opt_route(None) is None,
{
}

/// Two optional texts are the same when both are absent, or both are there and read the
/// same.
pub proof fn law_same_texts(a: String, b: String)
    ensures
        same_text(Some(a), Some(b)) <==> a@ == b@,
        same_text(None, None),
        !same_text(Some(a), None),
        !same_text(None, Some(b)),
        opt_text(Some(a)) == Some(a@),
        opt_text(None) is None,
{
}

/// Two models are the same when everything reported of them is.
pub proof fn law_same_models(a: DeviceModelInfo, b: DeviceModelInfo)
    ensures
        a.same_as(b) <==> {
            &&& a.entity_count == b.entity_count
            &&& opt_text(a.serial_number) == opt_text(b.serial_number)
            &&& a.unit_id@ == b.unit_id@
            &&& a.transports == b.transports
            &&& a.model_ids@ == b.model_ids@
            &&& a.extended_model_id == b.extended_model_id
        },
{
}

/// A model without its owner's traces: the serial is gone and the unit is zero, and what
/// the model is stays, its key included.
pub proof fn law_anonymous_model_keeps_its_key(model: DeviceModelInfo, original: DeviceModelInfo)
    requires
        model.is_anonymized(original),
    ensures
        model.serial_number is None,
        model.unit_id@.len() == 4,
        forall|i: int| 0 <= i < 4 ==> #[trigger] model.unit_id@[i] == 0,
        model.entity_count == original.entity_count,
        model.transports == original.transports,
        model.model_ids == original.model_ids,
        model.extended_model_id == original.extended_model_id,
        model.model_key() == original.model_key(),
{
}

/// How a model's key is written: the extended model without a leading zero, and then the
/// first model as four digits.
pub proof fn law_model_key_is_written(model: DeviceModelInfo)
    ensures
        model.extended_model_id < 16 ==> model.model_key().len() == 5 && text::digit_of(
            model.model_key()[0],
        ) == Some(model.extended_model_id as nat),
        model.extended_model_id >= 16 ==> model.model_key().len() == 6 && text::digit_of(
            model.model_key()[0],
        ) == Some((model.extended_model_id / 16) as nat) && text::digit_of(model.model_key()[1])
            == Some((model.extended_model_id % 16) as nat),
        model.model_key().skip(model.model_key().len() - 4) == text::hex_u16(model.model_ids@[0]),
{
    text::law_bytes_are_written_by_place(model.extended_model_id, model.model_ids@[0]);
    let key = model.model_key();
    assert(key.skip(key.len() - 4) =~= text::hex_u16(model.model_ids@[0]));
}

} // verus!
