//! Stable device identities and the keys derived from them.

use crate::device::{opt_route, opt_text, DeviceRoute, RouteModel};
use crate::text;
use vstd::prelude::*;

verus! {

/// What identifies one physical device across inventories: the slot of a
/// receiver, or — for a directly connected device — its serial number or unit
/// identifier. Texts are in lower case.
#[derive(Debug)]
pub enum DeviceStableId {
    /// A slot of a receiver.
    Receiver {
        /// Unique identifier of the receiver.
        uid: String,
        /// Pairing slot.
        slot: u8,
    },
    /// A direct device with a serial number.
    Serial {
        /// USB vendor id.
        vendor_id: u16,
        /// USB product id.
        product_id: u16,
        /// The serial number.
        serial: String,
    },
    /// A direct device without one.
    Unit {
        /// USB vendor id.
        vendor_id: u16,
        /// USB product id.
        product_id: u16,
        /// The unit identifier.
        unit_id: [u8; 4],
    },
    /// A device that cannot be reached.
    Unrouted {
        /// Pairing slot.
        slot: u8,
        /// The serial number.
        serial: Option<String>,
        /// The unit identifier.
        unit_id: [u8; 4],
    },
}

/// The content of a [`DeviceStableId`].
pub enum StableModel {
    /// A slot of a receiver.
    Receiver {
        /// Unique identifier of the receiver.
        uid: Seq<char>,
        /// Pairing slot.
        slot: u8,
    },
    /// A direct device with a serial number.
    Serial {
        /// USB vendor id.
        vendor_id: u16,
        /// USB product id.
        product_id: u16,
        /// The serial number.
        serial: Seq<char>,
    },
    /// A direct device without one.
    Unit {
        /// USB vendor id.
        vendor_id: u16,
        /// USB product id.
        product_id: u16,
        /// The unit identifier.
        unit_id: Seq<u8>,
    },
    /// A device that cannot be reached.
    Unrouted {
        /// Pairing slot.
        slot: u8,
        /// The serial number.
        serial: Option<Seq<char>>,
        /// The unit identifier.
        unit_id: Seq<u8>,
    },
}

impl View for DeviceStableId {
    type V = StableModel;

    open spec fn view(&self) -> StableModel {
        match *self {
            DeviceStableId::Receiver { uid, slot } => StableModel::Receiver { uid: uid@, slot },
            DeviceStableId::Serial { vendor_id, product_id, serial } => StableModel::Serial {
                vendor_id,
                product_id,
                serial: serial@,
            },
            DeviceStableId::Unit { vendor_id, product_id, unit_id } => StableModel::Unit {
                vendor_id,
                product_id,
                unit_id: unit_id@,
            },
            DeviceStableId::Unrouted { slot, serial, unit_id } => StableModel::Unrouted {
                slot,
                serial: opt_text(serial),
                unit_id: unit_id@,
            },
        }
    }
}

/// The key prefix of a directly connected product.
pub open spec fn direct_prefix(vendor_id: u16, product_id: u16) -> Seq<char> {
    "direct:"@ + text::hex_u16(vendor_id) + ":"@ + text::hex_u16(product_id)
}

/// A unit identifier in hexadecimal.
pub open spec fn unit_text(unit_id: Seq<u8>) -> Seq<char> {
    text::hex_byte(unit_id[0]) + text::hex_byte(unit_id[1]) + text::hex_byte(unit_id[2])
        + text::hex_byte(unit_id[3])
}

/// A unit identifier that a probe did not read.
pub open spec fn unit_is_zero(unit_id: Seq<u8>) -> bool {
    unit_id[0] == 0 && unit_id[1] == 0 && unit_id[2] == 0 && unit_id[3] == 0
}

impl StableModel {
    /// The identity of a device from what is known of it.
    pub open spec fn from_parts(
        route: Option<RouteModel>,
        slot: u8,
        serial: Option<Seq<char>>,
        unit_id: Seq<u8>,
    ) -> StableModel {
        match route {
            Some(RouteModel::Bolt { receiver_uid, slot }) => StableModel::Receiver {
                uid: text::lower(receiver_uid),
                slot,
            },
            Some(RouteModel::Unifying { receiver_uid, slot }) => StableModel::Receiver {
                uid: text::lower(receiver_uid),
                slot,
            },
            Some(RouteModel::Direct { vendor_id, product_id }) => match serial {
                Some(serial) => StableModel::Serial {
                    vendor_id,
                    product_id,
                    serial: text::lower(serial),
                },
                None => StableModel::Unit { vendor_id, product_id, unit_id },
            },
            None => StableModel::Unrouted {
                slot,
                serial: match serial {
                    Some(serial) => Some(text::lower(serial)),
                    None => None,
                },
                unit_id,
            },
        }
    }

    /// The key of a device that can be reached.
    pub open spec fn key(self) -> Option<Seq<char>> {
        match self {
            StableModel::Receiver { uid, slot } => Some(
                "receiver:"@ + uid + ":slot:"@ + text::decimal(slot as nat),
            ),
            StableModel::Serial { vendor_id, product_id, serial } => Some(
                direct_prefix(vendor_id, product_id) + ":serial:"@ + serial,
            ),
            StableModel::Unit { vendor_id, product_id, unit_id } => Some(
                direct_prefix(vendor_id, product_id) + ":unit:"@ + unit_text(unit_id),
            ),
            StableModel::Unrouted { .. } => None,
        }
    }

    /// A half-read probe of a direct device: neither serial number nor unit
    /// identifier is known, so it does not say which device it is.
    pub open spec fn transient(self) -> bool {
        self matches StableModel::Unit { unit_id, .. } && unit_is_zero(unit_id)
    }

    /// The key under which settings are stored: none for a half-read probe.
    pub open spec fn physical_key(self) -> Option<Seq<char>> {
        if self.transient() {
            None
        } else {
            self.key()
        }
    }
}

/// A text in lower case.
fn lowered(text: &str) -> (copy: String)
    ensures
        copy@ == text::lower(text@),
{
    let mut out = String::new();
    text::push_lower(&mut out, text);
    assert(out@ =~= text::lower(text@));
    out
}

/// Append the key prefix of a directly connected product.
fn push_direct_prefix(out: &mut String, vendor_id: u16, product_id: u16)
    ensures
        final(out)@ == old(out)@ + direct_prefix(vendor_id, product_id),
{
    out.append("direct:");
    text::push_hex_u16(out, vendor_id);
    out.append(":");
    text::push_hex_u16(out, product_id);
    assert(out@ =~= old(out)@ + direct_prefix(vendor_id, product_id));
}

impl DeviceStableId {
    /// The identity of a device from what is known of it.
    #[must_use]
    pub fn from_parts(
        route: Option<&DeviceRoute>,
        slot: u8,
        serial: Option<&str>,
        unit_id: [u8; 4],
    ) -> (id: DeviceStableId)
        ensures
            id@ == StableModel::from_parts(
                match route {
                    Some(route) => Some(route@),
                    None => None,
                },
                slot,
                text::opt_view(serial),
                unit_id@,
            ),
    {
        match route {
            Some(DeviceRoute::Bolt { receiver_uid, slot }) => DeviceStableId::Receiver {
                uid: lowered(receiver_uid.as_str()),
                slot: *slot,
            },
            Some(DeviceRoute::Unifying { receiver_uid, slot }) => DeviceStableId::Receiver {
                uid: lowered(receiver_uid.as_str()),
                slot: *slot,
            },
            Some(DeviceRoute::Direct { vendor_id, product_id }) => match serial {
                Some(serial) => DeviceStableId::Serial {
                    vendor_id: *vendor_id,
                    product_id: *product_id,
                    serial: lowered(serial),
                },
                None => DeviceStableId::Unit {
                    vendor_id: *vendor_id,
                    product_id: *product_id,
                    unit_id,
                },
            },
            None => DeviceStableId::Unrouted {
                slot,
                serial: match serial {
                    Some(serial) => Some(lowered(serial)),
                    None => None,
                },
                unit_id,
            },
        }
    }

    /// Whether two identities are the same.
    #[must_use]
    pub fn same(&self, other: &DeviceStableId) -> (same: bool)
        ensures
            same == (self@ == other@),
    {
        match (self, other) {
            (
                DeviceStableId::Receiver { uid: a, slot: s },
                DeviceStableId::Receiver { uid: b, slot: t },
            ) => text::str_eq(a.as_str(), b.as_str()) && *s == *t,
            (
                DeviceStableId::Serial { vendor_id: v, product_id: p, serial: a },
                DeviceStableId::Serial { vendor_id: w, product_id: q, serial: b },
            ) => *v == *w && *p == *q && text::str_eq(a.as_str(), b.as_str()),
            (
                DeviceStableId::Unit { vendor_id: v, product_id: p, unit_id: a },
                DeviceStableId::Unit { vendor_id: w, product_id: q, unit_id: b },
            ) => *v == *w && *p == *q && units_eq(a, b),
            (
                DeviceStableId::Unrouted { slot: s, serial: a, unit_id: u },
                DeviceStableId::Unrouted { slot: t, serial: b, unit_id: v },
            ) => *s == *t && crate::device::opt_text_eq(a, b) && units_eq(u, v),
            _ => false,
        }
    }

    /// Whether this is a half-read probe of a direct device.
    #[must_use]
    pub fn is_transient(&self) -> (transient: bool)
        ensures
            transient == self@.transient(),
    {
        match self {
            DeviceStableId::Unit { unit_id, .. } => unit_id[0] == 0 && unit_id[1] == 0 && unit_id[2]
                == 0 && unit_id[3] == 0,
            _ => false,
        }
    }

    /// The key of a device that can be reached.
    #[must_use]
    pub fn key(&self) -> (key: Option<String>)
        ensures
            opt_text(key) == self@.key(),
    {
        let mut out = String::new();
        match self {
            DeviceStableId::Receiver { uid, slot } => {
                out.append("receiver:");
                out.append(uid.as_str());
                out.append(":slot:");
                text::push_decimal(&mut out, *slot as u64);
                assert(out@ =~= "receiver:"@ + uid@ + ":slot:"@ + text::decimal(*slot as nat));
            },
            DeviceStableId::Serial { vendor_id, product_id, serial } => {
                push_direct_prefix(&mut out, *vendor_id, *product_id);
                out.append(":serial:");
                out.append(serial.as_str());
                assert(out@ =~= direct_prefix(*vendor_id, *product_id) + ":serial:"@ + serial@);
            },
            DeviceStableId::Unit { vendor_id, product_id, unit_id } => {
                push_direct_prefix(&mut out, *vendor_id, *product_id);
                out.append(":unit:");
                text::push_hex_byte(&mut out, unit_id[0]);
                text::push_hex_byte(&mut out, unit_id[1]);
                text::push_hex_byte(&mut out, unit_id[2]);
                text::push_hex_byte(&mut out, unit_id[3]);
                assert(out@ =~= direct_prefix(*vendor_id, *product_id) + ":unit:"@ + unit_text(
                    unit_id@,
                ));
            },
            DeviceStableId::Unrouted { .. } => {
                return None;
            },
        }
        Some(out)
    }

    /// The key under which settings are stored: none for a half-read probe.
    #[must_use]
    pub fn physical_key(&self) -> (key: Option<String>)
        ensures
            opt_text(key) == self@.physical_key(),
    {
        if self.is_transient() {
            None
        } else {
            self.key()
        }
    }
}

/// Whether two unit identifiers are the same.
fn units_eq(a: &[u8; 4], b: &[u8; 4]) -> (same: bool)
    ensures
        same == (a@ == b@),
{
    let same = a[0] == b[0] && a[1] == b[1] && a[2] == b[2] && a[3] == b[3];
    proof {
        if same {
            assert(a@ =~= b@);
        }
    }
    same
}

/// Settings are only ever stored under a key that says which device it is.
pub proof fn law_transient_has_no_physical_key(id: StableModel)
    requires
        id.transient(),
    ensures
        id.physical_key() is None,
        id.key() is Some,
{
}

/// What identifies a device: over a receiver the receiver and the slot of the route; by
/// itself its vendor and product with its serial, or with its unit where it has none; and
/// without a route the slot, the serial and the unit. Receivers and serials are compared
/// in small letters.
pub proof fn law_identity_follows_the_route(
    uid: Seq<char>,
    at: u8,
    vendor_id: u16,
    product_id: u16,
    slot: u8,
    serial: Seq<char>,
    given: Option<Seq<char>>,
    unit_id: Seq<u8>,
)
    ensures
        StableModel::from_parts(
            Some(RouteModel::Bolt { receiver_uid: uid, slot: at }),
            slot,
            given,
            unit_id,
        ) == (StableModel::Receiver { uid: text::lower(uid), slot: at }),
        StableModel::from_parts(
            Some(RouteModel::Unifying { receiver_uid: uid, slot: at }),
            slot,
            given,
            unit_id,
        ) == (StableModel::Receiver { uid: text::lower(uid), slot: at }),
        StableModel::from_parts(
            Some(RouteModel::Direct { vendor_id, product_id }),
            slot,
            Some(serial),
            unit_id,
        ) == (StableModel::Serial { vendor_id, product_id, serial: text::lower(serial) }),
        StableModel::from_parts(
            Some(RouteModel::Direct { vendor_id, product_id }),
            slot,
            None,
            unit_id,
        ) == (StableModel::Unit { vendor_id, product_id, unit_id }),
        StableModel::from_parts(None, slot, Some(serial), unit_id) == (StableModel::Unrouted {
            slot,
            serial: Some(text::lower(serial)),
            unit_id,
        }),
        StableModel::from_parts(None, slot, None, unit_id) == (StableModel::Unrouted {
            slot,
            serial: None,
            unit_id,
        }),
{
}

/// How an identity is written, and which have no key: those without a route, and for the
/// physical key those whose unit is zero as well.
pub proof fn law_identity_is_written(
    uid: Seq<char>,
    slot: u8,
    vendor_id: u16,
    product_id: u16,
    serial: Seq<char>,
    given: Option<Seq<char>>,
    unit_id: Seq<u8>,
)
    requires
        unit_id.len() == 4,
    ensures
        (StableModel::Receiver { uid, slot }).physical_key() == Some(
            "receiver:"@ + uid + ":slot:"@ + text::decimal(slot as nat),
        ),
        (StableModel::Serial { vendor_id, product_id, serial }).physical_key() == Some(
            "direct:"@ + text::hex_u16(vendor_id) + ":"@ + text::hex_u16(product_id) + ":serial:"@
                + serial,
        ),
        (StableModel::Unit { vendor_id, product_id, unit_id }).key() == Some(
            "direct:"@ + text::hex_u16(vendor_id) + ":"@ + text::hex_u16(product_id) + ":unit:"@ + (
            text::hex_byte(unit_id[0]) + text::hex_byte(unit_id[1]) + text::hex_byte(unit_id[2])
                + text::hex_byte(unit_id[3])),
        ),
        (StableModel::Unit { vendor_id, product_id, unit_id }).transient() <==> unit_id == seq![
            0u8,
            0u8,
            0u8,
            0u8,
        ],
        (StableModel::Unit { vendor_id, product_id, unit_id }).physical_key() is None <==> unit_id
            == seq![0u8, 0u8, 0u8, 0u8],
        (StableModel::Unrouted { slot, serial: given, unit_id }).key() is None,
        (StableModel::Unrouted { slot, serial: given, unit_id }).physical_key() is None,
        !(StableModel::Receiver { uid, slot }).transient(),
        !(StableModel::Serial { vendor_id, product_id, serial }).transient(),
        !(StableModel::Unrouted { slot, serial: given, unit_id }).transient(),
{
    if unit_is_zero(unit_id) {
        assert(unit_id =~= seq![0u8, 0u8, 0u8, 0u8]);
    }
}

} // verus!
