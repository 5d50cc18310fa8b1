//! The device cards: building them from an inventory, and folding a fresh
//! snapshot into the ones that are shown.

use crate::config::{Config, ConfigModel, DeviceIdentity};
use crate::device::{
    clone_opt_route, clone_opt_text, opt_route, opt_text, BatteryInfo, Capabilities,
    DeviceInventory, DeviceKind, DeviceModelInfo, DeviceRoute, PairedDevice,
};
use crate::device_order::{DeviceStableId, StableModel};
use crate::text;
use crate::text_map::TextMap;
use vstd::prelude::*;

verus! {

/// Inventory snapshots can briefly miss a real device while another request is in
/// flight. A card is kept through this many consecutive misses.
pub const INVENTORY_MISS_GRACE: u8 = 2;

/// Everything the views need of one device.
#[derive(Debug)]
pub struct DeviceRecord {
    /// Stable key of the device.
    pub config_key: String,
    /// Whether the key says which physical device it is.
    pub persistent: bool,
    /// Key of the device's model.
    pub model_key: String,
    /// The name shown on the card.
    pub display_name: String,
    /// Path of the device's artwork.
    pub asset: Option<String>,
    /// Model identity.
    pub model_info: Option<DeviceModelInfo>,
    /// Firmware codename.
    pub codename: Option<String>,
    /// Serial number.
    pub serial_number: Option<String>,
    /// Per-unit identifier.
    pub unit_id: [u8; 4],
    /// How the device is reached.
    pub route: Option<DeviceRoute>,
    /// What sort of device it is.
    pub kind: DeviceKind,
    /// Measured capabilities.
    pub capabilities: Option<Capabilities>,
    /// Pairing slot.
    pub slot: u8,
    /// Whether it answers at the moment.
    pub online: bool,
    /// Battery reading.
    pub battery: Option<BatteryInfo>,
}

/// Copy an optional model identity.
pub fn clone_opt_model(model: &Option<DeviceModelInfo>) -> (copy: Option<DeviceModelInfo>)
    ensures
        copy == *model,
{
    match model {
        Some(model) => Some(model.clone()),
        None => None,
    }
}

impl Clone for DeviceRecord {
    fn clone(&self) -> (copy: Self)
        ensures
            copy == *self,
    {
        DeviceRecord {
            config_key: self.config_key.clone(),
            persistent: self.persistent,
            model_key: self.model_key.clone(),
            display_name: self.display_name.clone(),
            asset: clone_opt_text(&self.asset),
            model_info: clone_opt_model(&self.model_info),
            codename: clone_opt_text(&self.codename),
            serial_number: clone_opt_text(&self.serial_number),
            unit_id: self.unit_id,
            route: clone_opt_route(&self.route),
            kind: self.kind,
            capabilities: self.capabilities,
            slot: self.slot,
            online: self.online,
            battery: self.battery,
        }
    }
}

impl DeviceRecord {
    /// The key under which the device's settings are stored.
    pub open spec fn stored_key(self) -> Option<Seq<char>> {
        if self.persistent {
            Some(self.config_key@)
        } else {
            None
        }
    }

    /// Whether the key says which physical device it is.
    #[must_use]
    pub fn is_persistent(&self) -> (persistent: bool)
        ensures
            persistent == self.persistent,
    {
        self.persistent
    }

    /// The key under which the device's settings are stored, unless the device is
    /// a half-read probe.
    #[must_use]
    pub fn persistent_config_key(&self) -> (key: Option<&str>)
        ensures
            text::opt_view(key) == self.stored_key(),
    {
        if self.persistent {
            Some(self.config_key.as_str())
        } else {
            None
        }
    }
}

/// The device cards, one per key, in key order.
#[derive(Debug)]
pub struct DeviceList {
    records: TextMap<DeviceRecord>,
}

impl View for DeviceList {
    type V = Map<Seq<char>, DeviceRecord>;

    closed spec fn view(&self) -> Map<Seq<char>, DeviceRecord> {
        self.records@
    }
}

/// The keys of a map, in order.
pub open spec fn ordered_keys<V>(keys: Seq<Seq<char>>, map: Map<Seq<char>, V>) -> bool {
    &&& forall|i: int, j: int|
        0 <= i < j < keys.len() ==> #[trigger] text::text_less(keys[i], keys[j])
    &&& forall|key: Seq<char>| #[trigger] keys.contains(key) <==> map.contains_key(key)
}

impl DeviceList {
    /// Every card stands under its own key.
    #[verifier::type_invariant]
    closed spec fn keyed(self) -> bool {
        forall|key: Seq<char>| #[trigger]
            self.records@.contains_key(key) ==> self.records@[key].config_key@ == key
    }

    /// The keys of the cards, in order.
    pub closed spec fn keys(self) -> Seq<Seq<char>> {
        self.records.keys()
    }

    /// No cards.
    #[must_use]
    pub fn new() -> (list: DeviceList)
        ensures
            list@ == Map::<Seq<char>, DeviceRecord>::empty(),
    {
        DeviceList { records: TextMap::new() }
    }

    /// Number of cards.
    #[must_use]
    pub fn len(&self) -> (count: usize)
        ensures
            count == self.keys().len(),
            ordered_keys(self.keys(), self@),
    {
        self.records.len()
    }

    /// Whether there are no cards.
    #[must_use]
    pub fn is_empty(&self) -> (empty: bool)
        ensures
            empty == (self@ == Map::<Seq<char>, DeviceRecord>::empty()),
    {
        self.records.is_empty()
    }

    /// The card at a position.
    #[must_use]
    pub fn get(&self, i: usize) -> (record: Option<&DeviceRecord>)
        ensures
            match record {
                Some(record) => {
                    &&& i < self.keys().len()
                    &&& self@.contains_key(self.keys()[i as int])
                    &&& *record == self@[self.keys()[i as int]]
                    &&& record.config_key@ == self.keys()[i as int]
                },
                None => i >= self.keys().len(),
            },
    {
        proof {
            use_type_invariant(self);
        }
        if i < self.records.len() {
            Some(self.records.entry(i).1)
        } else {
            None
        }
    }

    /// The card with a key.
    #[must_use]
    pub fn find(&self, key: &str) -> (record: Option<&DeviceRecord>)
        ensures
            match record {
                Some(record) => {
                    &&& self@.contains_key(key@)
                    &&& *record == self@[key@]
                    &&& record.config_key@ == key@
                },
                None => !self@.contains_key(key@),
            },
    {
        proof {
            use_type_invariant(self);
        }
        self.records.get(key)
    }

    /// Where the card with a key stands.
    #[must_use]
    pub fn position(&self, key: &str) -> (at: Option<usize>)
        ensures
            match at {
                Some(i) => i < self.keys().len() && self.keys()[i as int] == key@
                    && self@.contains_key(key@),
                None => !self@.contains_key(key@),
            },
    {
        let count = self.len();
        let mut i: usize = 0;
        while i < count
            invariant
                count == self.keys().len(),
                i <= count,
                forall|j: int| 0 <= j < i ==> #[trigger] self.keys()[j] != key@,
            decreases count - i,
        {
            let (candidate, _) = self.records.entry(i);
            if text::str_eq(candidate, key) {
                return Some(i);
            }
            i += 1;
        }
        proof {
            if self@.contains_key(key@) {
                assert(self.keys().contains(key@));
            }
        }
        None
    }

    /// Put a card under its key.
    pub fn insert(&mut self, record: DeviceRecord)
        ensures
            final(self)@ == old(self)@.insert(record.config_key@, record),
    {
        proof {
            use_type_invariant(&*self);
        }
        let key = record.config_key.clone();
        let mut records: TextMap<DeviceRecord> = TextMap::new();
        core::mem::swap(&mut self.records, &mut records);
        records.insert(key.as_str(), record);
        self.records = records;
    }

    /// Take the card with a key out.
    pub fn remove(&mut self, key: &str) -> (record: Option<DeviceRecord>)
        ensures
            final(self)@ == old(self)@.remove(key@),
            match record {
                Some(record) => {
                    &&& old(self)@.contains_key(key@)
                    &&& old(self)@[key@] == record
                    &&& record.config_key@ == key@
                },
                None => !old(self)@.contains_key(key@),
            },
    {
        proof {
            use_type_invariant(&*self);
        }
        let mut records: TextMap<DeviceRecord> = TextMap::new();
        core::mem::swap(&mut self.records, &mut records);
        let record = records.remove(key);
        self.records = records;
        record
    }
}

/// How many colons stand before a position.
pub open spec fn colons(key: Seq<char>, before: int) -> nat
    decreases before,
{
    if before <= 0 {
        0
    } else {
        colons(key, before - 1) + if key[before - 1] == ':' {
            1nat
        } else {
            0
        }
    }
}

/// The third colon of a key stands at a position.
pub open spec fn wire_ends(key: Seq<char>, at: int) -> bool {
    0 <= at < key.len() && key[at] == ':' && colons(key, at) == 2
}

/// The vendor and product part of a direct device's key.
pub open spec fn wire_prefix(key: Seq<char>) -> Option<Seq<char>> {
    if text::begins(key, "direct:"@) && exists|at: int| wire_ends(key, at) {
        Some(key.take(choose|at: int| wire_ends(key, at)))
    } else {
        None
    }
}

/// A later position has at least as many colons before it.
proof fn lemma_colons_grow(key: Seq<char>, i: int, j: int)
    requires
        0 <= i <= j <= key.len(),
    ensures
        colons(key, i) <= colons(key, j),
    decreases j - i,
{
    if i < j {
        lemma_colons_grow(key, i, j - 1);
    }
}

/// A key has only one third colon.
proof fn lemma_wire_end_is_unique(key: Seq<char>, i: int, j: int)
    requires
        wire_ends(key, i),
        wire_ends(key, j),
    ensures
        i == j,
{
    if i < j {
        lemma_colons_grow(key, i + 1, j);
    } else if j < i {
        lemma_colons_grow(key, j + 1, i);
    }
}

/// The vendor and product part of a direct device's key, shared by all devices of
/// the product that are connected directly.
#[must_use]
pub fn direct_key_prefix(key: &str) -> (prefix: Option<String>)
    ensures
        opt_text(prefix) == wire_prefix(key@),
{
    if !text::starts_with(key, "direct:") {
        return None;
    }
    let n = key.unicode_len();
    let mut seen: u8 = 0;
    let mut i: usize = 0;
    while i < n
        invariant
            n == key@.len(),
            i <= n,
            seen == colons(key@, i as int),
            seen <= 2,
            text::begins(key@, "direct:"@),
            forall|at: int| 0 <= at < i ==> !wire_ends(key@, at),
        decreases n - i,
    {
        if key.get_char(i) == ':' {
            if seen == 2 {
                assert(wire_ends(key@, i as int));
                proof {
                    lemma_wire_end_is_unique(
                        key@,
                        i as int,
                        choose|at: int| wire_ends(key@, at),
                    );
                }
                return Some(text::prefix_of(key, i));
            }
            seen += 1;
        }
        i += 1;
    }
    None
}

/// A key that a half-read probe of a direct device has.
pub open spec fn transient_key(key: Seq<char>) -> bool {
    text::begins(key, "direct:"@) && text::ends(key, ":unit:00000000"@)
}

/// Whether a key is one that a half-read probe of a direct device has: such a key
/// does not say which device it is.
#[must_use]
pub fn is_transient(key: &str) -> (transient: bool)
    ensures
        transient == transient_key(key@),
{
    text::starts_with(key, "direct:") && text::ends_with(key, ":unit:00000000")
}

/// The card of a device that an inventory lists, if its key and model are known.
pub open spec fn is_card_of(
    card: Option<DeviceRecord>,
    inventory: DeviceInventory,
    paired: PairedDevice,
    assets: Map<Seq<char>, String>,
) -> bool {
    match paired.model_info {
        None => card is None,
        Some(model) => {
            let id = StableModel::from_parts(
                crate::device::route_of(inventory, paired.slot),
                paired.slot,
                opt_text(model.serial_number),
                model.unit_id@,
            );
            match (id.key(), card) {
                (None, None) => true,
                (Some(key), Some(card)) => {
                    &&& card.config_key@ == key
                    &&& card.persistent == !id.transient()
                    &&& card.model_key@ == model.model_key()
                    &&& card.display_name@ == match paired.codename {
                        Some(codename) => codename@,
                        None => model.model_key(),
                    }
                    &&& opt_text(card.asset) == if assets.contains_key(model.model_key()) {
                        Some(assets[model.model_key()]@)
                    } else {
                        None
                    }
                    &&& card.model_info == paired.model_info
                    &&& card.codename == paired.codename
                    &&& card.serial_number == model.serial_number
                    &&& card.unit_id == model.unit_id
                    &&& opt_route(card.route) == crate::device::route_of(inventory, paired.slot)
                    &&& card.kind == paired.kind
                    &&& card.capabilities == paired.capabilities
                    &&& card.slot == paired.slot
                    &&& card.online == paired.online
                    &&& card.battery == paired.battery
                },
                _ => false,
            }
        },
    }
}

/// The path of a model's artwork.
fn asset_of(assets: &TextMap<String>, model_key: &str) -> (asset: Option<String>)
    ensures
        opt_text(asset) == if assets@.contains_key(model_key@) {
            Some(assets@[model_key@]@)
        } else {
            None
        },
{
    match assets.get(model_key) {
        Some(path) => Some(path.clone()),
        None => None,
    }
}

/// The card of a device that an inventory lists. A device whose model has not been
/// read, or that cannot be reached, has none.
#[must_use]
pub fn live_record(
    inventory: &DeviceInventory,
    paired: &PairedDevice,
    assets: &TextMap<String>,
) -> (card: Option<DeviceRecord>)
    ensures
        is_card_of(card, *inventory, *paired, assets@),
{
    match &paired.model_info {
        None => None,
        Some(model) => {
            let route = DeviceRoute::device_route_for(inventory, paired.slot);
            let serial = match &model.serial_number {
                Some(serial) => Some(serial.as_str()),
                None => None,
            };
            let reached = match &route {
                Some(route) => Some(route),
                None => None,
            };
            let id = DeviceStableId::from_parts(reached, paired.slot, serial, model.unit_id);
            match id.key() {
                None => None,
                Some(config_key) => {
                    let model_key = model.config_key();
                    let display_name = match &paired.codename {
                        Some(codename) => codename.clone(),
                        None => model_key.clone(),
                    };
                    Some(
                        DeviceRecord {
                            config_key,
                            persistent: !id.is_transient(),
                            asset: asset_of(assets, model_key.as_str()),
                            model_key,
                            display_name,
                            model_info: Some(model.clone()),
                            codename: clone_opt_text(&paired.codename),
                            serial_number: clone_opt_text(&model.serial_number),
                            unit_id: model.unit_id,
                            route,
                            kind: paired.kind,
                            capabilities: paired.capabilities,
                            slot: paired.slot,
                            online: paired.online,
                            battery: paired.battery,
                        },
                    )
                },
            }
        },
    }
}

/// The card of a device that is only known from its recorded identity.
pub open spec fn is_placeholder(
    card: DeviceRecord,
    key: Seq<char>,
    identity: DeviceIdentity,
    assets: Map<Seq<char>, String>,
) -> bool {
    let model_key = match identity.model_info {
        Some(model) => model.model_key(),
        None => key,
    };
    &&& card.config_key@ == key
    &&& card.persistent
    &&& card.model_key@ == model_key
    &&& card.display_name == identity.display_name
    &&& opt_text(card.asset) == if assets.contains_key(model_key) {
        Some(assets[model_key]@)
    } else {
        None
    }
    &&& card.model_info == identity.model_info
    &&& card.codename == identity.codename
    &&& card.serial_number is None
    &&& card.unit_id@ == seq![0u8, 0u8, 0u8, 0u8]
    &&& card.route is None
    &&& card.kind == identity.kind
    &&& card.capabilities == Some(identity.capabilities)
    &&& card.slot == 0
    &&& !card.online
    &&& card.battery is None
}

/// The card of a device that is only known from its recorded identity: offline,
/// with the name and the panels that were recorded.
#[must_use]
pub fn placeholder_record(key: &str, identity: &DeviceIdentity, assets: &TextMap<String>) -> (card:
    DeviceRecord)
    ensures
        is_placeholder(card, key@, *identity, assets@),
{
    let model_key = match &identity.model_info {
        Some(model) => model.config_key(),
        None => key.to_owned(),
    };
    let card = DeviceRecord {
        config_key: key.to_owned(),
        persistent: true,
        asset: asset_of(assets, model_key.as_str()),
        model_key,
        display_name: identity.display_name.clone(),
        model_info: clone_opt_model(&identity.model_info),
        codename: clone_opt_text(&identity.codename),
        serial_number: None,
        unit_id: [0, 0, 0, 0],
        route: None,
        kind: identity.kind,
        capabilities: Some(identity.capabilities),
        slot: 0,
        online: false,
        battery: None,
    };
    assert(card.unit_id@ =~= seq![0u8, 0u8, 0u8, 0u8]);
    card
}

/// The key of a device that an inventory lists.
pub open spec fn live_key(inventory: DeviceInventory, paired: PairedDevice) -> Option<Seq<char>> {
    match paired.model_info {
        None => None,
        Some(model) => StableModel::from_parts(
            crate::device::route_of(inventory, paired.slot),
            paired.slot,
            opt_text(model.serial_number),
            model.unit_id@,
        ).key(),
    }
}

/// The `b`-th device of the `a`-th inventory has this key.
pub open spec fn listed_at(
    inventories: Seq<DeviceInventory>,
    key: Seq<char>,
    a: int,
    b: int,
) -> bool {
    &&& 0 <= a < inventories.len()
    &&& 0 <= b < inventories[a].paired@.len()
    &&& live_key(inventories[a], inventories[a].paired@[b]) == Some(key)
}

/// The position `(a, b)` comes before `(c, d)`.
pub open spec fn comes_before(a: int, b: int, c: int, d: int) -> bool {
    a < c || (a == c && b < d)
}

/// Some inventory lists a device with this key.
pub open spec fn is_listed(inventories: Seq<DeviceInventory>, key: Seq<char>) -> bool {
    exists|a: int, b: int| listed_at(inventories, key, a, b)
}

/// A card is that of the last listed device with its key.
pub open spec fn is_live_card(
    card: DeviceRecord,
    inventories: Seq<DeviceInventory>,
    key: Seq<char>,
    assets: Map<Seq<char>, String>,
) -> bool {
    exists|a: int, b: int|
        {
            &&& #[trigger] listed_at(inventories, key, a, b)
            &&& is_card_of(Some(card), inventories[a], inventories[a].paired@[b], assets)
            &&& forall|c: int, d: int| #[trigger]
                listed_at(inventories, key, c, d) ==> !comes_before(a, b, c, d)
        }
}

/// A device is known from its recorded identity.
pub open spec fn is_known(config: ConfigModel, key: Seq<char>) -> bool {
    &&& config.devices.contains_key(key)
    &&& config.devices[key].identity is Some
    &&& !transient_key(key)
}

/// The cards for a set of inventories: one per listed device, and one per known
/// device that is not listed.
pub open spec fn is_device_list(
    cards: Map<Seq<char>, DeviceRecord>,
    inventories: Seq<DeviceInventory>,
    config: ConfigModel,
    assets: Map<Seq<char>, String>,
) -> bool {
    &&& forall|key: Seq<char>| #[trigger]
        cards.contains_key(key) <==> is_listed(inventories, key) || is_known(config, key)
    &&& forall|key: Seq<char>| #[trigger]
        cards.contains_key(key) ==> if is_listed(inventories, key) {
            is_live_card(cards[key], inventories, key, assets)
        } else {
            is_placeholder(cards[key], key, config.devices[key].identity.unwrap(), assets)
        }
}

/// What has been put into the list before position `(i, j)` was reached, and from
/// where.
spec fn listed_before(
    cards: Map<Seq<char>, DeviceRecord>,
    from: Map<Seq<char>, (int, int)>,
    inventories: Seq<DeviceInventory>,
    assets: Map<Seq<char>, String>,
    i: int,
    j: int,
) -> bool {
    &&& forall|key: Seq<char>, a: int, b: int| #[trigger]
        listed_at(inventories, key, a, b) && comes_before(a, b, i, j) ==> cards.contains_key(key)
            && !comes_before(from[key].0, from[key].1, a, b)
    &&& forall|key: Seq<char>| #[trigger]
        cards.contains_key(key) ==> {
            let (a, b) = from[key];
            &&& listed_at(inventories, key, a, b)
            &&& comes_before(a, b, i, j)
            &&& is_card_of(Some(cards[key]), inventories[a], inventories[a].paired@[b], assets)
        }
}

/// The cards of the devices that the inventories list.
fn live_list(inventories: &Vec<DeviceInventory>, assets: &TextMap<String>) -> (list: DeviceList)
    ensures
        forall|key: Seq<char>| #[trigger]
            list@.contains_key(key) <==> is_listed(inventories@, key),
        forall|key: Seq<char>| #[trigger]
            list@.contains_key(key) ==> is_live_card(list@[key], inventories@, key, assets@),
{
    let mut list = DeviceList::new();
    let ghost mut from: Map<Seq<char>, (int, int)> = Map::empty();
    let mut i: usize = 0;
    while i < inventories.len()
        invariant
            i <= inventories@.len(),
            listed_before(list@, from, inventories@, assets@, i as int, 0),
        decreases inventories@.len() - i,
    {
        let inventory = &inventories[i];
        let mut j: usize = 0;
        while j < inventory.paired.len()
            invariant
                i < inventories@.len(),
                *inventory == inventories@[i as int],
                j <= inventory.paired@.len(),
                listed_before(list@, from, inventories@, assets@, i as int, j as int),
            decreases inventory.paired@.len() - j,
        {
            let paired = &inventory.paired[j];
            let ghost before = list@;
            let ghost old_from = from;
            match live_record(inventory, paired, assets) {
                Some(card) => {
                    let ghost key = card.config_key@;
                    assert(listed_at(inventories@, key, i as int, j as int));
                    let ghost put = card;
                    list.insert(card);
                    proof {
                        from = from.insert(key, (i as int, j as int));
                        assert(list@ == before.insert(key, put));
                    }
                },
                None => {},
            }
            proof {
                assert forall|key: Seq<char>, a: int, b: int| #[trigger]
                    listed_at(inventories@, key, a, b) && comes_before(
                        a,
                        b,
                        i as int,
                        j + 1,
                    ) implies list@.contains_key(key) && !comes_before(
                    from[key].0,
                    from[key].1,
                    a,
                    b,
                ) by {
                    if comes_before(a, b, i as int, j as int) {
                        assert(before.contains_key(key));
                    }
                }
                assert forall|key: Seq<char>| #[trigger] list@.contains_key(key) implies {
                    let (a, b) = from[key];
                    &&& listed_at(inventories@, key, a, b)
                    &&& comes_before(a, b, i as int, j + 1)
                    &&& is_card_of(
                        Some(list@[key]),
                        inventories@[a],
                        inventories@[a].paired@[b],
                        assets@,
                    )
                } by {
                    if before.contains_key(key) && from[key] == old_from[key] {
                        assert(listed_at(inventories@, key, old_from[key].0, old_from[key].1));
                    }
                }
            }
            j += 1;
        }
        proof {
            assert forall|key: Seq<char>, a: int, b: int| #[trigger]
                listed_at(inventories@, key, a, b) && comes_before(a, b, i + 1, 0) implies list@.contains_key(
            key) && !comes_before(from[key].0, from[key].1, a, b) by {
                assert(comes_before(a, b, i as int, j as int));
            }
        }
        i += 1;
    }
    proof {
        assert forall|key: Seq<char>| #[trigger] list@.contains_key(key) <==> is_listed(
            inventories@,
            key,
        ) by {
            if list@.contains_key(key) {
                assert(listed_at(inventories@, key, from[key].0, from[key].1));
            }
            if is_listed(inventories@, key) {
                let (a, b) = choose|a: int, b: int| listed_at(inventories@, key, a, b);
                assert(comes_before(a, b, i as int, 0));
            }
        }
        assert forall|key: Seq<char>| #[trigger] list@.contains_key(key) implies is_live_card(
            list@[key],
            inventories@,
            key,
            assets@,
        ) by {
            let (a, b) = from[key];
            assert(listed_at(inventories@, key, a, b));
            assert forall|c: int, d: int| #[trigger]
                listed_at(inventories@, key, c, d) implies !comes_before(a, b, c, d) by {
                assert(comes_before(c, d, i as int, 0));
            }
        }
    }
    list
}

/// The cards for a set of inventories: one per listed device, and an offline one
/// per device that is only known from its recorded identity.
#[must_use]
pub fn build_device_list(
    inventories: &Vec<DeviceInventory>,
    assets: &TextMap<String>,
    config: &Config,
) -> (list: DeviceList)
    ensures
        is_device_list(list@, inventories@, config@, assets@),
{
    let mut list = live_list(inventories, assets);
    let ghost live = list@;
    let known = config.known_identities();
    let mut n: usize = 0;
    while n < known.len()
        invariant
            n <= known@.len(),
            forall|i: int|
                0 <= i < known@.len() ==> {
                    &&& config@.devices.contains_key((#[trigger] known@[i]).0@)
                    &&& config@.devices[known@[i].0@].identity == Some(*known@[i].1)
                },
            forall|key: Seq<char>| #[trigger]
                live.contains_key(key) ==> list@.contains_key(key) && list@[key] == live[key],
            forall|key: Seq<char>| #[trigger]
                list@.contains_key(key) && !live.contains_key(key) ==> {
                    &&& is_known(config@, key)
                    &&& is_placeholder(
                        list@[key],
                        key,
                        config@.devices[key].identity.unwrap(),
                        assets@,
                    )
                },
            forall|i: int|
                0 <= i < n && !transient_key((#[trigger] known@[i]).0@) ==> list@.contains_key(
                    known@[i].0@,
                ),
        decreases known@.len() - n,
    {
        let (key, identity) = known[n];
        assert(known@[n as int].0@ == key@);
        if !is_transient(key) && list.find(key).is_none() {
            list.insert(placeholder_record(key, identity, assets));
        }
        n += 1;
    }
    proof {
        assert forall|key: Seq<char>| #[trigger] list@.contains_key(key) <==> is_listed(
            inventories@,
            key,
        ) || is_known(config@, key) by {
            if is_listed(inventories@, key) {
                assert(live.contains_key(key));
            }
            if is_known(config@, key) {
                assert(config@.devices.contains_key(key));
                let i = choose|i: int| 0 <= i < known@.len() && (#[trigger] known@[i]).0@ == key;
                assert(list@.contains_key(known@[i].0@));
            }
            if list@.contains_key(key) && live.contains_key(key) {
                assert(is_listed(inventories@, key));
            }
        }
        assert forall|key: Seq<char>| #[trigger] list@.contains_key(key) implies (if is_listed(
            inventories@,
            key,
        ) {
            is_live_card(list@[key], inventories@, key, assets@)
        } else {
            is_placeholder(list@[key], key, config@.devices[key].identity.unwrap(), assets@)
        }) by {
            if live.contains_key(key) {
                assert(is_listed(inventories@, key));
            } else {
                assert(!is_listed(inventories@, key));
            }
        }
    }
    list
}

/// Where the initially selected card stands: the saved one, or the first.
#[must_use]
pub fn pick_initial_device(list: &DeviceList, saved: Option<&str>) -> (at: usize)
    ensures
        match saved {
            Some(key) => if list@.contains_key(key@) {
                at < list.keys().len() && list.keys()[at as int] == key@
            } else {
                at == 0
            },
            None => at == 0,
        },
{
    match saved {
        Some(key) => match list.position(key) {
            Some(at) => at,
            None => 0,
        },
        None => 0,
    }
}

/// A known card with what a live probe of it says.
pub open spec fn folded(known: DeviceRecord, live: DeviceRecord) -> DeviceRecord {
    DeviceRecord {
        route: live.route,
        slot: live.slot,
        online: live.online,
        battery: live.battery,
        capabilities: if live.capabilities is Some {
            live.capabilities
        } else {
            known.capabilities
        },
        ..known
    }
}

/// Fold a half-read probe into the card of the device that it physically is: the
/// card keeps its identity and takes the live state.
#[must_use]
pub fn adopt_transient_record(known: &DeviceRecord, live: DeviceRecord) -> (card: DeviceRecord)
    ensures
        card == folded(*known, live),
{
    let mut card = known.clone();
    card.route = live.route;
    card.slot = live.slot;
    card.online = live.online;
    card.battery = live.battery;
    if live.capabilities.is_some() {
        card.capabilities = live.capabilities;
    }
    card
}

/// A card of a directly connected device of the given product that says which
/// device it is.
pub open spec fn same_wire(key: Seq<char>, record: DeviceRecord, wire: Seq<char>) -> bool {
    record.persistent && wire_prefix(key) == Some(wire)
}

/// A device of the product is listed as offline.
pub open spec fn is_offline_twin(
    live: Map<Seq<char>, DeviceRecord>,
    wire: Seq<char>,
    key: Seq<char>,
) -> bool {
    live.contains_key(key) && same_wire(key, live[key], wire) && !live[key].online
}

/// A device of the product was shown and is not listed.
pub open spec fn is_absent_twin(
    previous: Map<Seq<char>, DeviceRecord>,
    live: Map<Seq<char>, DeviceRecord>,
    wire: Seq<char>,
    key: Seq<char>,
) -> bool {
    previous.contains_key(key) && !live.contains_key(key) && same_wire(key, previous[key], wire)
}

/// A half-read probe may be this device: it is listed as offline, or it was shown
/// before and is not listed.
pub open spec fn is_candidate(
    previous: Map<Seq<char>, DeviceRecord>,
    live: Map<Seq<char>, DeviceRecord>,
    wire: Seq<char>,
    key: Seq<char>,
) -> bool {
    is_offline_twin(live, wire, key) || is_absent_twin(previous, live, wire, key)
}

/// A device is the only one that a half-read probe may be.
pub open spec fn is_sole_candidate(
    previous: Map<Seq<char>, DeviceRecord>,
    live: Map<Seq<char>, DeviceRecord>,
    wire: Seq<char>,
    key: Seq<char>,
) -> bool {
    &&& is_candidate(previous, live, wire, key)
    &&& forall|other: Seq<char>| #[trigger]
        is_candidate(previous, live, wire, other) ==> other == key
}

/// A device of the product is listed as online.
pub open spec fn has_live_twin(live: Map<Seq<char>, DeviceRecord>, wire: Seq<char>) -> bool {
    exists|key: Seq<char>| #[trigger]
        live.contains_key(key) && same_wire(key, live[key], wire) && live[key].online
}

/// The listed cards and the adopted ones, after one half-read probe has been
/// dealt with.
pub open spec fn adoption_step(
    previous: Map<Seq<char>, DeviceRecord>,
    state: (Map<Seq<char>, DeviceRecord>, Map<Seq<char>, DeviceRecord>),
    probe: Seq<char>,
) -> (Map<Seq<char>, DeviceRecord>, Map<Seq<char>, DeviceRecord>) {
    let (live, adopted) = state;
    match wire_prefix(probe) {
        None => state,
        Some(wire) => if exists|key: Seq<char>| is_sole_candidate(previous, live, wire, key) {
            let known = choose|key: Seq<char>| is_sole_candidate(previous, live, wire, key);
            let card = if previous.contains_key(known) {
                previous[known]
            } else {
                live[known]
            };
            let rest = live.remove(known);
            if rest.contains_key(probe) {
                (rest.remove(probe), adopted.insert(known, folded(card, rest[probe])))
            } else {
                (rest, adopted)
            }
        } else if (forall|key: Seq<char>| !#[trigger] is_candidate(previous, live, wire, key))
            && has_live_twin(live, wire) {
            (live.remove(probe), adopted)
        } else {
            state
        },
    }
}

/// The listed cards and the adopted ones, after the first `n` half-read probes have
/// been dealt with.
pub open spec fn adoption(
    previous: Map<Seq<char>, DeviceRecord>,
    snapshot: Map<Seq<char>, DeviceRecord>,
    probes: Seq<Seq<char>>,
    n: int,
) -> (Map<Seq<char>, DeviceRecord>, Map<Seq<char>, DeviceRecord>)
    decreases n,
{
    if n <= 0 {
        (snapshot, Map::empty())
    } else {
        adoption_step(previous, adoption(previous, snapshot, probes, n - 1), probes[n - 1])
    }
}

/// The keys of the half-read probes among the first `n` keys, in order.
pub open spec fn probes_in(
    snapshot: Map<Seq<char>, DeviceRecord>,
    keys: Seq<Seq<char>>,
    n: int,
) -> Seq<Seq<char>>
    decreases n,
{
    if n <= 0 {
        Seq::empty()
    } else if snapshot[keys[n - 1]].persistent {
        probes_in(snapshot, keys, n - 1)
    } else {
        probes_in(snapshot, keys, n - 1).push(keys[n - 1])
    }
}

/// Whether a card belongs to a directly connected device of the given product and
/// says which device it is.
fn is_same_wire(record: &DeviceRecord, wire: &str) -> (same: bool)
    ensures
        same == same_wire(record.config_key@, *record, wire@),
{
    if !record.persistent {
        return false;
    }
    match direct_key_prefix(record.config_key.as_str()) {
        Some(prefix) => text::str_eq(prefix.as_str(), wire),
        None => false,
    }
}

/// A list names exactly the keys with a property, each once: entry `i` is the key
/// at position `from[i]`.
spec fn names(
    found: Seq<String>,
    from: Seq<int>,
    keys: Seq<Seq<char>>,
    n: int,
    property: spec_fn(Seq<char>) -> bool,
) -> bool {
    &&& from.len() == found.len()
    &&& forall|i: int|
        0 <= i < from.len() ==> {
            &&& 0 <= #[trigger] from[i] < n
            &&& found[i]@ == keys[from[i]]
            &&& property(keys[from[i]])
        }
    &&& forall|i: int, j: int| 0 <= i < j < from.len() ==> #[trigger] from[i] < #[trigger] from[j]
    &&& forall|k: int| 0 <= k < n && property(#[trigger] keys[k]) ==> from.contains(k)
}

/// Going past a key without the property.
proof fn lemma_names_skip(
    found: Seq<String>,
    from: Seq<int>,
    keys: Seq<Seq<char>>,
    n: int,
    property: spec_fn(Seq<char>) -> bool,
)
    requires
        names(found, from, keys, n, property),
        !property(keys[n]),
    ensures
        names(found, from, keys, n + 1, property),
{
}

/// Naming a key with the property.
proof fn lemma_names_push(
    found: Seq<String>,
    from: Seq<int>,
    keys: Seq<Seq<char>>,
    n: int,
    property: spec_fn(Seq<char>) -> bool,
    name: String,
)
    requires
        0 <= n,
        names(found, from, keys, n, property),
        property(keys[n]),
        name@ == keys[n],
    ensures
        names(found.push(name), from.push(n), keys, n + 1, property),
{
    let after = from.push(n);
    assert(after[from.len() as int] == n);
    assert forall|k: int| 0 <= k < n + 1 && property(#[trigger] keys[k]) implies after.contains(
        k,
    ) by {
        if k < n {
            let i = choose|i: int| 0 <= i < from.len() && from[i] == k;
            assert(after[i] == k);
        }
    }
}

/// What a list of all keys with a property says: its entries have the property and
/// differ, and every key with the property is among them.
proof fn lemma_names_all(
    found: Seq<String>,
    from: Seq<int>,
    keys: Seq<Seq<char>>,
    cards: Map<Seq<char>, DeviceRecord>,
    property: spec_fn(Seq<char>) -> bool,
)
    requires
        names(found, from, keys, keys.len() as int, property),
        ordered_keys(keys, cards),
        forall|key: Seq<char>| #[trigger] property(key) ==> cards.contains_key(key),
    ensures
        found.len() == 0 ==> forall|key: Seq<char>| !#[trigger] property(key),
        found.len() >= 1 ==> property(found[0]@),
        found.len() == 1 ==> forall|key: Seq<char>| #[trigger] property(key) ==> key == found[0]@,
        found.len() >= 2 ==> property(found[1]@) && found[0]@ != found[1]@,
{
    assert forall|key: Seq<char>| #[trigger] property(key) implies exists|i: int|
        0 <= i < found.len() && (#[trigger] found[i])@ == key by {
        assert(keys.contains(key));
        let k = choose|k: int| 0 <= k < keys.len() && keys[k] == key;
        let i = choose|i: int| 0 <= i < from.len() && from[i] == k;
        assert(found[i]@ == key);
    }
    if found.len() >= 1 {
        assert(0 <= from[0]);
    }
    if found.len() >= 2 {
        assert(from[0] < from[1]);
        assert(text::text_less(keys[from[0]], keys[from[1]]));
        text::lemma_text_order(keys[from[0]], keys[from[1]]);
    }
}

/// The devices of the product that are listed as offline.
fn offline_twins(live: &DeviceList, wire: &str) -> (found: Vec<String>)
    ensures
        found@.len() == 0 ==> forall|key: Seq<char>| !is_offline_twin(live@, wire@, key),
        found@.len() >= 1 ==> is_offline_twin(live@, wire@, found@[0]@),
        found@.len() == 1 ==> forall|key: Seq<char>|
            is_offline_twin(live@, wire@, key) ==> key == found@[0]@,
        found@.len() >= 2 ==> is_offline_twin(live@, wire@, found@[1]@) && found@[0]@ != found@[1]@,
{
    let ghost property = |key: Seq<char>| is_offline_twin(live@, wire@, key);
    let ghost keys = live.keys();
    let ghost mut from: Seq<int> = Seq::empty();
    let mut found: Vec<String> = Vec::new();
    let count = live.len();
    let mut n: usize = 0;
    while n < count
        invariant
            count == keys.len(),
            keys == live.keys(),
            property == (|key: Seq<char>| is_offline_twin(live@, wire@, key)),
            n <= count,
            names(found@, from, keys, n as int, property),
        decreases count - n,
    {
        if let Some(record) = live.get(n) {
            if !record.online && is_same_wire(record, wire) {
                let name = record.config_key.clone();
                proof {
                    lemma_names_push(found@, from, keys, n as int, property, name);
                    from = from.push(n as int);
                }
                found.push(name);
            } else {
                proof {
                    lemma_names_skip(found@, from, keys, n as int, property);
                }
            }
        }
        n += 1;
    }
    proof {
        lemma_names_all(found@, from, keys, live@, property);
        assert forall|key: Seq<char>| #[trigger]
            is_offline_twin(live@, wire@, key) implies property(key) by {}
    }
    found
}

/// The devices of the product that were shown and are not listed.
fn absent_twins(previous: &DeviceList, live: &DeviceList, wire: &str) -> (found: Vec<String>)
    ensures
        found@.len() == 0 ==> forall|key: Seq<char>|
            !is_absent_twin(previous@, live@, wire@, key),
        found@.len() >= 1 ==> is_absent_twin(previous@, live@, wire@, found@[0]@),
        found@.len() == 1 ==> forall|key: Seq<char>|
            is_absent_twin(previous@, live@, wire@, key) ==> key == found@[0]@,
        found@.len() >= 2 ==> is_absent_twin(previous@, live@, wire@, found@[1]@) && found@[0]@
            != found@[1]@,
{
    let ghost property = |key: Seq<char>| is_absent_twin(previous@, live@, wire@, key);
    let ghost keys = previous.keys();
    let ghost mut from: Seq<int> = Seq::empty();
    let mut found: Vec<String> = Vec::new();
    let count = previous.len();
    let mut n: usize = 0;
    while n < count
        invariant
            count == keys.len(),
            keys == previous.keys(),
            property == (|key: Seq<char>| is_absent_twin(previous@, live@, wire@, key)),
            n <= count,
            names(found@, from, keys, n as int, property),
        decreases count - n,
    {
        if let Some(record) = previous.get(n) {
            if live.find(record.config_key.as_str()).is_none() && is_same_wire(record, wire) {
                let name = record.config_key.clone();
                proof {
                    lemma_names_push(found@, from, keys, n as int, property, name);
                    from = from.push(n as int);
                }
                found.push(name);
            } else {
                proof {
                    lemma_names_skip(found@, from, keys, n as int, property);
                }
            }
        }
        n += 1;
    }
    proof {
        lemma_names_all(found@, from, keys, previous@, property);
        assert forall|key: Seq<char>| #[trigger]
            is_absent_twin(previous@, live@, wire@, key) implies property(key) by {}
    }
    found
}

/// The only device that a half-read probe may be, or else whether there is none.
enum Candidates {
    /// Nothing fits.
    Nobody,
    /// Exactly this device fits.
    Sole(String),
    /// Several devices fit.
    Several,
}

/// The devices that a half-read probe may be.
fn candidates(previous: &DeviceList, live: &DeviceList, wire: &str) -> (found: Candidates)
    ensures
        match found {
            Candidates::Nobody => forall|key: Seq<char>|
                !#[trigger] is_candidate(previous@, live@, wire@, key),
            Candidates::Sole(name) => is_sole_candidate(previous@, live@, wire@, name@),
            Candidates::Several => exists|one: Seq<char>, other: Seq<char>|
                {
                    &&& #[trigger] is_candidate(previous@, live@, wire@, one)
                    &&& #[trigger] is_candidate(previous@, live@, wire@, other)
                    &&& one != other
                },
        },
{
    let offline = offline_twins(live, wire);
    let absent = absent_twins(previous, live, wire);
    if offline.len() == 0 && absent.len() == 0 {
        Candidates::Nobody
    } else if offline.len() == 1 && absent.len() == 0 {
        Candidates::Sole(offline[0].clone())
    } else if offline.len() == 0 && absent.len() == 1 {
        Candidates::Sole(absent[0].clone())
    } else {
        proof {
            let (one, other) = if offline@.len() >= 2 {
                (offline@[0]@, offline@[1]@)
            } else if absent@.len() >= 2 {
                (absent@[0]@, absent@[1]@)
            } else {
                (offline@[0]@, absent@[0]@)
            };
            assert(is_candidate(previous@, live@, wire@, one));
            assert(is_candidate(previous@, live@, wire@, other));
        }
        Candidates::Several
    }
}

/// Whether a device of the product is listed as online.
fn is_twin_live(live: &DeviceList, wire: &str) -> (found: bool)
    ensures
        found == has_live_twin(live@, wire@),
{
    let count = live.len();
    let mut n: usize = 0;
    while n < count
        invariant
            count == live.keys().len(),
            ordered_keys(live.keys(), live@),
            n <= count,
            forall|k: int|
                0 <= k < n ==> !(same_wire(
                    #[trigger] live.keys()[k],
                    live@[live.keys()[k]],
                    wire@,
                ) && live@[live.keys()[k]].online),
        decreases count - n,
    {
        if let Some(record) = live.get(n) {
            if record.online && is_same_wire(record, wire) {
                assert(live@.contains_key(live.keys()[n as int]));
                return true;
            }
        }
        n += 1;
    }
    proof {
        if has_live_twin(live@, wire@) {
            let key = choose|key: Seq<char>| #[trigger]
                live@.contains_key(key) && same_wire(key, live@[key], wire@) && live@[key].online;
            assert(live.keys().contains(key));
            let k = choose|k: int| 0 <= k < live.keys().len() && live.keys()[k] == key;
            assert(same_wire(live.keys()[k], live@[live.keys()[k]], wire@));
        }
    }
    false
}

/// Deal with one half-read probe.
fn adopt_probe(
    previous: &DeviceList,
    live: &mut DeviceList,
    adopted: &mut DeviceList,
    probe: &str,
)
    ensures
        (final(live)@, final(adopted)@) == adoption_step(
            previous@,
            (old(live)@, old(adopted)@),
            probe@,
        ),
{
    let wire = match direct_key_prefix(probe) {
        Some(wire) => wire,
        None => {
            return;
        },
    };
    match candidates(previous, live, wire.as_str()) {
        Candidates::Sole(known_key) => {
            proof {
                let chosen = choose|key: Seq<char>|
                    is_sole_candidate(previous@, live@, wire@, key);
                assert(is_sole_candidate(previous@, live@, wire@, chosen));
                assert(is_candidate(previous@, live@, wire@, chosen));
                assert(chosen == known_key@);
            }
            let listed = live.remove(known_key.as_str());
            let probed = live.remove(probe);
            if let Some(probed) = probed {
                match previous.find(known_key.as_str()) {
                    Some(known) => {
                        adopted.insert(adopt_transient_record(known, probed));
                    },
                    None => match listed {
                        Some(known) => {
                            adopted.insert(adopt_transient_record(&known, probed));
                        },
                        None => {},
                    },
                }
            } else {
                assert(live@ =~= old(live)@.remove(known_key@));
            }
        },
        Candidates::Nobody => {
            if is_twin_live(live, wire.as_str()) {
                let _ = live.remove(probe);
            }
        },
        Candidates::Several => {},
    }
}

/// Pair each half-read probe in the snapshot with the device that it physically
/// is. When exactly one known card of the same product is not live, the probe can
/// only be that device, and is folded into its card. With no such card the probe
/// is noise if the product is already live; an ambiguous one is left alone.
#[must_use]
pub fn adopt_transient_records(previous: &DeviceList, live: &mut DeviceList) -> (adopted: DeviceList)
    ensures
        ({
            let keys = old(live).keys();
            let probes = probes_in(old(live)@, keys, keys.len() as int);
            (final(live)@, adopted@) == adoption(
                previous@,
                old(live)@,
                probes,
                probes.len() as int,
            )
        }),
{
    let ghost snapshot = live@;
    let ghost keys = live.keys();
    let mut probes: Vec<String> = Vec::new();
    let count = live.len();
    let mut n: usize = 0;
    while n < count
        invariant
            count == keys.len(),
            keys == live.keys(),
            snapshot == live@,
            n <= count,
            probes@.len() == probes_in(snapshot, keys, n as int).len(),
            forall|i: int|
                0 <= i < probes@.len() ==> (#[trigger] probes@[i])@ == probes_in(
                    snapshot,
                    keys,
                    n as int,
                )[i],
        decreases count - n,
    {
        if let Some(record) = live.get(n) {
            if !record.persistent {
                probes.push(record.config_key.clone());
            }
        }
        n += 1;
    }
    let ghost order = probes_in(snapshot, keys, keys.len() as int);
    let mut adopted = DeviceList::new();
    let mut n: usize = 0;
    while n < probes.len()
        invariant
            n <= probes@.len(),
            probes@.len() == order.len(),
            forall|i: int| 0 <= i < probes@.len() ==> (#[trigger] probes@[i])@ == order[i],
            (live@, adopted@) == adoption(previous@, snapshot, order, n as int),
        decreases probes@.len() - n,
    {
        adopt_probe(previous, live, &mut adopted, probes[n].as_str());
        n += 1;
    }
    adopted
}

/// How many snapshots in a row have missed a device.
pub open spec fn missed(misses: Map<Seq<char>, u8>, key: Seq<char>) -> u8 {
    if misses.contains_key(key) {
        misses[key]
    } else {
        0
    }
}

/// A shown device is kept though the snapshot misses it.
pub open spec fn is_kept(
    previous: Map<Seq<char>, DeviceRecord>,
    misses: Map<Seq<char>, u8>,
    key: Seq<char>,
) -> bool {
    previous.contains_key(key) && previous[key].persistent && missed(misses, key) + 1
        <= INVENTORY_MISS_GRACE
}

/// The cards to show: the listed ones, the adopted ones, and those kept through a
/// transient miss.
pub open spec fn merged(
    previous: Map<Seq<char>, DeviceRecord>,
    misses: Map<Seq<char>, u8>,
    live: Map<Seq<char>, DeviceRecord>,
    adopted: Map<Seq<char>, DeviceRecord>,
) -> Map<Seq<char>, DeviceRecord> {
    Map::new(
        |key: Seq<char>|
            live.contains_key(key) || adopted.contains_key(key) || is_kept(previous, misses, key),
        |key: Seq<char>|
            if live.contains_key(key) {
                live[key]
            } else if adopted.contains_key(key) {
                adopted[key]
            } else {
                previous[key]
            },
    )
}

/// The misses that count on: one more for a kept card, none for a card that is
/// listed or adopted again.
pub open spec fn remaining_misses(
    previous: Map<Seq<char>, DeviceRecord>,
    misses: Map<Seq<char>, u8>,
    live: Map<Seq<char>, DeviceRecord>,
    adopted: Map<Seq<char>, DeviceRecord>,
) -> Map<Seq<char>, u8> {
    Map::new(
        |key: Seq<char>|
            {
                ||| !live.contains_key(key) && !adopted.contains_key(key) && is_kept(
                    previous,
                    misses,
                    key,
                )
                ||| !live.contains_key(key) && adopted.contains_key(key) && !previous.contains_key(
                    key,
                ) && misses.contains_key(key)
            },
        |key: Seq<char>|
            if adopted.contains_key(key) {
                misses[key]
            } else {
                (missed(misses, key) + 1) as u8
            },
    )
}

/// The cards to show after a snapshot, and the misses that count on.
pub open spec fn merge_result(
    previous: Map<Seq<char>, DeviceRecord>,
    misses: Map<Seq<char>, u8>,
    snapshot: Map<Seq<char>, DeviceRecord>,
    keys: Seq<Seq<char>>,
) -> (Map<Seq<char>, DeviceRecord>, Map<Seq<char>, u8>) {
    let probes = probes_in(snapshot, keys, keys.len() as int);
    let (live, adopted) = adoption(previous, snapshot, probes, probes.len() as int);
    (
        merged(previous, misses, live, adopted),
        remaining_misses(previous, misses, live, adopted),
    )
}

/// A key is among the first `n` of a sequence.
spec fn among(keys: Seq<Seq<char>>, n: int, key: Seq<char>) -> bool {
    exists|k: int| 0 <= k < n && #[trigger] keys[k] == key
}

/// Put the adopted cards beside the listed ones.
fn add_adopted(
    previous: &DeviceList,
    misses: &TextMap<u8>,
    live: DeviceList,
    adopted: &DeviceList,
) -> (result: (DeviceList, TextMap<u8>))
    ensures
        result.0@ == Map::new(
            |key: Seq<char>| live@.contains_key(key) || adopted@.contains_key(key),
            |key: Seq<char>|
                if live@.contains_key(key) {
                    live@[key]
                } else {
                    adopted@[key]
                },
        ),
        result.1@ == Map::new(
            |key: Seq<char>|
                !live@.contains_key(key) && adopted@.contains_key(key) && !previous@.contains_key(
                    key,
                ) && misses@.contains_key(key),
            |key: Seq<char>| misses@[key],
        ),
{
    let ghost listed = live@;
    let mut cards = live;
    let mut counted: TextMap<u8> = TextMap::new();
    let count = adopted.len();
    let mut n: usize = 0;
    while n < count
        invariant
            count == adopted.keys().len(),
            ordered_keys(adopted.keys(), adopted@),
            n <= count,
            forall|key: Seq<char>| #[trigger]
                cards@.contains_key(key) <==> listed.contains_key(key) || among(
                    adopted.keys(),
                    n as int,
                    key,
                ),
            forall|key: Seq<char>| #[trigger]
                cards@.contains_key(key) ==> cards@[key] == if listed.contains_key(key) {
                    listed[key]
                } else {
                    adopted@[key]
                },
            forall|key: Seq<char>| #[trigger]
                counted@.contains_key(key) <==> !listed.contains_key(key) && among(
                    adopted.keys(),
                    n as int,
                    key,
                ) && !previous@.contains_key(key) && misses@.contains_key(key),
            forall|key: Seq<char>| #[trigger]
                counted@.contains_key(key) ==> counted@[key] == misses@[key],
        decreases count - n,
    {
        let ghost here = adopted.keys()[n as int];
        proof {
            assert forall|key: Seq<char>| among(adopted.keys(), n + 1, key) <==> among(
                adopted.keys(),
                n as int,
                key,
            ) || key == here by {
                if among(adopted.keys(), n as int, key) {
                    let k = choose|k: int| 0 <= k < n && #[trigger] adopted.keys()[k] == key;
                    assert(adopted.keys()[k] == key);
                }
            }
            if among(adopted.keys(), n as int, here) {
                let k = choose|k: int| 0 <= k < n && #[trigger] adopted.keys()[k] == here;
                assert(text::text_less(adopted.keys()[k], adopted.keys()[n as int]));
                text::lemma_text_order(here, here);
            }
        }
        if let Some(card) = adopted.get(n) {
            let key = card.config_key.as_str();
            if cards.find(key).is_none() {
                cards.insert(card.clone());
                if previous.find(key).is_none() {
                    if let Some(times) = misses.get(key) {
                        counted.insert(key, *times);
                    }
                }
            }
        }
        n += 1;
    }
    proof {
        assert forall|key: Seq<char>| among(adopted.keys(), n as int, key)
            <==> adopted@.contains_key(key) by {
            if adopted@.contains_key(key) {
                assert(adopted.keys().contains(key));
            }
            if among(adopted.keys(), n as int, key) {
                let k = choose|k: int| 0 <= k < n && #[trigger] adopted.keys()[k] == key;
                assert(adopted.keys().contains(key));
            }
        }
    }
    (cards, counted)
}

/// Fold a snapshot into the cards that are shown: listed cards replace the shown
/// ones, half-read probes are folded into the cards of the devices that they are,
/// and a card that the snapshot misses is kept for a while.
#[must_use]
pub fn merge_snapshot(
    previous: &DeviceList,
    misses: &TextMap<u8>,
    snapshot: DeviceList,
) -> (result: (DeviceList, TextMap<u8>))
    ensures
        (result.0@, result.1@) == merge_result(
            previous@,
            misses@,
            snapshot@,
            snapshot.keys(),
        ),
{
    let mut live = snapshot;
    let adopted = adopt_transient_records(previous, &mut live);
    let ghost listed = live@;
    let (mut cards, mut counted) = add_adopted(previous, misses, live, &adopted);
    let ghost base = cards@;
    let ghost base_counted = counted@;
    let shown = previous.len();
    let mut n: usize = 0;
    while n < shown
        invariant
            shown == previous.keys().len(),
            ordered_keys(previous.keys(), previous@),
            n <= shown,
            forall|key: Seq<char>| #[trigger]
                base_counted.contains_key(key) ==> !previous@.contains_key(key),
            forall|key: Seq<char>| #[trigger]
                cards@.contains_key(key) <==> base.contains_key(key) || among(
                    previous.keys(),
                    n as int,
                    key,
                ) && is_kept(previous@, misses@, key),
            forall|key: Seq<char>| #[trigger]
                cards@.contains_key(key) ==> cards@[key] == if base.contains_key(key) {
                    base[key]
                } else {
                    previous@[key]
                },
            forall|key: Seq<char>| #[trigger]
                counted@.contains_key(key) <==> base_counted.contains_key(key) || !base.contains_key(
                    key,
                ) && among(previous.keys(), n as int, key) && is_kept(previous@, misses@, key),
            forall|key: Seq<char>| #[trigger]
                counted@.contains_key(key) ==> counted@[key] == if base_counted.contains_key(key) {
                    base_counted[key]
                } else {
                    (missed(misses@, key) + 1) as u8
                },
        decreases shown - n,
    {
        let ghost here = previous.keys()[n as int];
        proof {
            assert forall|key: Seq<char>| among(previous.keys(), n + 1, key) <==> among(
                previous.keys(),
                n as int,
                key,
            ) || key == here by {
                if among(previous.keys(), n as int, key) {
                    let k = choose|k: int| 0 <= k < n && #[trigger] previous.keys()[k] == key;
                    assert(previous.keys()[k] == key);
                }
            }
            if among(previous.keys(), n as int, here) {
                let k = choose|k: int| 0 <= k < n && #[trigger] previous.keys()[k] == here;
                assert(text::text_less(previous.keys()[k], previous.keys()[n as int]));
                text::lemma_text_order(here, here);
            }
        }
        if let Some(card) = previous.get(n) {
            let key = card.config_key.as_str();
            if card.persistent && cards.find(key).is_none() {
                let times: u8 = match misses.get(key) {
                    Some(times) => *times,
                    None => 0,
                };
                if times < INVENTORY_MISS_GRACE {
                    cards.insert(card.clone());
                    counted.insert(key, times + 1);
                }
            }
        }
        n += 1;
    }
    proof {
        assert forall|key: Seq<char>| previous@.contains_key(key) implies among(
            previous.keys(),
            n as int,
            key,
        ) by {
            assert(previous.keys().contains(key));
        }
        assert(cards@ =~= merged(previous@, misses@, listed, adopted@));
        assert(counted@ =~= remaining_misses(previous@, misses@, listed, adopted@));
    }
    (cards, counted)
}

/// A probe that is folded into a known card never shows beside it, and the card
/// keeps its key and stays one that says which device it is.
pub proof fn law_probe_folds_into_its_sole_candidate(
    previous: Map<Seq<char>, DeviceRecord>,
    live: Map<Seq<char>, DeviceRecord>,
    adopted: Map<Seq<char>, DeviceRecord>,
    probe: Seq<char>,
    wire: Seq<char>,
    known: Seq<char>,
)
    requires
        wire_prefix(probe) == Some(wire),
        is_sole_candidate(previous, live, wire, known),
        live.contains_key(probe),
        !live[probe].persistent,
        previous.contains_key(known) && live.contains_key(known) ==> previous[known].persistent
            == live[known].persistent,
    ensures
        ({
            let (rest, taken) = adoption_step(previous, (live, adopted), probe);
            &&& !rest.contains_key(probe)
            &&& !rest.contains_key(known)
            &&& taken.contains_key(known)
            &&& taken[known].persistent
            &&& taken[known].config_key == if previous.contains_key(known) {
                previous[known].config_key
            } else {
                live[known].config_key
            }
            &&& taken[known].online == live[probe].online
            &&& taken[known].route == live[probe].route
        }),
{
    let chosen = choose|key: Seq<char>| is_sole_candidate(previous, live, wire, key);
    assert(is_sole_candidate(previous, live, wire, chosen));
    assert(is_candidate(previous, live, wire, chosen));
    assert(chosen == known);
    assert(known != probe);
    assert(live.remove(known).contains_key(probe));
}

/// A probe that could be either of two known devices is left alone.
pub proof fn law_ambiguous_probe_is_left_alone(
    previous: Map<Seq<char>, DeviceRecord>,
    live: Map<Seq<char>, DeviceRecord>,
    adopted: Map<Seq<char>, DeviceRecord>,
    probe: Seq<char>,
    wire: Seq<char>,
    one: Seq<char>,
    other: Seq<char>,
)
    requires
        wire_prefix(probe) == Some(wire),
        is_candidate(previous, live, wire, one),
        is_candidate(previous, live, wire, other),
        one != other,
    ensures
        adoption_step(previous, (live, adopted), probe) == (live, adopted),
{
}

/// A probe beside its live device, with no absent twin that it could be, is noise.
pub proof fn law_noise_is_dropped(
    previous: Map<Seq<char>, DeviceRecord>,
    live: Map<Seq<char>, DeviceRecord>,
    adopted: Map<Seq<char>, DeviceRecord>,
    probe: Seq<char>,
    wire: Seq<char>,
)
    requires
        wire_prefix(probe) == Some(wire),
        forall|key: Seq<char>| !is_candidate(previous, live, wire, key),
        has_live_twin(live, wire),
    ensures
        adoption_step(previous, (live, adopted), probe) == (live.remove(probe), adopted),
{
}

/// A shown device that a snapshot misses is kept for the grace period, and gone
/// after it; a half-read probe is never kept.
pub proof fn law_miss_grace(
    previous: Map<Seq<char>, DeviceRecord>,
    misses: Map<Seq<char>, u8>,
    live: Map<Seq<char>, DeviceRecord>,
    adopted: Map<Seq<char>, DeviceRecord>,
    key: Seq<char>,
)
    requires
        previous.contains_key(key),
        !live.contains_key(key),
        !adopted.contains_key(key),
    ensures
        merged(previous, misses, live, adopted).contains_key(key) <==> previous[key].persistent
            && missed(misses, key) < INVENTORY_MISS_GRACE,
        merged(previous, misses, live, adopted).contains_key(key) ==> {
            &&& merged(previous, misses, live, adopted)[key] == previous[key]
            &&& missed(remaining_misses(previous, misses, live, adopted), key) == missed(
                misses,
                key,
            ) + 1
        },
{
}

/// A device that is listed again starts over with no misses.
pub proof fn law_listed_device_has_no_misses(
    previous: Map<Seq<char>, DeviceRecord>,
    misses: Map<Seq<char>, u8>,
    live: Map<Seq<char>, DeviceRecord>,
    adopted: Map<Seq<char>, DeviceRecord>,
    key: Seq<char>,
)
    requires
        live.contains_key(key),
    ensures
        merged(previous, misses, live, adopted).contains_key(key),
        merged(previous, misses, live, adopted)[key] == live[key],
        missed(remaining_misses(previous, misses, live, adopted), key) == 0,
{
}

/// Without a saved selection the agent and the window pick the same device: the
/// agent's first one is that of the window's first card, wherever the agent knows the
/// device of that card at all. (It does not where the card stands for a device that is
/// merely recorded, or for a half-read probe.)
pub proof fn law_agent_and_window_pick_the_same_device(
    inventories: Seq<DeviceInventory>,
    config: ConfigModel,
    assets: Map<Seq<char>, String>,
    cards: Map<Seq<char>, DeviceRecord>,
    keys: Seq<Seq<char>>,
)
    requires
        is_device_list(cards, inventories, config, assets),
        ordered_keys(keys, cards),
        keys.len() > 0,
        ({
            let agent = crate::orchestrator::in_order(
                crate::orchestrator::listed(inventories, inventories.len()),
            );
            exists|i: int| 0 <= i < agent.len() && (#[trigger] agent[i]).config_key == keys[0]
        }),
    ensures
        ({
            let agent = crate::orchestrator::in_order(
                crate::orchestrator::listed(inventories, inventories.len()),
            );
            let picked = crate::orchestrator::selected_index(agent, None);
            0 <= picked < agent.len() && agent[picked].config_key == keys[0]
        }),
{
    broadcast use vstd::seq_lib::group_to_multiset_ensures;

    let devices = crate::orchestrator::listed(inventories, inventories.len());
    let agent = crate::orchestrator::in_order(devices);
    let first = agent[0];
    crate::orchestrator::law_order_keeps_devices(devices);
    crate::orchestrator::law_device_list_is_ordered(devices);
    assert(agent.contains(first));
    assert(agent.to_multiset().count(first) > 0);
    assert(devices.contains(first));
    let k = choose|k: int| 0 <= k < devices.len() && devices[k] == first;
    crate::orchestrator::lemma_listed(inventories, inventories.len(), k);
    let (a, b) = choose|a: int, b: int|
        0 <= a < inventories.len() && 0 <= b < inventories[a].paired@.len()
            && #[trigger] crate::orchestrator::device_of(inventories[a], inventories[a].paired@[b])
            == Some(first);
    assert(listed_at(inventories, first.config_key, a, b));
    assert(cards.contains_key(first.config_key));
    assert(keys.contains(first.config_key));
    let at = choose|at: int| 0 <= at < keys.len() && keys[at] == first.config_key;
    let i = choose|i: int| 0 <= i < agent.len() && (#[trigger] agent[i]).config_key == keys[0];
    if at > 0 {
        assert(text::text_less(keys[0], keys[at]));
        text::lemma_text_order(keys[0], keys[at]);
        assert(crate::orchestrator::comes_before(agent[i], agent[0]));
        assert(i != 0);
    }
}

/// The wire of a direct device is its vendor and product: what stands before the third
/// colon of its key. Other keys have none.
pub proof fn law_wire_is_vendor_and_product(
    vendor: Seq<char>,
    product: Seq<char>,
    rest: Seq<char>,
    key: Seq<char>,
)
    requires
        forall|i: int| 0 <= i < vendor.len() ==> vendor[i] != ':',
        forall|i: int| 0 <= i < product.len() ==> product[i] != ':',
    ensures
        wire_prefix("direct:"@ + vendor + seq![':'] + product + seq![':'] + rest) == Some(
            "direct:"@ + vendor + seq![':'] + product,
        ),
        !text::begins(key, "direct:"@) ==> wire_prefix(key) is None,
{
    reveal_strlit("direct:");
    let wire = "direct:"@ + vendor + seq![':'] + product;
    let whole = wire + seq![':'] + rest;
    let first = 7 + vendor.len() as int;
    let end = wire.len() as int;
    assert(whole.take(7) =~= "direct:"@);
    reveal_with_fuel(colons, 9);
    assert(whole[0] == 'd' && whole[1] == 'i' && whole[2] == 'r' && whole[3] == 'e' && whole[4]
        == 'c' && whole[5] == 't' && whole[6] == ':');
    assert(colons(whole, 7) == 1);
    assert forall|i: int| 7 <= i < first implies whole[i] != ':' by {
        assert(whole[i] == vendor[i - 7]);
    }
    lemma_no_colons_between(whole, 7, first);
    assert(whole[first] == ':');
    assert(colons(whole, first + 1) == 2);
    assert forall|i: int| first + 1 <= i < end implies whole[i] != ':' by {
        assert(whole[i] == product[i - first - 1]);
    }
    lemma_no_colons_between(whole, first + 1, end);
    assert(wire_ends(whole, end));
    let at = choose|at: int| wire_ends(whole, at);
    lemma_wire_end_is_unique(whole, at, end);
    assert(whole.take(end) =~= wire);
}

/// Without a colon between two places the count stays.
proof fn lemma_no_colons_between(key: Seq<char>, i: int, j: int)
    requires
        0 <= i <= j <= key.len(),
        forall|k: int| i <= k < j ==> key[k] != ':',
    ensures
        colons(key, j) == colons(key, i),
    decreases j - i,
{
    if i < j {
        lemma_no_colons_between(key, i, j - 1);
    }
}

/// Which keys are passing: those of a direct device whose unit is written as eight zeros.
pub proof fn law_zero_unit_is_passing(middle: Seq<char>, key: Seq<char>)
    ensures
        transient_key("direct:"@ + middle + ":unit:00000000"@),
        transient_key(key) ==> text::begins(key, "direct:"@) && text::ends(key, ":unit:00000000"@),
        !text::begins(key, "direct:"@) ==> !transient_key(key),
        !text::ends(key, ":unit:00000000"@) ==> !transient_key(key),
{
    let whole = "direct:"@ + middle + ":unit:00000000"@;
    text::law_beginnings_and_ends("direct:"@ + middle, ":unit:00000000"@);
    text::law_beginnings_and_ends(middle + ":unit:00000000"@, "direct:"@);
    assert(whole =~= "direct:"@ + (middle + ":unit:00000000"@));
}

/// What a card shows of a connected device: the device as it is paired, over its own
/// route, under its own key, named by its codename or else by its model.
pub proof fn law_card_shows_the_device(
    card: DeviceRecord,
    inventory: DeviceInventory,
    paired: PairedDevice,
    assets: Map<Seq<char>, String>,
    codename: String,
)
    requires
        is_card_of(Some(card), inventory, paired, assets),
    ensures
        paired.model_info is Some,
        ({
            let model = paired.model_info->0;
            let id = StableModel::from_parts(
                crate::device::route_of(inventory, paired.slot),
                paired.slot,
                opt_text(model.serial_number),
                model.unit_id@,
            );
            &&& Some(card.config_key@) == id.key()
            &&& card.persistent <==> id.physical_key() is Some
            &&& card.model_key@ == model.model_key()
            &&& paired.codename == Some(codename) ==> card.display_name@ == codename@
            &&& paired.codename is None ==> card.display_name@ == model.model_key()
            &&& assets.contains_key(model.model_key()) ==> opt_text(card.asset) == Some(
                assets[model.model_key()]@,
            )
            &&& !assets.contains_key(model.model_key()) ==> card.asset is None
        }),
        card.model_info == paired.model_info,
        card.codename == paired.codename,
        card.serial_number == paired.model_info->0.serial_number,
        card.unit_id == paired.model_info->0.unit_id,
        opt_route(card.route) == crate::device::route_of(inventory, paired.slot),
        card.kind == paired.kind,
        card.capabilities == paired.capabilities,
        card.slot == paired.slot,
        card.online == paired.online,
        card.battery == paired.battery,
{
}

/// What a card shows of a known device that is not connected: what was recorded of it,
/// offline and without a route.
pub proof fn law_placeholder_shows_what_is_known(
    card: DeviceRecord,
    key: Seq<char>,
    identity: DeviceIdentity,
    assets: Map<Seq<char>, String>,
)
    requires
        is_placeholder(card, key, identity, assets),
    ensures
        card.config_key@ == key,
        card.persistent,
        !card.online,
        card.route is None,
        card.battery is None,
        card.serial_number is None,
        card.slot == 0,
        card.display_name == identity.display_name,
        card.kind == identity.kind,
        card.capabilities == Some(identity.capabilities),
        card.codename == identity.codename,
        card.model_info == identity.model_info,
        identity.model_info is Some ==> card.model_key@ == identity.model_info->0.model_key(),
        identity.model_info is None ==> card.model_key@ == key,
        card.unit_id@ == seq![0u8, 0u8, 0u8, 0u8],
{
}

/// Which cards there are: one for each device that is connected, and one for each that is
/// recorded with an identity and is not passing; a connected one shows its last listing.
pub proof fn law_connected_and_known_devices_have_cards(
    cards: Map<Seq<char>, DeviceRecord>,
    inventories: Seq<DeviceInventory>,
    config: ConfigModel,
    assets: Map<Seq<char>, String>,
    key: Seq<char>,
    a: int,
    b: int,
)
    requires
        is_device_list(cards, inventories, config, assets),
    ensures
        listed_at(inventories, key, a, b) ==> cards.contains_key(key),
        config.devices.contains_key(key) && config.devices[key].identity is Some && !transient_key(
            key,
        ) ==> cards.contains_key(key),
        cards.contains_key(key) && !is_listed(inventories, key) ==> !cards[key].online
            && config.devices[key].identity is Some && cards[key].display_name
            == config.devices[key].identity->0.display_name,
        listed_at(inventories, key, a, b) && (forall|c: int, d: int| #[trigger]
            listed_at(inventories, key, c, d) ==> c < a || (c == a && d <= b)) ==> is_card_of(
            Some(cards[key]),
            inventories[a],
            inventories[a].paired@[b],
            assets,
        ),
        live_key(inventories[a], inventories[a].paired@[b]) is Some
            ==> inventories[a].paired@[b].model_info is Some,
{
    if listed_at(inventories, key, a, b) {
        assert(is_listed(inventories, key));
        assert(cards.contains_key(key));
        assert(is_live_card(cards[key], inventories, key, assets));
        let (x, y) = choose|x: int, y: int|
            {
                &&& #[trigger] listed_at(inventories, key, x, y)
                &&& is_card_of(Some(cards[key]), inventories[x], inventories[x].paired@[y], assets)
                &&& forall|c: int, d: int| #[trigger]
                    listed_at(inventories, key, c, d) ==> !comes_before(x, y, c, d)
            };
        if forall|c: int, d: int| #[trigger]
            listed_at(inventories, key, c, d) ==> c < a || (c == a && d <= b) {
            assert(x < a || (x == a && y <= b));
            assert(!comes_before(x, y, a, b));
        }
    }
}

/// What a known device takes over from a passing one on its wire: how it is reached now
/// and what it reports, and of the capabilities only reported ones; its name, key and
/// whatever else is known of it stay.
pub proof fn law_known_device_takes_over(known: DeviceRecord, live: DeviceRecord)
    ensures
        ({
            let card = folded(known, live);
            &&& card.route == live.route
            &&& card.slot == live.slot
            &&& card.online == live.online
            &&& card.battery == live.battery
            &&& live.capabilities is Some ==> card.capabilities == live.capabilities
            &&& live.capabilities is None ==> card.capabilities == known.capabilities
            &&& card.config_key == known.config_key
            &&& card.persistent == known.persistent
            &&& card.display_name == known.display_name
            &&& card.model_key == known.model_key
            &&& card.model_info == known.model_info
            &&& card.codename == known.codename
            &&& card.kind == known.kind
            &&& card.asset == known.asset
            &&& card.serial_number == known.serial_number
            &&& card.unit_id == known.unit_id
        }),
{
}

/// Which known devices a passing one may be: those of its wire that can be stored and are
/// listed offline, or were there before and are not listed now.
pub proof fn law_candidates_share_the_wire(
    previous: Map<Seq<char>, DeviceRecord>,
    live: Map<Seq<char>, DeviceRecord>,
    wire: Seq<char>,
    key: Seq<char>,
)
    ensures
        live.contains_key(key) ==> (is_candidate(previous, live, wire, key)
            <==> live[key].persistent && !live[key].online && wire_prefix(key) == Some(wire)),
        !live.contains_key(key) ==> (is_candidate(previous, live, wire, key)
            <==> previous.contains_key(key) && previous[key].persistent && wire_prefix(key) == Some(
            wire,
        )),
        live.contains_key(key) && live[key].persistent && live[key].online && wire_prefix(key)
            == Some(wire) ==> has_live_twin(live, wire),
        has_live_twin(live, wire) ==> exists|twin: Seq<char>| #[trigger]
            live.contains_key(twin) && live[twin].persistent && live[twin].online && wire_prefix(
                twin,
            ) == Some(wire),
{
    if has_live_twin(live, wire) {
        let twin = choose|twin: Seq<char>| #[trigger]
            live.contains_key(twin) && same_wire(twin, live[twin], wire) && live[twin].online;
        assert(live.contains_key(twin) && live[twin].persistent);
    }
}

/// What is tried for adoption: the listed devices that cannot be stored, in their order.
pub proof fn law_passing_devices_are_tried(
    snapshot: Map<Seq<char>, DeviceRecord>,
    keys: Seq<Seq<char>>,
    n: int,
    key: Seq<char>,
)
    requires
        0 <= n <= keys.len(),
    ensures
        probes_in(snapshot, keys, n).contains(key) <==> exists|i: int|
            0 <= i < n && #[trigger] keys[i] == key && !snapshot[keys[i]].persistent,
        n > 0 && !snapshot[keys[n - 1]].persistent ==> probes_in(snapshot, keys, n).last()
            == keys[n - 1] && probes_in(snapshot, keys, n).drop_last() == probes_in(
            snapshot,
            keys,
            n - 1,
        ),
    decreases n,
{
    if n > 0 {
        law_passing_devices_are_tried(snapshot, keys, n - 1, key);
        let earlier = probes_in(snapshot, keys, n - 1);
        let all = probes_in(snapshot, keys, n);
        if !snapshot[keys[n - 1]].persistent {
            assert(all.drop_last() =~= earlier);
            assert(all[all.len() - 1] == keys[n - 1]);
            if earlier.contains(key) {
                let k = choose|k: int| 0 <= k < earlier.len() && earlier[k] == key;
                assert(all[k] == key);
            }
            if all.contains(key) && !earlier.contains(key) {
                let k = choose|k: int| 0 <= k < all.len() && all[k] == key;
                if k < earlier.len() {
                    assert(earlier[k] == key);
                }
                assert(keys[n - 1] == key);
            }
        }
        if exists|i: int|
            0 <= i < n && #[trigger] keys[i] == key && !snapshot[keys[i]].persistent {
            let i = choose|i: int|
                0 <= i < n && #[trigger] keys[i] == key && !snapshot[keys[i]].persistent;
            if i < n - 1 {
                assert(earlier.contains(key));
            }
        }
    }
}

/// What a merge keeps: what is listed as listed, what was adopted as adopted, and a known
/// device that is missing for up to two refreshes as it was; and for how many it has been
/// missing.
pub proof fn law_missing_devices_stay_for_two(
    previous: Map<Seq<char>, DeviceRecord>,
    misses: Map<Seq<char>, u8>,
    live: Map<Seq<char>, DeviceRecord>,
    adopted: Map<Seq<char>, DeviceRecord>,
    key: Seq<char>,
)
    ensures
        ({
            let cards = merged(previous, misses, live, adopted);
            let counts = remaining_misses(previous, misses, live, adopted);
            let missed_before: int = if misses.contains_key(key) {
                misses[key] as int
            } else {
                0
            };
            let stays = previous.contains_key(key) && previous[key].persistent && missed_before
                <= 1;
            &&& live.contains_key(key) ==> cards.contains_key(key) && cards[key] == live[key]
                && !counts.contains_key(key)
            &&& !live.contains_key(key) && adopted.contains_key(key) ==> cards.contains_key(key)
                && cards[key] == adopted[key]
            &&& !live.contains_key(key) && !adopted.contains_key(key) ==> {
                &&& cards.contains_key(key) <==> stays
                &&& counts.contains_key(key) <==> stays
                &&& stays ==> cards[key] == previous[key] && counts[key] == missed_before + 1
            }
            &&& missed(misses, key) == missed_before
        }),
{
}

/// Under which key a device's settings are stored: under its own, where it can be told
/// apart for good, and under none otherwise.
pub proof fn law_passing_devices_store_nothing(record: DeviceRecord)
    ensures
        record.persistent ==> record.stored_key() == Some(record.config_key@),
        !record.persistent ==> record.stored_key() is None,
{
}

/// A device has no card exactly where it reports no model, or has no key.
pub proof fn law_device_without_key_has_no_card(
    inventory: DeviceInventory,
    paired: PairedDevice,
    assets: Map<Seq<char>, String>,
)
    ensures
        paired.model_info is None ==> is_card_of(None, inventory, paired, assets) && live_key(
            inventory,
            paired,
        ) is None,
        paired.model_info matches Some(model) ==> {
            let key = StableModel::from_parts(
                crate::device::route_of(inventory, paired.slot),
                paired.slot,
                opt_text(model.serial_number),
                model.unit_id@,
            ).key();
            &&& live_key(inventory, paired) == key
            &&& is_card_of(None, inventory, paired, assets) <==> key is None
        },
{
}

/// A sole candidate is one, and there is no other.
pub proof fn law_sole_candidate_is_alone(
    previous: Map<Seq<char>, DeviceRecord>,
    live: Map<Seq<char>, DeviceRecord>,
    wire: Seq<char>,
    key: Seq<char>,
    other: Seq<char>,
)
    ensures
        is_sole_candidate(previous, live, wire, key) ==> is_candidate(previous, live, wire, key),
        is_sole_candidate(previous, live, wire, key) && is_candidate(previous, live, wire, other)
            ==> other == key,
        is_candidate(previous, live, wire, key) && (forall|k: Seq<char>| #[trigger]
            is_candidate(previous, live, wire, k) ==> k == key) ==> is_sole_candidate(
            previous,
            live,
            wire,
            key,
        ),
{
}

/// Adoption goes through the passing devices one after the other, from what is listed and
/// with nothing adopted; one without a wire is left alone.
pub proof fn law_passing_devices_are_adopted_in_turn(
    previous: Map<Seq<char>, DeviceRecord>,
    snapshot: Map<Seq<char>, DeviceRecord>,
    probes: Seq<Seq<char>>,
    n: int,
)
    requires
        0 <= n < probes.len(),
    ensures
        adoption(previous, snapshot, probes, 0).0 == snapshot,
        adoption(previous, snapshot, probes, 0).1 == Map::<Seq<char>, DeviceRecord>::empty(),
        adoption(previous, snapshot, probes, n + 1) == adoption_step(
            previous,
            adoption(previous, snapshot, probes, n),
            probes[n],
        ),
        wire_prefix(probes[n]) is None ==> adoption(previous, snapshot, probes, n + 1) == adoption(
            previous,
            snapshot,
            probes,
            n,
        ),
{
}

/// A device that is adopted keeps the card that was known of it before, where there is
/// one, and otherwise the one listed; it takes over from the passing one, and both are
/// then listed no more.
pub proof fn law_adopted_device_is_the_known_one(
    previous: Map<Seq<char>, DeviceRecord>,
    live: Map<Seq<char>, DeviceRecord>,
    adopted: Map<Seq<char>, DeviceRecord>,
    probe: Seq<char>,
    wire: Seq<char>,
    known: Seq<char>,
)
    requires
        wire_prefix(probe) == Some(wire),
        is_sole_candidate(previous, live, wire, known),
        live.contains_key(probe),
        probe != known,
    ensures
        ({
            let (rest, taken) = adoption_step(previous, (live, adopted), probe);
            let card = if previous.contains_key(known) {
                previous[known]
            } else {
                live[known]
            };
            &&& taken.contains_key(known)
            &&& taken[known].display_name == card.display_name
            &&& taken[known].route == live[probe].route
            &&& taken[known].online == live[probe].online
            &&& rest == live.remove(known).remove(probe)
        }),
{
    let chosen = choose|key: Seq<char>| is_sole_candidate(previous, live, wire, key);
    assert(is_sole_candidate(previous, live, wire, chosen));
    assert(is_candidate(previous, live, wire, known));
    assert(chosen == known);
}

} // verus!
