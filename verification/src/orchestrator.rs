//! Headless runtime state owned by the background agent: which device is active,
//! which bindings and settings are published for it, and which volatile settings
//! have to be written again.

use crate::binding::{Action, Binding, ButtonId};
use crate::bindings::{
    bindings_for, click_projection, dedicated_mode, effective, hid_gestures_for,
    oshook_gestures_for, slot_mode, GestureMode,
};
use crate::button_map::ButtonMap;
use crate::config::{Config, ConfigModel, Lighting, ScrollResolution, SmartShift};
use crate::device::{
    clone_opt_route, clone_opt_text, opt_route, opt_route_eq, opt_text, route_of, Capabilities,
    DeviceInventory, DeviceRoute, PairedDevice, RouteModel,
};
use crate::device_order::{DeviceStableId, StableModel};
use crate::hook_runtime::HookMaps;
use crate::ipc::InventoryHealth;
use crate::text;
use crate::text_map::TextMap;
use crate::watchers::gesture::{CaptureEpoch, EpochStart, GestureBindingState};
use vstd::prelude::*;

verus! {

/// The per-device facts the agent needs.
#[derive(Debug)]
pub struct AgentDevice {
    /// Key of the device's settings.
    pub config_key: String,
    /// Key of the device's model.
    pub model_key: String,
    /// How the device is reached.
    pub route: Option<DeviceRoute>,
    /// Pairing slot.
    pub slot: u8,
    /// Serial number.
    pub serial: Option<String>,
    /// Unit identifier.
    pub unit_id: [u8; 4],
    /// Measured capabilities.
    pub capabilities: Option<Capabilities>,
    /// Whether the device answers at the moment.
    pub online: bool,
}

/// The content of an [`AgentDevice`].
pub struct AgentModel {
    /// Key of the device's settings.
    pub config_key: Seq<char>,
    /// Key of the device's model.
    pub model_key: Seq<char>,
    /// How the device is reached.
    pub route: Option<RouteModel>,
    /// Pairing slot.
    pub slot: u8,
    /// Serial number.
    pub serial: Option<Seq<char>>,
    /// Unit identifier.
    pub unit_id: Seq<u8>,
    /// Measured capabilities.
    pub capabilities: Option<Capabilities>,
    /// Whether the device answers at the moment.
    pub online: bool,
}

impl View for AgentDevice {
    type V = AgentModel;

    open spec fn view(&self) -> AgentModel {
        AgentModel {
            config_key: self.config_key@,
            model_key: self.model_key@,
            route: opt_route(self.route),
            slot: self.slot,
            serial: opt_text(self.serial),
            unit_id: self.unit_id@,
            capabilities: self.capabilities,
            online: self.online,
        }
    }
}

/// The content of a device list.
pub open spec fn agent_models(devices: Seq<AgentDevice>) -> Seq<AgentModel> {
    devices.map_values(|device: AgentDevice| device@)
}

impl AgentModel {
    /// The device's identity across inventories.
    pub open spec fn id(self) -> StableModel {
        StableModel::from_parts(self.route, self.slot, self.serial, self.unit_id)
    }

    /// Whether settings can be written to the device.
    pub open spec fn reachable(self) -> bool {
        self.online && self.route is Some
    }
}

/// What the agent knows of a paired device; nothing until its model has been
/// read, nor of a half-read probe.
pub open spec fn device_of(inventory: DeviceInventory, paired: PairedDevice) -> Option<AgentModel> {
    match paired.model_info {
        None => None,
        Some(model) => {
            let route = route_of(inventory, paired.slot);
            let id = StableModel::from_parts(
                route,
                paired.slot,
                opt_text(model.serial_number),
                model.unit_id@,
            );
            match id.physical_key() {
                None => None,
                Some(config_key) => Some(
                    AgentModel {
                        config_key,
                        model_key: model.model_key(),
                        route,
                        slot: paired.slot,
                        serial: opt_text(model.serial_number),
                        unit_id: model.unit_id@,
                        capabilities: paired.capabilities,
                        online: paired.online,
                    },
                ),
            }
        },
    }
}

/// The known devices among the first `n` of an inventory.
pub open spec fn listed_paired(inventory: DeviceInventory, n: nat) -> Seq<AgentModel>
    decreases n,
{
    if n == 0 {
        Seq::empty()
    } else {
        let earlier = listed_paired(inventory, (n - 1) as nat);
        match device_of(inventory, inventory.paired@[n - 1]) {
            Some(device) => earlier.push(device),
            None => earlier,
        }
    }
}

/// The known devices of the first `n` inventories, in their order.
pub open spec fn listed(inventories: Seq<DeviceInventory>, n: nat) -> Seq<AgentModel>
    decreases n,
{
    if n == 0 {
        Seq::empty()
    } else {
        let inventory = inventories[n - 1];
        listed(inventories, (n - 1) as nat) + listed_paired(inventory, inventory.paired@.len())
    }
}

/// The order of devices: by key, then by model.
pub open spec fn comes_before(a: AgentModel, b: AgentModel) -> bool {
    text::text_less(a.config_key, b.config_key) || (a.config_key == b.config_key
        && text::text_less(a.model_key, b.model_key))
}

/// The list with a device put behind every device that does not come after it.
pub open spec fn placed(list: Seq<AgentModel>, device: AgentModel) -> Seq<AgentModel>
    decreases list.len(),
{
    if list.len() == 0 {
        seq![device]
    } else if comes_before(device, list.last()) {
        placed(list.drop_last(), device).push(list.last())
    } else {
        list.push(device)
    }
}

/// The list in device order; devices that are equal in it keep their order.
pub open spec fn in_order(list: Seq<AgentModel>) -> Seq<AgentModel>
    decreases list.len(),
{
    if list.len() == 0 {
        Seq::empty()
    } else {
        placed(in_order(list.drop_last()), list.last())
    }
}

/// Where a device is put: right after the last one that it does not precede.
proof fn lemma_placed(list: Seq<AgentModel>, device: AgentModel, at: int)
    requires
        0 <= at <= list.len(),
        at > 0 ==> !comes_before(device, list[at - 1]),
        forall|j: int| at <= j < list.len() ==> comes_before(device, #[trigger] list[j]),
    ensures
        placed(list, device) == list.insert(at, device),
    decreases list.len(),
{
    if list.len() == 0 {
        assert(list.insert(0, device) =~= seq![device]);
    } else if at == list.len() {
        assert(!comes_before(device, list.last()));
        assert(list.insert(at, device) =~= list.push(device));
    } else {
        assert(comes_before(device, list[list.len() - 1]));
        lemma_placed(list.drop_last(), device, at);
        assert(list.insert(at, device) =~= list.drop_last().insert(at, device).push(list.last()));
    }
}

/// Whether a device comes before another.
fn precedes(a: &AgentDevice, b: &AgentDevice) -> (before: bool)
    ensures
        before == comes_before(a@, b@),
{
    text::str_less(a.config_key.as_str(), b.config_key.as_str()) || (text::str_eq(
        a.config_key.as_str(),
        b.config_key.as_str(),
    ) && text::str_less(a.model_key.as_str(), b.model_key.as_str()))
}

/// Put a device where it belongs.
fn place(list: &mut Vec<AgentDevice>, device: AgentDevice)
    ensures
        agent_models(final(list)@) == placed(agent_models(old(list)@), device@),
{
    let mut at: usize = list.len();
    while at > 0 && precedes(&device, &list[at - 1])
        invariant
            at <= list@.len(),
            list@ == old(list)@,
            forall|j: int| at <= j < list@.len() ==> comes_before(device@, #[trigger] list@[j]@),
        decreases at,
    {
        at -= 1;
    }
    let ghost before = agent_models(list@);
    let ghost model = device@;
    proof {
        assert forall|j: int| at <= j < before.len() implies comes_before(
            model,
            #[trigger] before[j],
        ) by {
            assert(before[j] == list@[j]@);
        }
        lemma_placed(before, model, at as int);
    }
    list.insert(at, device);
    assert(agent_models(list@) =~= before.insert(at as int, model));
}

/// What the agent knows of a paired device.
fn agent_device(inventory: &DeviceInventory, paired: &PairedDevice) -> (device: Option<AgentDevice>)
    ensures
        match device {
            Some(found) => device_of(*inventory, *paired) == Some(found@),
            None => device_of(*inventory, *paired) is None,
        },
{
    let model = match &paired.model_info {
        Some(model) => model,
        None => {
            return None;
        },
    };
    let route = DeviceRoute::device_route_for(inventory, paired.slot);
    let serial = match &model.serial_number {
        Some(serial) => Some(serial.as_str()),
        None => None,
    };
    let id = DeviceStableId::from_parts(route.as_ref(), paired.slot, serial, model.unit_id);
    match id.physical_key() {
        None => None,
        Some(config_key) => Some(
            AgentDevice {
                config_key,
                model_key: model.config_key(),
                route,
                slot: paired.slot,
                serial: clone_opt_text(&model.serial_number),
                unit_id: model.unit_id,
                capabilities: paired.capabilities,
                online: paired.online,
            },
        ),
    }
}

/// Build the device list from an inventory snapshot: the devices whose model has
/// been read and that have a physical key, in device order, so that the fallback
/// without a saved selection is the same device everywhere.
#[must_use]
pub fn build_devices(inventories: &Vec<DeviceInventory>) -> (devices: Vec<AgentDevice>)
    ensures
        agent_models(devices@) == in_order(listed(inventories@, inventories@.len())),
{
    let mut devices: Vec<AgentDevice> = Vec::new();
    assert(agent_models(devices@) =~= in_order(listed(inventories@, 0)));
    let mut i: usize = 0;
    while i < inventories.len()
        invariant
            i <= inventories@.len(),
            agent_models(devices@) == in_order(listed(inventories@, i as nat)),
        decreases inventories@.len() - i,
    {
        let inventory = &inventories[i];
        let ghost base = listed(inventories@, i as nat);
        assert(base + listed_paired(*inventory, 0) =~= base);
        let mut j: usize = 0;
        while j < inventory.paired.len()
            invariant
                j <= inventory.paired@.len(),
                agent_models(devices@) == in_order(base + listed_paired(*inventory, j as nat)),
            decreases inventory.paired@.len() - j,
        {
            let ghost so_far = base + listed_paired(*inventory, j as nat);
            match agent_device(inventory, &inventory.paired[j]) {
                Some(device) => {
                    proof {
                        let next = base + listed_paired(*inventory, (j + 1) as nat);
                        assert(next =~= so_far.push(device@));
                        assert(next.drop_last() =~= so_far);
                    }
                    place(&mut devices, device);
                },
                None => {
                    assert(listed_paired(*inventory, (j + 1) as nat) == listed_paired(
                        *inventory,
                        j as nat,
                    ));
                },
            }
            j += 1;
        }
        i += 1;
    }
    devices
}

/// The canonical identity of one device.
#[must_use]
pub fn stable_id(device: &AgentDevice) -> (id: DeviceStableId)
    ensures
        id@ == device@.id(),
{
    let serial = match &device.serial {
        Some(serial) => Some(serial.as_str()),
        None => None,
    };
    DeviceStableId::from_parts(device.route.as_ref(), device.slot, serial, device.unit_id)
}

/// Some device of the list has this identity.
pub open spec fn knows(list: Seq<AgentModel>, id: StableModel) -> bool {
    exists|k: int| 0 <= k < list.len() && (#[trigger] list[k]).id() == id
}

/// The first device of the list with this identity is online.
pub open spec fn was_online(list: Seq<AgentModel>, id: StableModel) -> bool
    decreases list.len(),
{
    if list.len() == 0 {
        false
    } else if list[0].id() == id {
        list[0].online
    } else {
        was_online(list.skip(1), id)
    }
}

/// The device's volatile settings have to be written: it can be reached, and it
/// is new, has just come online, or everything is to be written.
pub open spec fn needs_write(prev: Seq<AgentModel>, device: AgentModel, reapply_all: bool) -> bool {
    device.reachable() && (reapply_all || !knows(prev, device.id()) || !was_online(
        prev,
        device.id(),
    ))
}

/// The indices below `n` that satisfy a condition, in ascending order.
pub open spec fn chosen(n: nat, condition: spec_fn(int) -> bool) -> Seq<usize>
    decreases n,
{
    if n == 0 {
        Seq::empty()
    } else {
        let earlier = chosen((n - 1) as nat, condition);
        if condition(n - 1) {
            earlier.push((n - 1) as usize)
        } else {
            earlier
        }
    }
}

/// What is known of a device in a list: whether it is there, and whether its
/// first entry is online.
fn look_up(list: &Vec<AgentDevice>, id: &DeviceStableId) -> (found: (bool, bool))
    ensures
        found.0 == knows(agent_models(list@), id@),
        found.1 == was_online(agent_models(list@), id@),
{
    let ghost models = agent_models(list@);
    let mut i: usize = 0;
    assert(models.skip(0) =~= models);
    while i < list.len()
        invariant
            i <= list@.len(),
            models == agent_models(list@),
            forall|k: int| 0 <= k < i ==> (#[trigger] models[k]).id() != id@,
            was_online(models, id@) == was_online(models.skip(i as int), id@),
        decreases list@.len() - i,
    {
        proof {
            assert(models.skip(i as int)[0] == models[i as int]);
            assert(models[i as int] == list@[i as int]@);
            assert(models.skip(i as int).skip(1) =~= models.skip(i + 1));
        }
        if stable_id(&list[i]).same(id) {
            assert(models[i as int].id() == id@);
            return (true, list[i].online);
        }
        i += 1;
    }
    (false, false)
}

/// Indices of the devices whose volatile settings need writing: a device that is
/// newly present, or one that has just come online; after a system wake every
/// online device. Offline devices are never targeted: they are written on their
/// own transition.
#[must_use]
pub fn reapply_targets(prev: &Vec<AgentDevice>, next: &Vec<AgentDevice>, reapply_all: bool) -> (targets:
    Vec<usize>)
    ensures
        targets@ == chosen(
            next@.len(),
            |i: int| needs_write(agent_models(prev@), agent_models(next@)[i], reapply_all),
        ),
{
    let mut targets: Vec<usize> = Vec::new();
    let ghost condition = |i: int|
        needs_write(agent_models(prev@), agent_models(next@)[i], reapply_all);
    let mut i: usize = 0;
    while i < next.len()
        invariant
            i <= next@.len(),
            condition == (|i: int|
                needs_write(agent_models(prev@), agent_models(next@)[i], reapply_all)),
            targets@ == chosen(i as nat, condition),
        decreases next@.len() - i,
    {
        let device = &next[i];
        assert(agent_models(next@)[i as int] == device@);
        if device.online && device.route.is_some() {
            let (known, online) = look_up(prev, &stable_id(device));
            if reapply_all || !known || !online {
                targets.push(i);
            }
        }
        i += 1;
    }
    targets
}

/// The plan of volatile-settings writes.
#[derive(Debug)]
pub struct ReapplyPlan {
    /// Indices of the devices to write to.
    pub targets: Vec<usize>,
    /// Keys of the devices to write to once more on the next refresh.
    pub followup: TextMap<()>,
}

/// A device due one confirming write: it can be reached, was first sighted last
/// time, and is not written to anyway.
pub open spec fn needs_confirmation(
    prev: Seq<AgentModel>,
    device: AgentModel,
    followup: Set<Seq<char>>,
    reapply_all: bool,
) -> bool {
    device.reachable() && followup.contains(device.config_key) && !needs_write(
        prev,
        device,
        reapply_all,
    )
}

/// A device first sighted now.
pub open spec fn first_sighting(prev: Seq<AgentModel>, device: AgentModel) -> bool {
    device.reachable() && !knows(prev, device.id())
}

/// The keys of the devices that are first sighted now.
pub open spec fn sighted_keys(prev: Seq<AgentModel>, next: Seq<AgentModel>, n: nat) -> Set<
    Seq<char>,
> {
    Set::new(
        |key: Seq<char>|
            exists|i: int|
                0 <= i < n && first_sighting(prev, #[trigger] next[i]) && next[i].config_key == key,
    )
}

/// Plan this refresh's volatile-settings writes: the [`reapply_targets`], then one
/// confirming write for devices first sighted last refresh (the first write can
/// race the device's own boot), and the keys to confirm next refresh.
#[must_use]
pub fn plan_reapply(
    prev: &Vec<AgentDevice>,
    next: &Vec<AgentDevice>,
    followup: &TextMap<()>,
    reapply_all: bool,
) -> (plan: ReapplyPlan)
    ensures
        plan.targets@ == chosen(
            next@.len(),
            |i: int| needs_write(agent_models(prev@), agent_models(next@)[i], reapply_all),
        ) + chosen(
            next@.len(),
            |i: int|
                needs_confirmation(
                    agent_models(prev@),
                    agent_models(next@)[i],
                    followup@.dom(),
                    reapply_all,
                ),
        ),
        plan.followup@.dom() == sighted_keys(
            agent_models(prev@),
            agent_models(next@),
            next@.len(),
        ),
{
    let ghost p = agent_models(prev@);
    let ghost m = agent_models(next@);
    let mut targets = reapply_targets(prev, next, reapply_all);
    let ghost writes = targets@;
    let ghost condition = |i: int| needs_confirmation(p, m[i], followup@.dom(), reapply_all);
    let mut sighted: TextMap<()> = TextMap::new();
    let mut i: usize = 0;
    assert(writes + chosen(0, condition) =~= writes);
    assert(sighted@.dom() =~= sighted_keys(p, m, 0));
    while i < next.len()
        invariant
            i <= next@.len(),
            p == agent_models(prev@),
            m == agent_models(next@),
            condition == (|i: int| needs_confirmation(p, m[i], followup@.dom(), reapply_all)),
            targets@ == writes + chosen(i as nat, condition),
            sighted@.dom() == sighted_keys(p, m, i as nat),
        decreases next@.len() - i,
    {
        let device = &next[i];
        assert(m[i as int] == device@);
        let ghost before = sighted@.dom();
        if device.online && device.route.is_some() {
            let (known, online) = look_up(prev, &stable_id(device));
            if !known {
                sighted.insert(device.config_key.as_str(), ());
            }
            let written = reapply_all || !known || !online;
            if !written && followup.contains_key(device.config_key.as_str()) {
                targets.push(i);
            }
        }
        proof {
            assert(targets@ =~= writes + chosen((i + 1) as nat, condition));
            assert forall|key: Seq<char>| sighted@.dom().contains(key) <==> sighted_keys(
                p,
                m,
                (i + 1) as nat,
            ).contains(key) by {
                if sighted_keys(p, m, (i + 1) as nat).contains(key) {
                    let k = choose|k: int|
                        0 <= k < i + 1 && first_sighting(p, #[trigger] m[k]) && m[k].config_key
                            == key;
                    if k < i {
                        assert(before.contains(key));
                    }
                }
                if before.contains(key) {
                    let k = choose|k: int|
                        0 <= k < i && first_sighting(p, #[trigger] m[k]) && m[k].config_key == key;
                    assert(0 <= k < i + 1 && first_sighting(p, m[k]));
                }
                if first_sighting(p, m[i as int]) && m[i as int].config_key == key {
                    assert(sighted_keys(p, m, (i + 1) as nat).contains(key));
                }
            }
            assert(sighted@.dom() =~= sighted_keys(p, m, (i + 1) as nat));
        }
        i += 1;
    }
    ReapplyPlan { targets, followup: sighted }
}

/// The index of the first device with this key.
pub open spec fn index_of(list: Seq<AgentModel>, key: Seq<char>) -> Option<int>
    decreases list.len(),
{
    if list.len() == 0 {
        None
    } else if list[0].config_key == key {
        Some(0)
    } else {
        match index_of(list.skip(1), key) {
            Some(i) => Some(i + 1),
            None => None,
        }
    }
}

/// The selected index: the saved device's, or the first.
pub open spec fn selected_index(list: Seq<AgentModel>, saved: Option<Seq<char>>) -> int {
    match saved {
        Some(key) => match index_of(list, key) {
            Some(i) => i,
            None => 0,
        },
        None => 0,
    }
}

/// Index of the selected device: the one whose key is the saved selection, else
/// the first.
#[must_use]
pub fn pick_current(devices: &Vec<AgentDevice>, saved: Option<&str>) -> (index: usize)
    ensures
        index == selected_index(agent_models(devices@), text::opt_view(saved)),
        index < devices@.len() || index == 0,
{
    let key = match saved {
        Some(key) => key,
        None => {
            return 0;
        },
    };
    let ghost models = agent_models(devices@);
    let mut i: usize = 0;
    assert(models.skip(0) =~= models);
    while i < devices.len()
        invariant
            i <= devices@.len(),
            models == agent_models(devices@),
            text::opt_view(saved) == Some(key@),
            index_of(models, key@) == match index_of(models.skip(i as int), key@) {
                Some(k) => Some(k + i),
                None => None,
            },
        decreases devices@.len() - i,
    {
        proof {
            assert(models.skip(i as int)[0] == models[i as int]);
            assert(models[i as int] == devices@[i as int]@);
            assert(models.skip(i as int).skip(1) =~= models.skip(i + 1));
        }
        if text::str_eq(devices[i].config_key.as_str(), key) {
            return i;
        }
        i += 1;
    }
    0
}

/// The wheel settings of a device: each only where the device supports it.
pub open spec fn wheel_mode(config: ConfigModel, device: AgentModel) -> (
    Option<ScrollResolution>,
    Option<bool>,
) {
    match device.capabilities {
        None => (None, None),
        Some(capabilities) => (
            if capabilities.hires_wheel {
                config.device(device.config_key).scroll_resolution
            } else {
                None
            },
            if capabilities.scroll_inversion {
                Some(config.device(device.config_key).invert_scroll)
            } else {
                None
            },
        ),
    }
}

/// Resolve the two independently gated wheel settings for one device. `None`
/// means that the device's current value is preserved.
#[must_use]
pub fn configured_wheel_mode(config: &Config, device: &AgentDevice) -> (mode: (
    Option<ScrollResolution>,
    Option<bool>,
))
    ensures
        mode == wheel_mode(config@, device@),
{
    let capabilities = match device.capabilities {
        Some(capabilities) => capabilities,
        None => {
            return (None, None);
        },
    };
    let resolution = if capabilities.hires_wheel {
        config.scroll_resolution(device.config_key.as_str())
    } else {
        None
    };
    let inverted = if capabilities.scroll_inversion {
        Some(config.invert_scroll(device.config_key.as_str()))
    } else {
        None
    };
    (resolution, inverted)
}

/// The writes that restore a mouse's volatile settings.
#[derive(Clone, Copy, Debug, PartialEq, Eq, Structural)]
pub struct MouseWrite {
    /// Wheel resolution.
    pub resolution: Option<ScrollResolution>,
    /// Wheel inversion.
    pub inverted: Option<bool>,
    /// Sensor DPI.
    pub dpi: Option<u32>,
    /// SmartShift wheel configuration.
    pub smartshift: Option<SmartShift>,
}

/// What is written to one device.
#[derive(Debug)]
pub struct VolatileWrite {
    /// How the device is reached.
    pub route: DeviceRoute,
    /// Mouse settings, when there are any; one write, so that concurrent channels
    /// to one receiver cannot cross-talk.
    pub mouse: Option<MouseWrite>,
    /// Lighting, when it is on.
    pub lighting: Option<Lighting>,
}

/// The content of a [`VolatileWrite`].
pub struct WriteModel {
    /// How the device is reached.
    pub route: RouteModel,
    /// Mouse settings.
    pub mouse: Option<MouseWrite>,
    /// Lighting.
    pub lighting: Option<Lighting>,
}

impl View for VolatileWrite {
    type V = WriteModel;

    open spec fn view(&self) -> WriteModel {
        WriteModel { route: self.route@, mouse: self.mouse, lighting: self.lighting }
    }
}

/// The mouse settings to write, when any is configured.
pub open spec fn mouse_write(config: ConfigModel, device: AgentModel) -> Option<MouseWrite> {
    let (resolution, inverted) = wheel_mode(config, device);
    let settings = config.device(device.config_key);
    if resolution is Some || inverted is Some || settings.dpi is Some || settings.smartshift
        is Some {
        Some(
            MouseWrite {
                resolution,
                inverted,
                dpi: settings.dpi,
                smartshift: settings.smartshift,
            },
        )
    } else {
        None
    }
}

/// The lighting to write, when it is configured and on.
pub open spec fn lighting_write(config: ConfigModel, device: AgentModel) -> Option<Lighting> {
    match config.device(device.config_key).lighting {
        Some(lighting) if lighting.enabled => Some(lighting),
        _ => None,
    }
}

/// What restores a device's volatile settings; nothing for a device that cannot
/// be reached.
pub open spec fn volatile_write(config: ConfigModel, device: AgentModel) -> Option<WriteModel> {
    match device.route {
        None => None,
        Some(route) => Some(
            WriteModel {
                route,
                mouse: mouse_write(config, device),
                lighting: lighting_write(config, device),
            },
        ),
    }
}

/// What restores a device's volatile settings (lighting, sensor DPI, SmartShift,
/// native wheel mode): they live in device memory and reset on a power cycle.
#[must_use]
pub fn reapply_volatile_settings(config: &Config, device: &AgentDevice) -> (write: Option<
    VolatileWrite,
>)
    ensures
        match write {
            Some(found) => volatile_write(config@, device@) == Some(found@),
            None => volatile_write(config@, device@) is None,
        },
{
    let route = match &device.route {
        Some(route) => route.clone(),
        None => {
            return None;
        },
    };
    let key = device.config_key.as_str();
    let (resolution, inverted) = configured_wheel_mode(config, device);
    let dpi = config.dpi(key);
    let smartshift = config.smartshift(key);
    let mouse = if resolution.is_some() || inverted.is_some() || dpi.is_some()
        || smartshift.is_some() {
        Some(MouseWrite { resolution, inverted, dpi, smartshift })
    } else {
        None
    };
    let lighting = match config.lighting(key) {
        Some(lighting) => if lighting.enabled {
            Some(lighting)
        } else {
            None
        },
        None => None,
    };
    Some(VolatileWrite { route, mouse, lighting })
}

/// The write that restores one device's native wheel mode.
#[derive(Debug)]
pub struct WheelWrite {
    /// How the device is reached; absent when there is nothing to restore.
    pub route: Option<DeviceRoute>,
    /// Wheel resolution.
    pub resolution: Option<ScrollResolution>,
    /// Wheel inversion.
    pub inverted: Option<bool>,
}

/// The write is what restores this device's wheel mode.
pub open spec fn restores_wheel(write: WheelWrite, config: ConfigModel, device: AgentModel) -> bool {
    let (resolution, inverted) = wheel_mode(config, device);
    &&& write.resolution == resolution
    &&& write.inverted == inverted
    &&& opt_route(write.route) == if resolution is Some || inverted is Some {
        device.route
    } else {
        None
    }
}

/// Where enumeration stands, with the snapshot itself.
#[derive(Debug)]
pub enum InventoryState {
    /// No enumeration has completed yet.
    Pending,
    /// The latest completed snapshot; empty means that there are no devices.
    Ready(Vec<DeviceInventory>),
    /// Enumeration has never succeeded.
    Unavailable,
}

/// The DPI cycle of the active device.
#[derive(Debug)]
pub struct DpiTarget {
    /// The presets.
    pub presets: Vec<u32>,
    /// How the device is reached.
    pub target: Option<DeviceRoute>,
}

/// What is published to the hook and the gesture watcher.
#[derive(Debug)]
pub struct Publication {
    /// The OS hook's maps.
    pub hook_maps: HookMaps,
    /// The HID++ gesture modes.
    pub gestures: GestureBindingState,
    /// The DPI cycle; absent when it stays as it is.
    pub dpi: Option<DpiTarget>,
    /// The thumb-wheel sensitivity; absent when it stays as it is.
    pub thumbwheel_sensitivity: Option<i32>,
    /// The capture epoch that begins with the publication: input captured under an
    /// earlier one is dropped.
    pub epoch_start: EpochStart,
}

/// The maps are the projection of what is configured for a device and an
/// application.
pub open spec fn projects_hook(
    maps: HookMaps,
    config: ConfigModel,
    key: Option<Seq<char>>,
    app: Option<Seq<char>>,
    generation: u64,
) -> bool {
    let bound = effective(config, key, app);
    &&& maps.generation == generation
    &&& forall|button: ButtonId| #[trigger]
        maps.bindings.slot(button) == Some(click_projection(bound.slot(button), button))
    &&& forall|button: ButtonId| #[trigger]
        maps.gestures.slot(button) == if button.os_hook_button() {
            slot_mode(bound.slot(button))
        } else {
            None
        }
}

/// The gesture modes are the projection of what is configured for a device and
/// an application.
pub open spec fn projects_gestures(
    gestures: GestureBindingState,
    config: ConfigModel,
    key: Option<Seq<char>>,
    app: Option<Seq<char>>,
    generation: u64,
) -> bool {
    let bound = effective(config, key, app);
    &&& gestures.generation == generation
    &&& forall|button: ButtonId| #[trigger]
        gestures.modes.slot(button) == if button is GestureButton {
            dedicated_mode(bound.slot(button))
        } else if button.os_hook_button() {
            slot_mode(bound.slot(button))
        } else {
            None
        }
}

/// Owns the configuration and the device selection.
pub struct Orchestrator {
    /// The configuration.
    pub config: Config,
    /// The known devices.
    pub devices: Vec<AgentDevice>,
    /// Index of the active device.
    pub current: usize,
    /// The application in front.
    pub current_app: Option<String>,
    /// Counts the published projections.
    pub gesture_generation: u64,
    /// Where enumeration stands.
    pub inventory: InventoryState,
    /// Write to every online device on the next refresh.
    pub reapply_all_next_refresh: bool,
    /// Keys of the devices due one confirming write.
    pub reapply_followup: TextMap<()>,
    /// Invalidates queued capture input whenever the projection changes.
    pub capture_epoch: CaptureEpoch,
}

/// What a refresh asks for.
#[derive(Debug)]
pub struct RefreshOutcome {
    /// Volatile-settings writes.
    pub writes: Vec<VolatileWrite>,
    /// What is published, when the device set changed.
    pub publication: Option<Publication>,
}

/// What a configuration reload asks for.
#[derive(Debug)]
pub struct ReloadOutcome {
    /// What is published.
    pub publication: Publication,
    /// Wheel-mode writes.
    pub wheels: Vec<WheelWrite>,
}

/// The next projection generation.
pub open spec fn next_generation(generation: u64) -> u64 {
    if generation == u64::MAX {
        0
    } else {
        (generation + 1) as u64
    }
}

/// Two devices agree in everything that the published maps depend on.
pub open spec fn same_projection(a: AgentModel, b: AgentModel) -> bool {
    a.config_key == b.config_key && a.route == b.route && a.capabilities == b.capabilities
}

/// Two device lists agree in everything that the published maps depend on.
pub open spec fn same_set(a: Seq<AgentModel>, b: Seq<AgentModel>) -> bool {
    a.len() == b.len() && forall|i: int| 0 <= i < a.len() ==> same_projection(#[trigger] a[i], b[i])
}

/// Whether two device lists agree in everything that the published maps depend
/// on.
fn same_device_set(a: &Vec<AgentDevice>, b: &Vec<AgentDevice>) -> (same: bool)
    ensures
        same == same_set(agent_models(a@), agent_models(b@)),
{
    if a.len() != b.len() {
        return false;
    }
    let ghost x = agent_models(a@);
    let ghost y = agent_models(b@);
    let mut i: usize = 0;
    while i < a.len()
        invariant
            i <= a@.len(),
            a@.len() == b@.len(),
            x == agent_models(a@),
            y == agent_models(b@),
            forall|k: int| 0 <= k < i ==> same_projection(#[trigger] x[k], y[k]),
        decreases a@.len() - i,
    {
        assert(x[i as int] == a@[i as int]@ && y[i as int] == b@[i as int]@);
        if !text::str_eq(a[i].config_key.as_str(), b[i].config_key.as_str()) || !opt_route_eq(
            &a[i].route,
            &b[i].route,
        ) || !capabilities_eq(a[i].capabilities, b[i].capabilities) {
            assert(!same_projection(x[i as int], y[i as int]));
            return false;
        }
        i += 1;
    }
    true
}

/// Whether two optional capabilities are both absent or equal.
pub(crate) fn capabilities_eq(a: Option<Capabilities>, b: Option<Capabilities>) -> (same: bool)
    ensures
        same == (a == b),
{
    match (a, b) {
        (Some(x), Some(y)) => x == y,
        (None, None) => true,
        _ => false,
    }
}

/// The writes for the planned devices, in order.
pub open spec fn planned_writes(
    config: ConfigModel,
    devices: Seq<AgentModel>,
    targets: Seq<usize>,
) -> Seq<WriteModel> {
    Seq::new(targets.len(), |i: int| volatile_write(config, devices[targets[i] as int])->0)
}

/// The content of writes.
pub open spec fn write_models(writes: Seq<VolatileWrite>) -> Seq<WriteModel> {
    writes.map_values(|write: VolatileWrite| write@)
}

/// Every chosen index is below `n` and satisfies the condition, and every index
/// below `n` that satisfies it is chosen.
pub proof fn lemma_chosen(n: nat, condition: spec_fn(int) -> bool)
    requires
        n <= usize::MAX,
    ensures
        forall|k: int|
            0 <= k < chosen(n, condition).len() ==> (#[trigger] chosen(n, condition)[k]) < n
                && condition(chosen(n, condition)[k] as int),
        forall|i: int|
            0 <= i < n && #[trigger] condition(i) ==> chosen(n, condition).contains(i as usize),
    decreases n,
{
    if n > 0 {
        let m = (n - 1) as nat;
        lemma_chosen(m, condition);
        let earlier = chosen(m, condition);
        let all = chosen(n, condition);
        assert forall|i: int| 0 <= i < n && #[trigger] condition(i) implies all.contains(
            i as usize,
        ) by {
            if i < n - 1 {
                let k = choose|k: int| 0 <= k < earlier.len() && earlier[k] == i as usize;
                assert(all[k] == i as usize);
            } else {
                assert(all[all.len() - 1] == i as usize);
            }
        }
        assert forall|k: int| 0 <= k < all.len() implies (#[trigger] all[k]) < n && condition(
            all[k] as int,
        ) by {
            if k < earlier.len() {
                assert(earlier[k] == all[k]);
            }
        }
    }
}

/// The publication is the projection of what is configured for a device and an
/// application.
pub open spec fn publishes(
    publication: Publication,
    config: ConfigModel,
    key: Option<Seq<char>>,
    app: Option<Seq<char>>,
    generation: u64,
) -> bool {
    &&& projects_hook(publication.hook_maps, config, key, app, generation)
    &&& projects_gestures(publication.gestures, config, key, app, generation)
}

/// The publication also carries the DPI cycle of the active device and the
/// sensitivity.
pub open spec fn publishes_all(
    publication: Publication,
    config: ConfigModel,
    active: Option<AgentModel>,
    app: Option<Seq<char>>,
    generation: u64,
) -> bool {
    &&& publishes(publication, config, active_key(active), app, generation)
    &&& publication.dpi matches Some(dpi)
    &&& dpi.presets@ == match active {
        Some(device) => config.device(device.config_key).dpi_presets,
        None => Seq::empty(),
    }
    &&& opt_route(dpi.target) == match active {
        Some(device) => device.route,
        None => None,
    }
    &&& publication.thumbwheel_sensitivity == Some(config.app_settings.thumbwheel_sensitivity)
}

/// The key of the active device.
pub open spec fn active_key(active: Option<AgentModel>) -> Option<Seq<char>> {
    match active {
        Some(device) => Some(device.config_key),
        None => None,
    }
}

/// The device at an index, if there is one.
pub open spec fn device_at(devices: Seq<AgentModel>, index: int) -> Option<AgentModel> {
    if 0 <= index < devices.len() {
        Some(devices[index])
    } else {
        None
    }
}

/// A fresh inventory snapshot has been applied.
pub open spec fn is_refreshed(
    before: Orchestrator,
    after: Orchestrator,
    inventories: Vec<DeviceInventory>,
    outcome: RefreshOutcome,
) -> bool {
    &&& after.inventory == InventoryState::Ready(inventories)
    &&& after.models() == in_order(listed(inventories@, inventories@.len()))
    &&& write_models(outcome.writes@) == planned_writes(
        before.config@,
        after.models(),
        chosen(
            after.models().len(),
            |i: int|
                needs_write(
                    before.models(),
                    after.models()[i],
                    before.reapply_all_next_refresh,
                ),
        ) + chosen(
            after.models().len(),
            |i: int|
                needs_confirmation(
                    before.models(),
                    after.models()[i],
                    before.reapply_followup@.dom(),
                    before.reapply_all_next_refresh,
                ),
        ),
    )
    &&& after.reapply_followup@.dom() == sighted_keys(
        before.models(),
        after.models(),
        after.models().len(),
    )
    &&& !after.reapply_all_next_refresh
    &&& after.config == before.config
    &&& after.current_app == before.current_app
    &&& outcome.publication is None <==> same_set(after.models(), before.models())
    &&& match outcome.publication {
        None => after.current == before.current && after.gesture_generation
            == before.gesture_generation,
        Some(publication) => {
            &&& after.current == selected_index(
                after.models(),
                opt_text(before.config@.selected_device),
            )
            &&& after.gesture_generation == next_generation(
                before.gesture_generation,
            )
            &&& publishes_all(
                publication,
                before.config@,
                after.active(),
                opt_text(before.current_app),
                after.gesture_generation,
            )
            &&& publication.epoch_start.is_of(before.capture_epoch)
        },
    }
    &&& after.capture_epoch == before.capture_epoch
}

impl Orchestrator {
    /// The content of the device list.
    pub open spec fn models(&self) -> Seq<AgentModel> {
        agent_models(self.devices@)
    }

    /// The active device.
    pub open spec fn active(&self) -> Option<AgentModel> {
        device_at(self.models(), self.current as int)
    }

    /// Build from a loaded configuration, with no devices yet, and publish it.
    #[must_use]
    pub fn new(config: Config) -> (built: (Orchestrator, Publication))
        ensures
            built.0.config == config,
            built.0.models() == Seq::<AgentModel>::empty(),
            built.0.current == 0,
            built.0.current_app is None,
            built.0.inventory == InventoryState::Pending,
            !built.0.reapply_all_next_refresh,
            built.0.reapply_followup@ == Map::<Seq<char>, ()>::empty(),
            built.0.gesture_generation == 1,
            publishes_all(built.1, config@, None, None, 1),
            built.1.epoch_start.is_of(built.0.capture_epoch),
    {
        let mut orchestrator = Orchestrator {
            config,
            devices: Vec::new(),
            current: 0,
            current_app: None,
            gesture_generation: 0,
            inventory: InventoryState::Pending,
            reapply_all_next_refresh: false,
            reapply_followup: TextMap::new(),
            capture_epoch: CaptureEpoch::default(),
        };
        let publication = orchestrator.rebuild();
        assert(orchestrator.models() =~= Seq::<AgentModel>::empty());
        (orchestrator, publication)
    }

    /// Key of the active device.
    fn current_key(&self) -> (key: Option<&str>)
        ensures
            text::opt_view(key) == active_key(self.active()),
    {
        if self.current < self.devices.len() {
            assert(self.models()[self.current as int] == self.devices@[self.current as int]@);
            Some(self.devices[self.current].config_key.as_str())
        } else {
            None
        }
    }

    /// Route of the active device.
    fn current_route(&self) -> (route: Option<DeviceRoute>)
        ensures
            opt_route(route) == match self.active() {
                Some(device) => device.route,
                None => None,
            },
    {
        if self.current < self.devices.len() {
            assert(self.models()[self.current as int] == self.devices@[self.current as int]@);
            clone_opt_route(&self.devices[self.current].route)
        } else {
            None
        }
    }

    /// The application in front.
    fn current_bundle(&self) -> (bundle: Option<&str>)
        ensures
            text::opt_view(bundle) == opt_text(self.current_app),
    {
        match &self.current_app {
            Some(bundle) => Some(bundle.as_str()),
            None => None,
        }
    }

    /// The maps and gesture modes for the active device and the application in
    /// front.
    fn project(&self) -> (projection: (HookMaps, GestureBindingState))
        ensures
            projects_hook(
                projection.0,
                self.config@,
                active_key(self.active()),
                opt_text(self.current_app),
                self.gesture_generation,
            ),
            projects_gestures(
                projection.1,
                self.config@,
                active_key(self.active()),
                opt_text(self.current_app),
                self.gesture_generation,
            ),
    {
        let key = self.current_key();
        let app = self.current_bundle();
        (
            HookMaps {
                generation: self.gesture_generation,
                bindings: bindings_for(&self.config, key, app),
                gestures: oshook_gestures_for(&self.config, key, app),
            },
            GestureBindingState {
                generation: self.gesture_generation,
                modes: hid_gestures_for(&self.config, key, app),
            },
        )
    }

    /// Publish everything anew from the configuration and the active device.
    fn rebuild(&mut self) -> (publication: Publication)
        ensures
            publishes_all(
                publication,
                old(self).config@,
                old(self).active(),
                opt_text(old(self).current_app),
                next_generation(old(self).gesture_generation),
            ),
            final(self).gesture_generation == next_generation(old(self).gesture_generation),
            final(self).config == old(self).config,
            final(self).devices == old(self).devices,
            final(self).current == old(self).current,
            final(self).current_app == old(self).current_app,
            publication.epoch_start.is_of(old(self).capture_epoch),
            final(self).capture_epoch == old(self).capture_epoch,
            final(self).inventory == old(self).inventory,
            final(self).reapply_all_next_refresh == old(self).reapply_all_next_refresh,
            final(self).reapply_followup == old(self).reapply_followup,
    {
        self.gesture_generation = self.gesture_generation.wrapping_add(1);
        let epoch_start = self.capture_epoch.invalidate();
        let (hook_maps, gestures) = self.project();
        let presets = match self.current_key() {
            Some(key) => self.config.dpi_presets(key),
            None => Vec::new(),
        };
        Publication {
            hook_maps,
            gestures,
            dpi: Some(DpiTarget { presets, target: self.current_route() }),
            thumbwheel_sensitivity: Some(self.config.app_settings.thumbwheel_sensitivity),
            epoch_start,
        }
    }

    /// Apply a fresh inventory snapshot.
    ///
    /// The snapshot itself is always kept, and with it the fresh online state. The
    /// selection and what is published only change when the device set does:
    /// publishing resets the live DPI cycle.
    pub fn refresh_inventory(&mut self, inventories: Vec<DeviceInventory>) -> (outcome:
        RefreshOutcome)
        ensures
            is_refreshed(*old(self), *final(self), inventories, outcome),
    {
        let devices = build_devices(&inventories);
        self.inventory = InventoryState::Ready(inventories);
        let reapply_all = self.reapply_all_next_refresh;
        self.reapply_all_next_refresh = false;
        let plan = plan_reapply(&self.devices, &devices, &self.reapply_followup, reapply_all);
        let ghost prev = self.models();
        let ghost next = agent_models(devices@);
        assert(next.len() == devices.len());
        let ghost first = |i: int| needs_write(prev, next[i], reapply_all);
        let ghost second = |i: int|
            needs_confirmation(prev, next[i], old(self).reapply_followup@.dom(), reapply_all);
        let ghost targets = chosen(next.len(), first) + chosen(next.len(), second);
        proof {
            lemma_chosen(next.len(), first);
            lemma_chosen(next.len(), second);
            assert(plan.targets@ =~= targets);
        }
        let mut writes: Vec<VolatileWrite> = Vec::new();
        let mut i: usize = 0;
        while i < plan.targets.len()
            invariant
                i <= plan.targets@.len(),
                plan.targets@ == targets,
                next == agent_models(devices@),
                self.config == old(self).config,
                forall|k: int|
                    0 <= k < targets.len() ==> (#[trigger] targets[k]) < next.len()
                        && next[targets[k] as int].reachable(),
                writes@.len() == i,
                forall|k: int|
                    0 <= k < i ==> Some((#[trigger] writes@[k])@) == volatile_write(
                        self.config@,
                        next[targets[k] as int],
                    ),
            decreases plan.targets@.len() - i,
        {
            let at: usize = plan.targets[i];
            assert(targets[i as int] == at);
            assert(next[at as int] == devices@[at as int]@);
            match reapply_volatile_settings(&self.config, &devices[at]) {
                Some(write) => {
                    writes.push(write);
                },
                None => {},
            }
            i += 1;
        }
        assert(write_models(writes@) =~= planned_writes(old(self).config@, next, targets));
        self.reapply_followup = plan.followup;
        if same_device_set(&devices, &self.devices) {
            self.devices = devices;
            return RefreshOutcome { writes, publication: None };
        }
        self.devices = devices;
        self.current = pick_current(&self.devices, self.config.selected_device());
        let publication = self.rebuild();
        RefreshOutcome { writes, publication: Some(publication) }
    }

    /// Write to every online device on the next inventory refresh. Called on a
    /// system wake: devices were likely power-cycled, but the next snapshot can
    /// look identical to the last one.
    pub fn reapply_volatile_on_next_refresh(&mut self)
        ensures
            *final(self) == (Orchestrator { reapply_all_next_refresh: true, ..*old(self) }),
    {
        self.reapply_all_next_refresh = true;
    }

    /// The writes that restore the native wheel mode of every reachable device, in
    /// device order.
    #[must_use]
    pub fn apply_native_wheel_modes(&self) -> (writes: Vec<WheelWrite>)
        ensures
            ({
                let reachable = chosen(
                    self.models().len(),
                    |i: int| self.models()[i].reachable(),
                );
                &&& writes@.len() == reachable.len()
                &&& forall|k: int|
                    0 <= k < writes@.len() ==> restores_wheel(
                        #[trigger] writes@[k],
                        self.config@,
                        self.models()[reachable[k] as int],
                    )
            }),
    {
        let ghost models = self.models();
        let ghost condition = |i: int| models[i].reachable();
        let mut writes: Vec<WheelWrite> = Vec::new();
        let mut i: usize = 0;
        while i < self.devices.len()
            invariant
                i <= self.devices@.len(),
                models == self.models(),
                condition == (|i: int| models[i].reachable()),
                writes@.len() == chosen(i as nat, condition).len(),
                forall|k: int|
                    0 <= k < writes@.len() ==> restores_wheel(
                        #[trigger] writes@[k],
                        self.config@,
                        models[chosen(i as nat, condition)[k] as int],
                    ),
            decreases self.devices@.len() - i,
        {
            let device = &self.devices[i];
            assert(models[i as int] == device@);
            let ghost earlier = chosen(i as nat, condition);
            if device.online && device.route.is_some() {
                let (resolution, inverted) = configured_wheel_mode(&self.config, device);
                let route = if resolution.is_some() || inverted.is_some() {
                    clone_opt_route(&device.route)
                } else {
                    None
                };
                writes.push(WheelWrite { route, resolution, inverted });
                assert(chosen((i + 1) as nat, condition) == earlier.push(i));
            }
            i += 1;
        }
        assert(condition =~= (|i: int| self.models()[i].reachable()));
        writes
    }

    /// The latest inventory snapshot. Empty until the first enumeration completes;
    /// see [`Self::inventory_health`] to tell "unknown" from "none".
    #[must_use]
    pub fn inventory(&self) -> (snapshot: Vec<&DeviceInventory>)
        ensures
            match self.inventory {
                InventoryState::Ready(inventories) => {
                    &&& snapshot@.len() == inventories@.len()
                    &&& forall|i: int|
                        0 <= i < snapshot@.len() ==> *(#[trigger] snapshot@[i]) == inventories@[i]
                },
                _ => snapshot@.len() == 0,
            },
    {
        let mut snapshot: Vec<&DeviceInventory> = Vec::new();
        if let InventoryState::Ready(inventories) = &self.inventory {
            let mut i: usize = 0;
            while i < inventories.len()
                invariant
                    i <= inventories@.len(),
                    snapshot@.len() == i,
                    forall|k: int| 0 <= k < i ==> *(#[trigger] snapshot@[k]) == inventories@[k],
                decreases inventories@.len() - i,
            {
                snapshot.push(&inventories[i]);
                i += 1;
            }
        }
        snapshot
    }

    /// Where enumeration stands.
    pub open spec fn health(&self) -> InventoryHealth {
        match self.inventory {
            InventoryState::Pending => InventoryHealth::Scanning,
            InventoryState::Ready(_) => InventoryHealth::Ready,
            InventoryState::Unavailable => InventoryHealth::Unavailable,
        }
    }

    /// Where enumeration stands.
    #[must_use]
    pub fn inventory_health(&self) -> (health: InventoryHealth)
        ensures
            health == self.health(),
    {
        match self.inventory {
            InventoryState::Pending => InventoryHealth::Scanning,
            InventoryState::Ready(_) => InventoryHealth::Ready,
            InventoryState::Unavailable => InventoryHealth::Unavailable,
        }
    }

    /// Record that enumeration has never worked. Once a snapshot exists, the last
    /// good device set stays authoritative.
    pub fn mark_inventory_unavailable(&mut self)
        ensures
            *final(self) == (Orchestrator {
                inventory: if old(self).inventory is Pending {
                    InventoryState::Unavailable
                } else {
                    old(self).inventory
                },
                ..*old(self)
            }),
    {
        if matches!(self.inventory, InventoryState::Pending) {
            self.inventory = InventoryState::Unavailable;
        }
    }

    /// Whether autostart is enabled.
    #[must_use]
    pub fn launch_at_login(&self) -> (enabled: bool)
        ensures
            enabled == self.config@.app_settings.launch_at_login,
    {
        self.config.app_settings.launch_at_login
    }

    /// Another application came to the front: publish the bindings with its
    /// overlay. DPI stays as it is. Nothing happens when it is the same one.
    pub fn set_current_app(&mut self, bundle: Option<String>) -> (publication: Option<Publication>)
        ensures
            publication is None <==> opt_text(bundle) == opt_text(old(self).current_app),
            match publication {
                None => *final(self) == *old(self),
                Some(publication) => {
                    &&& final(self).current_app == bundle
                    &&& final(self).config == old(self).config
                    &&& final(self).devices == old(self).devices
                    &&& final(self).current == old(self).current
                    &&& final(self).inventory == old(self).inventory
                    &&& final(self).reapply_all_next_refresh == old(self).reapply_all_next_refresh
                    &&& final(self).reapply_followup == old(self).reapply_followup
                    &&& final(self).capture_epoch == old(self).capture_epoch
                    &&& final(self).gesture_generation == next_generation(
                        old(self).gesture_generation,
                    )
                    &&& publishes(
                        publication,
                        old(self).config@,
                        active_key(old(self).active()),
                        opt_text(bundle),
                        final(self).gesture_generation,
                    )
                    &&& publication.dpi is None
                    &&& publication.thumbwheel_sensitivity is None
                    &&& publication.epoch_start.is_of(old(self).capture_epoch)
                },
            },
    {
        if crate::device::opt_text_eq(&bundle, &self.current_app) {
            return None;
        }
        self.current_app = bundle;
        self.gesture_generation = self.gesture_generation.wrapping_add(1);
        let epoch_start = self.capture_epoch.invalidate();
        let (hook_maps, gestures) = self.project();
        Some(
            Publication {
                hook_maps,
                gestures,
                dpi: None,
                thumbwheel_sensitivity: None,
                epoch_start,
            },
        )
    }

    /// Replace the configuration and publish everything anew.
    pub fn reload_config(&mut self, config: Config) -> (outcome: ReloadOutcome)
        ensures
            final(self).config == config,
            final(self).devices == old(self).devices,
            final(self).current_app == old(self).current_app,
            final(self).inventory == old(self).inventory,
            final(self).reapply_all_next_refresh == old(self).reapply_all_next_refresh,
            final(self).reapply_followup == old(self).reapply_followup,
            final(self).capture_epoch == old(self).capture_epoch,
            outcome.publication.epoch_start.is_of(old(self).capture_epoch),
            final(self).current == selected_index(
                old(self).models(),
                opt_text(config@.selected_device),
            ),
            final(self).gesture_generation == next_generation(old(self).gesture_generation),
            publishes_all(
                outcome.publication,
                config@,
                final(self).active(),
                opt_text(old(self).current_app),
                final(self).gesture_generation,
            ),
            ({
                let reachable = chosen(
                    old(self).models().len(),
                    |i: int| old(self).models()[i].reachable(),
                );
                &&& outcome.wheels@.len() == reachable.len()
                &&& forall|k: int|
                    0 <= k < outcome.wheels@.len() ==> restores_wheel(
                        #[trigger] outcome.wheels@[k],
                        config@,
                        old(self).models()[reachable[k] as int],
                    )
            }),
    {
        self.config = config;
        self.current = pick_current(&self.devices, self.config.selected_device());
        let publication = self.rebuild();
        let wheels = self.apply_native_wheel_modes();
        assert((|i: int| self.models()[i].reachable()) =~= (|i: int|
            old(self).models()[i].reachable()));
        ReloadOutcome { publication, wheels }
    }
}

/// A device that stays known and online is not written to again.
pub proof fn law_steady_device_is_left_alone(prev: Seq<AgentModel>, device: AgentModel)
    requires
        knows(prev, device.id()),
        was_online(prev, device.id()),
    ensures
        !needs_write(prev, device, false),
        !first_sighting(prev, device),
{
}

/// A device that cannot be reached is never written to, not even after a wake or
/// when a confirmation is due.
pub proof fn law_unreachable_device_is_never_written(
    prev: Seq<AgentModel>,
    device: AgentModel,
    followup: Set<Seq<char>>,
    reapply_all: bool,
)
    requires
        !device.reachable(),
    ensures
        !needs_write(prev, device, reapply_all),
        !needs_confirmation(prev, device, followup, reapply_all),
        !first_sighting(prev, device),
{
}

/// After a system wake every reachable device is written to, however unchanged it
/// looks.
pub proof fn law_wake_writes_everything(prev: Seq<AgentModel>, device: AgentModel)
    requires
        device.reachable(),
    ensures
        needs_write(prev, device, true),
{
}

/// A first sighting is written at once and confirmed exactly once: on the next
/// refresh with the same devices its key is due and it is written again, and after
/// that nothing is.
pub proof fn law_first_sighting_is_confirmed_once(prev: Seq<AgentModel>, next: Seq<AgentModel>, i: int)
    requires
        0 <= i < next.len(),
        first_sighting(prev, next[i]),
        was_online(next, next[i].id()),
    ensures
        needs_write(prev, next[i], false),
        sighted_keys(prev, next, next.len()).contains(next[i].config_key),
        needs_confirmation(next, next[i], sighted_keys(prev, next, next.len()), false),
        sighted_keys(next, next, next.len()) == Set::<Seq<char>>::empty(),
        !needs_write(next, next[i], false),
        !needs_confirmation(next, next[i], sighted_keys(next, next, next.len()), false),
{
    assert(knows(next, next[i].id()));
    assert forall|key: Seq<char>| !sighted_keys(next, next, next.len()).contains(key) by {
        if sighted_keys(next, next, next.len()).contains(key) {
            let k = choose|k: int|
                0 <= k < next.len() && first_sighting(next, #[trigger] next[k])
                    && next[k].config_key == key;
            assert(knows(next, next[k].id()));
        }
    }
    assert(sighted_keys(next, next, next.len()) =~= Set::<Seq<char>>::empty());
}

/// Putting a device in its place keeps the list's devices and adds just this one.
pub proof fn lemma_placed_permutes(list: Seq<AgentModel>, device: AgentModel)
    ensures
        placed(list, device).to_multiset() == list.to_multiset().insert(device),
    decreases list.len(),
{
    broadcast use vstd::seq_lib::group_to_multiset_ensures;

    if list.len() == 0 {
        assert(seq![device] =~= list.push(device));
    } else if comes_before(device, list.last()) {
        let earlier = list.drop_last();
        lemma_placed_permutes(earlier, device);
        assert(earlier.push(list.last()) =~= list);
        assert(placed(list, device).to_multiset() =~= list.to_multiset().insert(device));
    }
}

/// Device order loses and invents no device.
pub proof fn law_order_keeps_devices(list: Seq<AgentModel>)
    ensures
        in_order(list).to_multiset() == list.to_multiset(),
    decreases list.len(),
{
    broadcast use vstd::seq_lib::group_to_multiset_ensures;

    if list.len() > 0 {
        law_order_keeps_devices(list.drop_last());
        lemma_placed_permutes(in_order(list.drop_last()), list.last());
        assert(list.drop_last().push(list.last()) =~= list);
    } else {
        assert(in_order(list) =~= list);
    }
}

/// No device of the list comes before an earlier one.
pub open spec fn ordered(list: Seq<AgentModel>) -> bool {
    forall|i: int, j: int|
        #![trigger list[i], list[j]]
        0 <= i < j < list.len() ==> !comes_before(list[j], list[i])
}

/// What does not come before something that does not come before a third, does
/// not come before the third; and of two devices at most one comes first.
proof fn lemma_device_order(a: AgentModel, b: AgentModel, c: AgentModel)
    ensures
        !comes_before(b, a) && !comes_before(c, b) ==> !comes_before(c, a),
        comes_before(a, b) ==> !comes_before(b, a),
{
    text::lemma_text_order(a.config_key, b.config_key);
    text::lemma_text_order(b.config_key, c.config_key);
    text::lemma_text_order(a.config_key, c.config_key);
    text::lemma_text_order(a.model_key, b.model_key);
    text::lemma_text_order(b.model_key, c.model_key);
    text::lemma_text_order(a.model_key, c.model_key);
    if text::text_less(a.config_key, b.config_key) && text::text_less(b.config_key, c.config_key) {
        text::lemma_text_transitive(a.config_key, b.config_key, c.config_key);
    }
    if text::text_less(a.model_key, b.model_key) && text::text_less(b.model_key, c.model_key) {
        text::lemma_text_transitive(a.model_key, b.model_key, c.model_key);
    }
}

/// Putting a device in its place keeps an ordered list ordered.
proof fn lemma_placed_ordered(list: Seq<AgentModel>, device: AgentModel)
    requires
        ordered(list),
    ensures
        ordered(placed(list, device)),
        forall|k: int|
            0 <= k < placed(list, device).len() ==> (#[trigger] placed(list, device)[k]) == device
                || list.contains(placed(list, device)[k]),
    decreases list.len(),
{
    let all = placed(list, device);
    if list.len() == 0 {
    } else if comes_before(device, list.last()) {
        let earlier = list.drop_last();
        lemma_placed_ordered(earlier, device);
        let head = placed(earlier, device);
        assert forall|k: int| 0 <= k < all.len() implies (#[trigger] all[k]) == device
            || list.contains(all[k]) by {
            if k < head.len() {
                assert(all[k] == head[k]);
                if head[k] != device {
                    let m = choose|m: int| 0 <= m < earlier.len() && earlier[m] == head[k];
                    assert(list[m] == all[k]);
                }
            } else {
                assert(list[list.len() - 1] == all[k]);
            }
        }
        assert forall|i: int, j: int|
            #![trigger all[i], all[j]]
            0 <= i < j < all.len() implies !comes_before(all[j], all[i]) by {
            assert(all[i] == head[i]);
            if j < head.len() {
                assert(all[j] == head[j]);
            } else if head[i] == device {
                lemma_device_order(device, list.last(), device);
            } else {
                let m = choose|m: int| 0 <= m < earlier.len() && earlier[m] == head[i];
                assert(list[m] == head[i]);
                assert(!comes_before(list[list.len() - 1], list[m]));
            }
        }
    } else {
        assert forall|i: int, j: int|
            #![trigger all[i], all[j]]
            0 <= i < j < all.len() implies !comes_before(all[j], all[i]) by {
            assert(all[i] == list[i]);
            if j < list.len() {
                assert(all[j] == list[j]);
            } else {
                lemma_device_order(list[i], list.last(), device);
            }
        }
        assert forall|k: int| 0 <= k < all.len() implies (#[trigger] all[k]) == device
            || list.contains(all[k]) by {
            if k < list.len() {
                assert(list[k] == all[k]);
            }
        }
    }
}

/// The device list is ordered by key, then by model.
pub proof fn law_device_list_is_ordered(list: Seq<AgentModel>)
    ensures
        ordered(in_order(list)),
    decreases list.len(),
{
    if list.len() > 0 {
        law_device_list_is_ordered(list.drop_last());
        lemma_placed_ordered(in_order(list.drop_last()), list.last());
    }
}

/// Where a known device of an inventory comes from.
proof fn lemma_listed_paired(inventory: DeviceInventory, n: nat, k: int)
    requires
        n <= inventory.paired@.len(),
        0 <= k < listed_paired(inventory, n).len(),
    ensures
        exists|b: int|
            0 <= b < n && #[trigger] device_of(inventory, inventory.paired@[b]) == Some(
                listed_paired(inventory, n)[k],
            ),
    decreases n,
{
    let earlier = listed_paired(inventory, (n - 1) as nat);
    if k < earlier.len() {
        lemma_listed_paired(inventory, (n - 1) as nat, k);
    } else {
        assert(device_of(inventory, inventory.paired@[n - 1]) == Some(
            listed_paired(inventory, n)[k],
        ));
    }
}

/// Where a known device comes from.
pub proof fn lemma_listed(inventories: Seq<DeviceInventory>, n: nat, k: int)
    requires
        n <= inventories.len(),
        0 <= k < listed(inventories, n).len(),
    ensures
        exists|a: int, b: int|
            0 <= a < n && 0 <= b < inventories[a].paired@.len() && #[trigger] device_of(
                inventories[a],
                inventories[a].paired@[b],
            ) == Some(listed(inventories, n)[k]),
    decreases n,
{
    let earlier = listed(inventories, (n - 1) as nat);
    if k < earlier.len() {
        lemma_listed(inventories, (n - 1) as nat, k);
    } else {
        let inventory = inventories[n - 1];
        lemma_listed_paired(inventory, inventory.paired@.len(), k - earlier.len());
        let b = choose|b: int|
            0 <= b < inventory.paired@.len() && #[trigger] device_of(
                inventory,
                inventory.paired@[b],
            ) == Some(listed_paired(inventory, inventory.paired@.len())[k - earlier.len()]);
        assert(device_of(inventories[n - 1], inventories[n - 1].paired@[b]) == Some(
            listed(inventories, n)[k],
        ));
    }
}

/// Which lighting is written: the stored one exactly when it is enabled, and none when it
/// is disabled or absent. A device without a route is not written to at all.
pub proof fn law_enabled_lighting_is_written(
    config: ConfigModel,
    device: AgentModel,
    lighting: Lighting,
)
    ensures
        device.route is None <==> volatile_write(config, device) is None,
        volatile_write(config, device) matches Some(write) ==> {
            let stored = config.device(device.config_key).lighting;
            &&& device.route == Some(write.route)
            &&& stored is None ==> write.lighting is None
            &&& stored == Some(lighting) && lighting.enabled ==> write.lighting == Some(lighting)
            &&& stored == Some(lighting) && !lighting.enabled ==> write.lighting is None
        },
{
}

/// Which mouse settings are written: the stored resolution where the wheel has a high
/// one, the stored inversion where scrolling can be inverted, and the stored DPI and
/// SmartShift; nothing at all where none of the four is there.
pub proof fn law_stored_mouse_settings_are_written(config: ConfigModel, device: AgentModel)
    ensures
        ({
            let stored = config.device(device.config_key);
            let hires = device.capabilities is Some && device.capabilities->0.hires_wheel;
            let invertible = device.capabilities is Some && device.capabilities->0.scroll_inversion;
            let anything = hires && stored.scroll_resolution is Some || invertible || stored.dpi
                is Some || stored.smartshift is Some;
            &&& wheel_mode(config, device).0 == if hires {
                stored.scroll_resolution
            } else {
                None
            }
            &&& wheel_mode(config, device).1 == if invertible {
                Some(stored.invert_scroll)
            } else {
                None
            }
            &&& volatile_write(config, device) matches Some(write) ==> {
                &&& write.mouse is Some <==> anything
                &&& write.mouse matches Some(mouse) ==> {
                    &&& mouse.dpi == stored.dpi
                    &&& mouse.smartshift == stored.smartshift
                    &&& hires ==> mouse.resolution == stored.scroll_resolution
                    &&& !hires ==> mouse.resolution is None
                    &&& invertible ==> mouse.inverted == Some(stored.invert_scroll)
                    &&& !invertible ==> mouse.inverted is None
                }
            }
        }),
{
}

/// What restores a wheel: the stored resolution and inversion that the device can have,
/// sent to the device's own route, and to none where there is neither.
pub proof fn law_wheel_is_restored(write: WheelWrite, config: ConfigModel, device: AgentModel)
    requires
        restores_wheel(write, config, device),
    ensures
        ({
            let stored = config.device(device.config_key);
            let hires = device.capabilities is Some && device.capabilities->0.hires_wheel;
            let invertible = device.capabilities is Some && device.capabilities->0.scroll_inversion;
            &&& hires ==> write.resolution == stored.scroll_resolution
            &&& !hires ==> write.resolution is None
            &&& invertible ==> write.inverted == Some(stored.invert_scroll)
            &&& !invertible ==> write.inverted is None
            &&& write.resolution is Some || write.inverted is Some ==> opt_route(write.route)
                == device.route
            &&& write.resolution is None && write.inverted is None ==> write.route is None
        }),
{
}

/// The first device of a list with an identity decides whether that identity was online.
pub proof fn law_first_entry_decides(list: Seq<AgentModel>, id: StableModel, i: int)
    requires
        0 <= i < list.len(),
        list[i].id() == id,
        forall|j: int| 0 <= j < i ==> (#[trigger] list[j]).id() != id,
    ensures
        was_online(list, id) == list[i].online,
        knows(list, id),
    decreases list.len(),
{
    if i > 0 {
        assert(list[0].id() != id);
        let rest = list.skip(1);
        assert(rest[i - 1] == list[i]);
        assert forall|j: int| 0 <= j < i - 1 implies (#[trigger] rest[j]).id() != id by {
            assert(rest[j] == list[j + 1]);
        }
        law_first_entry_decides(rest, id, i - 1);
    }
}

/// Which devices are written to. A device that was listed already is written to when it
/// can be reached now and could not be before; one that was not listed, when it can be
/// reached; and after a wake each that can be reached. It can be reached when it is
/// online and has a route.
pub proof fn law_arrivals_are_written(prev: Seq<AgentModel>, device: AgentModel, i: int)
    ensures
        needs_write(prev, device, true) <==> device.online && device.route is Some,
        0 <= i < prev.len() && prev[i].id() == device.id() && (forall|j: int|
            0 <= j < i ==> (#[trigger] prev[j]).id() != device.id()) ==> {
            &&& needs_write(prev, device, false) <==> device.online && device.route is Some
                && !prev[i].online
            &&& !first_sighting(prev, device)
        },
        (forall|j: int| 0 <= j < prev.len() ==> (#[trigger] prev[j]).id() != device.id()) ==> {
            &&& needs_write(prev, device, false) <==> device.online && device.route is Some
            &&& first_sighting(prev, device) <==> device.online && device.route is Some
        },
{
    if 0 <= i < prev.len() && prev[i].id() == device.id() && (forall|j: int|
        0 <= j < i ==> (#[trigger] prev[j]).id() != device.id()) {
        law_first_entry_decides(prev, device.id(), i);
    }
}

/// A write is confirmed for a device that can be reached, whose key was sighted last time
/// and that is not written to anyway.
pub proof fn law_sighted_devices_are_confirmed(
    prev: Seq<AgentModel>,
    device: AgentModel,
    followup: Set<Seq<char>>,
    reapply_all: bool,
)
    ensures
        needs_confirmation(prev, device, followup, reapply_all) ==> device.online && device.route
            is Some && followup.contains(device.config_key) && !needs_write(
            prev,
            device,
            reapply_all,
        ),
        device.online && device.route is Some && followup.contains(device.config_key)
            && !needs_write(prev, device, reapply_all) ==> needs_confirmation(
            prev,
            device,
            followup,
            reapply_all,
        ),
        !needs_confirmation(prev, device, followup, true),
{
}

/// The selected device is the first of the list with the saved key, and the first of all
/// where no key is saved or none has it.
pub proof fn law_saved_device_is_selected(list: Seq<AgentModel>, key: Seq<char>, i: int)
    ensures
        selected_index(list, None) == 0,
        0 <= i < list.len() && list[i].config_key == key && (forall|j: int|
            0 <= j < i ==> (#[trigger] list[j]).config_key != key) ==> selected_index(
            list,
            Some(key),
        ) == i,
        (forall|j: int| 0 <= j < list.len() ==> (#[trigger] list[j]).config_key != key)
            ==> selected_index(list, Some(key)) == 0,
{
    if 0 <= i < list.len() && list[i].config_key == key && (forall|j: int|
        0 <= j < i ==> (#[trigger] list[j]).config_key != key) {
        lemma_first_index(list, key, i);
    }
    if forall|j: int| 0 <= j < list.len() ==> (#[trigger] list[j]).config_key != key {
        lemma_no_index(list, key);
    }
}

/// The first place of a key in a list is where it is found.
proof fn lemma_first_index(list: Seq<AgentModel>, key: Seq<char>, i: int)
    requires
        0 <= i < list.len(),
        list[i].config_key == key,
        forall|j: int| 0 <= j < i ==> (#[trigger] list[j]).config_key != key,
    ensures
        index_of(list, key) == Some(i),
    decreases list.len(),
{
    if i > 0 {
        assert(list[0].config_key != key);
        let rest = list.skip(1);
        assert forall|j: int| 0 <= j < i - 1 implies (#[trigger] rest[j]).config_key != key by {
            assert(rest[j] == list[j + 1]);
        }
        lemma_first_index(rest, key, i - 1);
    }
}

/// A key that no device of a list has is not found.
proof fn lemma_no_index(list: Seq<AgentModel>, key: Seq<char>)
    requires
        forall|j: int| 0 <= j < list.len() ==> (#[trigger] list[j]).config_key != key,
    ensures
        index_of(list, key) is None,
    decreases list.len(),
{
    if list.len() > 0 {
        assert(list[0].config_key != key);
        let rest = list.skip(1);
        assert forall|j: int| 0 <= j < rest.len() implies (#[trigger] rest[j]).config_key
            != key by {
            assert(rest[j] == list[j + 1]);
        }
        lemma_no_index(rest, key);
    }
}

/// What a listed device is: the paired device as it is, reached over its slot of its own
/// receiver, under the key of its physical identity; one without a model or without such
/// a key is not listed.
pub proof fn law_paired_device_is_listed(inventory: DeviceInventory, paired: PairedDevice)
    ensures
        paired.model_info is None ==> device_of(inventory, paired) is None,
        device_of(inventory, paired) matches Some(device) ==> {
            &&& paired.model_info matches Some(model)
            &&& device.slot == paired.slot
            &&& device.online == paired.online
            &&& device.capabilities == paired.capabilities
            &&& device.route == route_of(inventory, paired.slot)
            &&& device.serial == opt_text(model.serial_number)
            &&& device.unit_id == model.unit_id@
            &&& device.model_key == model.model_key()
            &&& Some(device.config_key) == device.id().physical_key()
        },
        paired.model_info matches Some(model) ==> (device_of(inventory, paired) is Some
            <==> StableModel::from_parts(
            route_of(inventory, paired.slot),
            paired.slot,
            opt_text(model.serial_number),
            model.unit_id@,
        ).physical_key() is Some),
{
}

/// Every paired device that can be listed is, each inventory's devices in their order,
/// and nothing else is.
pub proof fn law_list_holds_the_paired_devices(inventory: DeviceInventory, n: nat, i: int)
    requires
        n <= inventory.paired@.len(),
    ensures
        listed_paired(inventory, n).len() <= n,
        0 <= i < n && device_of(inventory, inventory.paired@[i]) is Some ==> listed_paired(
            inventory,
            n,
        ).contains(device_of(inventory, inventory.paired@[i])->0),
        forall|k: int|
            0 <= k < listed_paired(inventory, n).len() ==> exists|p: int|
                0 <= p < n && #[trigger] device_of(inventory, inventory.paired@[p]) == Some(
                    #[trigger] listed_paired(inventory, n)[k],
                ),
    decreases n,
{
    if n > 0 {
        let m = (n - 1) as nat;
        law_list_holds_the_paired_devices(inventory, m, i);
        let earlier = listed_paired(inventory, m);
        let all = listed_paired(inventory, n);
        if let Some(device) = device_of(inventory, inventory.paired@[n - 1]) {
            assert(all == earlier.push(device));
            assert(all[earlier.len() as int] == device);
            if 0 <= i < m && device_of(inventory, inventory.paired@[i]) is Some {
                let k = choose|k: int|
                    0 <= k < earlier.len() && earlier[k] == device_of(
                        inventory,
                        inventory.paired@[i],
                    )->0;
                assert(all[k] == earlier[k]);
            }
            assert forall|k: int| 0 <= k < all.len() implies exists|p: int|
                0 <= p < n && #[trigger] device_of(inventory, inventory.paired@[p]) == Some(
                    #[trigger] all[k],
                ) by {
                if k < earlier.len() {
                    assert(all[k] == earlier[k]);
                    let p = choose|p: int|
                        0 <= p < m && #[trigger] device_of(inventory, inventory.paired@[p]) == Some(
                            earlier[k],
                        );
                    assert(device_of(inventory, inventory.paired@[p]) == Some(all[k]));
                } else {
                    assert(device_of(inventory, inventory.paired@[n - 1]) == Some(all[k]));
                }
            }
        }
    }
}

/// Devices go by their key, and devices with one key by their model.
pub proof fn law_devices_go_by_key(a: AgentModel, b: AgentModel)
    ensures
        text::text_less(a.config_key, b.config_key) ==> comes_before(a, b),
        text::text_less(b.config_key, a.config_key) ==> !comes_before(a, b),
        a.config_key == b.config_key ==> (comes_before(a, b) <==> text::text_less(
            a.model_key,
            b.model_key,
        )),
{
    text::lemma_text_order(a.config_key, b.config_key);
    text::lemma_text_order(b.config_key, a.config_key);
}

/// What a projection publishes: of each button its single action, or its click action; of
/// the three hooked buttons their gestures; of the gesture button its own; and of no
/// other button a gesture. Both halves are of one generation.
pub proof fn law_projection_is_published(
    publication: Publication,
    config: ConfigModel,
    key: Option<Seq<char>>,
    app: Option<Seq<char>>,
    generation: u64,
    button: ButtonId,
)
    requires
        publishes(publication, config, key, app, generation),
    ensures
        ({
            let bound = effective(config, key, app).slot(button);
            let hooked = button is MiddleClick || button is Back || button is Forward;
            &&& publication.hook_maps.generation == generation
            &&& publication.gestures.generation == generation
            &&& publication.hook_maps.bindings.slot(button) == Some(
                click_projection(bound, button),
            )
            &&& hooked ==> publication.hook_maps.gestures.slot(button) == slot_mode(bound)
                && publication.gestures.modes.slot(button) == slot_mode(bound)
            &&& !hooked ==> publication.hook_maps.gestures.slot(button) is None
            &&& button is GestureButton ==> publication.gestures.modes.slot(button)
                == dedicated_mode(bound)
            &&& !hooked && !(button is GestureButton) ==> publication.gestures.modes.slot(
                button,
            ) is None
        }),
{
}

/// What is published with a device: its own presets and route, and the wheel's
/// sensitivity as it is set; without a device no preset and no route.
pub proof fn law_device_is_published(
    publication: Publication,
    config: ConfigModel,
    active: Option<AgentModel>,
    app: Option<Seq<char>>,
    generation: u64,
)
    requires
        publishes_all(publication, config, active, app, generation),
    ensures
        publication.dpi is Some,
        active matches Some(device) ==> publication.dpi->0.presets@ == config.device(
            device.config_key,
        ).dpi_presets && opt_route(publication.dpi->0.target) == device.route,
        active is None ==> publication.dpi->0.presets@.len() == 0 && publication.dpi->0.target
            is None,
        publication.thumbwheel_sensitivity == Some(config.app_settings.thumbwheel_sensitivity),
        active matches Some(device) ==> publishes(
            publication,
            config,
            Some(device.config_key),
            app,
            generation,
        ),
        active is None ==> publishes(publication, config, None, app, generation),
{
}

/// Generations go up by one, and start again from zero after the last.
pub proof fn law_generations_go_up(generation: u64)
    ensures
        generation < u64::MAX ==> next_generation(generation) == generation + 1,
        generation == u64::MAX ==> next_generation(generation) == 0,
        next_generation(generation) != generation,
{
}

/// Two lists project alike when they agree, place by place, on key, route and
/// capabilities.
pub proof fn law_same_projection(a: Seq<AgentModel>, b: Seq<AgentModel>, i: int)
    ensures
        same_set(a, b) ==> a.len() == b.len(),
        same_set(a, b) && 0 <= i < a.len() ==> a[i].config_key == b[i].config_key && a[i].route
            == b[i].route && a[i].capabilities == b[i].capabilities,
        a.len() == b.len() && (forall|k: int|
            0 <= k < a.len() ==> (#[trigger] a[k]).config_key == b[k].config_key && a[k].route
                == b[k].route && a[k].capabilities == b[k].capabilities) ==> same_set(a, b),
{
}

/// What the state of the inventory means for its health.
pub proof fn law_health_follows_the_inventory(orchestrator: Orchestrator)
    ensures
        orchestrator.inventory is Pending <==> orchestrator.health() is Scanning,
        orchestrator.inventory is Ready <==> orchestrator.health() is Ready,
        orchestrator.inventory is Unavailable <==> orchestrator.health() is Unavailable,
{
}

/// What a refresh does: the device list becomes that of the new inventory, a device that
/// needs a write gets its own, the wake is over, and the maps are published anew exactly
/// when the list projects otherwise than before.
pub proof fn law_refresh_writes_and_publishes(
    before: Orchestrator,
    after: Orchestrator,
    inventories: Vec<DeviceInventory>,
    outcome: RefreshOutcome,
    i: int,
)
    requires
        is_refreshed(before, after, inventories, outcome),
    ensures
        after.inventory == InventoryState::Ready(inventories),
        !after.reapply_all_next_refresh,
        after.config == before.config,
        after.current_app == before.current_app,
        outcome.publication is None <==> same_set(after.models(), before.models()),
        0 <= i < after.models().len() && needs_write(
            before.models(),
            after.models()[i],
            before.reapply_all_next_refresh,
        ) ==> write_models(outcome.writes@).contains(
            volatile_write(before.config@, after.models()[i])->0,
        ),
        outcome.publication is Some ==> after.current == selected_index(
            after.models(),
            opt_text(before.config@.selected_device),
        ),
        outcome.publication is None ==> after.current == before.current,
{
    let condition = |i: int|
        needs_write(before.models(), after.models()[i], before.reapply_all_next_refresh);
    let second = |i: int|
        needs_confirmation(
            before.models(),
            after.models()[i],
            before.reapply_followup@.dom(),
            before.reapply_all_next_refresh,
        );
    let n = after.models().len();
    let targets = chosen(n, condition) + chosen(n, second);
    if 0 <= i < n && condition(i) {
        assert(n == after.devices.len());
        lemma_chosen(n, condition);
        let k = choose|k: int|
            0 <= k < chosen(n, condition).len() && chosen(n, condition)[k] == i as usize;
        assert(targets[k] == i as usize);
        let writes = planned_writes(before.config@, after.models(), targets);
        assert(writes[k] == volatile_write(before.config@, after.models()[i])->0);
    }
}

/// The chosen indices are exactly those below the bound that meet the condition, in
/// rising order.
pub proof fn law_chosen_indices_rise(n: nat, condition: spec_fn(int) -> bool, a: int, b: int)
    requires
        n <= usize::MAX,
    ensures
        0 <= a < b < chosen(n, condition).len() ==> chosen(n, condition)[a] < chosen(
            n,
            condition,
        )[b],
        0 <= a < chosen(n, condition).len() ==> chosen(n, condition)[a] < n && condition(
            chosen(n, condition)[a] as int,
        ),
        0 <= a < n && condition(a) ==> chosen(n, condition).contains(a as usize),
    decreases n,
{
    lemma_chosen(n, condition);
    if n > 0 {
        let m = (n - 1) as nat;
        law_chosen_indices_rise(m, condition, a, b);
        lemma_chosen(m, condition);
    }
}

/// The inventories are listed one after the other, each with all of its devices.
pub proof fn law_inventories_are_listed_in_order(
    inventories: Seq<DeviceInventory>,
    n: nat,
    i: int,
)
    requires
        n <= inventories.len(),
    ensures
        listed(inventories, 0).len() == 0,
        n < inventories.len() ==> {
            let before = listed(inventories, n);
            let own = listed_paired(inventories[n as int], inventories[n as int].paired@.len());
            let all = listed(inventories, n + 1);
            &&& all.len() == before.len() + own.len()
            &&& 0 <= i < before.len() ==> all[i] == before[i]
            &&& 0 <= i < own.len() ==> all[before.len() + i] == own[i]
        },
{
}

/// Which device is active: the one at the current place, under its own key; and none
/// where the place is past the end.
pub proof fn law_active_device_is_at_its_place(orchestrator: Orchestrator)
    ensures
        orchestrator.current < orchestrator.models().len() ==> orchestrator.active() == Some(
            orchestrator.models()[orchestrator.current as int],
        ) && active_key(orchestrator.active()) == Some(
            orchestrator.models()[orchestrator.current as int].config_key,
        ),
        orchestrator.current >= orchestrator.models().len() ==> orchestrator.active() is None
            && active_key(orchestrator.active()) is None,
        orchestrator.models().len() == orchestrator.devices@.len(),
        forall|i: int|
            0 <= i < orchestrator.devices@.len() ==> #[trigger] orchestrator.models()[i]
                == orchestrator.devices@[i]@,
{
}

/// What the writes of a plan are: one for each target, in their order, each of its own
/// device.
pub proof fn law_plan_writes_its_targets(
    config: ConfigModel,
    devices: Seq<AgentModel>,
    targets: Seq<usize>,
    i: int,
)
    ensures
        planned_writes(config, devices, targets).len() == targets.len(),
        0 <= i < targets.len() && devices[targets[i] as int].route is Some ==> {
            let write = planned_writes(config, devices, targets)[i];
            let device = devices[targets[i] as int];
            &&& Some(write.route) == device.route
            &&& write.lighting is Some <==> config.device(device.config_key).lighting is Some
                && config.device(device.config_key).lighting->0.enabled
        },
{
}

/// What an agent's device shows is what it holds.
pub proof fn law_agent_device_shows_itself(device: AgentDevice)
    ensures
        device@.config_key == device.config_key@,
        device@.model_key == device.model_key@,
        device@.route == opt_route(device.route),
        device@.slot == device.slot,
        device@.serial == opt_text(device.serial),
        device@.unit_id == device.unit_id@,
        device@.capabilities == device.capabilities,
        device@.online == device.online,
        device@.reachable() <==> device.online && device.route is Some,
        device@.id() == StableModel::from_parts(
            opt_route(device.route),
            device.slot,
            opt_text(device.serial),
            device.unit_id@,
        ),
{
}

/// What a write shows is what it carries.
pub proof fn law_write_shows_itself(write: VolatileWrite)
    ensures
        write@.route == write.route@,
        write@.mouse == write.mouse,
        write@.lighting == write.lighting,
{
}

} // verus!
