//! Per-device configuration, and the folding of earlier binding layouts into
//! the current one.

use super::settings::{Lighting, ScrollResolution, SmartShift};
use crate::binding::{
    default_action, default_binding, Action, Binding, ButtonId, DirectionMap, GestureDirection,
};
use crate::button_map::ButtonMap;
use crate::device::{
    clone_opt_text, opt_text_eq, same_text, Capabilities, DeviceKind, DeviceModelInfo,
};
use crate::text;
use crate::text_map::TextMap;
use vstd::prelude::*;

verus! {

/// Last-known identity of a device, captured while it was online so the UI can
/// render its card and the correct panels before any live probe completes — or
/// while the device is asleep.
///
/// Every field is a static property of the model, free of any per-unit
/// identifier.
#[derive(Debug)]
pub struct DeviceIdentity {
    /// The name shown in the carousel.
    pub display_name: String,
    /// HID++ model identity, when available.
    pub model_info: Option<DeviceModelInfo>,
    /// Firmware codename, when available.
    pub codename: Option<String>,
    /// The device's resolved kind.
    pub kind: DeviceKind,
    /// Capabilities measured from the device's feature table.
    pub capabilities: Capabilities,
}

/// Two optional model identities are both absent or the same.
pub open spec fn same_model(a: Option<DeviceModelInfo>, b: Option<DeviceModelInfo>) -> bool {
    match (a, b) {
        (Some(x), Some(y)) => x.same_as(y),
        (None, None) => true,
        _ => false,
    }
}

impl DeviceIdentity {
    /// The same identity, texts counting by their characters.
    pub open spec fn same_as(self, other: DeviceIdentity) -> bool {
        &&& self.display_name@ == other.display_name@
        &&& same_model(self.model_info, other.model_info)
        &&& same_text(self.codename, other.codename)
        &&& self.kind == other.kind
        &&& self.capabilities == other.capabilities
    }
}

impl Clone for DeviceIdentity {
    fn clone(&self) -> (copy: Self)
        ensures
            copy == *self,
    {
        DeviceIdentity {
            display_name: self.display_name.clone(),
            model_info: match &self.model_info {
                Some(model) => Some(model.clone()),
                None => None,
            },
            codename: clone_opt_text(&self.codename),
            kind: self.kind,
            capabilities: self.capabilities,
        }
    }
}

impl PartialEq for DeviceIdentity {
    fn eq(&self, other: &Self) -> (same: bool) {
        let models = match (&self.model_info, &other.model_info) {
            (Some(a), Some(b)) => *a == *b,
            (None, None) => true,
            _ => false,
        };
        text::str_eq(self.display_name.as_str(), other.display_name.as_str()) && models
            && opt_text_eq(&self.codename, &other.codename) && self.kind == other.kind
            && self.capabilities == other.capabilities
    }
}

impl Eq for DeviceIdentity {

}

impl vstd::std_specs::cmp::PartialEqSpecImpl for DeviceIdentity {
    open spec fn obeys_eq_spec() -> bool {
        true
    }

    open spec fn eq_spec(&self, other: &Self) -> bool {
        self.same_as(*other)
    }
}

/// The single gesture owner that an earlier schema recorded per device.
#[derive(Clone, Copy, Debug, PartialEq, Eq, Structural)]
pub enum LegacyGestureOwner {
    /// Gestures were switched off.
    Off,
    /// This button owned them.
    Button(ButtonId),
}

/// The identifier that stands for a button in the configuration file.
pub open spec fn button_name(button: ButtonId) -> Seq<char> {
    match button {
        ButtonId::LeftClick => "LeftClick"@,
        ButtonId::RightClick => "RightClick"@,
        ButtonId::MiddleClick => "MiddleClick"@,
        ButtonId::Back => "Back"@,
        ButtonId::Forward => "Forward"@,
        ButtonId::DpiToggle => "DpiToggle"@,
        ButtonId::Thumbwheel => "Thumbwheel"@,
        ButtonId::ThumbwheelScrollUp => "ThumbwheelScrollUp"@,
        ButtonId::ThumbwheelScrollDown => "ThumbwheelScrollDown"@,
        ButtonId::GestureButton => "GestureButton"@,
    }
}

/// The button that an identifier stands for.
#[must_use]
pub fn button_named(name: &str) -> (button: Option<ButtonId>)
    ensures
        match button {
            Some(found) => button_name(found) == name@,
            None => forall|b: ButtonId| button_name(b) != name@,
        },
{
    if text::str_eq(name, "LeftClick") {
        Some(ButtonId::LeftClick)
    } else if text::str_eq(name, "RightClick") {
        Some(ButtonId::RightClick)
    } else if text::str_eq(name, "MiddleClick") {
        Some(ButtonId::MiddleClick)
    } else if text::str_eq(name, "Back") {
        Some(ButtonId::Back)
    } else if text::str_eq(name, "Forward") {
        Some(ButtonId::Forward)
    } else if text::str_eq(name, "DpiToggle") {
        Some(ButtonId::DpiToggle)
    } else if text::str_eq(name, "Thumbwheel") {
        Some(ButtonId::Thumbwheel)
    } else if text::str_eq(name, "ThumbwheelScrollUp") {
        Some(ButtonId::ThumbwheelScrollUp)
    } else if text::str_eq(name, "ThumbwheelScrollDown") {
        Some(ButtonId::ThumbwheelScrollDown)
    } else if text::str_eq(name, "GestureButton") {
        Some(ButtonId::GestureButton)
    } else {
        None
    }
}

/// Every button has an identifier of its own.
pub proof fn law_button_names_are_distinct(a: ButtonId, b: ButtonId)
    requires
        button_name(a) == button_name(b),
    ensures
        a == b,
{
    reveal_strlit("LeftClick");
    reveal_strlit("RightClick");
    reveal_strlit("MiddleClick");
    reveal_strlit("Back");
    reveal_strlit("Forward");
    reveal_strlit("DpiToggle");
    reveal_strlit("Thumbwheel");
    reveal_strlit("ThumbwheelScrollUp");
    reveal_strlit("ThumbwheelScrollDown");
    reveal_strlit("GestureButton");
    let (x, y) = (button_name(a), button_name(b));
    assert(x.len() == y.len());
    assert(x[0] == y[0]);
    if x.len() > 10 {
        assert(x[11] == y[11]);
    }
    assert(x[x.len() - 1] == y[y.len() - 1]);
}

/// What a recorded owner value means: `Off`, a button's identifier, or — for
/// anything else — nothing.
pub open spec fn owner_reads_as(value: Seq<char>, owner: Option<LegacyGestureOwner>) -> bool {
    match owner {
        Some(LegacyGestureOwner::Off) => value == "Off"@,
        Some(LegacyGestureOwner::Button(button)) => value != "Off"@ && value == button_name(button),
        None => value != "Off"@ && forall|b: ButtonId| button_name(b) != value,
    }
}

/// Read a recorded owner value. Invalid values count as absent rather than
/// rejecting the document.
#[must_use]
pub fn parse_legacy_gesture_owner(value: &str) -> (owner: Option<LegacyGestureOwner>)
    ensures
        owner_reads_as(value@, owner),
{
    if text::str_eq(value, "Off") {
        return Some(LegacyGestureOwner::Off);
    }
    match button_named(value) {
        Some(button) => Some(LegacyGestureOwner::Button(button)),
        None => None,
    }
}

/// Settings scoped to a single physical device.
#[derive(Debug)]
pub struct DeviceConfig {
    /// Owner value of an earlier schema, kept only until migration consumes it.
    pub legacy_gesture_owner: Option<LegacyGestureOwner>,
    /// Last-known identity, captured while the device was online.
    pub identity: Option<DeviceIdentity>,
    /// Every rebindable button's binding.
    pub bindings: ButtonMap<Binding>,
    /// Per-application binding overlays, keyed by bundle identifier. Anything
    /// not listed falls through to `bindings`.
    pub per_app_bindings: TextMap<ButtonMap<Binding>>,
    /// Ordered list of DPI presets. Empty means that none are configured.
    pub dpi_presets: Vec<u32>,
    /// The committed sensor DPI; `None` until the user first changes it.
    pub dpi: Option<u32>,
    /// RGB lighting; `None` until the user changes it.
    pub lighting: Option<Lighting>,
    /// SmartShift wheel configuration; `None` until the user changes it.
    pub smartshift: Option<SmartShift>,
    /// Whether the scroll-wheel direction is inverted.
    pub invert_scroll: bool,
    /// Wheel resolution; `None` leaves the device's own unmanaged.
    pub scroll_resolution: Option<ScrollResolution>,
}

/// The mathematical content of a [`DeviceConfig`].
#[verifier::ext_equal]
pub struct DeviceModel {
    /// Owner value of an earlier schema.
    pub legacy_gesture_owner: Option<LegacyGestureOwner>,
    /// Last-known identity.
    pub identity: Option<DeviceIdentity>,
    /// Every rebindable button's binding.
    pub bindings: ButtonMap<Binding>,
    /// Per-application binding overlays.
    pub per_app_bindings: Map<Seq<char>, ButtonMap<Binding>>,
    /// DPI presets.
    pub dpi_presets: Seq<u32>,
    /// Committed sensor DPI.
    pub dpi: Option<u32>,
    /// RGB lighting.
    pub lighting: Option<Lighting>,
    /// SmartShift wheel configuration.
    pub smartshift: Option<SmartShift>,
    /// Scroll-wheel inversion.
    pub invert_scroll: bool,
    /// Wheel resolution.
    pub scroll_resolution: Option<ScrollResolution>,
}

impl DeviceModel {
    /// A device without any settings.
    pub open spec fn fresh() -> DeviceModel {
        DeviceModel {
            legacy_gesture_owner: None,
            identity: None,
            bindings: ButtonMap::empty(),
            per_app_bindings: Map::empty(),
            dpi_presets: Seq::empty(),
            dpi: None,
            lighting: None,
            smartshift: None,
            invert_scroll: false,
            scroll_resolution: None,
        }
    }

    /// The bindings in effect while an application is in front.
    pub open spec fn effective(self, app: Option<Seq<char>>) -> ButtonMap<Binding> {
        match app {
            Some(bundle) if self.per_app_bindings.contains_key(bundle) => self.bindings.overlaid(
                self.per_app_bindings[bundle],
            ),
            _ => self.bindings,
        }
    }

    /// The overlay of an application; empty when it has none.
    pub open spec fn overlay(self, bundle: Seq<char>) -> ButtonMap<Binding> {
        if self.per_app_bindings.contains_key(bundle) {
            self.per_app_bindings[bundle]
        } else {
            ButtonMap::empty()
        }
    }

    /// The device with one button's slot in an application's overlay replaced,
    /// and every empty overlay dropped.
    pub open spec fn with_app_slot(
        self,
        bundle: Seq<char>,
        button: ButtonId,
        slot: Option<Binding>,
    ) -> DeviceModel {
        DeviceModel {
            per_app_bindings: pruned(
                self.per_app_bindings.insert(
                    bundle,
                    self.overlay(bundle).with_slot(button, slot),
                ),
            ),
            ..self
        }
    }

    /// The device with the owner of an earlier schema consumed: every gesture
    /// or Pan binding that the owner did not own becomes a single action.
    pub open spec fn owner_normalized(self) -> DeviceModel {
        DeviceModel {
            legacy_gesture_owner: None,
            bindings: demoted_map(self.bindings, self.legacy_gesture_owner),
            ..self
        }
    }
}

/// The overlays that bind something.
pub open spec fn pruned(overlays: Map<Seq<char>, ButtonMap<Binding>>) -> Map<
    Seq<char>,
    ButtonMap<Binding>,
> {
    overlays.restrict(
        Set::new(
            |bundle: Seq<char>|
                overlays.contains_key(bundle) && overlays[bundle] != ButtonMap::<
                    Binding,
                >::empty(),
        ),
    )
}

/// What a binding becomes when the owner of an earlier schema is consumed.
pub open spec fn demoted(
    slot: Option<Binding>,
    button: ButtonId,
    owner: Option<LegacyGestureOwner>,
) -> Option<Binding> {
    if owner == Some(LegacyGestureOwner::Button(button)) {
        slot
    } else {
        match slot {
            Some(Binding::Gesture(map)) => Some(
                Binding::Single(
                    match map.click {
                        Some(action) => action,
                        None => default_action(button),
                    },
                ),
            ),
            Some(Binding::Pan(pan)) => Some(Binding::Single(pan.click)),
            other => other,
        }
    }
}

/// Every button's binding after the owner of an earlier schema is consumed.
pub open spec fn demoted_map(
    bindings: ButtonMap<Binding>,
    owner: Option<LegacyGestureOwner>,
) -> ButtonMap<Binding> {
    ButtonMap {
        left_click: demoted(bindings.left_click, ButtonId::LeftClick, owner),
        right_click: demoted(bindings.right_click, ButtonId::RightClick, owner),
        middle_click: demoted(bindings.middle_click, ButtonId::MiddleClick, owner),
        back: demoted(bindings.back, ButtonId::Back, owner),
        forward: demoted(bindings.forward, ButtonId::Forward, owner),
        dpi_toggle: demoted(bindings.dpi_toggle, ButtonId::DpiToggle, owner),
        thumbwheel: demoted(bindings.thumbwheel, ButtonId::Thumbwheel, owner),
        thumbwheel_scroll_up: demoted(bindings.thumbwheel_scroll_up, ButtonId::ThumbwheelScrollUp, owner),
        thumbwheel_scroll_down: demoted(bindings.thumbwheel_scroll_down, ButtonId::ThumbwheelScrollDown, owner),
        gesture_button: demoted(bindings.gesture_button, ButtonId::GestureButton, owner),
    }
}

impl View for DeviceConfig {
    type V = DeviceModel;

    open spec fn view(&self) -> DeviceModel {
        DeviceModel {
            legacy_gesture_owner: self.legacy_gesture_owner,
            identity: self.identity,
            bindings: self.bindings,
            per_app_bindings: self.per_app_bindings@,
            dpi_presets: self.dpi_presets@,
            dpi: self.dpi,
            lighting: self.lighting,
            smartshift: self.smartshift,
            invert_scroll: self.invert_scroll,
            scroll_resolution: self.scroll_resolution,
        }
    }
}

impl Default for DeviceConfig {
    fn default() -> (device: Self)
        ensures
            device@ == DeviceModel::fresh(),
    {
        let device = DeviceConfig {
            legacy_gesture_owner: None,
            identity: None,
            bindings: ButtonMap::new(),
            per_app_bindings: TextMap::new(),
            dpi_presets: Vec::new(),
            dpi: None,
            lighting: None,
            smartshift: None,
            invert_scroll: false,
            scroll_resolution: None,
        };
        assert(device@ =~= DeviceModel::fresh());
        device
    }
}

/// Demote one button's binding unless the owner owned it.
fn demote_slot(slot: &mut Option<Binding>, button: ButtonId, owner: Option<LegacyGestureOwner>)
    ensures
        *final(slot) == demoted(*old(slot), button, owner),
{
    let active = match owner {
        Some(LegacyGestureOwner::Button(owner_button)) => owner_button == button,
        _ => false,
    };
    if active {
        return;
    }
    let click = match slot {
        Some(Binding::Gesture(map)) => match map.get(GestureDirection::Click) {
            Some(action) => action.clone(),
            None => default_binding(button),
        },
        Some(Binding::Pan(pan)) => pan.click.clone(),
        _ => {
            return;
        },
    };
    *slot = Some(Binding::Single(click));
}

impl DeviceConfig {
    /// Consume the single-owner state of an earlier schema without activating
    /// gesture maps that were dormant in it.
    pub fn normalize_legacy_gesture_owner(&mut self)
        ensures
            final(self)@ == old(self)@.owner_normalized(),
    {
        let owner = self.legacy_gesture_owner.take();
        demote_slot(&mut self.bindings.left_click, ButtonId::LeftClick, owner);
        demote_slot(&mut self.bindings.right_click, ButtonId::RightClick, owner);
        demote_slot(&mut self.bindings.middle_click, ButtonId::MiddleClick, owner);
        demote_slot(&mut self.bindings.back, ButtonId::Back, owner);
        demote_slot(&mut self.bindings.forward, ButtonId::Forward, owner);
        demote_slot(&mut self.bindings.dpi_toggle, ButtonId::DpiToggle, owner);
        demote_slot(&mut self.bindings.thumbwheel, ButtonId::Thumbwheel, owner);
        demote_slot(&mut self.bindings.thumbwheel_scroll_up, ButtonId::ThumbwheelScrollUp, owner);
        demote_slot(&mut self.bindings.thumbwheel_scroll_down, ButtonId::ThumbwheelScrollDown, owner);
        demote_slot(&mut self.bindings.gesture_button, ButtonId::GestureButton, owner);
        assert(self@ =~= old(self)@.owner_normalized());
    }

    /// Drop every application overlay that binds nothing.
    pub(crate) fn prune_overlays(&mut self)
        ensures
            final(self)@ == (DeviceModel {
                per_app_bindings: pruned(old(self)@.per_app_bindings),
                ..old(self)@
            }),
    {
        let ghost all = self.per_app_bindings@;
        let mut rest: TextMap<ButtonMap<Binding>> = TextMap::new();
        core::mem::swap(&mut rest, &mut self.per_app_bindings);
        let mut kept: TextMap<ButtonMap<Binding>> = TextMap::new();
        let mut more = true;
        while more
            invariant
                forall|k: Seq<char>| #[trigger] rest@.contains_key(k) ==> all.contains_key(k)
                    && rest@[k] == all[k],
                forall|k: Seq<char>| #[trigger] kept@.contains_key(k) ==> pruned(all).contains_key(k)
                    && kept@[k] == all[k],
                forall|k: Seq<char>| #[trigger]
                    pruned(all).contains_key(k) ==> kept@.contains_key(k) || rest@.contains_key(k),
                !more ==> rest@ == Map::<Seq<char>, ButtonMap<Binding>>::empty(),
            decreases rest.keys().len(), if more { 1int } else { 0 },
        {
            match rest.pop_last() {
                Some((bundle, overlay)) => {
                    if !overlay.is_empty() {
                        kept.insert(bundle.as_str(), overlay);
                    }
                },
                None => {
                    more = false;
                },
            }
        }
        self.per_app_bindings = kept;
        assert(self.per_app_bindings@ =~= pruned(all));
        assert(self@ =~= (DeviceModel { per_app_bindings: pruned(all), ..old(self)@ }));
    }
}

/// A device's settings as read from a configuration file of any schema.
#[derive(Debug)]
pub struct RawDeviceConfig {
    /// Single gesture owner of an earlier schema, as written.
    pub gesture_owner: Option<String>,
    /// Last-known identity.
    pub identity: Option<DeviceIdentity>,
    /// Bindings in the current shape; they win over the earlier shapes.
    pub bindings: ButtonMap<Binding>,
    /// Earlier per-button single bindings.
    pub button_bindings: ButtonMap<Action>,
    /// Earlier flat gesture map, implicitly the gesture button's.
    pub gesture_bindings: DirectionMap,
    /// Per-application binding overlays.
    pub per_app_bindings: TextMap<ButtonMap<Binding>>,
    /// DPI presets.
    pub dpi_presets: Vec<u32>,
    /// Committed sensor DPI.
    pub dpi: Option<u32>,
    /// RGB lighting.
    pub lighting: Option<Lighting>,
    /// SmartShift wheel configuration.
    pub smartshift: Option<SmartShift>,
    /// Scroll-wheel inversion.
    pub invert_scroll: bool,
    /// Wheel resolution.
    pub scroll_resolution: Option<ScrollResolution>,
}

/// An ordinary button's binding: the current shape wins over the earlier single
/// action.
pub open spec fn folded_slot(current: Option<Binding>, earlier: Option<Action>) -> Option<Binding> {
    match (current, earlier) {
        (Some(binding), _) => Some(binding),
        (None, Some(action)) => Some(Binding::Single(action)),
        (None, None) => None,
    }
}

/// The gesture button's binding: the current shape wins over the earlier flat
/// gesture map; an earlier single action of this button is dropped, since it
/// never took effect.
pub open spec fn folded_gesture(current: Option<Binding>, earlier: DirectionMap) -> Option<
    Binding,
> {
    match current {
        Some(binding) => Some(binding),
        None => if earlier == DirectionMap::empty() {
            None
        } else {
            Some(Binding::Gesture(earlier))
        },
    }
}

/// Fold an ordinary button's earlier single action into the current shape.
fn fold_slot(current: Option<Binding>, earlier: Option<Action>) -> (binding: Option<Binding>)
    ensures
        binding == folded_slot(current, earlier),
{
    match current {
        Some(binding) => Some(binding),
        None => match earlier {
            Some(action) => Some(Binding::Single(action)),
            None => None,
        },
    }
}

impl RawDeviceConfig {
    /// The bindings in the current shape.
    pub open spec fn folded_bindings(self) -> ButtonMap<Binding> {
        ButtonMap {
            left_click: folded_slot(self.bindings.left_click, self.button_bindings.left_click),
            right_click: folded_slot(self.bindings.right_click, self.button_bindings.right_click),
            middle_click: folded_slot(self.bindings.middle_click, self.button_bindings.middle_click),
            back: folded_slot(self.bindings.back, self.button_bindings.back),
            forward: folded_slot(self.bindings.forward, self.button_bindings.forward),
            dpi_toggle: folded_slot(self.bindings.dpi_toggle, self.button_bindings.dpi_toggle),
            thumbwheel: folded_slot(self.bindings.thumbwheel, self.button_bindings.thumbwheel),
            thumbwheel_scroll_up: folded_slot(self.bindings.thumbwheel_scroll_up, self.button_bindings.thumbwheel_scroll_up),
            thumbwheel_scroll_down: folded_slot(self.bindings.thumbwheel_scroll_down, self.button_bindings.thumbwheel_scroll_down),
            gesture_button: folded_gesture(self.bindings.gesture_button, self.gesture_bindings),
        }
    }

    /// The device that the raw settings stand for, with this owner.
    pub open spec fn folded(self, owner: Option<LegacyGestureOwner>) -> DeviceModel {
        DeviceModel {
            legacy_gesture_owner: owner,
            identity: self.identity,
            bindings: self.folded_bindings(),
            per_app_bindings: self.per_app_bindings@,
            dpi_presets: self.dpi_presets@,
            dpi: self.dpi,
            lighting: self.lighting,
            smartshift: self.smartshift,
            invert_scroll: self.invert_scroll,
            scroll_resolution: self.scroll_resolution,
        }
    }

    /// The owner that the raw settings record.
    pub open spec fn records_owner(self, owner: Option<LegacyGestureOwner>) -> bool {
        match self.gesture_owner {
            Some(value) => owner_reads_as(value@, owner),
            None => owner is None,
        }
    }

    /// Fold the raw settings into the current shape.
    #[must_use]
    pub fn into_device(self) -> (device: DeviceConfig)
        ensures
            self.records_owner(device@.legacy_gesture_owner),
            device@ == self.folded(device@.legacy_gesture_owner),
    {
        let owner = match &self.gesture_owner {
            Some(value) => parse_legacy_gesture_owner(value.as_str()),
            None => None,
        };
        let gesture_button = match self.bindings.gesture_button {
            Some(binding) => Some(binding),
            None => if self.gesture_bindings.len() == 0 {
                None
            } else {
                Some(Binding::Gesture(self.gesture_bindings))
            },
        };
        DeviceConfig {
            legacy_gesture_owner: owner,
            identity: self.identity,
            bindings: ButtonMap {
                left_click: fold_slot(self.bindings.left_click, self.button_bindings.left_click),
                right_click: fold_slot(self.bindings.right_click, self.button_bindings.right_click),
                middle_click: fold_slot(self.bindings.middle_click, self.button_bindings.middle_click),
                back: fold_slot(self.bindings.back, self.button_bindings.back),
                forward: fold_slot(self.bindings.forward, self.button_bindings.forward),
                dpi_toggle: fold_slot(self.bindings.dpi_toggle, self.button_bindings.dpi_toggle),
                thumbwheel: fold_slot(self.bindings.thumbwheel, self.button_bindings.thumbwheel),
                thumbwheel_scroll_up: fold_slot(self.bindings.thumbwheel_scroll_up, self.button_bindings.thumbwheel_scroll_up),
                thumbwheel_scroll_down: fold_slot(self.bindings.thumbwheel_scroll_down, self.button_bindings.thumbwheel_scroll_down),
                gesture_button,
            },
            per_app_bindings: self.per_app_bindings,
            dpi_presets: self.dpi_presets,
            dpi: self.dpi,
            lighting: self.lighting,
            smartshift: self.smartshift,
            invert_scroll: self.invert_scroll,
            scroll_resolution: self.scroll_resolution,
        }
    }
}

/// The recorded owner value has one reading only.
pub proof fn law_owner_reading_is_unique(
    value: Seq<char>,
    a: Option<LegacyGestureOwner>,
    b: Option<LegacyGestureOwner>,
)
    requires
        owner_reads_as(value, a),
        owner_reads_as(value, b),
    ensures
        a == b,
{
    match (a, b) {
        (Some(LegacyGestureOwner::Button(x)), Some(LegacyGestureOwner::Button(y))) => {
            law_button_names_are_distinct(x, y);
        },
        _ => {},
    }
}

/// Consuming the owner leaves at most the owner's button with a gesture or Pan
/// binding, binds no button that was unbound, and keeps what every plain click
/// does except where a gesture map had no click of its own.
pub proof fn law_only_the_owner_stays_typed(device: DeviceModel, button: ButtonId)
    ensures
        ({
            let before = device.bindings.slot(button);
            let after = device.owner_normalized().bindings.slot(button);
            &&& before is None <==> after is None
            &&& after is Some && !(after->0 is Single) ==> device.legacy_gesture_owner == Some(
                LegacyGestureOwner::Button(button),
            ) && after == before
            &&& before is Some && !(before->0 matches Binding::Gesture(map) && map.click is None)
                ==> after->0.click() == before->0.click()
        }),
        device.owner_normalized().legacy_gesture_owner is None,
{
}

/// How the earlier binding tables are folded in. A button other than the gesture button
/// keeps the binding it has; without one it takes over its own earlier action, and
/// without that it stays unbound. The gesture button keeps its binding too, and without
/// one takes over the earlier directions, if there are any.
pub proof fn law_earlier_bindings_are_folded(
    raw: RawDeviceConfig,
    owner: Option<LegacyGestureOwner>,
    button: ButtonId,
    action: Action,
)
    ensures
        ({
            let after = raw.folded(owner).bindings;
            &&& raw.bindings.slot(button) is Some ==> after.slot(button) == raw.bindings.slot(
                button,
            )
            &&& button != ButtonId::GestureButton && raw.bindings.slot(button) is None
                && raw.button_bindings.slot(button) == Some(action) ==> after.slot(button) == Some(
                Binding::Single(action),
            )
            &&& button != ButtonId::GestureButton && raw.bindings.slot(button) is None
                && raw.button_bindings.slot(button) is None ==> after.slot(button) is None
            &&& raw.bindings.slot(ButtonId::GestureButton) is None ==> {
                let earlier = raw.gesture_bindings;
                let nothing = earlier.up is None && earlier.down is None && earlier.left is None
                    && earlier.right is None && earlier.click is None;
                &&& nothing ==> after.slot(ButtonId::GestureButton) is None
                &&& !nothing ==> after.slot(ButtonId::GestureButton) == Some(
                    Binding::Gesture(earlier),
                )
            }
        }),
{
}

/// Everything but the bindings is taken over as it is.
pub proof fn law_other_settings_are_taken_over(
    raw: RawDeviceConfig,
    owner: Option<LegacyGestureOwner>,
)
    ensures
        ({
            let after = raw.folded(owner);
            &&& after.legacy_gesture_owner == owner
            &&& after.identity == raw.identity
            &&& after.per_app_bindings == raw.per_app_bindings@
            &&& after.dpi_presets == raw.dpi_presets@
            &&& after.dpi == raw.dpi
            &&& after.lighting == raw.lighting
            &&& after.smartshift == raw.smartshift
            &&& after.invert_scroll == raw.invert_scroll
            &&& after.scroll_resolution == raw.scroll_resolution
        }),
        raw.gesture_owner is None ==> (raw.records_owner(owner) <==> owner is None),
        raw.gesture_owner matches Some(value) ==> (raw.records_owner(owner) <==> owner_reads_as(
            value@,
            owner,
        )),
{
}

/// What becomes of the bindings when the recorded owner is applied: the owner keeps its
/// binding; any other gesture becomes its click action, or the button's default where it
/// has none; any other Pan becomes its click action; and an action stays. The owner is
/// then forgotten and everything else stays.
pub proof fn law_owner_keeps_its_gesture(device: DeviceModel, button: ButtonId)
    ensures
        ({
            let before = device.bindings.slot(button);
            let after = device.owner_normalized().bindings.slot(button);
            let owns = device.legacy_gesture_owner == Some(LegacyGestureOwner::Button(button));
            &&& owns ==> after == before
            &&& before is None ==> after is None
            &&& before matches Some(Binding::Single(action)) ==> after == Some(
                Binding::Single(action),
            )
            &&& !owns ==> (before matches Some(Binding::Gesture(map)) ==> after == Some(
                Binding::Single(
                    if map.click is Some {
                        map.click->0
                    } else {
                        default_action(button)
                    },
                ),
            ))
            &&& !owns ==> (before matches Some(Binding::Pan(pan)) ==> after == Some(
                Binding::Single(pan.click),
            ))
        }),
        ({
            let after = device.owner_normalized();
            &&& after.legacy_gesture_owner is None
            &&& after.identity == device.identity
            &&& after.per_app_bindings == device.per_app_bindings
            &&& after.dpi_presets == device.dpi_presets
            &&& after.dpi == device.dpi
            &&& after.lighting == device.lighting
            &&& after.smartshift == device.smartshift
            &&& after.invert_scroll == device.invert_scroll
            &&& after.scroll_resolution == device.scroll_resolution
        }),
{
}

/// What a device starts with: nothing bound, nothing stored and scrolling not inverted.
pub proof fn law_fresh_device_has_nothing(button: ButtonId, bundle: Seq<char>)
    ensures
        DeviceModel::fresh().legacy_gesture_owner is None,
        DeviceModel::fresh().identity is None,
        DeviceModel::fresh().bindings.slot(button) is None,
        !DeviceModel::fresh().per_app_bindings.contains_key(bundle),
        DeviceModel::fresh().dpi_presets.len() == 0,
        DeviceModel::fresh().dpi is None,
        DeviceModel::fresh().lighting is None,
        DeviceModel::fresh().smartshift is None,
        !DeviceModel::fresh().invert_scroll,
        DeviceModel::fresh().scroll_resolution is None,
{
}

/// What is in force: in an application with an overlay the overlay's binding where it has
/// one, and everywhere else the device's own.
pub proof fn law_overlay_is_in_force(device: DeviceModel, bundle: Seq<char>, button: ButtonId)
    ensures
        device.effective(None).slot(button) == device.bindings.slot(button),
        !device.per_app_bindings.contains_key(bundle) ==> device.effective(Some(bundle)).slot(
            button,
        ) == device.bindings.slot(button) && device.overlay(bundle).slot(button) is None,
        device.per_app_bindings.contains_key(bundle) ==> {
            let own = device.per_app_bindings[bundle].slot(button);
            &&& device.overlay(bundle).slot(button) == own
            &&& own is Some ==> device.effective(Some(bundle)).slot(button) == own
            &&& own is None ==> device.effective(Some(bundle)).slot(button)
                == device.bindings.slot(button)
        },
{
}

/// Setting a slot of an application's overlay leaves the device's own bindings and its
/// other settings as they are, and no overlay without a binding remains.
pub proof fn law_app_slot_changes_only_its_overlay(
    device: DeviceModel,
    bundle: Seq<char>,
    button: ButtonId,
    slot: Option<Binding>,
    other: Seq<char>,
)
    ensures
        ({
            let after = device.with_app_slot(bundle, button, slot);
            &&& after.bindings == device.bindings
            &&& after.identity == device.identity
            &&& after.dpi_presets == device.dpi_presets
            &&& after.dpi == device.dpi
            &&& after.lighting == device.lighting
            &&& after.smartshift == device.smartshift
            &&& after.invert_scroll == device.invert_scroll
            &&& after.scroll_resolution == device.scroll_resolution
            &&& after.legacy_gesture_owner == device.legacy_gesture_owner
            &&& slot is Some ==> after.per_app_bindings.contains_key(bundle)
                && after.per_app_bindings[bundle].slot(button) == slot
            &&& other != bundle && device.per_app_bindings.contains_key(other)
                && device.per_app_bindings[other] != ButtonMap::<Binding>::empty() ==> {
                &&& after.per_app_bindings.contains_key(other)
                &&& after.per_app_bindings[other] == device.per_app_bindings[other]
            }
            &&& other != bundle && !device.per_app_bindings.contains_key(other)
                ==> !after.per_app_bindings.contains_key(other)
        }),
{
    let overlay = device.overlay(bundle).with_slot(button, slot);
    assert(overlay.slot(button) == slot);
    assert(ButtonMap::<Binding>::empty().slot(button) is None);
}

/// How an owner is written: `Off`, or the name of one of the buttons; anything else
/// records none.
pub proof fn law_owner_is_named(button: ButtonId)
    ensures
        owner_reads_as("Off"@, Some(LegacyGestureOwner::Off)),
        owner_reads_as(button_name(button), Some(LegacyGestureOwner::Button(button))),
        button is LeftClick ==> button_name(button) == "LeftClick"@,
        button is RightClick ==> button_name(button) == "RightClick"@,
        button is MiddleClick ==> button_name(button) == "MiddleClick"@,
        button is Back ==> button_name(button) == "Back"@,
        button is Forward ==> button_name(button) == "Forward"@,
        button is DpiToggle ==> button_name(button) == "DpiToggle"@,
        button is Thumbwheel ==> button_name(button) == "Thumbwheel"@,
        button is ThumbwheelScrollUp ==> button_name(button) == "ThumbwheelScrollUp"@,
        button is ThumbwheelScrollDown ==> button_name(button) == "ThumbwheelScrollDown"@,
        button is GestureButton ==> button_name(button) == "GestureButton"@,
{
    reveal_strlit("Off");
    reveal_strlit("LeftClick");
    reveal_strlit("RightClick");
    reveal_strlit("MiddleClick");
    reveal_strlit("Back");
    reveal_strlit("Forward");
    reveal_strlit("DpiToggle");
    reveal_strlit("Thumbwheel");
    reveal_strlit("ThumbwheelScrollUp");
    reveal_strlit("ThumbwheelScrollDown");
    reveal_strlit("GestureButton");
    assert(button_name(button).len() != 3);
}

/// Two identities are the same when their names, models, codenames, kinds and
/// capabilities are.
pub proof fn law_same_identities(a: DeviceIdentity, b: DeviceIdentity)
    ensures
        a.same_as(b) ==> a.display_name@ == b.display_name@ && a.kind == b.kind && a.capabilities
            == b.capabilities && same_text(a.codename, b.codename) && (a.model_info is Some
            <==> b.model_info is Some),
        a.same_as(b) && a.model_info is Some ==> a.model_info->0.same_as(b.model_info->0),
        a.display_name@ == b.display_name@ && a.kind == b.kind && a.capabilities == b.capabilities
            && same_text(a.codename, b.codename) && a.model_info is None && b.model_info is None
            ==> a.same_as(b),
        a.display_name@ == b.display_name@ && a.kind == b.kind && a.capabilities == b.capabilities
            && same_text(a.codename, b.codename) && a.model_info is Some && b.model_info is Some
            && a.model_info->0.same_as(b.model_info->0) ==> a.same_as(b),
{
}

/// What a device's configuration shows is what it stores.
pub proof fn law_device_shows_its_settings(device: DeviceConfig)
    ensures
        device@.bindings == device.bindings,
        device@.per_app_bindings == device.per_app_bindings@,
        device@.identity == device.identity,
        device@.legacy_gesture_owner == device.legacy_gesture_owner,
        device@.dpi_presets == device.dpi_presets@,
        device@.dpi == device.dpi,
        device@.lighting == device.lighting,
        device@.smartshift == device.smartshift,
        device@.invert_scroll == device.invert_scroll,
        device@.scroll_resolution == device.scroll_resolution,
{
}

} // verus!
