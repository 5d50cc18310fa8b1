//! Binding-map construction: overlay the stored per-device (and per-app)
//! bindings on top of the built-in defaults.

use crate::binding::{
    default_action, default_binding, Action, Binding, ButtonId, DirectionMap, PanBinding,
};
use crate::button_map::ButtonMap;
use crate::config::{Config, ConfigModel};
use crate::text;
use vstd::prelude::*;

verus! {

/// Runtime policy for one gesture-capable button.
///
/// Keeping Pan as a typed mode preserves its hold/release lifecycle; projecting
/// it into an [`Action`] would lose continuous motion and cancellation.
#[derive(Debug)]
pub enum GestureMode {
    /// Click and four-direction swipe behavior.
    Directional(DirectionMap),
    /// Continuous two-axis Pan behavior.
    Pan(PanBinding),
}

impl GestureMode {
    /// The same mode with the same actions.
    pub open spec fn same_as(self, other: GestureMode) -> bool {
        match (self, other) {
            (GestureMode::Directional(a), GestureMode::Directional(b)) => a.same_as(b),
            (GestureMode::Pan(a), GestureMode::Pan(b)) => a.click.same_as(b.click),
            _ => false,
        }
    }
}

impl Clone for GestureMode {
    fn clone(&self) -> (copy: Self)
        ensures
            copy == *self,
    {
        match self {
            GestureMode::Directional(map) => GestureMode::Directional(map.clone()),
            GestureMode::Pan(pan) => GestureMode::Pan(pan.clone()),
        }
    }
}

impl PartialEq for GestureMode {
    fn eq(&self, other: &Self) -> (same: bool) {
        match (self, other) {
            (GestureMode::Directional(a), GestureMode::Directional(b)) => *a == *b,
            (GestureMode::Pan(a), GestureMode::Pan(b)) => *a == *b,
            _ => false,
        }
    }
}

impl Eq for GestureMode {

}

impl vstd::std_specs::cmp::PartialEqSpecImpl for GestureMode {
    open spec fn obeys_eq_spec() -> bool {
        true
    }

    open spec fn eq_spec(&self, other: &Self) -> bool {
        self.same_as(*other)
    }
}

/// The gesture mode of a binding: none for a single action.
pub open spec fn mode_of(binding: Binding, fill_directional_defaults: bool) -> Option<GestureMode> {
    match binding {
        Binding::Single(_) => None,
        Binding::Gesture(map) => Some(
            GestureMode::Directional(
                if fill_directional_defaults {
                    map.with_defaults()
                } else {
                    map
                },
            ),
        ),
        Binding::Pan(pan) => Some(GestureMode::Pan(pan)),
    }
}

/// The gesture mode of a button's slot: none when it is unbound.
pub open spec fn slot_mode(slot: Option<Binding>) -> Option<GestureMode> {
    match slot {
        Some(binding) => mode_of(binding, false),
        None => None,
    }
}

/// The bindings in effect on an optional device.
pub open spec fn effective(
    config: ConfigModel,
    key: Option<Seq<char>>,
    app: Option<Seq<char>>,
) -> ButtonMap<Binding> {
    match key {
        Some(key) => config.effective(key, app),
        None => ButtonMap::empty(),
    }
}

/// The single action of a button's slot: its click, or the button's default when
/// it is unbound or is a gesture without a click of its own.
pub open spec fn click_projection(slot: Option<Binding>, button: ButtonId) -> Action {
    match slot {
        None => default_action(button),
        Some(Binding::Gesture(map)) if map.click is None => default_action(button),
        Some(binding) => binding.click(),
    }
}

/// The mode of the dedicated gesture button: an unbound one has the full default
/// direction map.
pub open spec fn dedicated_mode(slot: Option<Binding>) -> Option<GestureMode> {
    match slot {
        Some(binding) => mode_of(binding, true),
        None => Some(GestureMode::Directional(DirectionMap::empty().with_defaults())),
    }
}

/// The gesture mode of a binding.
pub(crate) fn gesture_mode(binding: Binding, fill_directional_defaults: bool) -> (mode: Option<
    GestureMode,
>)
    ensures
        mode == mode_of(binding, fill_directional_defaults),
{
    match binding {
        Binding::Single(_) => None,
        Binding::Gesture(stored) => {
            let mut directions = stored;
            if fill_directional_defaults {
                directions.fill_defaults();
            }
            Some(GestureMode::Directional(directions))
        },
        Binding::Pan(pan) => Some(GestureMode::Pan(pan)),
    }
}

/// The bindings in effect on an optional device.
fn effective_for(config: &Config, config_key: Option<&str>, app_bundle: Option<&str>) -> (bindings:
    ButtonMap<Binding>)
    ensures
        bindings == effective(config@, text::opt_view(config_key), text::opt_view(app_bundle)),
{
    match config_key {
        Some(key) => config.effective_bindings(key, app_bundle),
        None => ButtonMap::new(),
    }
}

/// The single action of a button's slot.
fn project_click(slot: &Option<Binding>, button: ButtonId) -> (action: Action)
    ensures
        action == click_projection(*slot, button),
{
    match slot {
        None => default_binding(button),
        Some(binding) => {
            if let Binding::Gesture(map) = binding {
                if map.click.is_none() {
                    return default_binding(button);
                }
            }
            binding.click_action()
        },
    }
}

/// The gesture mode of a button's slot.
fn take_mode(slot: Option<Binding>) -> (mode: Option<GestureMode>)
    ensures
        mode == slot_mode(slot),
{
    match slot {
        Some(binding) => gesture_mode(binding, false),
        None => None,
    }
}

/// Effective per-button single-action map for a device, with the application's
/// overlay applied. Unset buttons fall back to [`default_binding`].
///
/// This is the map the OS hook and the HID++ button-press path consume, so a
/// gesture is projected to its click — hold, motion and release are dispatched
/// through [`hid_gestures_for`] or [`oshook_gestures_for`]. A gesture without a
/// click of its own keeps the button's default rather than disabling it.
#[must_use]
pub fn bindings_for(
    config: &Config,
    config_key: Option<&str>,
    app_bundle: Option<&str>,
) -> (bindings: ButtonMap<Action>)
    ensures
        forall|button: ButtonId| #[trigger]
            bindings.slot(button) == Some(
                click_projection(
                    effective(
                        config@,
                        text::opt_view(config_key),
                        text::opt_view(app_bundle),
                    ).slot(button),
                    button,
                ),
            ),
{
    let stored = effective_for(config, config_key, app_bundle);
    ButtonMap {
        left_click: Some(project_click(&stored.left_click, ButtonId::LeftClick)),
        right_click: Some(project_click(&stored.right_click, ButtonId::RightClick)),
        middle_click: Some(project_click(&stored.middle_click, ButtonId::MiddleClick)),
        back: Some(project_click(&stored.back, ButtonId::Back)),
        forward: Some(project_click(&stored.forward, ButtonId::Forward)),
        dpi_toggle: Some(project_click(&stored.dpi_toggle, ButtonId::DpiToggle)),
        thumbwheel: Some(project_click(&stored.thumbwheel, ButtonId::Thumbwheel)),
        thumbwheel_scroll_up: Some(project_click(&stored.thumbwheel_scroll_up, ButtonId::ThumbwheelScrollUp)),
        thumbwheel_scroll_down: Some(project_click(&stored.thumbwheel_scroll_down, ButtonId::ThumbwheelScrollDown)),
        gesture_button: Some(project_click(&stored.gesture_button, ButtonId::GestureButton)),
    }
}

/// Effective gesture mode of a device's dedicated gesture button; `None` when it
/// is bound to a single action. Unset directions fall back to their defaults.
#[must_use]
pub fn hid_gesture_for(
    config: &Config,
    config_key: Option<&str>,
    app_bundle: Option<&str>,
) -> (mode: Option<GestureMode>)
    ensures
        mode == dedicated_mode(
            effective(
                config@,
                text::opt_view(config_key),
                text::opt_view(app_bundle),
            ).gesture_button,
        ),
{
    let mut stored = effective_for(config, config_key, app_bundle);
    let binding = match stored.remove(ButtonId::GestureButton) {
        Some(binding) => binding,
        None => Binding::Gesture(DirectionMap::new()),
    };
    gesture_mode(binding, true)
}

/// Effective typed gesture modes that the HID++ capture session must divert.
///
/// The dedicated gesture control keeps its canonical directional default. The
/// three buttons that are also visible to the OS hook are listed only when their
/// effective binding is a gesture or Pan, so a single-action overlay removes just
/// that button from diversion.
#[must_use]
pub fn hid_gestures_for(
    config: &Config,
    config_key: Option<&str>,
    app_bundle: Option<&str>,
) -> (modes: ButtonMap<GestureMode>)
    ensures
        forall|button: ButtonId| #[trigger]
            modes.slot(button) == ({
                let slot = effective(
                    config@,
                    text::opt_view(config_key),
                    text::opt_view(app_bundle),
                ).slot(button);
                if button is GestureButton {
                    dedicated_mode(slot)
                } else if button.os_hook_button() {
                    slot_mode(slot)
                } else {
                    None
                }
            }),
{
    let mut stored = effective_for(config, config_key, app_bundle);
    let mut modes: ButtonMap<GestureMode> = ButtonMap::new();
    modes.gesture_button = hid_gesture_for(config, config_key, app_bundle);
    modes.middle_click = take_mode(stored.remove(ButtonId::MiddleClick));
    modes.back = take_mode(stored.remove(ButtonId::Back));
    modes.forward = take_mode(stored.remove(ButtonId::Forward));
    modes
}

/// Gesture modes of the OS-hook buttons (Middle/Back/Forward) of a device, with
/// the application's overlay applied.
///
/// Unlike the dedicated gesture button's entry in [`hid_gestures_for`], each
/// button's stored map is returned as it is: a direction that a hand-edited map
/// leaves unbound falls back to the map's click at run time. The dedicated
/// gesture button never reaches the OS hook and has no entry here.
#[must_use]
pub fn oshook_gestures_for(
    config: &Config,
    config_key: Option<&str>,
    app_bundle: Option<&str>,
) -> (modes: ButtonMap<GestureMode>)
    ensures
        forall|button: ButtonId| #[trigger]
            modes.slot(button) == if button.os_hook_button() {
                slot_mode(
                    effective(
                        config@,
                        text::opt_view(config_key),
                        text::opt_view(app_bundle),
                    ).slot(button),
                )
            } else {
                None
            },
{
    let mut stored = effective_for(config, config_key, app_bundle);
    let mut modes: ButtonMap<GestureMode> = ButtonMap::new();
    modes.middle_click = take_mode(stored.remove(ButtonId::MiddleClick));
    modes.back = take_mode(stored.remove(ButtonId::Back));
    modes.forward = take_mode(stored.remove(ButtonId::Forward));
    modes
}

/// A single action that an overlay gives one button removes that button's
/// gesture and leaves every other button's as it was.
pub proof fn law_single_overlay_drops_only_its_gesture(
    config: ConfigModel,
    key: Seq<char>,
    bundle: Seq<char>,
    button: ButtonId,
    action: Action,
    other: ButtonId,
)
    ensures
        ({
            let after = config.with_device(
                key,
                config.device(key).with_app_slot(bundle, button, Some(Binding::Single(action))),
            );
            &&& slot_mode(effective(after, Some(key), Some(bundle)).slot(button)) is None
            &&& click_projection(effective(after, Some(key), Some(bundle)).slot(button), button)
                == action
            &&& other != button ==> effective(after, Some(key), Some(bundle)).slot(other)
                == effective(config, Some(key), Some(bundle)).slot(other)
        }),
{
    let device = config.device(key);
    let slot = Some(Binding::Single(action));
    crate::config::law_override_read_after_write(device, bundle, button, slot, bundle, other);
    let changed = device.with_app_slot(bundle, button, slot);
    crate::config::law_overlay_takes_precedence(changed, bundle, button);
    crate::config::law_overlay_takes_precedence(changed, bundle, other);
    crate::config::law_overlay_takes_precedence(device, bundle, other);
}

/// Every button always has a single action, and an explicitly disabled button
/// stays disabled.
pub proof fn law_disabled_button_stays_disabled(button: ButtonId)
    ensures
        click_projection(Some(Binding::Single(Action::DoNothing)), button) == Action::DoNothing,
        click_projection(None, button) == default_action(button),
{
}

/// What the published maps say of a button's binding: a plain click runs its click
/// action, or the button's default where it has none; a gesture map makes the button
/// directional and a Pan binding makes it pan, while a single action, or none, leaves
/// it without a gesture. Only the dedicated gesture button has gestures without a
/// binding, and only its map is filled up with the defaults.
pub proof fn law_bindings_are_projected(
    button: ButtonId,
    action: Action,
    map: DirectionMap,
    pan: PanBinding,
    direction: crate::binding::GestureDirection,
)
    ensures
        click_projection(None, button) == default_action(button),
        click_projection(Some(Binding::Single(action)), button) == action,
        click_projection(Some(Binding::Pan(pan)), button) == pan.click,
        map.click is Some ==> click_projection(Some(Binding::Gesture(map)), button) == map.click->0,
        map.click is None ==> click_projection(Some(Binding::Gesture(map)), button)
            == default_action(button),
        slot_mode(None) is None,
        slot_mode(Some(Binding::Single(action))) is None,
        slot_mode(Some(Binding::Gesture(map))) == Some(GestureMode::Directional(map)),
        slot_mode(Some(Binding::Pan(pan))) == Some(GestureMode::Pan(pan)),
        dedicated_mode(Some(Binding::Single(action))) is None,
        dedicated_mode(Some(Binding::Pan(pan))) == Some(GestureMode::Pan(pan)),
        dedicated_mode(None) matches Some(GestureMode::Directional(made)) && made.slot(direction)
            == Some(crate::binding::default_direction_action(direction)),
        dedicated_mode(Some(Binding::Gesture(map))) matches Some(GestureMode::Directional(made))
            && made.slot(direction) == Some(
            if map.slot(direction) is Some {
                map.slot(direction)->0
            } else {
                crate::binding::default_direction_action(direction)
            },
        ),
{
}

/// Which binding of a button is in effect: the overlay's of the application in front
/// where it binds the button, else the device's own; none without a device.
pub proof fn law_application_overlay_comes_first(
    config: ConfigModel,
    key: Seq<char>,
    app: Option<Seq<char>>,
    button: ButtonId,
)
    ensures
        effective(config, None, app).slot(button) is None,
        effective(config, Some(key), None).slot(button) == if config.devices.contains_key(key) {
            config.devices[key].bindings.slot(button)
        } else {
            None
        },
        app matches Some(bundle) ==> ({
            let own = if config.devices.contains_key(key) {
                config.devices[key].bindings.slot(button)
            } else {
                None
            };
            effective(config, Some(key), app).slot(button) == if config.devices.contains_key(key)
                && config.devices[key].per_app_bindings.contains_key(bundle)
                && config.devices[key].per_app_bindings[bundle].slot(button) is Some {
                config.devices[key].per_app_bindings[bundle].slot(button)
            } else {
                own
            }
        }),
{
}

/// Two modes are the same when they are of one kind: direction maps that agree in every
/// direction, or Pans with the same click.
pub proof fn law_same_modes(a: GestureMode, b: GestureMode)
    ensures
        a.same_as(a),
        a.same_as(b) ==> (a is Pan <==> b is Pan),
        a is Pan && b is Pan ==> (a.same_as(b) <==> a->Pan_0.click.same_as(b->Pan_0.click)),
        a is Directional && b is Directional ==> (a.same_as(b) <==> forall|
            d: crate::binding::GestureDirection,
        |
            crate::binding::same_slot(
                #[trigger] a->Directional_0.slot(d),
                b->Directional_0.slot(d),
            )),
{
    if a is Directional && b is Directional {
        let (x, y) = (a->Directional_0, b->Directional_0);
        if forall|d: crate::binding::GestureDirection|
            crate::binding::same_slot(#[trigger] x.slot(d), y.slot(d)) {
            assert(crate::binding::same_slot(
                x.slot(crate::binding::GestureDirection::Up),
                y.slot(crate::binding::GestureDirection::Up),
            ));
            assert(crate::binding::same_slot(
                x.slot(crate::binding::GestureDirection::Down),
                y.slot(crate::binding::GestureDirection::Down),
            ));
            assert(crate::binding::same_slot(
                x.slot(crate::binding::GestureDirection::Left),
                y.slot(crate::binding::GestureDirection::Left),
            ));
            assert(crate::binding::same_slot(
                x.slot(crate::binding::GestureDirection::Right),
                y.slot(crate::binding::GestureDirection::Right),
            ));
            assert(crate::binding::same_slot(
                x.slot(crate::binding::GestureDirection::Click),
                y.slot(crate::binding::GestureDirection::Click),
            ));
        }
    }
}

} // verus!
