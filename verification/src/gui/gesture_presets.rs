//! Gesture-preset selection and whole-binding configuration mutations.

use crate::binding::{
    default_pan_binding, window_navigation, window_navigation_binding, Action, Binding, ButtonId,
    DirectionMap, GestureDirection, PanBinding,
};
use crate::config::{Config, ConfigModel, DeviceModel};
use vstd::prelude::*;

verus! {

/// Preset shown by the gesture binding editor.
#[derive(Clone, Copy, Debug, PartialEq, Eq, Structural)]
pub enum GesturePreset {
    /// The exact five-direction macOS window-management map.
    WindowNavigation,
    /// Continuous two-axis scrolling with an editable click fallback.
    Pan,
    /// Any user-edited directional map that no longer matches a preset.
    Custom,
}

/// Display/editor class of one button's complete binding.
#[derive(Clone, Copy, Debug, PartialEq, Eq, Structural)]
pub enum CompleteBindingClass {
    /// One ordinary press action.
    Single,
    /// The exact canonical Window Navigation direction map.
    WindowNavigation,
    /// Continuous two-axis Pan with an editable click fallback.
    Pan,
    /// A directional map that does not exactly match Window Navigation.
    Custom,
}

/// Presets a platform may create.
pub open spec fn offered_presets(is_macos: bool) -> Seq<GesturePreset> {
    if is_macos {
        seq![GesturePreset::WindowNavigation, GesturePreset::Pan, GesturePreset::Custom]
    } else {
        seq![GesturePreset::WindowNavigation, GesturePreset::Custom]
    }
}

/// Presets a platform may create. Existing Pan configurations remain classifiable
/// on every platform, but only macOS offers Pan as a selectable mode.
#[must_use]
pub fn available_gesture_presets(is_macos: bool) -> (presets: Vec<GesturePreset>)
    ensures
        presets@ == offered_presets(is_macos),
{
    if is_macos {
        vec![GesturePreset::WindowNavigation, GesturePreset::Pan, GesturePreset::Custom]
    } else {
        vec![GesturePreset::WindowNavigation, GesturePreset::Custom]
    }
}

/// The preset that a binding is.
pub open spec fn preset_of(binding: Binding) -> GesturePreset {
    if binding.same_as(Binding::Gesture(window_navigation())) {
        GesturePreset::WindowNavigation
    } else if binding is Pan {
        GesturePreset::Pan
    } else {
        GesturePreset::Custom
    }
}

/// The class of a binding.
pub open spec fn class_of(binding: Binding) -> CompleteBindingClass {
    match binding {
        Binding::Single(_) => CompleteBindingClass::Single,
        Binding::Pan(_) => CompleteBindingClass::Pan,
        Binding::Gesture(map) => if map.same_as(window_navigation()) {
            CompleteBindingClass::WindowNavigation
        } else {
            CompleteBindingClass::Custom
        },
    }
}

/// Recognize the two exact presets; every other binding is custom.
#[must_use]
pub fn classify_gesture_preset(binding: &Binding) -> (preset: GesturePreset)
    ensures
        preset == preset_of(*binding),
{
    if *binding == window_navigation_binding() {
        GesturePreset::WindowNavigation
    } else if binding.is_pan() {
        GesturePreset::Pan
    } else {
        GesturePreset::Custom
    }
}

/// Classify one card from its own complete binding.
#[must_use]
pub fn classify_complete_binding(binding: &Binding) -> (class: CompleteBindingClass)
    ensures
        class == class_of(*binding),
{
    match binding {
        Binding::Single(_) => CompleteBindingClass::Single,
        Binding::Pan(_) => CompleteBindingClass::Pan,
        Binding::Gesture(_) => if *binding == window_navigation_binding() {
            CompleteBindingClass::WindowNavigation
        } else {
            CompleteBindingClass::Custom
        },
    }
}

/// The binding with its Pan click replaced; other shapes stay.
pub open spec fn with_pan_click(binding: Binding, click: Action) -> Binding {
    match binding {
        Binding::Pan(_) => Binding::Pan(PanBinding { click }),
        other => other,
    }
}

/// Replace only a Pan binding's click fallback, preserving its typed mode.
#[must_use]
pub fn pan_binding_with_click(binding: &Binding, click: Action) -> (edited: Binding)
    ensures
        edited == with_pan_click(*binding, click),
{
    match binding {
        Binding::Pan(_) => Binding::Pan(PanBinding { click }),
        other => other.clone(),
    }
}

/// The configuration with a binding stored in a scope.
pub open spec fn scoped(
    config: ConfigModel,
    key: Seq<char>,
    app: Option<Seq<char>>,
    button: ButtonId,
    binding: Binding,
) -> ConfigModel {
    let device = config.device(key);
    config.with_device(
        key,
        match app {
            Some(bundle) => device.with_app_slot(bundle, button, Some(binding)),
            None => DeviceModel { bindings: device.bindings.with(button, binding), ..device },
        },
    )
}

/// Store one complete binding in the selected scope: the application's overlay,
/// or the device's own bindings. One mutation, so that no partial direction map is
/// ever exposed.
pub fn apply_binding_to_scope(
    config: &mut Config,
    device_key: &str,
    app_bundle: Option<&str>,
    button: ButtonId,
    binding: Binding,
)
    ensures
        final(config)@ == scoped(
            old(config)@,
            device_key@,
            crate::text::opt_view(app_bundle),
            button,
            binding,
        ),
{
    match app_bundle {
        Some(bundle) => config.set_per_app_binding(device_key, bundle, button, Some(binding)),
        None => config.set_binding(device_key, button, binding),
    }
}

/// The canonical whole binding of a preset.
pub open spec fn preset_binding(preset: GesturePreset) -> Binding {
    match preset {
        GesturePreset::WindowNavigation => Binding::Gesture(window_navigation()),
        GesturePreset::Pan => Binding::Pan(PanBinding { click: Action::SmartZoom }),
        GesturePreset::Custom => Binding::Gesture(DirectionMap::empty().with_defaults()),
    }
}

/// The direction map that a custom gesture starts from.
fn custom_gesture_map() -> (map: DirectionMap)
    ensures
        map == DirectionMap::empty().with_defaults(),
{
    let mut map = DirectionMap::new();
    map.fill_defaults();
    map
}

/// Resolve a selector choice to the canonical whole binding it installs.
#[must_use]
pub fn binding_for_gesture_preset(preset: GesturePreset) -> (binding: Binding)
    ensures
        binding == preset_binding(preset),
{
    match preset {
        GesturePreset::WindowNavigation => window_navigation_binding(),
        GesturePreset::Pan => default_pan_binding(),
        GesturePreset::Custom => Binding::Gesture(custom_gesture_map()),
    }
}

/// What a preset selection installs: nothing when it is the active one.
pub open spec fn selection(current: Binding, selected: GesturePreset) -> Option<Binding> {
    if current is Single || preset_of(current) != selected {
        Some(preset_binding(selected))
    } else {
        None
    }
}

/// The one complete binding needed for a newly selected preset. Reselecting the
/// active preset is a no-op, so customized values within that mode are not
/// replaced by its defaults.
#[must_use]
pub fn binding_for_gesture_selection(current: &Binding, selected: GesturePreset) -> (binding: Option<
    Binding,
>)
    ensures
        binding == selection(*current, selected),
{
    if matches!(current, Binding::Single(_)) || classify_gesture_preset(current) != selected {
        Some(binding_for_gesture_preset(selected))
    } else {
        None
    }
}

/// The directional binding with one edited direction; other shapes start from the
/// default map.
pub open spec fn with_direction(
    binding: Binding,
    direction: GestureDirection,
    action: Action,
) -> Binding {
    let map = match binding {
        Binding::Gesture(map) => map,
        _ => DirectionMap::empty().with_defaults(),
    };
    Binding::Gesture(map.with(direction, action))
}

/// A complete directional binding with one edited direction.
#[must_use]
pub fn gesture_binding_with_direction(
    binding: &Binding,
    direction: GestureDirection,
    action: Action,
) -> (edited: Binding)
    ensures
        edited == with_direction(*binding, direction, action),
{
    let mut map = match binding {
        Binding::Gesture(map) => map.clone(),
        Binding::Single(_) | Binding::Pan(_) => custom_gesture_map(),
    };
    map.insert(direction, action);
    Binding::Gesture(map)
}

/// What editing a direction installs: nothing when the binding has left gesture
/// mode or the direction has that action already.
pub open spec fn direction_edit(
    current: Binding,
    direction: GestureDirection,
    action: Action,
) -> Option<Binding> {
    match current {
        Binding::Gesture(map) => if map.slot(direction) matches Some(bound) && bound.same_as(action) {
            None
        } else {
            Some(with_direction(current, direction, action))
        },
        _ => None,
    }
}

/// The complete binding needed for an edited direction. A delayed edit after the
/// binding has left gesture mode is ignored, as is one that changes nothing.
#[must_use]
pub fn binding_for_gesture_direction_selection(
    current: &Binding,
    direction: GestureDirection,
    action: Action,
) -> (binding: Option<Binding>)
    ensures
        binding == direction_edit(*current, direction, action),
{
    match current {
        Binding::Gesture(map) => {
            let selected = match map.get(direction) {
                Some(bound) => *bound == action,
                None => false,
            };
            if selected {
                None
            } else {
                Some(gesture_binding_with_direction(current, direction, action))
            }
        },
        _ => None,
    }
}

/// The complete binding needed for an edited Pan click. A delayed edit after the
/// binding has left Pan is ignored.
#[must_use]
pub fn binding_for_pan_click_selection(current: &Binding, click: Action) -> (binding: Option<
    Binding,
>)
    ensures
        binding == if current is Pan {
            Some(with_pan_click(*current, click))
        } else {
            None
        },
{
    if current.is_pan() {
        Some(pan_binding_with_click(current, click))
    } else {
        None
    }
}

/// Selecting a preset makes it the active one, and selecting it again changes
/// nothing.
pub proof fn law_reselecting_is_a_no_op(preset: GesturePreset)
    ensures
        preset_of(preset_binding(preset)) == preset,
        selection(preset_binding(preset), preset) is None,
{
}

/// Selecting a preset never stays in single-action mode, and reselecting the
/// active preset of a gesture or Pan binding keeps everything customized in it.
pub proof fn law_selection_preserves_customization(current: Binding, selected: GesturePreset)
    ensures
        selection(current, selected) matches Some(binding) ==> !(binding is Single),
        !(current is Single) && preset_of(current) == selected ==> selection(current, selected)
            is None,
        current is Single ==> selection(current, selected) is Some,
{
}

/// Editing one direction of a gesture keeps the other directions.
pub proof fn law_direction_edit_preserves_other_arms(
    binding: Binding,
    edited: GestureDirection,
    other: GestureDirection,
    action: Action,
)
    requires
        binding is Gesture,
        other != edited,
    ensures
        with_direction(binding, edited, action).direction(edited) == Some(action),
        with_direction(binding, edited, action).direction(other) == binding.direction(other),
{
}

/// Editing a Pan click keeps the binding in Pan mode with just that click.
pub proof fn law_pan_click_edit_preserves_mode(binding: Binding, click: Action)
    requires
        binding is Pan,
    ensures
        with_pan_click(binding, click) is Pan,
        with_pan_click(binding, click).click() == click,
{
}

/// Replacing one button's binding in a scope leaves every other button of the
/// device as it was, in that scope and in the others.
pub proof fn law_scoped_replacement_is_local(
    config: ConfigModel,
    key: Seq<char>,
    app: Option<Seq<char>>,
    button: ButtonId,
    binding: Binding,
    other: ButtonId,
    viewed: Option<Seq<char>>,
)
    requires
        other != button,
    ensures
        scoped(config, key, app, button, binding).device(key).effective(viewed).slot(other)
            == config.device(key).effective(viewed).slot(other),
        app is None ==> scoped(config, key, app, button, binding).device(key).bindings.slot(button)
            == Some(binding),
        app matches Some(bundle) ==> scoped(config, key, app, button, binding).device(
            key,
        ).effective(app).slot(button) == Some(binding),
{
    let device = config.device(key);
    let after = scoped(config, key, app, button, binding).device(key);
    if let Some(bundle) = app {
        crate::config::law_override_read_after_write(
            device,
            bundle,
            button,
            Some(binding),
            bundle,
            other,
        );
        crate::config::law_overlay_takes_precedence(after, bundle, button);
        if let Some(seen) = viewed {
            crate::config::law_override_read_after_write(
                device,
                bundle,
                button,
                Some(binding),
                seen,
                other,
            );
        }
    }
    if let Some(seen) = viewed {
        crate::config::law_overlay_takes_precedence(after, seen, other);
        crate::config::law_overlay_takes_precedence(device, seen, other);
    }
}

/// Which presets are offered, in their order; Pan on macOS alone.
pub proof fn law_presets_are_offered(is_macos: bool)
    ensures
        is_macos ==> offered_presets(is_macos).len() == 3,
        !is_macos ==> offered_presets(is_macos).len() == 2,
        offered_presets(is_macos)[0] is WindowNavigation,
        is_macos ==> offered_presets(is_macos)[1] is Pan && offered_presets(is_macos)[2] is Custom,
        !is_macos ==> offered_presets(is_macos)[1] is Custom,
{
}

/// What a binding counts as: a Pan as Pan, the four window moves as window navigation,
/// and any other gesture and any single action as custom.
pub proof fn law_bindings_are_classified(binding: Binding, map: DirectionMap)
    ensures
        binding is Pan <==> preset_of(binding) is Pan,
        binding is Single ==> preset_of(binding) is Custom,
        binding == Binding::Gesture(map) ==> (preset_of(binding) is WindowNavigation
            <==> map.same_as(window_navigation())),
        binding is Single <==> class_of(binding) is Single,
        binding is Pan <==> class_of(binding) is Pan,
        binding == Binding::Gesture(map) ==> (class_of(binding) is WindowNavigation
            <==> map.same_as(window_navigation())),
        binding == Binding::Gesture(map) ==> (class_of(binding) is Custom <==> !map.same_as(
            window_navigation(),
        )),
{
}

/// What a preset binds.
pub proof fn law_presets_bind(direction: GestureDirection)
    ensures
        preset_binding(GesturePreset::WindowNavigation) == Binding::Gesture(window_navigation()),
        preset_binding(GesturePreset::Pan) matches Binding::Pan(pan) && pan.click
            == Action::SmartZoom,
        preset_binding(GesturePreset::Custom) matches Binding::Gesture(map) && map.slot(direction)
            == Some(crate::binding::default_direction_action(direction)),
{
}

/// Choosing a preset replaces a single action and a binding of another preset by what the
/// preset binds, and leaves one that counts as the preset already as it is.
pub proof fn law_chosen_preset_is_bound(current: Binding, selected: GesturePreset)
    ensures
        current is Single ==> selection(current, selected) == Some(preset_binding(selected)),
        !(current is Single) && preset_of(current) == selected ==> selection(current, selected)
            is None,
        !(current is Single) && preset_of(current) != selected ==> selection(current, selected)
            == Some(preset_binding(selected)),
{
}

/// Editing a direction sets it and keeps the others; a binding without directions starts
/// from the defaults. The edit is made only of a gesture, and only where it changes it.
pub proof fn law_direction_is_edited(
    binding: Binding,
    map: DirectionMap,
    direction: GestureDirection,
    other: GestureDirection,
    action: Action,
)
    ensures
        with_direction(binding, direction, action) matches Binding::Gesture(edited) && {
            &&& edited.slot(direction) == Some(action)
            &&& other != direction && binding == Binding::Gesture(map) ==> edited.slot(other)
                == map.slot(other)
            &&& other != direction && !(binding is Gesture) ==> edited.slot(other) == Some(
                crate::binding::default_direction_action(other),
            )
        },
        !(binding is Gesture) ==> direction_edit(binding, direction, action) is None,
        binding == Binding::Gesture(map) && (map.slot(direction) is None
            || !map.slot(direction)->0.same_as(action)) ==> direction_edit(
            binding,
            direction,
            action,
        ) == Some(with_direction(binding, direction, action)),
        binding == Binding::Gesture(map) && map.slot(direction) is Some && map.slot(
            direction,
        )->0.same_as(action) ==> direction_edit(binding, direction, action) is None,
        binding is Pan ==> with_pan_click(binding, action) == Binding::Pan(
            PanBinding { click: action },
        ),
        !(binding is Pan) ==> with_pan_click(binding, action) == binding,
{
}

/// Where a binding is put: in an application into that application's overlay, and
/// otherwise into the device's own bindings; no other device changes.
pub proof fn law_binding_is_put_in_its_scope(
    config: ConfigModel,
    key: Seq<char>,
    bundle: Seq<char>,
    button: ButtonId,
    binding: Binding,
    other: Seq<char>,
)
    ensures
        ({
            let after = scoped(config, key, None, button, binding);
            &&& after.device(key).bindings.slot(button) == Some(binding)
            &&& after.device(key).per_app_bindings == config.device(key).per_app_bindings
            &&& other != key ==> after.device(other) == config.device(other)
            &&& after.app_settings == config.app_settings
            &&& after.selected_device == config.selected_device
        }),
        ({
            let after = scoped(config, key, Some(bundle), button, binding);
            &&& after.device(key).bindings == config.device(key).bindings
            &&& after.device(key).per_app_bindings.contains_key(bundle)
            &&& after.device(key).per_app_bindings[bundle].slot(button) == Some(binding)
            &&& other != key ==> after.device(other) == config.device(other)
            &&& after.app_settings == config.app_settings
            &&& after.selected_device == config.selected_device
        }),
{
    crate::config::device::law_app_slot_changes_only_its_overlay(
        config.device(key),
        bundle,
        button,
        Some(binding),
        bundle,
    );
    crate::config::law_device_read_after_write(
        config,
        key,
        other,
        config.device(key).with_app_slot(bundle, button, Some(binding)),
    );
    crate::button_map::law_bound_until_removed(config.device(key).bindings, button, binding);
}

} // verus!
