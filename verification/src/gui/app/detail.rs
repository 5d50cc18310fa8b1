//! The device screen: header, section bodies, and the cards in them.

use crate::config::ScrollResolution;
use crate::device::{clone_opt_route, clone_opt_text, BatteryInfo, DeviceKind, DeviceRoute};
use crate::gui::app::DetailTab;
use crate::gui::state::{can_invert, AppModel, AppState, DeviceRecord, UiEffect};
use crate::text;
use vstd::prelude::*;

verus! {

/// What the header of the device screen shows.
#[derive(Debug)]
pub struct DetailHeader {
    /// The device's name.
    pub name: String,
    /// Whether it answers; none without a device.
    pub online: Option<bool>,
    /// Whether the sections can be switched: a single section shows no strip.
    pub tab_strip: bool,
}

/// The header of the device screen.
#[must_use]
pub fn detail_header(record: Option<&DeviceRecord>, tabs: &Vec<DetailTab>) -> (header: DetailHeader)
    ensures
        header.name@ == match record {
            Some(record) => record.display_name@,
            None => "Device"@,
        },
        header.online == match record {
            Some(record) => Some(record.online),
            None => None,
        },
        header.tab_strip == (tabs@.len() > 1),
{
    match record {
        Some(record) => DetailHeader {
            name: record.display_name.clone(),
            online: Some(record.online),
            tab_strip: tabs.len() > 1,
        },
        None => DetailHeader {
            name: "Device".to_owned(),
            online: None,
            tab_strip: tabs.len() > 1,
        },
    }
}

/// The selected device does not answer.
pub open spec fn is_offline(state: AppModel) -> bool {
    !(state.record() matches Some(record) && record.online)
}

/// The notice above the section body: changes to a device that does not answer
/// apply when it reconnects.
#[must_use]
pub fn detail_content(state: &AppState) -> (notice: Option<&'static str>)
    ensures
        text::opt_view(notice) == if is_offline(state@) {
            Some("Device offline — changes will apply when it reconnects."@)
        } else {
            None
        },
{
    let online = match state.current_record() {
        Some(record) => record.online,
        None => false,
    };
    if online {
        None
    } else {
        Some("Device offline — changes will apply when it reconnects.")
    }
}

/// The position of a section, or the first.
pub open spec fn is_strip_index(tabs: Seq<DetailTab>, active: DetailTab, index: int) -> bool {
    if tabs.contains(active) {
        &&& 0 <= index < tabs.len()
        &&& tabs[index] == active
        &&& forall|j: int| 0 <= j < index ==> tabs[j] != active
    } else {
        index == 0
    }
}

/// The selected position of the section strip.
#[must_use]
pub fn detail_tabs(tabs: &Vec<DetailTab>, active: DetailTab) -> (index: usize)
    ensures
        is_strip_index(tabs@, active, index as int),
{
    let mut i: usize = 0;
    while i < tabs.len()
        invariant
            i <= tabs@.len(),
            forall|j: int| 0 <= j < i ==> tabs@[j] != active,
        decreases tabs@.len() - i,
    {
        if tabs[i] == active {
            assert(tabs@[i as int] == active);
            return i;
        }
        i += 1;
    }
    0
}

/// The section at a clicked position.
#[must_use]
pub fn tab_clicked(tabs: &Vec<DetailTab>, index: usize) -> (tab: DetailTab)
    ensures
        tab == if index < tabs@.len() {
            tabs@[index as int]
        } else {
            DetailTab::Device
        },
{
    if index < tabs.len() {
        tabs[index]
    } else {
        DetailTab::Device
    }
}

/// What the scrolling card shows.
#[derive(Clone, Copy, Debug)]
pub struct ScrollingCard {
    /// Whether the wheel is inverted.
    pub inverted: bool,
    /// Whether it can be.
    pub inversion_supported: bool,
    /// What inverting does.
    pub inversion_description: &'static str,
    /// The stored wheel resolution.
    pub resolution: Option<ScrollResolution>,
    /// Whether the resolution can be switched.
    pub hires_supported: bool,
    /// What the resolution does.
    pub resolution_description: &'static str,
}

/// What inverting the wheel does.
pub open spec fn inversion_text(native: bool, supported: bool) -> Seq<char> {
    if native {
        "Reverse this mouse's scroll wheel. Your trackpad keeps the system scroll direction."@
    } else if supported {
        "Reverse this mouse's scroll wheel in macOS. Your trackpad keeps the system scroll direction."@
    } else {
        "This device does not report native HID++ scroll inversion support."@
    }
}

/// What the wheel resolution does.
pub open spec fn resolution_text(supported: bool, resolution: Option<ScrollResolution>) -> Seq<
    char,
> {
    if supported {
        match resolution {
            None => "OpenLogi does not change the wheel resolution."@,
            Some(ScrollResolution::Low) => "Scrolls once per physical ratchet step."@,
            Some(ScrollResolution::High) => "Detects finer movement between ratchet steps."@,
        }
    } else {
        "This device does not support wheel resolution control."@
    }
}

/// The selected device inverts its wheel by itself.
pub open spec fn inverts_natively(state: AppModel) -> bool {
    state.record() matches Some(record) && record.capabilities matches Some(capabilities)
        && capabilities.scroll_inversion
}

/// The selected device's wheel can be inverted.
pub open spec fn is_invertible(state: AppModel, macos: bool) -> bool {
    state.record() matches Some(record) && can_invert(
        record.capabilities,
        record.persistent,
        macos,
    )
}

/// The selected device's wheel resolution can be switched.
pub open spec fn has_hires_wheel(state: AppModel) -> bool {
    state.record() matches Some(record) && record.capabilities matches Some(capabilities)
        && capabilities.hires_wheel
}

/// The scrolling card of the selected device.
#[must_use]
pub fn scrolling_card(state: &AppState, macos: bool) -> (card: ScrollingCard)
    ensures
        card.inverted == (state@.stored_key() is Some && state@.stored_device().invert_scroll),
        card.inversion_supported == is_invertible(state@, macos),
        card.inversion_description@ == inversion_text(
            inverts_natively(state@),
            is_invertible(state@, macos),
        ),
        card.resolution == state@.stored_device().scroll_resolution,
        card.hires_supported == has_hires_wheel(state@),
        card.resolution_description@ == resolution_text(
            has_hires_wheel(state@),
            state@.stored_device().scroll_resolution,
        ),
{
    let native = state.current_native_scroll_inversion_supported();
    let inversion_supported = state.current_scroll_inversion_supported(macos);
    let resolution = state.current_scroll_resolution();
    let hires_supported = state.current_hires_wheel_supported();
    let inversion_description = if native {
        "Reverse this mouse's scroll wheel. Your trackpad keeps the system scroll direction."
    } else if inversion_supported {
        "Reverse this mouse's scroll wheel in macOS. Your trackpad keeps the system scroll direction."
    } else {
        "This device does not report native HID++ scroll inversion support."
    };
    let resolution_description = if hires_supported {
        match resolution {
            None => "OpenLogi does not change the wheel resolution.",
            Some(ScrollResolution::Low) => "Scrolls once per physical ratchet step.",
            Some(ScrollResolution::High) => "Detects finer movement between ratchet steps.",
        }
    } else {
        "This device does not support wheel resolution control."
    };
    ScrollingCard {
        inverted: state.current_invert_scroll(),
        inversion_supported,
        inversion_description,
        resolution,
        hires_supported,
        resolution_description,
    }
}

/// One choice of the wheel-resolution control.
#[derive(Clone, Copy, Debug)]
pub struct ResolutionChoice {
    /// What is written on it.
    pub label: &'static str,
    /// What choosing it stores.
    pub value: Option<ScrollResolution>,
    /// Whether it is the stored one.
    pub selected: bool,
}

/// The values of the wheel-resolution control, in order.
pub open spec fn resolution_values() -> Seq<Option<ScrollResolution>> {
    seq![None, Some(ScrollResolution::Low), Some(ScrollResolution::High)]
}

/// The label of a wheel resolution.
pub open spec fn resolution_label(value: Option<ScrollResolution>) -> Seq<char> {
    match value {
        None => "Device default"@,
        Some(ScrollResolution::Low) => "Standard"@,
        Some(ScrollResolution::High) => "High resolution"@,
    }
}

/// The choices of the wheel-resolution control, with the stored one selected.
#[must_use]
pub fn wheel_resolution_control(selected: Option<ScrollResolution>) -> (choices: Vec<
    ResolutionChoice,
>)
    ensures
        choices@.len() == resolution_values().len(),
        forall|i: int|
            0 <= i < choices@.len() ==> {
                &&& (#[trigger] choices@[i]).value == resolution_values()[i]
                &&& choices@[i].label@ == resolution_label(resolution_values()[i])
                &&& choices@[i].selected == (selected == resolution_values()[i])
            },
{
    let mut choices: Vec<ResolutionChoice> = Vec::new();
    choices.push(
        ResolutionChoice { label: "Device default", value: None, selected: selected.is_none() },
    );
    choices.push(
        ResolutionChoice {
            label: "Standard",
            value: Some(ScrollResolution::Low),
            selected: matches!(selected, Some(ScrollResolution::Low)),
        },
    );
    choices.push(
        ResolutionChoice {
            label: "High resolution",
            value: Some(ScrollResolution::High),
            selected: matches!(selected, Some(ScrollResolution::High)),
        },
    );
    choices
}

/// Store the wheel resolution at a clicked position. A click on nothing is ignored.
pub fn wheel_resolution_clicked(state: &mut AppState, index: Option<usize>) -> (effects: Vec<
    UiEffect,
>)
    ensures
        ({
            let chosen = match index {
                Some(i) => if i < resolution_values().len() {
                    Some(resolution_values()[i as int])
                } else {
                    None
                },
                None => None,
            };
            let supported = old(state)@.stored_key() is Some && has_hires_wheel(old(state)@);
            match chosen {
                Some(value) => {
                    &&& effects@ == crate::gui::state::saved_if(supported)
                    &&& final(state)@ == if supported {
                        old(state)@.with_stored_device(
                            crate::config::DeviceModel {
                                scroll_resolution: value,
                                ..old(state)@.stored_device()
                            },
                        )
                    } else {
                        old(state)@
                    }
                },
                None => final(state)@ == old(state)@ && effects@ == Seq::<UiEffect>::empty(),
            }
        }),
{
    match index {
        Some(0) => state.commit_scroll_resolution(None),
        Some(1) => state.commit_scroll_resolution(Some(ScrollResolution::Low)),
        Some(2) => state.commit_scroll_resolution(Some(ScrollResolution::High)),
        _ => Vec::new(),
    }
}

/// The label of the inversion toggle.
#[must_use]
pub fn invert_scroll_toggle(on: bool, enabled: bool) -> (label: &'static str)
    ensures
        label@ == if !enabled {
            "Unavailable"@
        } else if on {
            "On"@
        } else {
            "Off"@
        },
{
    if !enabled {
        "Unavailable"
    } else if on {
        "On"
    } else {
        "Off"
    }
}

/// What the configuration card shows.
#[derive(Debug)]
pub struct ConfigurationCard {
    /// Number of buttons with a single action.
    pub binding_count: usize,
    /// Number of buttons with a gesture or Pan binding.
    pub gesture_count: usize,
    /// Number of resolution presets.
    pub preset_count: usize,
    /// The application whose profile is active, or the default profile.
    pub app_profile: String,
}

/// The configuration card of the selected device.
#[must_use]
pub fn configuration_card(state: &AppState) -> (card: ConfigurationCard)
    ensures
        card.binding_count == state@.button_bindings.count(),
        card.gesture_count == state@.gesture_bindings.count(),
        card.preset_count == state@.stored_device().dpi_presets.len(),
        card.app_profile@ == match state@.app {
            Some(app) => app,
            None => "Default profile"@,
        },
{
    ConfigurationCard {
        binding_count: state.button_bindings.len(),
        gesture_count: state.gesture_bindings.len(),
        preset_count: state.dpi_presets().len(),
        app_profile: match &state.current_app_bundle {
            Some(app) => app.clone(),
            None => "Default profile".to_owned(),
        },
    }
}

/// What the details card shows of a device.
#[derive(Debug)]
pub struct DeviceDetails {
    /// Its name.
    pub name: String,
    /// What sort of device it is.
    pub kind: DeviceKind,
    /// Whether it answers.
    pub online: bool,
    /// Its battery reading.
    pub battery: Option<BatteryInfo>,
    /// How it is reached.
    pub connection: Option<DeviceRoute>,
    /// Its pairing slot, in words.
    pub slot: String,
    /// Its key.
    pub device_key: String,
    /// Its serial number.
    pub serial: Option<String>,
}

/// The details card of the selected device; none without one.
#[must_use]
pub fn device_details_card(state: &AppState) -> (details: Option<DeviceDetails>)
    ensures
        match (state@.record(), details) {
            (None, None) => true,
            (Some(record), Some(details)) => {
                &&& details.name == record.display_name
                &&& details.kind == record.kind
                &&& details.online == record.online
                &&& details.battery == record.battery
                &&& details.connection == record.route
                &&& details.slot@ == text::decimal(record.slot as nat)
                &&& details.device_key == record.config_key
                &&& details.serial == record.serial_number
            },
            _ => false,
        },
{
    match state.current_record() {
        None => None,
        Some(record) => {
            let mut slot = String::new();
            text::push_decimal(&mut slot, record.slot as u64);
            assert(slot@ =~= text::decimal(record.slot as nat));
            Some(
                DeviceDetails {
                    name: record.display_name.clone(),
                    kind: record.kind,
                    online: record.online,
                    battery: record.battery,
                    connection: clone_opt_route(&record.route),
                    slot,
                    device_key: record.config_key.clone(),
                    serial: clone_opt_text(&record.serial_number),
                },
            )
        },
    }
}

/// A click on the section strip selects what the strip then shows as selected.
pub proof fn law_clicked_tab_becomes_active(tabs: Seq<DetailTab>, index: int, shown: int)
    requires
        0 <= index < tabs.len(),
        tabs.no_duplicates(),
        is_strip_index(tabs, tabs[index], shown),
    ensures
        shown == index,
{
    assert(tabs.contains(tabs[index]));
}

/// What is said of scroll inversion.
pub proof fn law_inversion_is_explained(native: bool, supported: bool)
    ensures
        native ==> inversion_text(native, supported)
            == "Reverse this mouse's scroll wheel. Your trackpad keeps the system scroll direction."@,
        !native && supported ==> inversion_text(native, supported)
            == "Reverse this mouse's scroll wheel in macOS. Your trackpad keeps the system scroll direction."@,
        !native && !supported ==> inversion_text(native, supported)
            == "This device does not report native HID++ scroll inversion support."@,
{
}

/// What is said of the wheel's resolution, and what its choices are called.
pub proof fn law_resolution_is_explained(resolution: Option<ScrollResolution>)
    ensures
        resolution_text(false, resolution)
            == "This device does not support wheel resolution control."@,
        resolution is None ==> resolution_text(true, resolution)
            == "OpenLogi does not change the wheel resolution."@,
        resolution == Some(ScrollResolution::Low) ==> resolution_text(true, resolution)
            == "Scrolls once per physical ratchet step."@,
        resolution == Some(ScrollResolution::High) ==> resolution_text(true, resolution)
            == "Detects finer movement between ratchet steps."@,
        resolution is None ==> resolution_label(resolution) == "Device default"@,
        resolution == Some(ScrollResolution::Low) ==> resolution_label(resolution) == "Standard"@,
        resolution == Some(ScrollResolution::High) ==> resolution_label(resolution)
            == "High resolution"@,
        resolution_values().len() == 3,
        resolution_values()[0] is None,
        resolution_values()[1] == Some(ScrollResolution::Low),
        resolution_values()[2] == Some(ScrollResolution::High),
{
}

/// What a device's own report decides: inverting natively, a wheel of high resolution,
/// and being offline where it is not there or not online.
pub proof fn law_report_decides(state: AppModel, record: DeviceRecord, macos: bool)
    ensures
        state.record() is None ==> is_offline(state) && !inverts_natively(state)
            && !has_hires_wheel(state) && !is_invertible(state, macos),
        state.record() == Some(record) ==> {
            &&& is_offline(state) <==> !record.online
            &&& inverts_natively(state) <==> record.capabilities is Some
                && record.capabilities->0.scroll_inversion
            &&& has_hires_wheel(state) <==> record.capabilities is Some
                && record.capabilities->0.hires_wheel
            &&& is_invertible(state, macos) <==> record.persistent && record.capabilities is Some
                && (record.capabilities->0.scroll_inversion || macos
                && record.capabilities->0.pointer)
        },
{
}

/// The strip marks the active tab where it first stands, and the first tab where it does
/// not stand at all.
pub proof fn law_strip_marks_the_active_tab(tabs: Seq<DetailTab>, active: DetailTab, index: int)
    requires
        is_strip_index(tabs, active, index),
    ensures
        tabs.contains(active) ==> 0 <= index < tabs.len() && tabs[index] == active,
        !tabs.contains(active) ==> index == 0,
        forall|j: int| 0 <= j < index ==> tabs[j] != active,
{
}

} // verus!
