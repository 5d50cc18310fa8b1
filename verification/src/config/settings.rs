//! Preferences and per-device setting values.

use crate::color::Rgb;
use crate::device;
use vstd::prelude::*;

verus! {

/// Slowest thumb-wheel sensitivity.
pub const MIN_THUMBWHEEL_SENSITIVITY: i32 = 1;

/// Fastest thumb-wheel sensitivity.
pub const MAX_THUMBWHEEL_SENSITIVITY: i32 = 100;

/// Sensitivity at which the thumb wheel scrolls at its native speed.
pub const DEFAULT_THUMBWHEEL_SENSITIVITY: i32 = 50;

/// Light or dark rendering.
#[derive(Clone, Copy, Debug, PartialEq, Eq, Structural)]
pub enum Appearance {
    /// Follow the system.
    System,
    /// Always light.
    Light,
    /// Always dark.
    Dark,
}

/// Where device artwork comes from.
#[derive(Clone, Copy, Debug, PartialEq, Eq, Structural)]
pub enum AssetSourcePreference {
    /// Pick a source automatically.
    Automatic,
    /// Only the OpenLogi asset server.
    OpenLogi,
}

/// Preferences that are not tied to a device.
#[derive(Debug)]
pub struct AppSettings {
    /// Start with the session.
    pub launch_at_login: bool,
    /// Show the menu-bar icon.
    pub show_in_menu_bar: bool,
    /// Look for updates at launch.
    pub check_for_updates: bool,
    /// Install found updates without asking.
    pub auto_install_updates: bool,
    /// The update prompt has been answered.
    pub update_prompt_seen: bool,
    /// Install the OS mouse hook.
    pub capture_mouse_events: bool,
    /// Light or dark rendering.
    pub appearance: Appearance,
    /// Theme for light mode; `None` is the brand theme.
    pub theme_light: Option<String>,
    /// Theme for dark mode; `None` is the brand theme.
    pub theme_dark: Option<String>,
    /// Corner-radius override; `None` is the theme's own radius.
    pub ui_radius: Option<u8>,
    /// Thumb-wheel sensitivity.
    pub thumbwheel_sensitivity: i32,
    /// Download device artwork automatically.
    pub auto_download_assets: bool,
    /// Where device artwork comes from.
    pub asset_source: AssetSourcePreference,
    /// UI language; `None` follows the system.
    pub language: Option<String>,
}

impl AppSettings {
    /// The settings of a fresh installation.
    pub open spec fn fresh() -> AppSettings {
        AppSettings {
            launch_at_login: false,
            show_in_menu_bar: true,
            check_for_updates: false,
            auto_install_updates: false,
            update_prompt_seen: false,
            capture_mouse_events: true,
            appearance: Appearance::System,
            theme_light: None,
            theme_dark: None,
            ui_radius: None,
            thumbwheel_sensitivity: DEFAULT_THUMBWHEEL_SENSITIVITY,
            auto_download_assets: true,
            asset_source: AssetSourcePreference::Automatic,
            language: None,
        }
    }
}

impl AppSettings {
    /// Whether nothing was changed from the defaults, so that nothing has to be
    /// stored.
    #[must_use]
    pub fn is_default(&self) -> (default: bool)
        ensures
            default == (*self == AppSettings::fresh()),
    {
        !self.launch_at_login && self.show_in_menu_bar && !self.check_for_updates
            && !self.auto_install_updates && !self.update_prompt_seen
            && self.capture_mouse_events && matches!(self.appearance, Appearance::System)
            && self.theme_light.is_none() && self.theme_dark.is_none()
            && self.ui_radius.is_none() && self.thumbwheel_sensitivity
            == DEFAULT_THUMBWHEEL_SENSITIVITY && self.auto_download_assets && matches!(
            self.asset_source,
            AssetSourcePreference::Automatic
        ) && self.language.is_none()
    }
}

impl Default for AppSettings {
    fn default() -> (settings: Self)
        ensures
            settings == AppSettings::fresh(),
    {
        AppSettings {
            launch_at_login: false,
            show_in_menu_bar: true,
            check_for_updates: false,
            auto_install_updates: false,
            update_prompt_seen: false,
            capture_mouse_events: true,
            appearance: Appearance::System,
            theme_light: None,
            theme_dark: None,
            ui_radius: None,
            thumbwheel_sensitivity: DEFAULT_THUMBWHEEL_SENSITIVITY,
            auto_download_assets: true,
            asset_source: AssetSourcePreference::Automatic,
            language: None,
        }
    }
}

impl Clone for AppSettings {
    fn clone(&self) -> (copy: Self)
        ensures
            copy == *self,
    {
        AppSettings {
            launch_at_login: self.launch_at_login,
            show_in_menu_bar: self.show_in_menu_bar,
            check_for_updates: self.check_for_updates,
            auto_install_updates: self.auto_install_updates,
            update_prompt_seen: self.update_prompt_seen,
            capture_mouse_events: self.capture_mouse_events,
            appearance: self.appearance,
            theme_light: device::clone_opt_text(&self.theme_light),
            theme_dark: device::clone_opt_text(&self.theme_dark),
            ui_radius: self.ui_radius,
            thumbwheel_sensitivity: self.thumbwheel_sensitivity,
            auto_download_assets: self.auto_download_assets,
            asset_source: self.asset_source,
            language: device::clone_opt_text(&self.language),
        }
    }
}

/// RGB lighting of a device.
#[derive(Clone, Copy, Debug, PartialEq, Eq, Structural)]
pub struct Lighting {
    /// Whether the lights are on.
    pub enabled: bool,
    /// Their colour.
    pub color: Rgb,
    /// Their brightness in percent.
    pub brightness: u8,
}

impl Lighting {
    /// White at full brightness.
    pub open spec fn fresh() -> Lighting {
        Lighting { enabled: true, color: Rgb { r: 255, g: 255, b: 255 }, brightness: 100 }
    }
}

impl Default for Lighting {
    fn default() -> (lighting: Self)
        ensures
            lighting == Lighting::fresh(),
    {
        Lighting { enabled: true, color: Rgb { r: 255, g: 255, b: 255 }, brightness: 100 }
    }
}

/// Wheel mode of a SmartShift wheel.
#[derive(Clone, Copy, Debug, PartialEq, Eq, Structural)]
pub enum WheelMode {
    /// Spins freely.
    Free,
    /// Clicks through detents.
    Ratchet,
}

/// SmartShift wheel configuration.
#[derive(Clone, Copy, Debug, PartialEq, Eq, Structural)]
pub struct SmartShift {
    /// The wheel mode.
    pub mode: WheelMode,
    /// Speed at which a ratcheted wheel releases.
    pub auto_disengage: u8,
    /// Torque of the ratchet.
    pub tunable_torque: u8,
}

/// Resolution of the scroll wheel.
#[derive(Clone, Copy, Debug, PartialEq, Eq, Structural)]
pub enum ScrollResolution {
    /// One report per ratchet step.
    Low,
    /// Finer reports between ratchet steps.
    High,
}

/// What the settings start with.
pub proof fn law_settings_start_plain()
    ensures
        !AppSettings::fresh().launch_at_login,
        AppSettings::fresh().show_in_menu_bar,
        !AppSettings::fresh().check_for_updates,
        !AppSettings::fresh().auto_install_updates,
        !AppSettings::fresh().update_prompt_seen,
        AppSettings::fresh().capture_mouse_events,
        AppSettings::fresh().appearance is System,
        AppSettings::fresh().theme_light is None,
        AppSettings::fresh().theme_dark is None,
        AppSettings::fresh().ui_radius is None,
        AppSettings::fresh().thumbwheel_sensitivity == 50,
        AppSettings::fresh().auto_download_assets,
        AppSettings::fresh().asset_source is Automatic,
        AppSettings::fresh().language is None,
        MIN_THUMBWHEEL_SENSITIVITY == 1,
        MAX_THUMBWHEEL_SENSITIVITY == 100,
{
}

/// Lighting starts switched on, in white and at full brightness.
pub proof fn law_lighting_starts_white()
    ensures
        Lighting::fresh().enabled,
        Lighting::fresh().color.r == 255,
        Lighting::fresh().color.g == 255,
        Lighting::fresh().color.b == 255,
        Lighting::fresh().brightness == 100,
{
}

} // verus!
