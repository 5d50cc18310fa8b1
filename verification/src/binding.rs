//! Logical mouse button identifiers and the action vocabulary each one can
//! bind to.
//!
//! When [`Action`] gains new variants, keep the existing variant names stable:
//! the configuration file uses the variant identifiers verbatim, so renames are
//! migration events.

use crate::text;
use vstd::prelude::*;

pub mod pan;
pub mod swipe;

pub use pan::{PanAccumulator, PanOutput, PAN_DEADZONE};
pub use swipe::{
    detect_swipe, SwipeAccumulator, GESTURE_HOLD_FOR_SWIPE, GESTURE_SWIPE_DEADZONE,
    GESTURE_SWIPE_THRESHOLD,
};

verus! {

/// One of the user-rebindable hotspots on a Logi mouse, in physical order from
/// front to side.
#[derive(Clone, Copy, Debug, PartialEq, Eq, Hash, PartialOrd, Ord, Structural)]
pub enum ButtonId {
    /// The primary button. Rebindable in the config schema, but the OS hook
    /// never suppresses it — see [`ButtonId::is_os_hook_button`].
    LeftClick,
    /// The secondary button. Like [`ButtonId::LeftClick`], it always passes
    /// through the OS hook.
    RightClick,
    /// The wheel click — one of the three buttons the OS hook remaps.
    MiddleClick,
    /// The thumb-side "back" button (mouse button 4), remapped by the OS hook.
    Back,
    /// The thumb-side "forward" button (mouse button 5), remapped by the OS hook.
    Forward,
    /// The "ModeShift" button under the wheel — typically used for SmartShift /
    /// DPI cycle. Named `DpiToggle` for historical reasons.
    DpiToggle,
    /// The horizontal thumb wheel's click. Kept in [`ButtonId::ALL`] so its
    /// default still seeds and dispatches when the wheel is diverted, even
    /// though the mouse model surfaces the two rotation directions instead of
    /// the click.
    Thumbwheel,
    /// Rotating the thumb wheel "up" (positive rotation). Bound, by default, to
    /// continuous horizontal scroll; see `watchers::gesture`.
    ThumbwheelScrollUp,
    /// Rotating the thumb wheel "down" (negative rotation).
    ThumbwheelScrollDown,
    /// The dedicated HID++ gesture button on MX-line devices.
    GestureButton,
}

impl ButtonId {
    /// Every rebindable button in declaration (physical front-to-side) order.
    pub const ALL: [ButtonId; 10] = [
        ButtonId::LeftClick,
        ButtonId::RightClick,
        ButtonId::MiddleClick,
        ButtonId::Back,
        ButtonId::Forward,
        ButtonId::DpiToggle,
        ButtonId::Thumbwheel,
        ButtonId::ThumbwheelScrollUp,
        ButtonId::ThumbwheelScrollDown,
        ButtonId::GestureButton,
    ];

    /// The middle, back and forward buttons are the ones the OS hook remaps.
    pub open spec fn os_hook_button(self) -> bool {
        self is MiddleClick || self is Back || self is Forward
    }

    /// Position of the button in [`ButtonId::ALL`].
    pub open spec fn rank(self) -> nat {
        match self {
            ButtonId::LeftClick => 0,
            ButtonId::RightClick => 1,
            ButtonId::MiddleClick => 2,
            ButtonId::Back => 3,
            ButtonId::Forward => 4,
            ButtonId::DpiToggle => 5,
            ButtonId::Thumbwheel => 6,
            ButtonId::ThumbwheelScrollUp => 7,
            ButtonId::ThumbwheelScrollDown => 8,
            ButtonId::GestureButton => 9,
        }
    }

    /// The text of the button's label.
    pub open spec fn label_text(self) -> Seq<char> {
        match self {
            ButtonId::LeftClick => "Left Click"@,
            ButtonId::RightClick => "Right Click"@,
            ButtonId::MiddleClick => "Middle Click"@,
            ButtonId::Back => "Back"@,
            ButtonId::Forward => "Forward"@,
            ButtonId::DpiToggle => "DPI Toggle"@,
            ButtonId::Thumbwheel => "Thumb Wheel"@,
            ButtonId::ThumbwheelScrollUp => "Thumb Wheel Up"@,
            ButtonId::ThumbwheelScrollDown => "Thumb Wheel Down"@,
            ButtonId::GestureButton => "Gesture Button"@,
        }
    }

    /// Whether this button is one the OS hook remaps: Middle, Back, or Forward.
    /// The primary clicks always pass through (suppressing them would brick the
    /// mouse), and the DPI, thumb and dedicated gesture controls are not visible
    /// to the OS hook at all. These are exactly the buttons that can become an
    /// OS-hook gesture button.
    #[must_use]
    pub fn is_os_hook_button(self) -> (remapped: bool)
        ensures
            remapped == self.os_hook_button(),
    {
        matches!(self, ButtonId::MiddleClick | ButtonId::Back | ButtonId::Forward)
    }

    /// Human-readable label for popovers and tooltips.
    #[must_use]
    pub fn label(self) -> (label: &'static str)
        ensures
            label@ == self.label_text(),
    {
        match self {
            ButtonId::LeftClick => "Left Click",
            ButtonId::RightClick => "Right Click",
            ButtonId::MiddleClick => "Middle Click",
            ButtonId::Back => "Back",
            ButtonId::Forward => "Forward",
            ButtonId::DpiToggle => "DPI Toggle",
            ButtonId::Thumbwheel => "Thumb Wheel",
            ButtonId::ThumbwheelScrollUp => "Thumb Wheel Up",
            ButtonId::ThumbwheelScrollDown => "Thumb Wheel Down",
            ButtonId::GestureButton => "Gesture Button",
        }
    }
}

/// One of the five sub-bindings on a gesture button: hold and swipe up, down,
/// left or right, or a plain click without movement.
#[derive(Clone, Copy, Debug, PartialEq, Eq, Hash, PartialOrd, Ord, Structural)]
pub enum GestureDirection {
    /// Hold + swipe up (negative raw-XY `dy`).
    Up,
    /// Hold + swipe down (positive raw-XY `dy`).
    Down,
    /// Hold + swipe left (negative raw-XY `dx`).
    Left,
    /// Hold + swipe right (positive raw-XY `dx`).
    Right,
    /// A press-and-release that never committed a swipe — the gesture
    /// button's plain-click slot.
    Click,
}

impl GestureDirection {
    /// All five direction slots, swipes first and [`Click`](Self::Click) last.
    pub const ALL: [GestureDirection; 5] = [
        GestureDirection::Up,
        GestureDirection::Down,
        GestureDirection::Left,
        GestureDirection::Right,
        GestureDirection::Click,
    ];

    /// The text of the direction's label.
    pub open spec fn label_text(self) -> Seq<char> {
        match self {
            GestureDirection::Up => "Up"@,
            GestureDirection::Down => "Down"@,
            GestureDirection::Left => "Left"@,
            GestureDirection::Right => "Right"@,
            GestureDirection::Click => "Click"@,
        }
    }

    /// The text of the direction's glyph.
    pub open spec fn glyph_text(self) -> Seq<char> {
        match self {
            GestureDirection::Up => "↑"@,
            GestureDirection::Down => "↓"@,
            GestureDirection::Left => "←"@,
            GestureDirection::Right => "→"@,
            GestureDirection::Click => "·"@,
        }
    }

    /// Human-readable label for popovers and tooltips.
    #[must_use]
    pub fn label(self) -> (label: &'static str)
        ensures
            label@ == self.label_text(),
    {
        match self {
            GestureDirection::Up => "Up",
            GestureDirection::Down => "Down",
            GestureDirection::Left => "Left",
            GestureDirection::Right => "Right",
            GestureDirection::Click => "Click",
        }
    }

    /// Arrow glyph for compact list rendering.
    #[must_use]
    pub fn glyph(self) -> (glyph: &'static str)
        ensures
            glyph@ == self.glyph_text(),
    {
        match self {
            GestureDirection::Up => "↑",
            GestureDirection::Down => "↓",
            GestureDirection::Left => "←",
            GestureDirection::Right => "→",
            GestureDirection::Click => "·",
        }
    }
}

/// Grouping for popover section headers.
#[derive(Clone, Copy, Debug, PartialEq, Eq, Hash, Structural)]
pub enum Category {
    /// Cut, copy, paste, undo, redo, select-all, find, save.
    Editing,
    /// Browser navigation: tabs, page reload, back/forward.
    Browser,
    /// Playback and volume controls.
    Media,
    /// Physical mouse clicks.
    Mouse,
    /// DPI cycle and SmartShift.
    Dpi,
    /// Scroll direction shortcuts.
    Scroll,
    /// Window/app navigation: Mission Control, Launchpad, etc.
    Navigation,
    /// Lock screen, show desktop, system-level actions.
    System,
}

impl Category {
    /// The text of the category's label.
    pub open spec fn label_text(self) -> Seq<char> {
        match self {
            Category::Editing => "EDITING"@,
            Category::Browser => "BROWSER"@,
            Category::Media => "MEDIA"@,
            Category::Mouse => "MOUSE"@,
            Category::Dpi => "DPI"@,
            Category::Scroll => "SCROLL"@,
            Category::Navigation => "NAVIGATION"@,
            Category::System => "SYSTEM"@,
        }
    }

    /// Short label for popover section headers, already upper-case.
    #[must_use]
    pub fn label(self) -> (label: &'static str)
        ensures
            label@ == self.label_text(),
    {
        match self {
            Category::Editing => "EDITING",
            Category::Browser => "BROWSER",
            Category::Media => "MEDIA",
            Category::Mouse => "MOUSE",
            Category::Dpi => "DPI",
            Category::Scroll => "SCROLL",
            Category::Navigation => "NAVIGATION",
            Category::System => "SYSTEM",
        }
    }
}

/// What pressing a [`ButtonId`] should do.
///
/// Existing variant names are frozen: they form the on-disk configuration
/// schema. New variants may be appended freely; removing or renaming a variant
/// requires a schema version bump and a migration.
#[derive(Debug, Hash)]
pub enum Action {
    // ── System ───────────────────────────────────────────────────────────────
    /// Suppress the input entirely — the button or wheel direction is captured
    /// but no OS event is synthesised, so the physical input does nothing.
    DoNothing,

    // ── Mouse ────────────────────────────────────────────────────────────────
    /// Primary mouse button.
    LeftClick,
    /// Secondary mouse button.
    RightClick,
    /// Middle mouse button (wheel click).
    MiddleClick,
    /// Mouse "back" side button (extra button 4). Synthesizes the real mouse
    /// button event, which browsers and most apps interpret as "navigate back"
    /// natively — unlike [`Action::BrowserBack`], which sends ⌘[ and is ignored
    /// by many apps.
    MouseBack,
    /// Mouse "forward" side button (extra button 5). Native counterpart to
    /// [`Action::MouseBack`]; see [`Action::BrowserForward`] for the ⌘] form.
    MouseForward,

    // ── Editing ──────────────────────────────────────────────────────────────
    /// Copy the current selection (⌘C / Ctrl+C).
    Copy,
    /// Paste from the clipboard (⌘V / Ctrl+V).
    Paste,
    /// Cut the current selection (⌘X / Ctrl+X).
    Cut,
    /// Undo the last action (⌘Z / Ctrl+Z).
    Undo,
    /// Redo the last undone action (⌘⇧Z on macOS / Ctrl+Shift+Z on Linux).
    ///
    /// Note: Ctrl+Y is the dominant redo shortcut in LibreOffice and many GTK
    /// apps. Ctrl+Shift+Z is used here because it mirrors the macOS convention
    /// and works in GNOME text fields, browsers, and Electron apps. If Ctrl+Y
    /// coverage is needed, a `CustomShortcut` binding is the escape hatch.
    Redo,
    /// Select all content (⌘A / Ctrl+A).
    SelectAll,
    /// Open the find / search bar (⌘F / Ctrl+F).
    Find,
    /// Save the current document (⌘S / Ctrl+S).
    Save,

    // ── Browser / Navigation ──────────────────────────────────────────────────
    /// Navigate backward in browser history.
    BrowserBack,
    /// Navigate forward in browser history.
    BrowserForward,
    /// Open a new tab (⌘T / Ctrl+T).
    NewTab,
    /// Close the current tab (⌘W / Ctrl+W).
    CloseTab,
    /// Reopen the last closed tab (⌘⇧T / Ctrl+Shift+T).
    ReopenTab,
    /// Switch to the next tab (⌃⇥ / Ctrl+Tab).
    NextTab,
    /// Switch to the previous tab (⌃⇧⇥ / Ctrl+Shift+Tab).
    PrevTab,
    /// Reload the current page (⌘R / Ctrl+R).
    ReloadPage,

    // ── Navigation / Window ───────────────────────────────────────────────────
    /// macOS Mission Control (⌃↑).
    MissionControl,
    /// macOS App Exposé — all windows for the current app (⌃↓).
    AppExpose,
    /// Switch to the previous desktop / Space.
    PreviousDesktop,
    /// Switch to the next desktop / Space.
    NextDesktop,
    /// Show the desktop (hide all windows).
    ShowDesktop,
    /// Open Launchpad.
    LaunchpadShow,

    // ── System ────────────────────────────────────────────────────────────────
    /// Lock the screen (⌘⌃Q on macOS).
    ///
    /// On Linux, calls `org.freedesktop.login1.Manager.LockSession($XDG_SESSION_ID)`
    /// on the system bus (current session only). Falls back to Super+L when
    /// `$XDG_SESSION_ID` is unset or on non-systemd systems.
    LockScreen,
    /// Capture a screenshot.
    Screenshot,
    /// Capture a selected screen region to the clipboard.
    ///
    /// macOS uses Cmd+Shift+Ctrl+4; Windows uses Win+Shift+S. Linux delegates
    /// to the desktop environment's screenshot handler via Print Screen.
    CaptureRegion,

    // ── Media ────────────────────────────────────────────────────────────────
    /// Toggle media play/pause.
    PlayPause,
    /// Skip to the next track.
    NextTrack,
    /// Go back to the previous track.
    PrevTrack,
    /// Increase system volume.
    VolumeUp,
    /// Decrease system volume.
    VolumeDown,
    /// Toggle system mute.
    MuteVolume,

    // ── DPI ──────────────────────────────────────────────────────────────────
    /// Step through the configured DPI preset list.
    CycleDpiPresets,
    /// Jump to a specific zero-based preset in the device's DPI preset list.
    /// Out-of-range indices clamp to the list length at fire time.
    SetDpiPreset(u8),
    /// Toggle the HID++ SmartShift ratchet/free-spin wheel mode.
    ToggleSmartShift,

    // ── Scroll ───────────────────────────────────────────────────────────────
    /// Synthesise a vertical scroll-up tick.
    ScrollUp,
    /// Synthesise a vertical scroll-down tick.
    ScrollDown,
    /// Synthesise a horizontal scroll-left tick.
    HorizontalScrollLeft,
    /// Synthesise a horizontal scroll-right tick.
    HorizontalScrollRight,

    // ── Custom ───────────────────────────────────────────────────────────────
    /// Replay an arbitrary recorded key chord. The chord's `display` text is
    /// what [`Action::label`] shows.
    CustomShortcut(KeyCombo),

    /// macOS Smart Zoom / Smart Magnify at the current pointer location.
    /// Appended to preserve existing enum discriminants on the IPC wire.
    SmartZoom,
}

/// A modifier and virtual-key keystroke.
///
/// `modifiers` is a bitmask of [`KeyCombo::MOD_CMD`] etc. `key_code` is the macOS
/// virtual key (`kVK_*`). `display` is purely for rendering, e.g. `"⌘⇧P"`; when
/// it is empty a label is generated from the chord.
#[derive(Debug, Hash)]
pub struct KeyCombo {
    /// Bitmask of [`Self::MOD_CMD`] etc.
    pub modifiers: u8,
    /// macOS virtual key code (`kVK_*`).
    pub key_code: u16,
    /// Pre-rendered chord label. Empty falls through to a generated label.
    pub display: String,
}

impl Clone for KeyCombo {
    fn clone(&self) -> (copy: Self)
        ensures
            copy == *self,
    {
        KeyCombo {
            modifiers: self.modifiers,
            key_code: self.key_code,
            display: self.display.clone(),
        }
    }
}

impl PartialEq for KeyCombo {
    fn eq(&self, other: &Self) -> (same: bool) {
        self.modifiers == other.modifiers && self.key_code == other.key_code && text::str_eq(
            self.display.as_str(),
            other.display.as_str(),
        )
    }
}

impl Eq for KeyCombo {

}

impl vstd::std_specs::cmp::PartialEqSpecImpl for KeyCombo {
    open spec fn obeys_eq_spec() -> bool {
        true
    }

    open spec fn eq_spec(&self, other: &Self) -> bool {
        self.same_as(*other)
    }
}

/// The key name of a commonly recognised letter key.
pub open spec fn key_name(key_code: u16) -> Option<Seq<char>> {
    match key_code {
        0x00 => Some("A"@),
        0x01 => Some("S"@),
        0x02 => Some("D"@),
        0x03 => Some("F"@),
        0x06 => Some("Z"@),
        0x07 => Some("X"@),
        0x08 => Some("C"@),
        0x09 => Some("V"@),
        0x0B => Some("B"@),
        0x0C => Some("Q"@),
        0x0D => Some("W"@),
        0x0E => Some("E"@),
        0x0F => Some("R"@),
        0x10 => Some("Y"@),
        0x11 => Some("T"@),
        0x20 => Some("U"@),
        0x22 => Some("I"@),
        0x1F => Some("O"@),
        0x23 => Some("P"@),
        _ => None,
    }
}

impl KeyCombo {
    /// Bit for the ⌘ Command modifier in [`Self::modifiers`].
    pub const MOD_CMD: u8 = 1;

    /// Bit for the ⇧ Shift modifier in [`Self::modifiers`].
    pub const MOD_SHIFT: u8 = 2;

    /// Bit for the ⌃ Control modifier in [`Self::modifiers`].
    pub const MOD_CTRL: u8 = 4;

    /// Bit for the ⌥ Option/Alt modifier in [`Self::modifiers`].
    pub const MOD_OPTION: u8 = 8;

    /// The same chord under the same name.
    pub open spec fn same_as(self, other: KeyCombo) -> bool {
        &&& self.modifiers == other.modifiers
        &&& self.key_code == other.key_code
        &&& self.display@ == other.display@
    }

    /// The symbol of one modifier, when its bit is set.
    pub open spec fn modifier_text(self, bit: u8, symbol: Seq<char>) -> Seq<char> {
        if self.modifiers & bit != 0 {
            symbol
        } else {
            Seq::empty()
        }
    }

    /// The label generated from the chord: the modifier symbols in the order
    /// ⌃⌥⇧⌘, then the key's letter or its code in hexadecimal.
    pub open spec fn generated_label(self) -> Seq<char> {
        self.modifier_text(KeyCombo::MOD_CTRL, "⌃"@) + self.modifier_text(
            KeyCombo::MOD_OPTION,
            "⌥"@,
        ) + self.modifier_text(KeyCombo::MOD_SHIFT, "⇧"@) + self.modifier_text(
            KeyCombo::MOD_CMD,
            "⌘"@,
        ) + match key_name(self.key_code) {
            Some(name) => name,
            None => "key 0x"@ + text::hex_upper_padded(self.key_code as nat),
        }
    }

    /// The label shown for the chord: its display text where there is one.
    pub open spec fn label_text(self) -> Seq<char> {
        if self.display@.len() != 0 {
            self.display@
        } else {
            self.generated_label()
        }
    }

    /// The human-readable label. A non-empty display text is used as it is;
    /// otherwise the label is built from the modifier bitmask and the key code,
    /// falling back to `key 0xNN` when the key is not a recognised letter.
    #[must_use]
    pub fn rendered_label(&self) -> (label: String)
        ensures
            label@ == self.label_text(),
    {
        if !self.display.as_str().is_empty() {
            return self.display.clone();
        }
        let mut out = String::new();
        if self.modifiers & Self::MOD_CTRL != 0 {
            out.append("⌃");
        }
        if self.modifiers & Self::MOD_OPTION != 0 {
            out.append("⌥");
        }
        if self.modifiers & Self::MOD_SHIFT != 0 {
            out.append("⇧");
        }
        if self.modifiers & Self::MOD_CMD != 0 {
            out.append("⌘");
        }
        let ghost prefix = out@;
        assert(prefix =~= self.modifier_text(KeyCombo::MOD_CTRL, "⌃"@) + self.modifier_text(
            KeyCombo::MOD_OPTION,
            "⌥"@,
        ) + self.modifier_text(KeyCombo::MOD_SHIFT, "⇧"@) + self.modifier_text(
            KeyCombo::MOD_CMD,
            "⌘"@,
        ));
        match self.key_code {
            0x00 => out.append("A"),
            0x01 => out.append("S"),
            0x02 => out.append("D"),
            0x03 => out.append("F"),
            0x06 => out.append("Z"),
            0x07 => out.append("X"),
            0x08 => out.append("C"),
            0x09 => out.append("V"),
            0x0B => out.append("B"),
            0x0C => out.append("Q"),
            0x0D => out.append("W"),
            0x0E => out.append("E"),
            0x0F => out.append("R"),
            0x10 => out.append("Y"),
            0x11 => out.append("T"),
            0x20 => out.append("U"),
            0x22 => out.append("I"),
            0x1F => out.append("O"),
            0x23 => out.append("P"),
            other => {
                out.append("key 0x");
                text::push_hex_upper_padded(&mut out, other as u32);
                assert(out@ =~= prefix + ("key 0x"@ + text::hex_upper_padded(other as nat)));
            },
        }
        out
    }
}

impl Clone for Action {
    fn clone(&self) -> (copy: Self)
        ensures
            copy == *self,
    {
        match self {
            Action::DoNothing => Action::DoNothing,
            Action::LeftClick => Action::LeftClick,
            Action::RightClick => Action::RightClick,
            Action::MiddleClick => Action::MiddleClick,
            Action::MouseBack => Action::MouseBack,
            Action::MouseForward => Action::MouseForward,
            Action::Copy => Action::Copy,
            Action::Paste => Action::Paste,
            Action::Cut => Action::Cut,
            Action::Undo => Action::Undo,
            Action::Redo => Action::Redo,
            Action::SelectAll => Action::SelectAll,
            Action::Find => Action::Find,
            Action::Save => Action::Save,
            Action::BrowserBack => Action::BrowserBack,
            Action::BrowserForward => Action::BrowserForward,
            Action::NewTab => Action::NewTab,
            Action::CloseTab => Action::CloseTab,
            Action::ReopenTab => Action::ReopenTab,
            Action::NextTab => Action::NextTab,
            Action::PrevTab => Action::PrevTab,
            Action::ReloadPage => Action::ReloadPage,
            Action::MissionControl => Action::MissionControl,
            Action::AppExpose => Action::AppExpose,
            Action::PreviousDesktop => Action::PreviousDesktop,
            Action::NextDesktop => Action::NextDesktop,
            Action::ShowDesktop => Action::ShowDesktop,
            Action::LaunchpadShow => Action::LaunchpadShow,
            Action::LockScreen => Action::LockScreen,
            Action::Screenshot => Action::Screenshot,
            Action::CaptureRegion => Action::CaptureRegion,
            Action::PlayPause => Action::PlayPause,
            Action::NextTrack => Action::NextTrack,
            Action::PrevTrack => Action::PrevTrack,
            Action::VolumeUp => Action::VolumeUp,
            Action::VolumeDown => Action::VolumeDown,
            Action::MuteVolume => Action::MuteVolume,
            Action::CycleDpiPresets => Action::CycleDpiPresets,
            Action::ToggleSmartShift => Action::ToggleSmartShift,
            Action::ScrollUp => Action::ScrollUp,
            Action::ScrollDown => Action::ScrollDown,
            Action::HorizontalScrollLeft => Action::HorizontalScrollLeft,
            Action::HorizontalScrollRight => Action::HorizontalScrollRight,
            Action::SmartZoom => Action::SmartZoom,
            Action::SetDpiPreset(index) => Action::SetDpiPreset(*index),
            Action::CustomShortcut(combo) => Action::CustomShortcut(combo.clone()),
        }
    }
}

impl PartialEq for Action {
    fn eq(&self, other: &Self) -> (same: bool) {
        match (self, other) {
            (Action::SetDpiPreset(a), Action::SetDpiPreset(b)) => *a == *b,
            (Action::CustomShortcut(a), Action::CustomShortcut(b)) => *a == *b,
            _ => self.rank() == other.rank(),
        }
    }
}

impl Eq for Action {

}

impl vstd::std_specs::cmp::PartialEqSpecImpl for Action {
    open spec fn obeys_eq_spec() -> bool {
        true
    }

    open spec fn eq_spec(&self, other: &Self) -> bool {
        self.same_as(*other)
    }
}

impl Action {
    /// The same action: equal variants with equal payloads, where the display
    /// name of a chord counts by its text.
    pub open spec fn same_as(self, other: Action) -> bool {
        match (self, other) {
            (Action::CustomShortcut(a), Action::CustomShortcut(b)) => a.same_as(b),
            _ => self == other,
        }
    }

    /// Position of the variant in the declaration.
    pub closed spec fn rank_spec(self) -> u8 {
        match self {
            Action::DoNothing => 0,
            Action::LeftClick => 1,
            Action::RightClick => 2,
            Action::MiddleClick => 3,
            Action::MouseBack => 4,
            Action::MouseForward => 5,
            Action::Copy => 6,
            Action::Paste => 7,
            Action::Cut => 8,
            Action::Undo => 9,
            Action::Redo => 10,
            Action::SelectAll => 11,
            Action::Find => 12,
            Action::Save => 13,
            Action::BrowserBack => 14,
            Action::BrowserForward => 15,
            Action::NewTab => 16,
            Action::CloseTab => 17,
            Action::ReopenTab => 18,
            Action::NextTab => 19,
            Action::PrevTab => 20,
            Action::ReloadPage => 21,
            Action::MissionControl => 22,
            Action::AppExpose => 23,
            Action::PreviousDesktop => 24,
            Action::NextDesktop => 25,
            Action::ShowDesktop => 26,
            Action::LaunchpadShow => 27,
            Action::LockScreen => 28,
            Action::Screenshot => 29,
            Action::CaptureRegion => 30,
            Action::PlayPause => 31,
            Action::NextTrack => 32,
            Action::PrevTrack => 33,
            Action::VolumeUp => 34,
            Action::VolumeDown => 35,
            Action::MuteVolume => 36,
            Action::CycleDpiPresets => 37,
            Action::SetDpiPreset(_) => 38,
            Action::ToggleSmartShift => 39,
            Action::ScrollUp => 40,
            Action::ScrollDown => 41,
            Action::HorizontalScrollLeft => 42,
            Action::HorizontalScrollRight => 43,
            Action::CustomShortcut(_) => 44,
            Action::SmartZoom => 45,
        }
    }

    /// Position of the variant in the declaration.
    fn rank(&self) -> (rank: u8)
        ensures
            rank == self.rank_spec(),
    {
        match self {
            Action::DoNothing => 0,
            Action::LeftClick => 1,
            Action::RightClick => 2,
            Action::MiddleClick => 3,
            Action::MouseBack => 4,
            Action::MouseForward => 5,
            Action::Copy => 6,
            Action::Paste => 7,
            Action::Cut => 8,
            Action::Undo => 9,
            Action::Redo => 10,
            Action::SelectAll => 11,
            Action::Find => 12,
            Action::Save => 13,
            Action::BrowserBack => 14,
            Action::BrowserForward => 15,
            Action::NewTab => 16,
            Action::CloseTab => 17,
            Action::ReopenTab => 18,
            Action::NextTab => 19,
            Action::PrevTab => 20,
            Action::ReloadPage => 21,
            Action::MissionControl => 22,
            Action::AppExpose => 23,
            Action::PreviousDesktop => 24,
            Action::NextDesktop => 25,
            Action::ShowDesktop => 26,
            Action::LaunchpadShow => 27,
            Action::LockScreen => 28,
            Action::Screenshot => 29,
            Action::CaptureRegion => 30,
            Action::PlayPause => 31,
            Action::NextTrack => 32,
            Action::PrevTrack => 33,
            Action::VolumeUp => 34,
            Action::VolumeDown => 35,
            Action::MuteVolume => 36,
            Action::CycleDpiPresets => 37,
            Action::SetDpiPreset(_) => 38,
            Action::ToggleSmartShift => 39,
            Action::ScrollUp => 40,
            Action::ScrollDown => 41,
            Action::HorizontalScrollLeft => 42,
            Action::HorizontalScrollRight => 43,
            Action::CustomShortcut(_) => 44,
            Action::SmartZoom => 45,
        }
    }

    /// The text of the action's label.
    pub open spec fn label_text(self) -> Seq<char> {
        match self {
            Action::DoNothing => "Do Nothing"@,
            Action::LeftClick => "Left Click"@,
            Action::RightClick => "Right Click"@,
            Action::MiddleClick => "Middle Click"@,
            Action::MouseBack => "Back (Button 4)"@,
            Action::MouseForward => "Forward (Button 5)"@,
            Action::Copy => "Copy"@,
            Action::Paste => "Paste"@,
            Action::Cut => "Cut"@,
            Action::Undo => "Undo"@,
            Action::Redo => "Redo"@,
            Action::SelectAll => "Select All"@,
            Action::Find => "Find"@,
            Action::Save => "Save"@,
            Action::BrowserBack => "Browser Back"@,
            Action::BrowserForward => "Browser Forward"@,
            Action::NewTab => "New Tab"@,
            Action::CloseTab => "Close Tab"@,
            Action::ReopenTab => "Reopen Tab"@,
            Action::NextTab => "Next Tab"@,
            Action::PrevTab => "Previous Tab"@,
            Action::ReloadPage => "Reload Page"@,
            Action::MissionControl => "Mission Control"@,
            Action::AppExpose => "App Exposé"@,
            Action::PreviousDesktop => "Previous Desktop"@,
            Action::NextDesktop => "Next Desktop"@,
            Action::ShowDesktop => "Show Desktop"@,
            Action::LaunchpadShow => "Launchpad"@,
            Action::LockScreen => "Lock Screen"@,
            Action::Screenshot => "Screenshot"@,
            Action::CaptureRegion => "Capture Region"@,
            Action::PlayPause => "Play / Pause"@,
            Action::NextTrack => "Next Track"@,
            Action::PrevTrack => "Previous Track"@,
            Action::VolumeUp => "Volume Up"@,
            Action::VolumeDown => "Volume Down"@,
            Action::MuteVolume => "Mute"@,
            Action::CycleDpiPresets => "Cycle DPI Presets"@,
            Action::SetDpiPreset(i) => "DPI Preset "@ + text::decimal((i + 1) as nat),
            Action::ToggleSmartShift => "Toggle SmartShift"@,
            Action::ScrollUp => "Scroll Up"@,
            Action::ScrollDown => "Scroll Down"@,
            Action::HorizontalScrollLeft => "Scroll Left"@,
            Action::HorizontalScrollRight => "Scroll Right"@,
            Action::CustomShortcut(combo) => combo.label_text(),
            Action::SmartZoom => "Smart Zoom"@,
        }
    }

    /// The category of the action.
    pub open spec fn category_of(self) -> Category {
        match self {
            Action::LeftClick
            | Action::RightClick
            | Action::MiddleClick
            | Action::MouseBack
            | Action::MouseForward => Category::Mouse,
            Action::Copy
            | Action::Paste
            | Action::Cut
            | Action::Undo
            | Action::Redo
            | Action::SelectAll
            | Action::Find
            | Action::Save
            | Action::CustomShortcut(_) => Category::Editing,
            Action::BrowserBack
            | Action::BrowserForward
            | Action::NewTab
            | Action::CloseTab
            | Action::ReopenTab
            | Action::NextTab
            | Action::PrevTab
            | Action::ReloadPage => Category::Browser,
            Action::MissionControl
            | Action::AppExpose
            | Action::PreviousDesktop
            | Action::NextDesktop
            | Action::ShowDesktop
            | Action::LaunchpadShow
            | Action::SmartZoom => Category::Navigation,
            Action::DoNothing | Action::LockScreen | Action::Screenshot | Action::CaptureRegion => {
                Category::System
            }
            Action::PlayPause
            | Action::NextTrack
            | Action::PrevTrack
            | Action::VolumeUp
            | Action::VolumeDown
            | Action::MuteVolume => Category::Media,
            Action::CycleDpiPresets | Action::SetDpiPreset(_) | Action::ToggleSmartShift => {
                Category::Dpi
            }
            Action::ScrollUp
            | Action::ScrollDown
            | Action::HorizontalScrollLeft
            | Action::HorizontalScrollRight => Category::Scroll,
        }
    }

    /// All pickable actions in their fixed order.
    pub open spec fn catalog_seq() -> Seq<Action> {
        seq![
            Action::LeftClick,
            Action::RightClick,
            Action::MiddleClick,
            Action::MouseBack,
            Action::MouseForward,
            Action::Copy,
            Action::Paste,
            Action::Cut,
            Action::Undo,
            Action::Redo,
            Action::SelectAll,
            Action::Find,
            Action::Save,
            Action::BrowserBack,
            Action::BrowserForward,
            Action::NewTab,
            Action::CloseTab,
            Action::ReopenTab,
            Action::NextTab,
            Action::PrevTab,
            Action::ReloadPage,
            Action::MissionControl,
            Action::AppExpose,
            Action::PreviousDesktop,
            Action::NextDesktop,
            Action::ShowDesktop,
            Action::LaunchpadShow,
            Action::SmartZoom,
            Action::DoNothing,
            Action::LockScreen,
            Action::Screenshot,
            Action::CaptureRegion,
            Action::PlayPause,
            Action::NextTrack,
            Action::PrevTrack,
            Action::VolumeUp,
            Action::VolumeDown,
            Action::MuteVolume,
            Action::CycleDpiPresets,
            Action::ToggleSmartShift,
            Action::ScrollUp,
            Action::ScrollDown,
            Action::HorizontalScrollLeft,
            Action::HorizontalScrollRight,
        ]
    }

    /// Display label for the popover row.
    #[must_use]
    pub fn label(&self) -> (label: String)
        requires
            *self != Action::SetDpiPreset(255),
        ensures
            label@ == self.label_text(),
    {
        match self {
            Action::DoNothing => "Do Nothing".to_owned(),
            Action::LeftClick => "Left Click".to_owned(),
            Action::RightClick => "Right Click".to_owned(),
            Action::MiddleClick => "Middle Click".to_owned(),
            Action::MouseBack => "Back (Button 4)".to_owned(),
            Action::MouseForward => "Forward (Button 5)".to_owned(),
            Action::Copy => "Copy".to_owned(),
            Action::Paste => "Paste".to_owned(),
            Action::Cut => "Cut".to_owned(),
            Action::Undo => "Undo".to_owned(),
            Action::Redo => "Redo".to_owned(),
            Action::SelectAll => "Select All".to_owned(),
            Action::Find => "Find".to_owned(),
            Action::Save => "Save".to_owned(),
            Action::BrowserBack => "Browser Back".to_owned(),
            Action::BrowserForward => "Browser Forward".to_owned(),
            Action::NewTab => "New Tab".to_owned(),
            Action::CloseTab => "Close Tab".to_owned(),
            Action::ReopenTab => "Reopen Tab".to_owned(),
            Action::NextTab => "Next Tab".to_owned(),
            Action::PrevTab => "Previous Tab".to_owned(),
            Action::ReloadPage => "Reload Page".to_owned(),
            Action::MissionControl => "Mission Control".to_owned(),
            Action::AppExpose => "App Exposé".to_owned(),
            Action::PreviousDesktop => "Previous Desktop".to_owned(),
            Action::NextDesktop => "Next Desktop".to_owned(),
            Action::ShowDesktop => "Show Desktop".to_owned(),
            Action::LaunchpadShow => "Launchpad".to_owned(),
            Action::LockScreen => "Lock Screen".to_owned(),
            Action::Screenshot => "Screenshot".to_owned(),
            Action::CaptureRegion => "Capture Region".to_owned(),
            Action::PlayPause => "Play / Pause".to_owned(),
            Action::NextTrack => "Next Track".to_owned(),
            Action::PrevTrack => "Previous Track".to_owned(),
            Action::VolumeUp => "Volume Up".to_owned(),
            Action::VolumeDown => "Volume Down".to_owned(),
            Action::MuteVolume => "Mute".to_owned(),
            Action::CycleDpiPresets => "Cycle DPI Presets".to_owned(),
            Action::SetDpiPreset(i) => {
                let mut out = "DPI Preset ".to_owned();
                text::push_decimal(&mut out, *i as u64 + 1);
                out
            },
            Action::ToggleSmartShift => "Toggle SmartShift".to_owned(),
            Action::ScrollUp => "Scroll Up".to_owned(),
            Action::ScrollDown => "Scroll Down".to_owned(),
            Action::HorizontalScrollLeft => "Scroll Left".to_owned(),
            Action::HorizontalScrollRight => "Scroll Right".to_owned(),
            Action::CustomShortcut(combo) => combo.rendered_label(),
            Action::SmartZoom => "Smart Zoom".to_owned(),
        }
    }

    /// Which [`Category`] this action belongs to, used for popover grouping.
    #[must_use]
    pub fn category(&self) -> (category: Category)
        ensures
            category == self.category_of(),
    {
        match self {
            Action::LeftClick
            | Action::RightClick
            | Action::MiddleClick
            | Action::MouseBack
            | Action::MouseForward => Category::Mouse,
            Action::Copy
            | Action::Paste
            | Action::Cut
            | Action::Undo
            | Action::Redo
            | Action::SelectAll
            | Action::Find
            | Action::Save
            | Action::CustomShortcut(_) => Category::Editing,
            Action::BrowserBack
            | Action::BrowserForward
            | Action::NewTab
            | Action::CloseTab
            | Action::ReopenTab
            | Action::NextTab
            | Action::PrevTab
            | Action::ReloadPage => Category::Browser,
            Action::MissionControl
            | Action::AppExpose
            | Action::PreviousDesktop
            | Action::NextDesktop
            | Action::ShowDesktop
            | Action::LaunchpadShow
            | Action::SmartZoom => Category::Navigation,
            Action::DoNothing | Action::LockScreen | Action::Screenshot | Action::CaptureRegion => {
                Category::System
            }
            Action::PlayPause
            | Action::NextTrack
            | Action::PrevTrack
            | Action::VolumeUp
            | Action::VolumeDown
            | Action::MuteVolume => Category::Media,
            Action::CycleDpiPresets | Action::SetDpiPreset(_) | Action::ToggleSmartShift => {
                Category::Dpi
            }
            Action::ScrollUp
            | Action::ScrollDown
            | Action::HorizontalScrollLeft
            | Action::HorizontalScrollRight => Category::Scroll,
        }
    }

    /// All pickable actions in a deterministic order. [`Action::CustomShortcut`]
    /// is recorded rather than picked, so it is not listed.
    #[must_use]
    pub fn catalog() -> (actions: Vec<Action>)
        ensures
            actions@ == Action::catalog_seq(),
    {
        vec![
            Action::LeftClick,
            Action::RightClick,
            Action::MiddleClick,
            Action::MouseBack,
            Action::MouseForward,
            Action::Copy,
            Action::Paste,
            Action::Cut,
            Action::Undo,
            Action::Redo,
            Action::SelectAll,
            Action::Find,
            Action::Save,
            Action::BrowserBack,
            Action::BrowserForward,
            Action::NewTab,
            Action::CloseTab,
            Action::ReopenTab,
            Action::NextTab,
            Action::PrevTab,
            Action::ReloadPage,
            Action::MissionControl,
            Action::AppExpose,
            Action::PreviousDesktop,
            Action::NextDesktop,
            Action::ShowDesktop,
            Action::LaunchpadShow,
            Action::SmartZoom,
            Action::DoNothing,
            Action::LockScreen,
            Action::Screenshot,
            Action::CaptureRegion,
            Action::PlayPause,
            Action::NextTrack,
            Action::PrevTrack,
            Action::VolumeUp,
            Action::VolumeDown,
            Action::MuteVolume,
            Action::CycleDpiPresets,
            Action::ToggleSmartShift,
            Action::ScrollUp,
            Action::ScrollDown,
            Action::HorizontalScrollLeft,
            Action::HorizontalScrollRight,
        ]
    }
}

/// A partial assignment of actions to gesture directions.
#[derive(Debug)]
pub struct DirectionMap {
    /// Action for an upward swipe.
    pub up: Option<Action>,
    /// Action for a downward swipe.
    pub down: Option<Action>,
    /// Action for a leftward swipe.
    pub left: Option<Action>,
    /// Action for a rightward swipe.
    pub right: Option<Action>,
    /// Action for a plain click.
    pub click: Option<Action>,
}

/// Two optional actions agree: both absent, or both present and the same.
pub open spec fn same_slot(a: Option<Action>, b: Option<Action>) -> bool {
    match (a, b) {
        (Some(x), Some(y)) => x.same_as(y),
        (None, None) => true,
        _ => false,
    }
}

/// Whether two optional actions agree.
fn slot_eq(a: &Option<Action>, b: &Option<Action>) -> (same: bool)
    ensures
        same == same_slot(*a, *b),
{
    match (a, b) {
        (Some(x), Some(y)) => *x == *y,
        (None, None) => true,
        _ => false,
    }
}

impl View for DirectionMap {
    type V = Map<GestureDirection, Action>;

    open spec fn view(&self) -> Map<GestureDirection, Action> {
        Map::new(|d: GestureDirection| self.slot(d) is Some, |d: GestureDirection| self.slot(d)->0)
    }
}

impl Clone for DirectionMap {
    fn clone(&self) -> (copy: Self)
        ensures
            copy == *self,
    {
        DirectionMap {
            up: clone_slot(&self.up),
            down: clone_slot(&self.down),
            left: clone_slot(&self.left),
            right: clone_slot(&self.right),
            click: clone_slot(&self.click),
        }
    }
}

/// Copy an optional action.
fn clone_slot(slot: &Option<Action>) -> (copy: Option<Action>)
    ensures
        copy == *slot,
{
    match slot {
        Some(action) => Some(action.clone()),
        None => None,
    }
}

impl PartialEq for DirectionMap {
    fn eq(&self, other: &Self) -> (same: bool) {
        slot_eq(&self.up, &other.up) && slot_eq(&self.down, &other.down) && slot_eq(&self.left, &other.left) && slot_eq(&self.right, &other.right) && slot_eq(&self.click, &other.click)
    }
}

impl Eq for DirectionMap {

}

impl vstd::std_specs::cmp::PartialEqSpecImpl for DirectionMap {
    open spec fn obeys_eq_spec() -> bool {
        true
    }

    open spec fn eq_spec(&self, other: &Self) -> bool {
        self.same_as(*other)
    }
}

impl Default for DirectionMap {
    fn default() -> (map: Self)
        ensures
            map == DirectionMap::empty(),
    {
        DirectionMap::new()
    }
}

impl DirectionMap {
    /// The map that binds no direction.
    pub open spec fn empty() -> DirectionMap {
        DirectionMap { up: None, down: None, left: None, right: None, click: None }
    }

    /// The action bound to a direction, if there is one.
    pub open spec fn slot(self, direction: GestureDirection) -> Option<Action> {
        match direction {
            GestureDirection::Up => self.up,
            GestureDirection::Down => self.down,
            GestureDirection::Left => self.left,
            GestureDirection::Right => self.right,
            GestureDirection::Click => self.click,
        }
    }

    /// The map with one direction rebound.
    pub open spec fn with(self, direction: GestureDirection, action: Action) -> DirectionMap {
        match direction {
            GestureDirection::Up => DirectionMap { up: Some(action), ..self },
            GestureDirection::Down => DirectionMap { down: Some(action), ..self },
            GestureDirection::Left => DirectionMap { left: Some(action), ..self },
            GestureDirection::Right => DirectionMap { right: Some(action), ..self },
            GestureDirection::Click => DirectionMap { click: Some(action), ..self },
        }
    }

    /// The map with every unbound direction bound to its default.
    pub open spec fn with_defaults(self) -> DirectionMap {
        DirectionMap {
            up: Some(or_default(self.up, GestureDirection::Up)),
            down: Some(or_default(self.down, GestureDirection::Down)),
            left: Some(or_default(self.left, GestureDirection::Left)),
            right: Some(or_default(self.right, GestureDirection::Right)),
            click: Some(or_default(self.click, GestureDirection::Click)),
        }
    }

    /// Both maps bind the same directions to the same actions.
    pub open spec fn same_as(self, other: DirectionMap) -> bool {
        &&& same_slot(self.up, other.up)
        &&& same_slot(self.down, other.down)
        &&& same_slot(self.left, other.left)
        &&& same_slot(self.right, other.right)
        &&& same_slot(self.click, other.click)
    }

    /// The map that binds no direction.
    #[must_use]
    pub fn new() -> (map: Self)
        ensures
            map == DirectionMap::empty(),
            map@ == Map::<GestureDirection, Action>::empty(),
    {
        let map = DirectionMap { up: None, down: None, left: None, right: None, click: None };
        assert(map@ =~= Map::<GestureDirection, Action>::empty());
        map
    }

    /// The action bound to a direction, if there is one.
    #[must_use]
    pub fn get(&self, direction: GestureDirection) -> (action: Option<&Action>)
        ensures
            match action {
                Some(found) => self.slot(direction) == Some(*found),
                None => self.slot(direction) is None,
            },
    {
        match direction {
            GestureDirection::Up => self.up.as_ref(),
            GestureDirection::Down => self.down.as_ref(),
            GestureDirection::Left => self.left.as_ref(),
            GestureDirection::Right => self.right.as_ref(),
            GestureDirection::Click => self.click.as_ref(),
        }
    }

    /// Bind a direction, replacing what it was bound to.
    pub fn insert(&mut self, direction: GestureDirection, action: Action)
        ensures
            *final(self) == old(self).with(direction, action),
            final(self)@ == old(self)@.insert(direction, action),
    {
        match direction {
            GestureDirection::Up => self.up = Some(action),
            GestureDirection::Down => self.down = Some(action),
            GestureDirection::Left => self.left = Some(action),
            GestureDirection::Right => self.right = Some(action),
            GestureDirection::Click => self.click = Some(action),
        }
        assert(self@ =~= old(self)@.insert(direction, action));
    }

    /// Number of bound directions.
    pub open spec fn count(self) -> nat {
        ((if self.up is Some { 1int } else { 0 }) + (if self.down is Some { 1int } else { 0 }) + (if self.left is Some { 1int } else { 0 }) + (if self.right is Some { 1int } else { 0 }) + (if self.click is Some { 1int } else { 0 })) as nat
    }

    /// Number of bound directions.
    #[must_use]
    pub fn len(&self) -> (count: usize)
        ensures
            count == self.count(),
    {
        let mut n: usize = 0;
        if self.up.is_some() {
            n += 1;
        }
        if self.down.is_some() {
            n += 1;
        }
        if self.left.is_some() {
            n += 1;
        }
        if self.right.is_some() {
            n += 1;
        }
        if self.click.is_some() {
            n += 1;
        }
        n
    }

    /// Bind every unbound direction to its default; bound directions keep theirs.
    pub fn fill_defaults(&mut self)
        ensures
            *final(self) == old(self).with_defaults(),
    {
        if self.up.is_none() {
            self.up = Some(default_gesture_binding(GestureDirection::Up));
        }
        if self.down.is_none() {
            self.down = Some(default_gesture_binding(GestureDirection::Down));
        }
        if self.left.is_none() {
            self.left = Some(default_gesture_binding(GestureDirection::Left));
        }
        if self.right.is_none() {
            self.right = Some(default_gesture_binding(GestureDirection::Right));
        }
        if self.click.is_none() {
            self.click = Some(default_gesture_binding(GestureDirection::Click));
        }
    }
}

/// The action of a slot, or the direction's default when the slot is unbound.
pub open spec fn or_default(slot: Option<Action>, direction: GestureDirection) -> Action {
    match slot {
        Some(action) => action,
        None => default_direction_action(direction),
    }
}

/// Configuration carried by a continuous [`Binding::Pan`] lifecycle.
#[derive(Debug)]
pub struct PanBinding {
    /// Action fired when the button is released before Pan leaves its movement
    /// deadzone. An activated Pan ends without firing this fallback.
    pub click: Action,
}

impl Clone for PanBinding {
    fn clone(&self) -> (copy: Self)
        ensures
            copy == *self,
    {
        PanBinding { click: self.click.clone() }
    }
}

impl PartialEq for PanBinding {
    fn eq(&self, other: &Self) -> (same: bool) {
        self.click == other.click
    }
}

impl Eq for PanBinding {

}

impl vstd::std_specs::cmp::PartialEqSpecImpl for PanBinding {
    open spec fn obeys_eq_spec() -> bool {
        true
    }

    open spec fn eq_spec(&self, other: &Self) -> bool {
        self.click.same_as(other.click)
    }
}

/// What a single rebindable [`ButtonId`] does: one action, a directional
/// gesture map, or a continuous Pan lifecycle.
#[derive(Debug)]
pub enum Binding {
    /// One action, fired on press. The shape every non-gesture button uses.
    Single(Action),
    /// Per-direction sub-bindings for a button in gesture mode, with
    /// [`GestureDirection::Click`] holding the plain-click (no-swipe) action.
    Gesture(DirectionMap),
    /// Continuous two-axis content movement while held, with an explicit click
    /// fallback.
    Pan(PanBinding),
}

impl Clone for Binding {
    fn clone(&self) -> (copy: Self)
        ensures
            copy == *self,
    {
        match self {
            Binding::Single(action) => Binding::Single(action.clone()),
            Binding::Gesture(map) => Binding::Gesture(map.clone()),
            Binding::Pan(pan) => Binding::Pan(pan.clone()),
        }
    }
}

impl PartialEq for Binding {
    fn eq(&self, other: &Self) -> (same: bool) {
        match (self, other) {
            (Binding::Single(a), Binding::Single(b)) => *a == *b,
            (Binding::Gesture(a), Binding::Gesture(b)) => *a == *b,
            (Binding::Pan(a), Binding::Pan(b)) => *a == *b,
            _ => false,
        }
    }
}

impl Eq for Binding {

}

impl vstd::std_specs::cmp::PartialEqSpecImpl for Binding {
    open spec fn obeys_eq_spec() -> bool {
        true
    }

    open spec fn eq_spec(&self, other: &Self) -> bool {
        self.same_as(*other)
    }
}

impl From<Action> for Binding {
    fn from(action: Action) -> (binding: Self) {
        Binding::Single(action)
    }
}

impl vstd::std_specs::convert::FromSpecImpl<Action> for Binding {
    open spec fn obeys_from_spec() -> bool {
        true
    }

    open spec fn from_spec(action: Action) -> Binding {
        Binding::Single(action)
    }
}

impl Binding {
    /// The same shape with the same actions.
    pub open spec fn same_as(self, other: Binding) -> bool {
        match (self, other) {
            (Binding::Single(a), Binding::Single(b)) => a.same_as(b),
            (Binding::Gesture(a), Binding::Gesture(b)) => a.same_as(b),
            (Binding::Pan(a), Binding::Pan(b)) => a.click.same_as(b.click),
            _ => false,
        }
    }

    /// The plain-click action; a gesture map without one does nothing.
    pub open spec fn click(self) -> Action {
        match self {
            Binding::Single(action) => action,
            Binding::Gesture(map) => match map.click {
                Some(action) => action,
                None => Action::DoNothing,
            },
            Binding::Pan(pan) => pan.click,
        }
    }

    /// The action of a direction: only gesture bindings have any.
    pub open spec fn direction(self, direction: GestureDirection) -> Option<Action> {
        match self {
            Binding::Gesture(map) => map.slot(direction),
            _ => None,
        }
    }

    /// A single action promoted to a gesture map that holds it as its click.
    pub open spec fn upgraded(self) -> Binding {
        match self {
            Binding::Single(action) => Binding::Gesture(
                DirectionMap::empty().with(GestureDirection::Click, action),
            ),
            _ => self,
        }
    }

    /// A gesture map with its unbound directions filled in.
    pub open spec fn filled(self) -> Binding {
        match self {
            Binding::Gesture(map) => Binding::Gesture(map.with_defaults()),
            _ => self,
        }
    }

    /// The plain-click action for this binding: the single action, the gesture
    /// map's click entry ([`Action::DoNothing`] when it has none), or the Pan click
    /// fallback.
    #[must_use]
    pub fn click_action(&self) -> (action: Action)
        ensures
            action == self.click(),
    {
        match self {
            Binding::Single(action) => action.clone(),
            Binding::Gesture(map) => match map.get(GestureDirection::Click) {
                Some(action) => action.clone(),
                None => Action::DoNothing,
            },
            Binding::Pan(pan) => pan.click.clone(),
        }
    }

    /// The action bound to `direction`, if this is a gesture binding.
    #[must_use]
    pub fn direction_action(&self, direction: GestureDirection) -> (action: Option<&Action>)
        ensures
            match action {
                Some(found) => self.direction(direction) == Some(*found),
                None => self.direction(direction) is None,
            },
    {
        match self {
            Binding::Single(_) | Binding::Pan(_) => None,
            Binding::Gesture(map) => map.get(direction),
        }
    }

    /// Whether this binding drives raw-XY swipe capture.
    #[must_use]
    pub fn is_gesture(&self) -> (gesture: bool)
        ensures
            gesture == (*self is Gesture),
    {
        matches!(self, Binding::Gesture(_))
    }

    /// Whether this binding captures a hold as continuous two-axis Pan motion.
    #[must_use]
    pub fn is_pan(&self) -> (pan: bool)
        ensures
            pan == (*self is Pan),
    {
        matches!(self, Binding::Pan(_))
    }

    /// Promote a single binding in place to a gesture map, keeping its action as
    /// the click entry and leaving the swipe arms unbound. Other shapes stay.
    pub fn upgrade_to_gesture(&mut self)
        ensures
            *final(self) == old(self).upgraded(),
    {
        let click = match self {
            Binding::Single(action) => action.clone(),
            _ => {
                return;
            },
        };
        let mut map = DirectionMap::new();
        map.insert(GestureDirection::Click, click);
        *self = Binding::Gesture(map);
    }

    /// Fill any unbound directions of a gesture binding with their canonical
    /// default, so a button promoted to the gesture role always exposes the full
    /// five-direction set. Bound directions and other shapes stay.
    pub fn fill_gesture_defaults(&mut self)
        ensures
            *final(self) == old(self).filled(),
    {
        if let Binding::Gesture(map) = self {
            map.fill_defaults();
        }
    }
}

/// The default action of a button.
pub open spec fn default_action(button: ButtonId) -> Action {
    match button {
        ButtonId::LeftClick => Action::LeftClick,
        ButtonId::RightClick => Action::RightClick,
        ButtonId::MiddleClick => Action::MiddleClick,
        ButtonId::Back => Action::BrowserBack,
        ButtonId::Forward => Action::BrowserForward,
        ButtonId::DpiToggle => Action::CycleDpiPresets,
        ButtonId::Thumbwheel => Action::AppExpose,
        ButtonId::ThumbwheelScrollUp => Action::HorizontalScrollRight,
        ButtonId::ThumbwheelScrollDown => Action::HorizontalScrollLeft,
        ButtonId::GestureButton => Action::MissionControl,
    }
}

/// The default action of a gesture direction.
pub open spec fn default_direction_action(direction: GestureDirection) -> Action {
    match direction {
        GestureDirection::Up => Action::MissionControl,
        GestureDirection::Down => Action::ShowDesktop,
        GestureDirection::Left => Action::PrevTab,
        GestureDirection::Right => Action::NextTab,
        GestureDirection::Click => Action::AppExpose,
    }
}

/// The Window Navigation preset.
pub open spec fn window_navigation() -> DirectionMap {
    DirectionMap {
        up: Some(Action::MissionControl),
        down: Some(Action::AppExpose),
        left: Some(Action::PreviousDesktop),
        right: Some(Action::NextDesktop),
        click: Some(Action::MissionControl),
    }
}

/// The canonical default binding of a button.
pub open spec fn default_for(button: ButtonId) -> Binding {
    match button {
        ButtonId::GestureButton => Binding::Gesture(DirectionMap::empty().with_defaults()),
        other => Binding::Single(default_action(other)),
    }
}

/// Sensible defaults for a fresh device so the panel isn't empty on first run.
///
/// Rotating the thumb wheel scrolls horizontally: "up" goes right and "down"
/// goes left. The gesture button's entry is vestigial: it defaults to a gesture
/// map (see [`default_binding_for`]) and is kept here so that per-button callers
/// stay total.
#[must_use]
pub fn default_binding(button: ButtonId) -> (action: Action)
    ensures
        action == default_action(button),
{
    match button {
        ButtonId::LeftClick => Action::LeftClick,
        ButtonId::RightClick => Action::RightClick,
        ButtonId::MiddleClick => Action::MiddleClick,
        ButtonId::Back => Action::BrowserBack,
        ButtonId::Forward => Action::BrowserForward,
        ButtonId::DpiToggle => Action::CycleDpiPresets,
        ButtonId::Thumbwheel => Action::AppExpose,
        ButtonId::ThumbwheelScrollUp => Action::HorizontalScrollRight,
        ButtonId::ThumbwheelScrollDown => Action::HorizontalScrollLeft,
        ButtonId::GestureButton => Action::MissionControl,
    }
}

/// Per-direction defaults for the gesture button.
#[must_use]
pub fn default_gesture_binding(direction: GestureDirection) -> (action: Action)
    ensures
        action == default_direction_action(direction),
{
    match direction {
        GestureDirection::Up => Action::MissionControl,
        GestureDirection::Down => Action::ShowDesktop,
        GestureDirection::Left => Action::PrevTab,
        GestureDirection::Right => Action::NextTab,
        GestureDirection::Click => Action::AppExpose,
    }
}

/// The five-direction Window Navigation preset.
#[must_use]
pub fn window_navigation_binding() -> (binding: Binding)
    ensures
        binding == Binding::Gesture(window_navigation()),
{
    let mut map = DirectionMap::new();
    map.insert(GestureDirection::Left, Action::PreviousDesktop);
    map.insert(GestureDirection::Right, Action::NextDesktop);
    map.insert(GestureDirection::Up, Action::MissionControl);
    map.insert(GestureDirection::Down, Action::AppExpose);
    map.insert(GestureDirection::Click, Action::MissionControl);
    Binding::Gesture(map)
}

/// The canonical continuous Pan binding, whose no-motion click performs macOS
/// Smart Zoom.
#[must_use]
pub fn default_pan_binding() -> (binding: Binding)
    ensures
        binding == Binding::Pan(PanBinding { click: Action::SmartZoom }),
{
    Binding::Pan(PanBinding { click: Action::SmartZoom })
}

/// The canonical default [`Binding`] for a fresh button: the gesture button
/// starts with a full default direction map, every other button with its single
/// [`default_binding`].
#[must_use]
pub fn default_binding_for(button: ButtonId) -> (binding: Binding)
    ensures
        binding == default_for(button),
{
    match button {
        ButtonId::GestureButton => {
            let mut map = DirectionMap::new();
            map.fill_defaults();
            Binding::Gesture(map)
        },
        other => Binding::Single(default_binding(other)),
    }
}

/// Equality of actions is an equivalence that a copy satisfies.
pub proof fn law_action_equality(a: Action, b: Action, c: Action)
    ensures
        a.same_as(a),
        a.same_as(b) ==> b.same_as(a),
        a.same_as(b) && b.same_as(c) ==> a.same_as(c),
{
}

/// Promoting a binding to a gesture keeps what a plain click does, and doing it
/// twice changes nothing more.
pub proof fn law_upgrade_keeps_click(binding: Binding)
    ensures
        binding.upgraded().click() == binding.click(),
        binding.upgraded().upgraded() == binding.upgraded(),
        !(binding is Single) ==> binding.upgraded() == binding,
{
}

/// Filling in defaults keeps every bound direction, leaves none unbound, and
/// doing it twice changes nothing more.
pub proof fn law_fill_preserves_choices(map: DirectionMap, direction: GestureDirection)
    ensures
        map.slot(direction) is Some ==> map.with_defaults().slot(direction) == map.slot(direction),
        map.slot(direction) is None ==> map.with_defaults().slot(direction) == Some(
            default_direction_action(direction),
        ),
        map.with_defaults().with_defaults() == map.with_defaults(),
        map.with_defaults().count() == 5,
{
}

/// Rebinding a direction is read back, and no other direction changes.
pub proof fn law_direction_read_after_write(
    map: DirectionMap,
    written: GestureDirection,
    read: GestureDirection,
    action: Action,
)
    ensures
        map.with(written, action).slot(read) == if read == written {
            Some(action)
        } else {
            map.slot(read)
        },
{
}

/// The catalog lists every action exactly once, except the ones that carry a
/// payload.
pub proof fn law_catalog_is_complete(action: Action)
    ensures
        Action::catalog_seq().contains(action) <==> !(action is SetDpiPreset
            || action is CustomShortcut),
        Action::catalog_seq().no_duplicates(),
{
    let catalog = Action::catalog_seq();
    assert forall|i: int, j: int| 0 <= i < catalog.len() && 0 <= j < catalog.len() && i
        != j implies catalog[i] != catalog[j] by {
        assert(catalog[i].rank_spec() != catalog[j].rank_spec());
    }
    if !(action is SetDpiPreset || action is CustomShortcut) {
        let index = catalog_index(action);
        assert(catalog[index] == action);
    }
}

/// Where the catalog lists an action.
spec fn catalog_index(action: Action) -> int {
    match action {
        Action::LeftClick => 0,
        Action::RightClick => 1,
        Action::MiddleClick => 2,
        Action::MouseBack => 3,
        Action::MouseForward => 4,
        Action::Copy => 5,
        Action::Paste => 6,
        Action::Cut => 7,
        Action::Undo => 8,
        Action::Redo => 9,
        Action::SelectAll => 10,
        Action::Find => 11,
        Action::Save => 12,
        Action::BrowserBack => 13,
        Action::BrowserForward => 14,
        Action::NewTab => 15,
        Action::CloseTab => 16,
        Action::ReopenTab => 17,
        Action::NextTab => 18,
        Action::PrevTab => 19,
        Action::ReloadPage => 20,
        Action::MissionControl => 21,
        Action::AppExpose => 22,
        Action::PreviousDesktop => 23,
        Action::NextDesktop => 24,
        Action::ShowDesktop => 25,
        Action::LaunchpadShow => 26,
        Action::SmartZoom => 27,
        Action::DoNothing => 28,
        Action::LockScreen => 29,
        Action::Screenshot => 30,
        Action::CaptureRegion => 31,
        Action::PlayPause => 32,
        Action::NextTrack => 33,
        Action::PrevTrack => 34,
        Action::VolumeUp => 35,
        Action::VolumeDown => 36,
        Action::MuteVolume => 37,
        Action::CycleDpiPresets => 38,
        Action::ToggleSmartShift => 39,
        Action::ScrollUp => 40,
        Action::ScrollDown => 41,
        Action::HorizontalScrollLeft => 42,
        Action::HorizontalScrollRight => 43,
        _ => 0,
    }
}

/// Whether an action can be picked: it is in the catalog, or it is a preset that can
/// be shown.
pub open spec fn pickable(action: Action) -> bool {
    Action::catalog_seq().contains(action) || (action matches Action::SetDpiPreset(index) && index
        < 255)
}

/// The length and the two outermost characters of a catalog action's label.
spec fn label_shape(action: Action) -> (nat, char, char) {
    match action {
        Action::DoNothing => (10, 'D', 'g'),
        Action::LeftClick => (10, 'L', 'k'),
        Action::RightClick => (11, 'R', 'k'),
        Action::MiddleClick => (12, 'M', 'k'),
        Action::MouseBack => (15, 'B', ')'),
        Action::MouseForward => (18, 'F', ')'),
        Action::Copy => (4, 'C', 'y'),
        Action::Paste => (5, 'P', 'e'),
        Action::Cut => (3, 'C', 't'),
        Action::Undo => (4, 'U', 'o'),
        Action::Redo => (4, 'R', 'o'),
        Action::SelectAll => (10, 'S', 'l'),
        Action::Find => (4, 'F', 'd'),
        Action::Save => (4, 'S', 'e'),
        Action::BrowserBack => (12, 'B', 'k'),
        Action::BrowserForward => (15, 'B', 'd'),
        Action::NewTab => (7, 'N', 'b'),
        Action::CloseTab => (9, 'C', 'b'),
        Action::ReopenTab => (10, 'R', 'b'),
        Action::NextTab => (8, 'N', 'b'),
        Action::PrevTab => (12, 'P', 'b'),
        Action::ReloadPage => (11, 'R', 'e'),
        Action::MissionControl => (15, 'M', 'l'),
        Action::AppExpose => (10, 'A', 'é'),
        Action::PreviousDesktop => (16, 'P', 'p'),
        Action::NextDesktop => (12, 'N', 'p'),
        Action::ShowDesktop => (12, 'S', 'p'),
        Action::LaunchpadShow => (9, 'L', 'd'),
        Action::LockScreen => (11, 'L', 'n'),
        Action::Screenshot => (10, 'S', 't'),
        Action::CaptureRegion => (14, 'C', 'n'),
        Action::PlayPause => (12, 'P', 'e'),
        Action::NextTrack => (10, 'N', 'k'),
        Action::PrevTrack => (14, 'P', 'k'),
        Action::VolumeUp => (9, 'V', 'p'),
        Action::VolumeDown => (11, 'V', 'n'),
        Action::MuteVolume => (4, 'M', 'e'),
        Action::CycleDpiPresets => (17, 'C', 's'),
        Action::ToggleSmartShift => (17, 'T', 't'),
        Action::ScrollUp => (9, 'S', 'p'),
        Action::ScrollDown => (11, 'S', 'n'),
        Action::HorizontalScrollLeft => (11, 'S', 't'),
        Action::HorizontalScrollRight => (12, 'S', 't'),
        Action::SmartZoom => (10, 'S', 'm'),
        _ => (0, ' ', ' '),
    }
}

/// What the label of a catalog action looks like.
proof fn lemma_label_shape(action: Action)
    requires
        !(action is SetDpiPreset || action is CustomShortcut),
    ensures
        ({
            let label = action.label_text();
            &&& label.len() > 1
            &&& label_shape(action) == (label.len(), label[0], label.last())
            &&& label[1] != 'P'
        }),
{
    match action {
        Action::DoNothing => reveal_strlit("Do Nothing"),
        Action::LeftClick => reveal_strlit("Left Click"),
        Action::RightClick => reveal_strlit("Right Click"),
        Action::MiddleClick => reveal_strlit("Middle Click"),
        Action::MouseBack => reveal_strlit("Back (Button 4)"),
        Action::MouseForward => reveal_strlit("Forward (Button 5)"),
        Action::Copy => reveal_strlit("Copy"),
        Action::Paste => reveal_strlit("Paste"),
        Action::Cut => reveal_strlit("Cut"),
        Action::Undo => reveal_strlit("Undo"),
        Action::Redo => reveal_strlit("Redo"),
        Action::SelectAll => reveal_strlit("Select All"),
        Action::Find => reveal_strlit("Find"),
        Action::Save => reveal_strlit("Save"),
        Action::BrowserBack => reveal_strlit("Browser Back"),
        Action::BrowserForward => reveal_strlit("Browser Forward"),
        Action::NewTab => reveal_strlit("New Tab"),
        Action::CloseTab => reveal_strlit("Close Tab"),
        Action::ReopenTab => reveal_strlit("Reopen Tab"),
        Action::NextTab => reveal_strlit("Next Tab"),
        Action::PrevTab => reveal_strlit("Previous Tab"),
        Action::ReloadPage => reveal_strlit("Reload Page"),
        Action::MissionControl => reveal_strlit("Mission Control"),
        Action::AppExpose => reveal_strlit("App Exposé"),
        Action::PreviousDesktop => reveal_strlit("Previous Desktop"),
        Action::NextDesktop => reveal_strlit("Next Desktop"),
        Action::ShowDesktop => reveal_strlit("Show Desktop"),
        Action::LaunchpadShow => reveal_strlit("Launchpad"),
        Action::LockScreen => reveal_strlit("Lock Screen"),
        Action::Screenshot => reveal_strlit("Screenshot"),
        Action::CaptureRegion => reveal_strlit("Capture Region"),
        Action::PlayPause => reveal_strlit("Play / Pause"),
        Action::NextTrack => reveal_strlit("Next Track"),
        Action::PrevTrack => reveal_strlit("Previous Track"),
        Action::VolumeUp => reveal_strlit("Volume Up"),
        Action::VolumeDown => reveal_strlit("Volume Down"),
        Action::MuteVolume => reveal_strlit("Mute"),
        Action::CycleDpiPresets => reveal_strlit("Cycle DPI Presets"),
        Action::ToggleSmartShift => reveal_strlit("Toggle SmartShift"),
        Action::ScrollUp => reveal_strlit("Scroll Up"),
        Action::ScrollDown => reveal_strlit("Scroll Down"),
        Action::HorizontalScrollLeft => reveal_strlit("Scroll Left"),
        Action::HorizontalScrollRight => reveal_strlit("Scroll Right"),
        Action::SmartZoom => reveal_strlit("Smart Zoom"),
        _ => {},
    }
}

/// Labels tell the actions that can be picked apart: none is empty, and no two actions
/// have the same one. A preset is labelled by its number, counted from one, and a
/// shortcut by its chord.
pub proof fn law_labels_tell_actions_apart(a: Action, b: Action, combo: KeyCombo)
    requires
        pickable(a),
        pickable(b),
    ensures
        a.label_text().len() > 0,
        a != b ==> a.label_text() != b.label_text(),
        a matches Action::SetDpiPreset(index) ==> a.label_text() == "DPI Preset "@ + text::decimal(
            (index + 1) as nat,
        ),
        Action::CustomShortcut(combo).label_text() == combo.label_text(),
{
    law_catalog_is_complete(a);
    law_catalog_is_complete(b);
    reveal_strlit("DPI Preset ");
    match (a, b) {
        (Action::SetDpiPreset(i), Action::SetDpiPreset(j)) => {
            let prefix = "DPI Preset "@;
            let (m, n) = ((i + 1) as nat, (j + 1) as nat);
            assert(a.label_text().skip(prefix.len() as int) =~= text::decimal(m));
            assert(b.label_text().skip(prefix.len() as int) =~= text::decimal(n));
            if a.label_text() == b.label_text() {
                text::lemma_decimal_injective(m, n);
            }
        },
        (Action::SetDpiPreset(_), _) => {
            lemma_label_shape(b);
            assert(a.label_text()[1] == 'P');
        },
        (_, Action::SetDpiPreset(_)) => {
            lemma_label_shape(a);
            assert(b.label_text()[1] == 'P');
        },
        _ => {
            lemma_label_shape(a);
            lemma_label_shape(b);
            if label_shape(a) == label_shape(b) {
                assert(a.rank_spec() == b.rank_spec());
            }
        },
    }
}

/// The OS hook remaps the middle, back and forward buttons, and no other.
pub proof fn law_three_buttons_are_hooked(button: ButtonId)
    ensures
        button.os_hook_button() <==> button == ButtonId::MiddleClick || button == ButtonId::Back
            || button == ButtonId::Forward,
{
}

/// Out of the box the clicks stay what they are, the side buttons navigate, the DPI
/// button cycles the presets, and turning the thumb wheel up scrolls right.
pub proof fn law_out_of_the_box_bindings(button: ButtonId, direction: GestureDirection)
    ensures
        button is LeftClick ==> default_action(button) == Action::LeftClick,
        button is RightClick ==> default_action(button) == Action::RightClick,
        button is MiddleClick ==> default_action(button) == Action::MiddleClick,
        button is Back ==> default_action(button) == Action::BrowserBack,
        button is Forward ==> default_action(button) == Action::BrowserForward,
        button is DpiToggle ==> default_action(button) == Action::CycleDpiPresets,
        button is Thumbwheel ==> default_action(button) == Action::AppExpose,
        button is ThumbwheelScrollUp ==> default_action(button) == Action::HorizontalScrollRight,
        button is ThumbwheelScrollDown ==> default_action(button) == Action::HorizontalScrollLeft,
        button is GestureButton ==> default_action(button) == Action::MissionControl,
        direction is Up ==> default_direction_action(direction) == Action::MissionControl,
        direction is Down ==> default_direction_action(direction) == Action::ShowDesktop,
        direction is Left ==> default_direction_action(direction) == Action::PrevTab,
        direction is Right ==> default_direction_action(direction) == Action::NextTab,
        direction is Click ==> default_direction_action(direction) == Action::AppExpose,
        button is GestureButton ==> (default_for(button) matches Binding::Gesture(map) && map.slot(
            direction,
        ) == Some(default_direction_action(direction))),
        !(button is GestureButton) ==> default_for(button) == Binding::Single(
            default_action(button),
        ),
{
}

/// The window-navigation preset: up and a click show every window, down those of the
/// application, and left and right change the desktop.
pub proof fn law_window_navigation_moves_between_windows(direction: GestureDirection)
    ensures
        direction is Up || direction is Click ==> window_navigation().slot(direction) == Some(
            Action::MissionControl,
        ),
        direction is Down ==> window_navigation().slot(direction) == Some(Action::AppExpose),
        direction is Left ==> window_navigation().slot(direction) == Some(Action::PreviousDesktop),
        direction is Right ==> window_navigation().slot(direction) == Some(Action::NextDesktop),
{
}

/// Each direction has the slot of its own name, filling in the defaults keeps every
/// choice, and a map counts the directions that it binds.
pub proof fn law_directions_have_their_own_slots(
    map: DirectionMap,
    direction: GestureDirection,
    action: Action,
)
    ensures
        map.slot(GestureDirection::Up) == map.up,
        map.slot(GestureDirection::Down) == map.down,
        map.slot(GestureDirection::Left) == map.left,
        map.slot(GestureDirection::Right) == map.right,
        map.slot(GestureDirection::Click) == map.click,
        map.with_defaults().slot(direction) == Some(
            if map.slot(direction) is Some {
                map.slot(direction)->0
            } else {
                default_direction_action(direction)
            },
        ),
        DirectionMap::empty().count() == 0,
        DirectionMap::empty().slot(direction) is None,
        map.with(direction, action).count() == map.count() + if map.slot(direction) is None {
            1int
        } else {
            0
        },
        map.count() == 0 <==> map == DirectionMap::empty(),
{
}

/// What each kind of binding does: a click runs the single action, a gesture map's
/// click or nothing, or a Pan's click; only a gesture map gives directions an action;
/// and only a single action becomes a gesture map when it is upgraded.
pub proof fn law_bindings_by_kind(
    action: Action,
    map: DirectionMap,
    pan: PanBinding,
    direction: GestureDirection,
)
    ensures
        Binding::Single(action).click() == action,
        map.click is Some ==> Binding::Gesture(map).click() == map.click->0,
        map.click is None ==> Binding::Gesture(map).click() == Action::DoNothing,
        Binding::Pan(pan).click() == pan.click,
        Binding::Single(action).direction(direction) is None,
        Binding::Pan(pan).direction(direction) is None,
        Binding::Gesture(map).direction(direction) == map.slot(direction),
        Binding::Single(action).upgraded() matches Binding::Gesture(made) && made.click == Some(
            action,
        ) && made.count() == 1,
        Binding::Gesture(map).upgraded() == Binding::Gesture(map),
        Binding::Pan(pan).upgraded() == Binding::Pan(pan),
        Binding::Single(action).filled() == Binding::Single(action),
        Binding::Pan(pan).filled() == Binding::Pan(pan),
        Binding::Gesture(map).filled() matches Binding::Gesture(made) && made.count() == 5 && (
        map.slot(direction) is Some ==> made.slot(direction) == map.slot(direction)),
        <Binding as vstd::std_specs::convert::FromSpec<Action>>::from_spec(action)
            == Binding::Single(action),
{
}

/// Two actions are the same when they are equal, or when both are shortcuts with the
/// same modifiers, key and display text.
pub proof fn law_same_actions(a: Action, b: Action)
    ensures
        a.same_as(b) <==> a == b || (a matches Action::CustomShortcut(x) && b matches
            Action::CustomShortcut(y) && x.modifiers == y.modifiers && x.key_code == y.key_code
            && x.display@ == y.display@),
{
}

/// Two direction maps are the same when every direction has the same action in both or
/// in neither; bindings are the same when they are of one kind with the same content.
pub proof fn law_same_bindings(x: DirectionMap, y: DirectionMap, a: Binding, b: Binding)
    ensures
        x.same_as(y) <==> forall|d: GestureDirection|
            (#[trigger] x.slot(d) is Some <==> y.slot(d) is Some) && (x.slot(d) is Some ==> x.slot(
                d,
            )->0.same_as(y.slot(d)->0)),
        a.same_as(b) ==> a.click().same_as(b.click()),
        a.same_as(b) ==> (a is Single <==> b is Single) && (a is Pan <==> b is Pan),
        a is Single && b is Single ==> (a.same_as(b) <==> a.click().same_as(b.click())),
        a is Pan && b is Pan ==> (a.same_as(b) <==> a.click().same_as(b.click())),
        a == Binding::Gesture(x) && b == Binding::Gesture(y) ==> (a.same_as(b) <==> x.same_as(y)),
        a.same_as(a),
        x.same_as(x),
{
    if forall|d: GestureDirection|
        (#[trigger] x.slot(d) is Some <==> y.slot(d) is Some) && (x.slot(d) is Some ==> x.slot(
            d,
        )->0.same_as(y.slot(d)->0)) {
        assert(x.slot(GestureDirection::Up) is Some <==> y.slot(GestureDirection::Up) is Some);
        assert(x.slot(GestureDirection::Down) is Some <==> y.slot(GestureDirection::Down) is Some);
        assert(x.slot(GestureDirection::Left) is Some <==> y.slot(GestureDirection::Left) is Some);
        assert(x.slot(GestureDirection::Right) is Some <==> y.slot(
            GestureDirection::Right,
        ) is Some);
        assert(x.slot(GestureDirection::Click) is Some <==> y.slot(
            GestureDirection::Click,
        ) is Some);
    }
}

/// Which actions each section of the action menu lists.
pub proof fn law_categories_list_their_actions(action: Action)
    ensures
        action.category_of() is Mouse <==> action is LeftClick || action is RightClick || action is MiddleClick || action is MouseBack || action is MouseForward,
        action.category_of() is Editing <==> action is Copy || action is Paste || action is Cut || action is Undo || action is Redo || action is SelectAll || action is Find || action is Save || action is CustomShortcut,
        action.category_of() is Browser <==> action is BrowserBack || action is BrowserForward || action is NewTab || action is CloseTab || action is ReopenTab || action is NextTab || action is PrevTab || action is ReloadPage,
        action.category_of() is Navigation <==> action is MissionControl || action is AppExpose || action is PreviousDesktop || action is NextDesktop || action is ShowDesktop || action is LaunchpadShow || action is SmartZoom,
        action.category_of() is System <==> action is DoNothing || action is LockScreen || action is Screenshot || action is CaptureRegion,
        action.category_of() is Media <==> action is PlayPause || action is NextTrack || action is PrevTrack || action is VolumeUp || action is VolumeDown || action is MuteVolume,
        action.category_of() is Dpi <==> action is CycleDpiPresets || action is SetDpiPreset || action is ToggleSmartShift,
        action.category_of() is Scroll <==> action is ScrollUp || action is ScrollDown || action is HorizontalScrollLeft || action is HorizontalScrollRight,
{
}

/// What each catalog action, button, direction and category is called.
pub proof fn law_names_shown(
    action: Action,
    button: ButtonId,
    direction: GestureDirection,
    category: Category,
)
    ensures
        action is DoNothing ==> action.label_text() == "Do Nothing"@,
        action is LeftClick ==> action.label_text() == "Left Click"@,
        action is RightClick ==> action.label_text() == "Right Click"@,
        action is MiddleClick ==> action.label_text() == "Middle Click"@,
        action is MouseBack ==> action.label_text() == "Back (Button 4)"@,
        action is MouseForward ==> action.label_text() == "Forward (Button 5)"@,
        action is Copy ==> action.label_text() == "Copy"@,
        action is Paste ==> action.label_text() == "Paste"@,
        action is Cut ==> action.label_text() == "Cut"@,
        action is Undo ==> action.label_text() == "Undo"@,
        action is Redo ==> action.label_text() == "Redo"@,
        action is SelectAll ==> action.label_text() == "Select All"@,
        action is Find ==> action.label_text() == "Find"@,
        action is Save ==> action.label_text() == "Save"@,
        action is BrowserBack ==> action.label_text() == "Browser Back"@,
        action is BrowserForward ==> action.label_text() == "Browser Forward"@,
        action is NewTab ==> action.label_text() == "New Tab"@,
        action is CloseTab ==> action.label_text() == "Close Tab"@,
        action is ReopenTab ==> action.label_text() == "Reopen Tab"@,
        action is NextTab ==> action.label_text() == "Next Tab"@,
        action is PrevTab ==> action.label_text() == "Previous Tab"@,
        action is ReloadPage ==> action.label_text() == "Reload Page"@,
        action is MissionControl ==> action.label_text() == "Mission Control"@,
        action is AppExpose ==> action.label_text() == "App Exposé"@,
        action is PreviousDesktop ==> action.label_text() == "Previous Desktop"@,
        action is NextDesktop ==> action.label_text() == "Next Desktop"@,
        action is ShowDesktop ==> action.label_text() == "Show Desktop"@,
        action is LaunchpadShow ==> action.label_text() == "Launchpad"@,
        action is LockScreen ==> action.label_text() == "Lock Screen"@,
        action is Screenshot ==> action.label_text() == "Screenshot"@,
        action is CaptureRegion ==> action.label_text() == "Capture Region"@,
        action is PlayPause ==> action.label_text() == "Play / Pause"@,
        action is NextTrack ==> action.label_text() == "Next Track"@,
        action is PrevTrack ==> action.label_text() == "Previous Track"@,
        action is VolumeUp ==> action.label_text() == "Volume Up"@,
        action is VolumeDown ==> action.label_text() == "Volume Down"@,
        action is MuteVolume ==> action.label_text() == "Mute"@,
        action is CycleDpiPresets ==> action.label_text() == "Cycle DPI Presets"@,
        action is ToggleSmartShift ==> action.label_text() == "Toggle SmartShift"@,
        action is ScrollUp ==> action.label_text() == "Scroll Up"@,
        action is ScrollDown ==> action.label_text() == "Scroll Down"@,
        action is HorizontalScrollLeft ==> action.label_text() == "Scroll Left"@,
        action is HorizontalScrollRight ==> action.label_text() == "Scroll Right"@,
        action is SmartZoom ==> action.label_text() == "Smart Zoom"@,
        button is LeftClick ==> button.label_text() == "Left Click"@,
        button is RightClick ==> button.label_text() == "Right Click"@,
        button is MiddleClick ==> button.label_text() == "Middle Click"@,
        button is Back ==> button.label_text() == "Back"@,
        button is Forward ==> button.label_text() == "Forward"@,
        button is DpiToggle ==> button.label_text() == "DPI Toggle"@,
        button is Thumbwheel ==> button.label_text() == "Thumb Wheel"@,
        button is ThumbwheelScrollUp ==> button.label_text() == "Thumb Wheel Up"@,
        button is ThumbwheelScrollDown ==> button.label_text() == "Thumb Wheel Down"@,
        button is GestureButton ==> button.label_text() == "Gesture Button"@,
        direction is Up ==> direction.label_text() == "Up"@,
        direction is Down ==> direction.label_text() == "Down"@,
        direction is Left ==> direction.label_text() == "Left"@,
        direction is Right ==> direction.label_text() == "Right"@,
        direction is Click ==> direction.label_text() == "Click"@,
        direction is Up ==> direction.glyph_text() == "↑"@,
        direction is Down ==> direction.glyph_text() == "↓"@,
        direction is Left ==> direction.glyph_text() == "←"@,
        direction is Right ==> direction.glyph_text() == "→"@,
        direction is Click ==> direction.glyph_text() == "·"@,
        category is Editing ==> category.label_text() == "EDITING"@,
        category is Browser ==> category.label_text() == "BROWSER"@,
        category is Media ==> category.label_text() == "MEDIA"@,
        category is Mouse ==> category.label_text() == "MOUSE"@,
        category is Dpi ==> category.label_text() == "DPI"@,
        category is Scroll ==> category.label_text() == "SCROLL"@,
        category is Navigation ==> category.label_text() == "NAVIGATION"@,
        category is System ==> category.label_text() == "SYSTEM"@,
{
}

/// The catalog goes through the sections one after another: the mouse, editing, the
/// browser, navigation, the system, media, the pointer and scrolling.
pub proof fn law_catalog_goes_by_section(i: int)
    requires
        0 <= i < Action::catalog_seq().len(),
    ensures
        Action::catalog_seq().len() == 44,
        ({
            let category = Action::catalog_seq()[i].category_of();
            &&& category is Mouse <==> i < 5
            &&& category is Editing <==> 5 <= i < 13
            &&& category is Browser <==> 13 <= i < 21
            &&& category is Navigation <==> 21 <= i < 28
            &&& category is System <==> 28 <= i < 32
            &&& category is Media <==> 32 <= i < 38
            &&& category is Dpi <==> 38 <= i < 40
            &&& category is Scroll <==> 40 <= i
        }),
{
}

/// A shortcut without a display text is shown as its modifiers, in the order control,
/// option, shift and command, and then its key: by letter where it is a known one, and
/// by number otherwise. A display text is shown as it is.
pub proof fn law_shortcuts_are_spelled_out(combo: KeyCombo)
    ensures
        combo.display@.len() > 0 ==> combo.label_text() == combo.display@,
        combo.display@.len() == 0 ==> ({
            let control = if combo.modifiers & 4u8 != 0 { "⌃"@ } else { Seq::empty() };
            let option = if combo.modifiers & 8u8 != 0 { "⌥"@ } else { Seq::empty() };
            let shift = if combo.modifiers & 2u8 != 0 { "⇧"@ } else { Seq::empty() };
            let command = if combo.modifiers & 1u8 != 0 { "⌘"@ } else { Seq::empty() };
            let key = if key_name(combo.key_code) is Some {
                key_name(combo.key_code)->0
            } else {
                "key 0x"@ + text::hex_upper_padded(combo.key_code as nat)
            };
            combo.label_text() == control + option + shift + command + key
        }),
{
}

/// The letters that are known by their key codes.
pub proof fn law_known_letters(code: u16)
    ensures
        code == 0x00 ==> key_name(code) == Some("A"@),
        code == 0x01 ==> key_name(code) == Some("S"@),
        code == 0x02 ==> key_name(code) == Some("D"@),
        code == 0x03 ==> key_name(code) == Some("F"@),
        code == 0x06 ==> key_name(code) == Some("Z"@),
        code == 0x07 ==> key_name(code) == Some("X"@),
        code == 0x08 ==> key_name(code) == Some("C"@),
        code == 0x09 ==> key_name(code) == Some("V"@),
        code == 0x0B ==> key_name(code) == Some("B"@),
        code == 0x0C ==> key_name(code) == Some("Q"@),
        code == 0x0D ==> key_name(code) == Some("W"@),
        code == 0x0E ==> key_name(code) == Some("E"@),
        code == 0x0F ==> key_name(code) == Some("R"@),
        code == 0x10 ==> key_name(code) == Some("Y"@),
        code == 0x11 ==> key_name(code) == Some("T"@),
        code == 0x20 ==> key_name(code) == Some("U"@),
        code == 0x22 ==> key_name(code) == Some("I"@),
        code == 0x1F ==> key_name(code) == Some("O"@),
        code == 0x23 ==> key_name(code) == Some("P"@),
        key_name(code) is Some <==> code <= 3 || 6 <= code <= 9 || 11 <= code <= 17 || code == 31
            || code == 32 || code == 34 || code == 35,
{
}

/// In which order the buttons stand.
pub proof fn law_buttons_stand_in_order(button: ButtonId)
    ensures
        button is LeftClick <==> button.rank() == 0,
        button is RightClick <==> button.rank() == 1,
        button is MiddleClick <==> button.rank() == 2,
        button is Back <==> button.rank() == 3,
        button is Forward <==> button.rank() == 4,
        button is DpiToggle <==> button.rank() == 5,
        button is Thumbwheel <==> button.rank() == 6,
        button is ThumbwheelScrollUp <==> button.rank() == 7,
        button is ThumbwheelScrollDown <==> button.rank() == 8,
        button is GestureButton <==> button.rank() == 9,
{
}

/// Filling a map up gives each direction without an action its default and leaves the
/// others as they are.
pub proof fn law_missing_directions_take_their_default(
    map: DirectionMap,
    direction: GestureDirection,
)
    ensures
        map.slot(direction) is Some ==> map.with_defaults().slot(direction) == map.slot(direction),
        map.slot(direction) is None ==> map.with_defaults().slot(direction) == Some(
            default_direction_action(direction),
        ),
        DirectionMap::empty().slot(direction) is None,
{
}

} // verus!
