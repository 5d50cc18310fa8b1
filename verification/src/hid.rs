//! What is read from and written to a device: pointer resolution, wheel modes, and
//! the ways in which that fails.

use crate::config::WheelMode;
use crate::text;
use vstd::prelude::*;

verus! {

/// Mode of a SmartShift wheel, as a device reports it.
#[derive(Clone, Copy, Debug, PartialEq, Eq, Structural)]
pub enum SmartShiftMode {
    /// Spins freely.
    Free,
    /// Clicks through detents.
    Ratchet,
}

/// The stored form of a wheel mode.
pub open spec fn stored_mode(mode: SmartShiftMode) -> WheelMode {
    match mode {
        SmartShiftMode::Free => WheelMode::Free,
        SmartShiftMode::Ratchet => WheelMode::Ratchet,
    }
}

impl From<SmartShiftMode> for WheelMode {
    fn from(mode: SmartShiftMode) -> (stored: WheelMode) {
        match mode {
            SmartShiftMode::Free => WheelMode::Free,
            SmartShiftMode::Ratchet => WheelMode::Ratchet,
        }
    }
}

impl vstd::std_specs::convert::FromSpecImpl<SmartShiftMode> for WheelMode {
    open spec fn obeys_from_spec() -> bool {
        true
    }

    open spec fn from_spec(mode: SmartShiftMode) -> WheelMode {
        stored_mode(mode)
    }
}

/// SmartShift configuration, as a device reports it.
#[derive(Clone, Copy, Debug, PartialEq, Eq, Structural)]
pub struct SmartShiftStatus {
    /// The wheel mode.
    pub mode: SmartShiftMode,
    /// Speed at which a ratcheted wheel releases.
    pub auto_disengage: u8,
    /// Torque of the ratchet.
    pub tunable_torque: u8,
}

/// Why a device could not be read or written.
#[derive(Debug)]
pub enum WriteError {
    /// The device does not have the feature.
    FeatureUnsupported {
        /// Number of the feature.
        feature_hex: u16,
    },
    /// The device lists no pointer resolutions.
    EmptyDpiList,
    /// The device refused the request.
    HidppFeature {
        /// Number of the feature.
        feature_hex: u16,
    },
    /// The device answered in a form that is not understood.
    UnsupportedResponse {
        /// Number of the feature.
        feature_hex: u16,
    },
    /// The device did not answer in time.
    RequestTimedOut,
    /// The worker could not be started.
    RuntimeInit {
        /// What went wrong.
        message: String,
    },
    /// The agent cannot be reached.
    AgentUnavailable,
}

impl WriteError {
    /// The error in words.
    pub open spec fn text(self) -> Seq<char> {
        match self {
            WriteError::FeatureUnsupported { feature_hex } => "device does not support feature 0x"@
                + text::hex_u16(feature_hex),
            WriteError::EmptyDpiList => "device reported no supported DPI values"@,
            WriteError::HidppFeature { feature_hex } => "device rejected a request for feature 0x"@
                + text::hex_u16(feature_hex),
            WriteError::UnsupportedResponse { feature_hex } =>
                "unexpected response for feature 0x"@ + text::hex_u16(feature_hex),
            WriteError::RequestTimedOut => "request timed out"@,
            WriteError::RuntimeInit { message } => "could not start worker: "@ + message@,
            WriteError::AgentUnavailable => "agent unavailable"@,
        }
    }

    /// The error in words.
    #[must_use]
    pub fn message(&self) -> (message: String)
        ensures
            message@ == self.text(),
    {
        let mut out = String::new();
        match self {
            WriteError::FeatureUnsupported { feature_hex } => {
                out.append("device does not support feature 0x");
                text::push_hex_u16(&mut out, *feature_hex);
            },
            WriteError::EmptyDpiList => out.append("device reported no supported DPI values"),
            WriteError::HidppFeature { feature_hex } => {
                out.append("device rejected a request for feature 0x");
                text::push_hex_u16(&mut out, *feature_hex);
            },
            WriteError::UnsupportedResponse { feature_hex } => {
                out.append("unexpected response for feature 0x");
                text::push_hex_u16(&mut out, *feature_hex);
            },
            WriteError::RequestTimedOut => out.append("request timed out"),
            WriteError::RuntimeInit { message } => {
                out.append("could not start worker: ");
                out.append(message.as_str());
            },
            WriteError::AgentUnavailable => out.append("agent unavailable"),
        }
        assert(out@ =~= self.text());
        out
    }
}

/// The pointer resolutions that a device supports: at least one.
#[derive(Debug)]
pub struct DpiCapabilities {
    values: Vec<u16>,
}

impl View for DpiCapabilities {
    type V = Seq<u16>;

    closed spec fn view(&self) -> Seq<u16> {
        self.values@
    }
}

/// How far a value is from another.
pub open spec fn distance(a: int, b: int) -> int {
    if a < b {
        b - a
    } else {
        a - b
    }
}

/// A value of a list is the one nearest to a target, the first of them where
/// several are equally near.
pub open spec fn is_nearest(values: Seq<u16>, target: int, nearest: int) -> bool {
    exists|i: int|
        {
            &&& 0 <= i < values.len()
            &&& #[trigger] values[i] == nearest
            &&& forall|j: int|
                0 <= j < values.len() ==> distance(nearest, target) <= distance(
                    #[trigger] values[j] as int,
                    target,
                )
            &&& forall|j: int|
                0 <= j < i ==> distance(nearest, target) < distance(
                    #[trigger] values[j] as int,
                    target,
                )
        }
}

/// How far a supported resolution is from a target.
fn gap(value: u16, target: u32) -> (gap: u32)
    ensures
        gap == distance(value as int, target as int),
{
    if (value as u32) < target {
        target - value as u32
    } else {
        value as u32 - target
    }
}

impl DpiCapabilities {
    #[verifier::type_invariant]
    closed spec fn non_empty(self) -> bool {
        self.values@.len() > 0
    }

    /// The supported resolutions, unless there are none.
    pub fn new(values: Vec<u16>) -> (capabilities: Result<DpiCapabilities, WriteError>)
        ensures
            match capabilities {
                Ok(capabilities) => values@.len() > 0 && capabilities@ == values@,
                Err(error) => values@.len() == 0 && error == WriteError::EmptyDpiList,
            },
    {
        if values.len() == 0 {
            Err(WriteError::EmptyDpiList)
        } else {
            Ok(DpiCapabilities { values })
        }
    }

    /// The supported resolution that is nearest to a wanted one.
    #[must_use]
    pub fn snap(&self, dpi: u32) -> (nearest: u32)
        ensures
            is_nearest(self@, dpi as int, nearest as int),
    {
        proof {
            use_type_invariant(self);
        }
        let mut best: usize = 0;
        let mut i: usize = 1;
        while i < self.values.len()
            invariant
                best < i <= self.values@.len(),
                forall|j: int|
                    0 <= j < i ==> distance(self.values@[best as int] as int, dpi as int)
                        <= distance(#[trigger] self.values@[j] as int, dpi as int),
                forall|j: int|
                    0 <= j < best ==> distance(self.values@[best as int] as int, dpi as int)
                        < distance(#[trigger] self.values@[j] as int, dpi as int),
            decreases self.values@.len() - i,
        {
            if gap(self.values[i], dpi) < gap(self.values[best], dpi) {
                best = i;
            }
            i += 1;
        }
        assert(self@[best as int] == self.values@[best as int]);
        self.values[best] as u32
    }
}

impl Clone for DpiCapabilities {
    fn clone(&self) -> (copy: Self)
        ensures
            copy@ == self@,
    {
        proof {
            use_type_invariant(self);
        }
        let mut values: Vec<u16> = Vec::new();
        let mut i: usize = 0;
        while i < self.values.len()
            invariant
                i <= self.values@.len(),
                values@ == self.values@.take(i as int),
            decreases self.values@.len() - i,
        {
            values.push(self.values[i]);
            i += 1;
            assert(self.values@.take(i as int) =~= self.values@.take(i - 1).push(
                self.values@[i - 1],
            ));
        }
        assert(values@ =~= self.values@);
        DpiCapabilities { values }
    }
}

/// Pointer resolution of a device.
#[derive(Debug)]
pub struct DpiInfo {
    /// The resolution that is set.
    pub current: u16,
    /// The resolutions that can be set.
    pub capabilities: DpiCapabilities,
}

impl View for DpiInfo {
    type V = (u16, Seq<u16>);

    open spec fn view(&self) -> (u16, Seq<u16>) {
        (self.current, self.capabilities@)
    }
}

impl Clone for DpiInfo {
    fn clone(&self) -> (copy: Self)
        ensures
            copy@ == self@,
    {
        DpiInfo { current: self.current, capabilities: self.capabilities.clone() }
    }
}

/// A supported resolution snaps to itself.
pub proof fn law_supported_resolution_snaps_to_itself(values: Seq<u16>, at: int, nearest: int)
    requires
        0 <= at < values.len(),
        is_nearest(values, values[at] as int, nearest),
    ensures
        nearest == values[at],
{
    assert(distance(nearest, values[at] as int) <= distance(values[at] as int, values[at] as int));
}

/// The device's wheel modes are stored under their own names.
pub proof fn law_wheel_modes_keep_their_name(mode: SmartShiftMode)
    ensures
        mode is Free <==> stored_mode(mode) is Free,
        mode is Ratchet <==> stored_mode(mode) is Ratchet,
{
}

/// What a write error says.
pub proof fn law_write_errors_are_told(error: WriteError)
    ensures
        error matches WriteError::FeatureUnsupported { feature_hex } ==> error.text()
            == "device does not support feature 0x"@ + text::hex_u16(feature_hex),
        error is EmptyDpiList ==> error.text() == "device reported no supported DPI values"@,
        error matches WriteError::HidppFeature { feature_hex } ==> error.text()
            == "device rejected a request for feature 0x"@ + text::hex_u16(feature_hex),
        error matches WriteError::UnsupportedResponse { feature_hex } ==> error.text()
            == "unexpected response for feature 0x"@ + text::hex_u16(feature_hex),
        error is RequestTimedOut ==> error.text() == "request timed out"@,
        error matches WriteError::RuntimeInit { message } ==> error.text()
            == "could not start worker: "@ + message@,
        error is AgentUnavailable ==> error.text() == "agent unavailable"@,
{
}

/// A resolution snaps to a supported value that no other is nearer than, and of two that
/// are equally near to the one listed first.
pub proof fn law_snapped_value_is_nearest(values: Seq<u16>, target: int, nearest: int, j: int)
    requires
        is_nearest(values, target, nearest),
        0 <= j < values.len(),
    ensures
        exists|i: int| 0 <= i < values.len() && #[trigger] values[i] == nearest,
        nearest <= target && values[j] >= target ==> target - nearest <= values[j] - target,
        nearest >= target && values[j] <= target ==> nearest - target <= target - values[j],
        nearest <= target && values[j] <= target ==> values[j] <= nearest,
        nearest >= target && values[j] >= target ==> nearest <= values[j],
        values[j] != nearest && distance(values[j] as int, target) == distance(nearest, target)
            ==> exists|i: int| 0 <= i < j && #[trigger] values[i] == nearest,
{
    let i = choose|i: int|
        {
            &&& 0 <= i < values.len()
            &&& #[trigger] values[i] == nearest
            &&& forall|j: int|
                0 <= j < values.len() ==> distance(nearest, target) <= distance(
                    #[trigger] values[j] as int,
                    target,
                )
            &&& forall|j: int|
                0 <= j < i ==> distance(nearest, target) < distance(
                    #[trigger] values[j] as int,
                    target,
                )
        };
    assert(values[i] == nearest);
    assert(distance(nearest, target) <= distance(values[j] as int, target));
}

} // verus!
