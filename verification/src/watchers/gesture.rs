//! The HID++ control-capture watcher: which capture session should run, and what
//! each captured input does.
//!
//! - a raw gesture-button lifecycle becomes a click, a four-direction swipe or a
//!   Pan stream, according to the button's mode,
//! - a button press becomes its bound action,
//! - thumb-wheel rotation becomes continuous horizontal scroll or a custom
//!   action.

use crate::binding::pan::PanPhase;
use crate::binding::swipe::SwipeState;
use crate::binding::{
    default_action, default_binding, Action, ButtonId, DirectionMap, GestureDirection,
    PanAccumulator, PanOutput, SwipeAccumulator,
};
use crate::bindings::GestureMode;
use crate::button_map::{ButtonMap, ButtonSet};
use crate::config::DEFAULT_THUMBWHEEL_SENSITIVITY;
use crate::device::DeviceRoute;
use crate::gesture_coordinator::{GestureCoordinator, GesturePress};
use crate::hook_runtime::HookMaps;
use crate::shared::{self, CountReading, CountStep, SharedCounter};
use vstd::prelude::*;

verus! {

/// How often, in milliseconds, the active device target and the thumb-wheel
/// arming are re-read. It also paces the respawn of a session that ended on its
/// own.
pub const TARGET_POLL: u64 = 1000;

/// Idle gap, in nanoseconds, after which a partly accumulated custom wheel action
/// is forgotten, so slow intermittent nudges don't eventually fire it.
pub const ACTION_DECAY: u64 = 300_000_000;

/// Minimum gap, in nanoseconds, between two fires of the same custom wheel
/// action, so one deliberate flick triggers once.
pub const ACTION_COOLDOWN: u64 = 200_000_000;

/// The gesture modes in effect, with the projection they belong to.
#[derive(Debug)]
pub struct GestureBindingState {
    /// Projection generation; changes on config, app, or device rebuild.
    pub generation: u64,
    /// Effective mode of every control diverted through HID++.
    pub modes: ButtonMap<GestureMode>,
}

impl Default for GestureBindingState {
    fn default() -> (state: Self)
        ensures
            state == (GestureBindingState { generation: 0, modes: ButtonMap::empty() }),
    {
        GestureBindingState { generation: 0, modes: ButtonMap::new() }
    }
}

/// An input captured over HID++.
#[derive(Clone, Copy, Debug, PartialEq, Eq, Structural)]
pub enum CapturedInput {
    /// A gesture button went down.
    GesturePressed(ButtonId),
    /// Raw motion while a gesture button is held.
    GestureMotion {
        /// The held button.
        button: ButtonId,
        /// Horizontal travel.
        delta_x: i16,
        /// Vertical travel.
        delta_y: i16,
    },
    /// A gesture button went up.
    GestureReleased(ButtonId),
    /// A gesture was interrupted.
    GestureCancelled(ButtonId),
    /// An ordinary control was pressed.
    ButtonPressed(ButtonId),
    /// The thumb wheel turned; positive is up.
    Scroll(i16),
}

/// A captured input with the epoch of the session that captured it.
#[derive(Clone, Copy, Debug, PartialEq, Eq, Structural)]
pub struct SessionInput {
    /// Epoch of the session.
    pub epoch: u64,
    /// The input.
    pub input: CapturedInput,
}

impl SessionInput {
    /// The input, if it was captured in the live epoch.
    pub open spec fn live_input(self, live_epoch: u64) -> Option<CapturedInput> {
        if self.epoch == live_epoch {
            Some(self.input)
        } else {
            None
        }
    }

    /// The input, if it was captured in the live epoch.
    #[must_use]
    pub fn taken_at(&self, live_epoch: u64) -> (input: Option<CapturedInput>)
        ensures
            input == self.live_input(live_epoch),
    {
        if self.epoch == live_epoch {
            Some(self.input)
        } else {
            None
        }
    }
}

/// Monotonic generation shared by projection owners and the capture manager.
#[derive(Debug)]
pub struct CaptureEpoch {
    value: SharedCounter,
}

impl Clone for CaptureEpoch {
    /// Another handle on the same generation.
    fn clone(&self) -> (copy: Self)
        ensures
            copy == *self,
    {
        CaptureEpoch { value: self.value.clone() }
    }
}

impl Default for CaptureEpoch {
    fn default() -> (epoch: Self) {
        CaptureEpoch { value: SharedCounter::default() }
    }
}

/// Evidence that a new capture epoch was started. Only [`CaptureEpoch::invalidate`]
/// makes one.
#[derive(Debug)]
pub struct EpochStart {
    step: CountStep,
}

impl EpochStart {
    /// The epoch that was superseded.
    pub closed spec fn superseded(&self) -> u64 {
        self.step.found()
    }

    /// The epoch that was started.
    pub closed spec fn started(&self) -> u64 {
        self.step.stored()
    }

    /// The counter that the step was made on.
    pub closed spec fn counted_on(&self) -> SharedCounter {
        self.step.source()
    }

    /// Whether the epoch was started in this generation, as the one after the one that
    /// was live.
    pub closed spec fn is_of(&self, generation: CaptureEpoch) -> bool {
        &&& self.step.source() == generation.counter()
        &&& self.started() == shared::count_after(self.superseded())
    }

    /// The epoch that was started.
    #[must_use]
    pub fn epoch(&self) -> (epoch: u64)
        ensures
            epoch == self.started(),
    {
        self.step.count()
    }
}

impl CaptureEpoch {
    /// The counter of epochs.
    pub closed spec fn counter(&self) -> SharedCounter {
        self.value
    }

    /// The live epoch. It is shared, so any value is possible here.
    #[must_use]
    pub fn current(&self) -> (epoch: u64)
        ensures
            exists|reading: CountReading|
                reading.source() == self.counter() && epoch == #[trigger] reading.value(),
    {
        self.read().count()
    }

    /// Read the live epoch. It is shared, so any value is possible.
    #[must_use]
    pub fn read(&self) -> (reading: CountReading)
        ensures
            reading.source() == self.counter(),
    {
        self.value.read()
    }

    /// Start a new epoch, invalidating input captured in earlier ones. It is the
    /// one after whatever epoch was live.
    pub fn invalidate(&self) -> (start: EpochStart)
        ensures
            start.is_of(*self),
    {
        EpochStart { step: self.value.advance() }
    }

    /// The message's input, unless its epoch has been superseded.
    #[must_use]
    pub fn take_current(&self, message: &SessionInput) -> (input: Option<CapturedInput>)
        ensures
            exists|reading: CountReading|
                reading.source() == self.counter() && input == #[trigger] message.live_input(
                    reading.value(),
                ),
    {
        self.take_current_now(message).0
    }

    /// The message's input, unless its epoch has been superseded, with the reading of
    /// the live epoch that says so.
    #[must_use]
    pub fn take_current_now(&self, message: &SessionInput) -> (outcome: (
        Option<CapturedInput>,
        CountReading,
    ))
        ensures
            outcome.1.source() == self.counter(),
            outcome.0 == message.live_input(outcome.1.value()),
    {
        let reading = self.read();
        (message.taken_at(reading.count()), reading)
    }
}

/// Starting an epoch drops what was captured before it: input of the epoch that was
/// live, still queued when any number of new ones have been started since, is taken
/// in none of them (short of a full turn of the 64-bit counter), while input of the
/// newest one is taken as it is.
pub proof fn law_superseded_input_is_dropped(message: SessionInput, starts: nat)
    requires
        starts < 0x1_0000_0000_0000_0000,
    ensures
        message.live_input(message.epoch) == Some(message.input),
        starts > 0 ==> message.live_input(
            shared::count_after_many(message.epoch, starts),
        ) is None,
{
    shared::lemma_count_after_many(message.epoch, starts);
}

/// Shared invalidation state for HID capture sessions.
#[derive(Clone)]
pub struct CaptureSessionControl {
    /// The epoch that invalidates already-queued input from superseded sessions.
    pub epoch: CaptureEpoch,
    /// Arbitration with the OS hook.
    pub gesture_coordinator: GestureCoordinator,
}

impl CaptureSessionControl {
    /// Couple the capture epoch with the gesture arbitration.
    #[must_use]
    pub fn new(epoch: CaptureEpoch, gesture_coordinator: GestureCoordinator) -> (control: Self)
        ensures
            control.epoch == epoch,
            control.gesture_coordinator == gesture_coordinator,
    {
        CaptureSessionControl { epoch, gesture_coordinator }
    }
}

/// Rotation increments that fire a custom wheel action at a sensitivity.
pub open spec fn threshold_at(sensitivity: i32) -> int {
    let increments = 2 * DEFAULT_THUMBWHEEL_SENSITIVITY - sensitivity;
    if increments > 1 {
        increments
    } else {
        1
    }
}

/// Rotation increments required to fire a custom (non-scroll) wheel action.
/// Higher sensitivity means fewer increments; always at least one.
#[must_use]
pub fn action_threshold(sensitivity: i32) -> (increments: i32)
    requires
        2 * DEFAULT_THUMBWHEEL_SENSITIVITY - sensitivity <= i32::MAX,
    ensures
        increments == threshold_at(sensitivity),
{
    let wide: i64 = 2 * DEFAULT_THUMBWHEEL_SENSITIVITY as i64 - sensitivity as i64;
    if wide > 1 {
        wide as i32
    } else {
        1
    }
}

/// The button's action differs from its default.
pub open spec fn rebound(slot: Option<Action>, button: ButtonId) -> bool {
    slot matches Some(action) && !action.same_as(default_action(button))
}

/// The thumb wheel has to be diverted.
pub open spec fn wheel_armed(maps: Option<HookMaps>, sensitivity: i32) -> bool {
    sensitivity != DEFAULT_THUMBWHEEL_SENSITIVITY || (maps matches Some(maps) && (rebound(
        maps.bindings.thumbwheel,
        ButtonId::Thumbwheel,
    ) || rebound(maps.bindings.thumbwheel_scroll_up, ButtonId::ThumbwheelScrollUp) || rebound(
        maps.bindings.thumbwheel_scroll_down,
        ButtonId::ThumbwheelScrollDown,
    )))
}

/// Whether a button's action differs from its default.
fn is_rebound(slot: &Option<Action>, button: ButtonId) -> (differs: bool)
    ensures
        differs == rebound(*slot, button),
{
    match slot {
        Some(action) => !(*action == default_binding(button)),
        None => false,
    }
}

/// Whether the thumb wheel must be diverted over HID++ (which suppresses native
/// scroll): when the sensitivity leaves its default, or when the click or either
/// rotation direction is rebound. Maps that cannot be read count as unchanged.
#[must_use]
pub fn thumbwheel_armed(maps: Option<&HookMaps>, sensitivity: i32) -> (armed: bool)
    ensures
        armed == wheel_armed(crate::hook_runtime::opt_maps(maps), sensitivity),
{
    if sensitivity != DEFAULT_THUMBWHEEL_SENSITIVITY {
        return true;
    }
    match maps {
        Some(maps) => is_rebound(&maps.bindings.thumbwheel, ButtonId::Thumbwheel) || is_rebound(
            &maps.bindings.thumbwheel_scroll_up,
            ButtonId::ThumbwheelScrollUp,
        ) || is_rebound(&maps.bindings.thumbwheel_scroll_down, ButtonId::ThumbwheelScrollDown),
        None => false,
    }
}

/// What a capture session diverts.
#[derive(Clone, Copy, Debug, PartialEq, Eq, Structural)]
pub struct CaptureRequest {
    /// Whether the thumb wheel is diverted.
    pub capture_thumbwheel: bool,
    /// The diverted gesture buttons.
    pub gesture_buttons: ButtonSet,
}

/// Build the capture request from the effective gesture modes. The manager
/// restarts the session whenever the request changes.
#[must_use]
pub fn capture_request(capture_thumbwheel: bool, modes: &ButtonMap<GestureMode>) -> (request:
    CaptureRequest)
    ensures
        request.capture_thumbwheel == capture_thumbwheel,
        forall|button: ButtonId| #[trigger]
            request.gesture_buttons.has(button) == (modes.slot(button) is Some),
{
    CaptureRequest { capture_thumbwheel, gesture_buttons: modes.keys() }
}

/// Whether a finished capture session should make the manager re-arm: it is the
/// current one (not one already superseded by a deliberate restart) and a target
/// is still set (not a deliberate stop to idle).
#[must_use]
pub fn should_rearm(done_epoch: u64, live_epoch: u64, has_target: bool) -> (rearm: bool)
    ensures
        rearm == (done_epoch == live_epoch && has_target),
{
    done_epoch == live_epoch && has_target
}

/// What a gesture event asks for.
#[derive(Debug)]
pub enum GestureOutput {
    /// Nothing.
    Idle,
    /// Fire this action.
    Action(Action),
    /// Inject this Pan motion.
    PanDelta {
        /// Horizontal amount.
        x: i32,
        /// Vertical amount.
        y: i32,
    },
    /// A gesture ended without anything to fire.
    End,
}

impl PartialEq for GestureOutput {
    fn eq(&self, other: &Self) -> (same: bool) {
        match (self, other) {
            (GestureOutput::Idle, GestureOutput::Idle) => true,
            (GestureOutput::End, GestureOutput::End) => true,
            (GestureOutput::Action(a), GestureOutput::Action(b)) => *a == *b,
            (GestureOutput::PanDelta { x, y }, GestureOutput::PanDelta { x: u, y: v }) => *x == *u
                && *y == *v,
            _ => false,
        }
    }
}

impl Eq for GestureOutput {

}

impl vstd::std_specs::cmp::PartialEqSpecImpl for GestureOutput {
    open spec fn obeys_eq_spec() -> bool {
        true
    }

    open spec fn eq_spec(&self, other: &Self) -> bool {
        match (*self, *other) {
            (GestureOutput::Action(a), GestureOutput::Action(b)) => a.same_as(b),
            (a, b) => a == b,
        }
    }
}

/// The gesture lifecycle that the watcher is interpreting.
pub struct GestureDispatchState {
    /// Arbitration with the OS hook.
    pub coordinator: GestureCoordinator,
    /// Projection generation when the press arrived.
    pub generation: u64,
    /// The press, and with it its place in the arbitration.
    pub press: Option<GesturePress>,
    /// The held button.
    pub button: Option<ButtonId>,
    /// The button's mode when the press arrived.
    pub mode: Option<GestureMode>,
    /// Swipe travel.
    pub swipe: SwipeAccumulator,
    /// Pan motion.
    pub pan: PanAccumulator,
}

/// The content of a [`GestureDispatchState`], except for the arbitration counter.
pub struct DispatchModel {
    /// Projection generation when the press arrived.
    pub generation: u64,
    /// Whether the press has a place in the arbitration.
    pub coordinated: bool,
    /// The held button.
    pub button: Option<ButtonId>,
    /// The button's mode when the press arrived.
    pub mode: Option<GestureMode>,
    /// Swipe travel.
    pub swipe: SwipeState,
    /// Pan motion.
    pub pan: PanPhase,
}

impl View for GestureDispatchState {
    type V = DispatchModel;

    open spec fn view(&self) -> DispatchModel {
        DispatchModel {
            generation: self.generation,
            coordinated: self.press is Some,
            button: self.button,
            mode: self.mode,
            swipe: self.swipe@,
            pan: self.pan@,
        }
    }
}

impl DispatchModel {
    /// No gesture.
    pub open spec fn idle() -> DispatchModel {
        DispatchModel {
            generation: 0,
            coordinated: false,
            button: None,
            mode: None,
            swipe: SwipeState::idle(),
            pan: PanPhase::Released,
        }
    }

    /// The gesture abandoned.
    pub open spec fn cancelled(self) -> DispatchModel {
        DispatchModel {
            coordinated: false,
            button: None,
            mode: None,
            swipe: self.swipe.released(),
            pan: PanPhase::Released,
            ..self
        }
    }

    /// Whether the gesture is this button's, of this projection generation, for
    /// the mode the button still has, and of the newest press.
    pub open spec fn stands(
        self,
        generation: u64,
        button: ButtonId,
        mode: GestureMode,
        newest: bool,
    ) -> bool {
        &&& self.button == Some(button)
        &&& self.generation == generation
        &&& self.mode matches Some(held)
        &&& held.same_as(mode)
        &&& self.coordinated
        &&& newest
    }

    /// A press: it takes over from any gesture in progress, unless the button is
    /// not in gesture mode.
    pub open spec fn pressed(
        self,
        generation: u64,
        button: ButtonId,
        mode: Option<GestureMode>,
    ) -> DispatchModel {
        match mode {
            None => if self.button == Some(button) {
                self.cancelled()
            } else {
                self
            },
            Some(mode) => DispatchModel {
                generation,
                coordinated: true,
                button: Some(button),
                mode: Some(mode),
                swipe: if mode is Directional {
                    SwipeState::fresh(true)
                } else {
                    self.swipe.released()
                },
                pan: if mode is Pan {
                    PanPhase::Pending { x: 0, y: 0 }
                } else {
                    PanPhase::Released
                },
            },
        }
    }

    /// Motion of a gesture that stands.
    pub open spec fn moved(self, mode: GestureMode, dx: i32, dy: i32) -> (
        DispatchModel,
        GestureOutput,
    ) {
        match mode {
            GestureMode::Directional(directions) => {
                let (swipe, commit) = self.swipe.moved(dx, dy, true);
                (
                    DispatchModel { swipe, ..self },
                    match commit {
                        Some(direction) => slot_output(directions.slot(direction)),
                        None => GestureOutput::Idle,
                    },
                )
            },
            GestureMode::Pan(_) => {
                let (pan, output) = self.pan.moved(dx, dy);
                (
                    DispatchModel { pan, ..self },
                    match output {
                        PanOutput::Delta { x, y } => GestureOutput::PanDelta { x, y },
                        _ => GestureOutput::Idle,
                    },
                )
            },
        }
    }

    /// Release of a gesture that stands.
    pub open spec fn released(self, mode: GestureMode) -> (DispatchModel, GestureOutput) {
        let freed = DispatchModel { button: None, mode: None, coordinated: false, ..self };
        match mode {
            GestureMode::Directional(directions) => (
                DispatchModel { swipe: self.swipe.released(), ..freed },
                if self.swipe.release_is_click() {
                    slot_output(directions.click)
                } else {
                    GestureOutput::End
                },
            ),
            GestureMode::Pan(pan) => (
                DispatchModel { pan: PanPhase::Released, ..freed },
                match self.pan.release_output() {
                    PanOutput::Click => GestureOutput::Action(pan.click),
                    PanOutput::End => GestureOutput::End,
                    _ => GestureOutput::Idle,
                },
            ),
        }
    }

    /// The gesture and the output after one raw input. `newest` says whether the
    /// gesture is of the newest press.
    pub open spec fn step(
        self,
        generation: u64,
        modes: ButtonMap<GestureMode>,
        input: CapturedInput,
        newest: bool,
    ) -> (DispatchModel, GestureOutput) {
        match input {
            CapturedInput::GesturePressed(button) => (
                self.pressed(generation, button, modes.slot(button)),
                GestureOutput::Idle,
            ),
            CapturedInput::GestureMotion { button, delta_x, delta_y } => {
                if self.button != Some(button) {
                    (self, GestureOutput::Idle)
                } else {
                    match modes.slot(button) {
                        Some(mode) if self.stands(generation, button, mode, newest) => self.moved(
                            mode,
                            delta_x as i32,
                            delta_y as i32,
                        ),
                        _ => (self.cancelled(), GestureOutput::End),
                    }
                }
            },
            CapturedInput::GestureReleased(button) => {
                if self.button != Some(button) {
                    (self, GestureOutput::Idle)
                } else {
                    match modes.slot(button) {
                        Some(mode) if self.stands(generation, button, mode, newest) => self.released(
                            mode,
                        ),
                        _ => (self.cancelled(), GestureOutput::Idle),
                    }
                }
            },
            CapturedInput::GestureCancelled(button) => {
                if self.button != Some(button) {
                    (self, GestureOutput::Idle)
                } else {
                    (self.cancelled(), GestureOutput::End)
                }
            },
            CapturedInput::ButtonPressed(_) | CapturedInput::Scroll(_) => (
                self,
                GestureOutput::Idle,
            ),
        }
    }
}

/// An optional action as an output.
pub open spec fn slot_output(slot: Option<Action>) -> GestureOutput {
    match slot {
        Some(action) => GestureOutput::Action(action),
        None => GestureOutput::Idle,
    }
}

impl Default for GestureDispatchState {
    fn default() -> (state: Self)
        ensures
            state@ == DispatchModel::idle(),
    {
        GestureDispatchState::new(GestureCoordinator::default())
    }
}

/// The action of a direction as an output.
fn direction_output(directions: &DirectionMap, direction: GestureDirection) -> (output:
    GestureOutput)
    ensures
        output == slot_output(directions.slot(direction)),
{
    match directions.get(direction) {
        Some(action) => GestureOutput::Action(action.clone()),
        None => GestureOutput::Idle,
    }
}

impl GestureDispatchState {
    /// No gesture, taking part in this arbitration.
    #[must_use]
    pub fn new(coordinator: GestureCoordinator) -> (state: Self)
        ensures
            state@ == DispatchModel::idle(),
            state.coordinator == coordinator,
    {
        GestureDispatchState {
            coordinator,
            generation: 0,
            press: None,
            button: None,
            mode: None,
            swipe: SwipeAccumulator::default(),
            pan: PanAccumulator::default(),
        }
    }

    /// Abandon the gesture without firing anything.
    pub fn cancel(&mut self)
        ensures
            final(self)@ == old(self)@.cancelled(),
            final(self).coordinator == old(self).coordinator,
    {
        let _ = self.swipe.end();
        let _ = self.pan.cancel();
        self.button = None;
        self.mode = None;
        self.press = None;
    }

    /// Begin a gesture of `button`, abandoning any in progress, given its press.
    pub fn begin_gesture(
        &mut self,
        generation: u64,
        button: ButtonId,
        mode: &GestureMode,
        press: GesturePress,
    )
        ensures
            final(self)@ == old(self)@.pressed(generation, button, Some(*mode)),
            final(self).press == Some(press),
            final(self).coordinator == old(self).coordinator,
    {
        self.cancel();
        self.generation = generation;
        self.press = Some(press);
        self.button = Some(button);
        self.mode = Some(mode.clone());
        match mode {
            GestureMode::Directional(_) => self.swipe.begin_immediate(),
            GestureMode::Pan(_) => self.pan.begin(),
        }
    }

    /// Whether the gesture's part in the arbitration follows from the one before: the
    /// same coordinator, with a press that it counted when a gesture has begun, and
    /// the same press while one goes on.
    pub open spec fn arbitrates_from(&self, before: GestureDispatchState, begun: bool) -> bool {
        &&& self.coordinator == before.coordinator
        &&& if begun {
            self.press matches Some(press) && press.is_of(before.coordinator)
        } else {
            self@.coordinated ==> self.press == before.press
        }
    }

    /// Whether the gesture is of the newest press when the counter of presses holds
    /// `count`.
    pub open spec fn newest_at(&self, count: u64) -> bool {
        self.press matches Some(press) && press.token().stands_for(count)
    }

    /// Whether the gesture is of the newest press, going by a reading of its
    /// coordinator.
    #[must_use]
    pub fn newest_by(&self, reading: &CountReading) -> (newest: bool)
        requires
            reading.source() == self.coordinator.counter(),
        ensures
            newest == self.newest_at(reading.value()),
    {
        match &self.press {
            Some(press) => press.get_token().matches(reading.count()),
            None => false,
        }
    }

    /// Whether the gesture is of the newest press. The OS hook may acquire a
    /// newer one at any time, so for a gesture that takes part in the arbitration
    /// either answer is possible.
    #[must_use]
    pub fn is_newest(&self) -> (newest: bool)
        ensures
            exists|reading: CountReading|
                reading.source() == self.coordinator.counter() && newest == #[trigger] self.newest_at(
                    reading.value(),
                ),
    {
        let reading = self.coordinator.read();
        self.newest_by(&reading)
    }
}

/// Whether the gesture in progress may go on, given whether it is of the newest
/// press.
#[must_use]
pub fn gesture_is_current(
    gesture: &GestureDispatchState,
    generation: u64,
    button: ButtonId,
    mode: &GestureMode,
    newest: bool,
) -> (current: bool)
    ensures
        current == gesture@.stands(generation, button, *mode, newest),
{
    let held = match gesture.button {
        Some(held) => held == button,
        None => false,
    };
    let same_mode = match &gesture.mode {
        Some(held) => *held == *mode,
        None => false,
    };
    held && gesture.generation == generation && same_mode && gesture.press.is_some() && newest
}

/// Whether an input begins a gesture: the press of a button in gesture mode.
pub open spec fn begins_gesture(modes: ButtonMap<GestureMode>, input: CapturedInput) -> bool {
    input matches CapturedInput::GesturePressed(button) && modes.slot(button) is Some
}

/// Interpret one raw HID++ gesture event. Directional swipes commit once during
/// motion; release produces a click only when no direction committed; cancel only
/// resets the hold.
pub fn advance_gesture(
    gesture: &mut GestureDispatchState,
    generation: u64,
    modes: &ButtonMap<GestureMode>,
    input: CapturedInput,
) -> (output: GestureOutput)
    ensures
        exists|reading: CountReading|
            reading.source() == old(gesture).coordinator.counter() && (final(gesture)@, output)
                == old(gesture)@.step(
                generation,
                *modes,
                input,
                #[trigger] old(gesture).newest_at(reading.value()),
            ),
        final(gesture).arbitrates_from(*old(gesture), begins_gesture(*modes, input)),
{
    advance_gesture_now(gesture, generation, modes, input).0
}

/// Interpret one raw HID++ gesture event, with the reading of the coordinator that says
/// whether the gesture in progress is of the newest press.
pub fn advance_gesture_now(
    gesture: &mut GestureDispatchState,
    generation: u64,
    modes: &ButtonMap<GestureMode>,
    input: CapturedInput,
) -> (outcome: (GestureOutput, CountReading))
    ensures
        outcome.1.source() == old(gesture).coordinator.counter(),
        (final(gesture)@, outcome.0) == old(gesture)@.step(
            generation,
            *modes,
            input,
            old(gesture).newest_at(outcome.1.value()),
        ),
        final(gesture).arbitrates_from(*old(gesture), begins_gesture(*modes, input)),
{
    let reading = gesture.coordinator.read();
    let newest = gesture.newest_by(&reading);
    (step_gesture(gesture, generation, modes, input, newest), reading)
}

/// Interpret one raw HID++ gesture event, given whether the gesture in progress
/// is of the newest press.
pub fn step_gesture(
    gesture: &mut GestureDispatchState,
    generation: u64,
    modes: &ButtonMap<GestureMode>,
    input: CapturedInput,
    newest: bool,
) -> (output: GestureOutput)
    ensures
        (final(gesture)@, output) == old(gesture)@.step(generation, *modes, input, newest),
        final(gesture).arbitrates_from(*old(gesture), begins_gesture(*modes, input)),
{
    match input {
        CapturedInput::GesturePressed(button) => {
            let mode = match modes.get(button) {
                Some(mode) => mode,
                None => {
                    if holds(gesture, button) {
                        gesture.cancel();
                    }
                    return GestureOutput::Idle;
                },
            };
            let press = gesture.coordinator.press();
            gesture.begin_gesture(generation, button, mode, press);
            GestureOutput::Idle
        },
        CapturedInput::GestureMotion { button, delta_x, delta_y } => {
            if !holds(gesture, button) {
                return GestureOutput::Idle;
            }
            let mode = match modes.get(button) {
                Some(mode) => mode,
                None => {
                    gesture.cancel();
                    return GestureOutput::End;
                },
            };
            if !gesture_is_current(gesture, generation, button, mode, newest) {
                gesture.cancel();
                return GestureOutput::End;
            }
            match mode {
                GestureMode::Directional(directions) => {
                    match gesture.swipe.accumulate_gated(delta_x as i32, delta_y as i32, true) {
                        Some(direction) => direction_output(directions, direction),
                        None => GestureOutput::Idle,
                    }
                },
                GestureMode::Pan(_) => {
                    match gesture.pan.accumulate(delta_x as i32, delta_y as i32) {
                        PanOutput::Delta { x, y } => GestureOutput::PanDelta { x, y },
                        _ => GestureOutput::Idle,
                    }
                },
            }
        },
        CapturedInput::GestureReleased(button) => {
            if !holds(gesture, button) {
                return GestureOutput::Idle;
            }
            let mode = match modes.get(button) {
                Some(mode) => mode,
                None => {
                    gesture.cancel();
                    return GestureOutput::Idle;
                },
            };
            if !gesture_is_current(gesture, generation, button, mode, newest) {
                gesture.cancel();
                return GestureOutput::Idle;
            }
            gesture.button = None;
            gesture.mode = None;
                gesture.press = None;
            match mode {
                GestureMode::Directional(directions) => {
                    if gesture.swipe.end() {
                        direction_output(directions, GestureDirection::Click)
                    } else {
                        GestureOutput::End
                    }
                },
                GestureMode::Pan(pan) => match gesture.pan.end() {
                    PanOutput::Click => GestureOutput::Action(pan.click.clone()),
                    PanOutput::End => GestureOutput::End,
                    _ => GestureOutput::Idle,
                },
            }
        },
        CapturedInput::GestureCancelled(button) => {
            if holds(gesture, button) {
                gesture.cancel();
                GestureOutput::End
            } else {
                GestureOutput::Idle
            }
        },
        CapturedInput::ButtonPressed(_) | CapturedInput::Scroll(_) => GestureOutput::Idle,
    }
}

/// Whether a gesture of this button is in progress.
fn holds(gesture: &GestureDispatchState, button: ButtonId) -> (held: bool)
    ensures
        held == (gesture@.button == Some(button)),
{
    match gesture.button {
        Some(held) => held == button,
        None => false,
    }
}

/// Running state for one rotation direction's custom action.
#[derive(Clone, Copy, Debug, PartialEq, Eq, Structural)]
pub struct WheelDirection {
    /// Rotation increments since the last fire.
    pub action: i32,
    /// When the last rotation arrived, in nanoseconds (decay clock).
    pub last_event: Option<u64>,
    /// When the custom action last fired, in nanoseconds (cooldown clock).
    pub last_fired: Option<u64>,
}

/// What a rotation asks for.
#[derive(Clone, Copy, Debug, PartialEq, Eq, Structural)]
pub enum WheelOutput {
    /// Below threshold or suppressed.
    Idle,
    /// Scroll horizontally by the rotation.
    Scroll {
        /// Whether to the right.
        right: bool,
    },
    /// Fire the direction's bound custom action.
    FireAction,
}

/// Time between two readings of the clock; zero when it seems to run backwards.
pub open spec fn gap(now: u64, since: u64) -> int {
    if now >= since {
        now - since
    } else {
        0
    }
}

impl WheelDirection {
    /// Nothing accumulated.
    pub open spec fn fresh() -> WheelDirection {
        WheelDirection { action: 0, last_event: None, last_fired: None }
    }

    /// Increments that have not decayed at this time.
    pub open spec fn live_increments(self, now: u64) -> int {
        match self.last_event {
            Some(event) if gap(now, event) > ACTION_DECAY => 0,
            _ => self.action as int,
        }
    }

    /// Whether the custom action fired too recently to fire again.
    pub open spec fn cooling(self, now: u64) -> bool {
        self.last_fired matches Some(fired) && gap(now, fired) < ACTION_COOLDOWN
    }

    /// Whether a rotation counts towards a custom action at this time.
    pub open spec fn counts(self, action: Action, now: u64) -> bool {
        &&& !(action is DoNothing)
        &&& !(action is HorizontalScrollRight)
        &&& !(action is HorizontalScrollLeft)
        &&& !self.cooling(now)
    }

    /// The accumulator and the output after a rotation.
    pub open spec fn advanced(
        self,
        action: Action,
        magnitude: i32,
        sensitivity: i32,
        now: u64,
    ) -> (WheelDirection, WheelOutput) {
        match action {
            Action::DoNothing => (self, WheelOutput::Idle),
            Action::HorizontalScrollRight => (self, WheelOutput::Scroll { right: true }),
            Action::HorizontalScrollLeft => (self, WheelOutput::Scroll { right: false }),
            _ => {
                let live = self.live_increments(now);
                if self.cooling(now) {
                    (
                        WheelDirection { action: live as i32, last_event: Some(now), ..self },
                        WheelOutput::Idle,
                    )
                } else if live + magnitude >= threshold_at(sensitivity) {
                    (
                        WheelDirection {
                            action: 0,
                            last_event: Some(now),
                            last_fired: Some(now),
                        },
                        WheelOutput::FireAction,
                    )
                } else {
                    (
                        WheelDirection {
                            action: (live + magnitude) as i32,
                            last_event: Some(now),
                            ..self
                        },
                        WheelOutput::Idle,
                    )
                }
            },
        }
    }
}

impl Default for WheelDirection {
    fn default() -> (direction: Self)
        ensures
            direction == WheelDirection::fresh(),
    {
        WheelDirection { action: 0, last_event: None, last_fired: None }
    }
}

/// Time between two readings of the clock; zero when it seems to run backwards.
fn elapsed(now: u64, since: u64) -> (nanos: u64)
    ensures
        nanos == gap(now, since),
{
    if now >= since {
        now - since
    } else {
        0
    }
}

/// Advance one direction's accumulator by `magnitude` rotation increments and
/// decide what to do. A horizontal scroll action scrolls continuously; any other
/// action fires once per [`action_threshold`] increments, with decay (stale
/// partial progress is forgotten) and cooldown (one flick fires once). `now` is a
/// monotonic reading in nanoseconds.
pub fn advance(
    direction: &mut WheelDirection,
    action: &Action,
    magnitude: i32,
    sensitivity: i32,
    now: u64,
) -> (output: WheelOutput)
    requires
        old(direction).counts(*action, now) ==> threshold_at(sensitivity) <= i32::MAX && old(
            direction,
        ).live_increments(now) + magnitude >= i32::MIN,
    ensures
        (*final(direction), output) == old(direction).advanced(*action, magnitude, sensitivity, now),
{
    match action {
        Action::DoNothing => WheelOutput::Idle,
        Action::HorizontalScrollRight => WheelOutput::Scroll { right: true },
        Action::HorizontalScrollLeft => WheelOutput::Scroll { right: false },
        _ => {
            if let Some(event) = direction.last_event {
                if elapsed(now, event) > ACTION_DECAY {
                    direction.action = 0;
                }
            }
            direction.last_event = Some(now);
            if let Some(fired) = direction.last_fired {
                if elapsed(now, fired) < ACTION_COOLDOWN {
                    return WheelOutput::Idle;
                }
            }
            let total: i64 = direction.action as i64 + magnitude as i64;
            if total >= action_threshold(sensitivity) as i64 {
                direction.action = 0;
                direction.last_fired = Some(now);
                WheelOutput::FireAction
            } else {
                direction.action = total as i32;
                WheelOutput::Idle
            }
        },
    }
}

/// Input interpretation state owned by the capture watcher. The two rotation
/// directions bind to independent actions, so each keeps its own total.
pub struct CaptureDispatchState {
    /// The gesture lifecycle.
    pub gesture: GestureDispatchState,
    /// Upward rotation.
    pub up: WheelDirection,
    /// Downward rotation.
    pub down: WheelDirection,
}

/// The content of a [`CaptureDispatchState`].
pub struct CaptureModel {
    /// The gesture lifecycle.
    pub gesture: DispatchModel,
    /// Upward rotation.
    pub up: WheelDirection,
    /// Downward rotation.
    pub down: WheelDirection,
}

impl View for CaptureDispatchState {
    type V = CaptureModel;

    open spec fn view(&self) -> CaptureModel {
        CaptureModel { gesture: self.gesture@, up: self.up, down: self.down }
    }
}

/// What a captured input asks for.
#[derive(Debug)]
pub enum DispatchEffect {
    /// Nothing.
    Idle,
    /// Fire this action.
    Act(Action),
    /// Inject this Pan motion.
    Pan {
        /// Horizontal amount.
        x: i32,
        /// Vertical amount.
        y: i32,
    },
    /// Scroll horizontally by this much rotation.
    Scroll {
        /// Which rotation direction it came from.
        up: bool,
        /// Whether to the right.
        right: bool,
        /// Rotation increments.
        magnitude: i32,
    },
}

/// The rotation direction's button.
pub open spec fn wheel_button(up: bool) -> ButtonId {
    if up {
        ButtonId::ThumbwheelScrollUp
    } else {
        ButtonId::ThumbwheelScrollDown
    }
}

/// A gesture's output as an effect.
pub open spec fn gesture_effect(output: GestureOutput) -> DispatchEffect {
    match output {
        GestureOutput::Action(action) => DispatchEffect::Act(action),
        GestureOutput::PanDelta { x, y } => DispatchEffect::Pan { x, y },
        _ => DispatchEffect::Idle,
    }
}

impl CaptureModel {
    /// The action of a rotation direction.
    pub open spec fn wheel_action(maps: Option<HookMaps>, up: bool) -> Action {
        match maps {
            Some(maps) => match maps.bindings.slot(wheel_button(up)) {
                Some(action) => action,
                None => default_action(wheel_button(up)),
            },
            None => default_action(wheel_button(up)),
        }
    }

    /// Whether an input is a rotation that counts towards a custom action at this
    /// time.
    pub open spec fn counts(self, input: CapturedInput, maps: Option<HookMaps>, now: u64) -> bool {
        &&& input matches CapturedInput::Scroll(rotation)
        &&& if rotation >= 0 {
            self.up.counts(CaptureModel::wheel_action(maps, true), now)
        } else {
            self.down.counts(CaptureModel::wheel_action(maps, false), now)
        }
    }

    /// The state and the effect of a thumb-wheel rotation.
    pub open spec fn rotated(
        self,
        rotation: i16,
        maps: Option<HookMaps>,
        sensitivity: i32,
        now: u64,
    ) -> (CaptureModel, DispatchEffect) {
        let up = rotation >= 0;
        let magnitude = crate::arith::abs(rotation as int) as i32;
        let action = CaptureModel::wheel_action(maps, up);
        let direction = if up {
            self.up
        } else {
            self.down
        };
        let (after, output) = direction.advanced(action, magnitude, sensitivity, now);
        (
            if up {
                CaptureModel { up: after, ..self }
            } else {
                CaptureModel { down: after, ..self }
            },
            match output {
                WheelOutput::Idle => DispatchEffect::Idle,
                WheelOutput::Scroll { right } => DispatchEffect::Scroll { up, right, magnitude },
                WheelOutput::FireAction => DispatchEffect::Act(action),
            },
        )
    }

    /// The state and the effect of a captured input. The gesture projection and
    /// the maps are absent when they cannot be read.
    pub open spec fn dispatched(
        self,
        input: CapturedInput,
        projection: Option<GestureBindingState>,
        maps: Option<HookMaps>,
        sensitivity: i32,
        now: u64,
        newest: bool,
    ) -> (CaptureModel, DispatchEffect) {
        match input {
            CapturedInput::ButtonPressed(button) => (
                self,
                match maps {
                    Some(maps) => match maps.bindings.slot(button) {
                        Some(action) => DispatchEffect::Act(action),
                        None => DispatchEffect::Idle,
                    },
                    None => DispatchEffect::Idle,
                },
            ),
            CapturedInput::Scroll(rotation) => self.rotated(rotation, maps, sensitivity, now),
            _ => match projection {
                Some(projection) => {
                    let (gesture, output) = self.gesture.step(
                        projection.generation,
                        projection.modes,
                        input,
                        newest,
                    );
                    (CaptureModel { gesture, ..self }, gesture_effect(output))
                },
                None => (
                    CaptureModel { gesture: self.gesture.cancelled(), ..self },
                    DispatchEffect::Idle,
                ),
            },
        }
    }
}

/// The projection behind an optional reference.
pub open spec fn opt_projection(projection: Option<&GestureBindingState>) -> Option<
    GestureBindingState,
> {
    match projection {
        Some(found) => Some(*found),
        None => None,
    }
}

impl CaptureDispatchState {
    /// Nothing in progress, taking part in this arbitration.
    #[must_use]
    pub fn new(coordinator: GestureCoordinator) -> (state: Self)
        ensures
            state@ == (CaptureModel {
                gesture: DispatchModel::idle(),
                up: WheelDirection::fresh(),
                down: WheelDirection::fresh(),
            }),
            state.gesture.coordinator == coordinator,
    {
        CaptureDispatchState {
            gesture: GestureDispatchState::new(coordinator),
            up: WheelDirection::default(),
            down: WheelDirection::default(),
        }
    }
}

/// Route one captured input to its bound action, Pan motion or scroll.
pub fn dispatch(
    input: CapturedInput,
    state: &mut CaptureDispatchState,
    projection: Option<&GestureBindingState>,
    maps: Option<&HookMaps>,
    sensitivity: i32,
    now: u64,
) -> (effect: DispatchEffect)
    requires
        old(state)@.counts(input, crate::hook_runtime::opt_maps(maps), now) ==> threshold_at(
            sensitivity,
        ) <= i32::MAX,
    ensures
        exists|reading: CountReading|
            reading.source() == old(state).gesture.coordinator.counter() && (final(state)@, effect)
                == old(state)@.dispatched(
                input,
                opt_projection(projection),
                crate::hook_runtime::opt_maps(maps),
                sensitivity,
                now,
                #[trigger] old(state).gesture.newest_at(reading.value()),
            ),
        final(state).gesture.arbitrates_from(
            old(state).gesture,
            opt_projection(projection) matches Some(p) && begins_gesture(p.modes, input),
        ),
{
    dispatch_now(input, state, projection, maps, sensitivity, now).0
}

/// Route one captured input, with the reading of the coordinator that says whether the
/// gesture in progress is of the newest press.
pub fn dispatch_now(
    input: CapturedInput,
    state: &mut CaptureDispatchState,
    projection: Option<&GestureBindingState>,
    maps: Option<&HookMaps>,
    sensitivity: i32,
    now: u64,
) -> (outcome: (DispatchEffect, CountReading))
    requires
        old(state)@.counts(input, crate::hook_runtime::opt_maps(maps), now) ==> threshold_at(
            sensitivity,
        ) <= i32::MAX,
    ensures
        outcome.1.source() == old(state).gesture.coordinator.counter(),
        (final(state)@, outcome.0) == old(state)@.dispatched(
            input,
            opt_projection(projection),
            crate::hook_runtime::opt_maps(maps),
            sensitivity,
            now,
            old(state).gesture.newest_at(outcome.1.value()),
        ),
        final(state).gesture.arbitrates_from(
            old(state).gesture,
            opt_projection(projection) matches Some(p) && begins_gesture(p.modes, input),
        ),
{
    let reading = state.gesture.coordinator.read();
    let newest = state.gesture.newest_by(&reading);
    (dispatch_given(input, state, projection, maps, sensitivity, now, newest), reading)
}

/// Route one captured input, given whether the gesture in progress is of the
/// newest press.
pub fn dispatch_given(
    input: CapturedInput,
    state: &mut CaptureDispatchState,
    projection: Option<&GestureBindingState>,
    maps: Option<&HookMaps>,
    sensitivity: i32,
    now: u64,
    newest: bool,
) -> (effect: DispatchEffect)
    requires
        old(state)@.counts(input, crate::hook_runtime::opt_maps(maps), now) ==> threshold_at(
            sensitivity,
        ) <= i32::MAX,
    ensures
        (final(state)@, effect) == old(state)@.dispatched(
            input,
            opt_projection(projection),
            crate::hook_runtime::opt_maps(maps),
            sensitivity,
            now,
            newest,
        ),
        final(state).gesture.arbitrates_from(
            old(state).gesture,
            opt_projection(projection) matches Some(p) && begins_gesture(p.modes, input),
        ),
{
    match input {
        CapturedInput::ButtonPressed(button) => {
            match maps {
                Some(maps) => match maps.bindings.get(button) {
                    Some(action) => DispatchEffect::Act(action.clone()),
                    None => DispatchEffect::Idle,
                },
                None => DispatchEffect::Idle,
            }
        },
        CapturedInput::Scroll(rotation) => {
            let up = rotation >= 0;
            let button = if up {
                ButtonId::ThumbwheelScrollUp
            } else {
                ButtonId::ThumbwheelScrollDown
            };
            let action = match maps {
                Some(maps) => match maps.bindings.get(button) {
                    Some(action) => action.clone(),
                    None => default_binding(button),
                },
                None => default_binding(button),
            };
            let magnitude: i32 = crate::arith::saturating_abs(rotation as i32);
            let output = if up {
                advance(&mut state.up, &action, magnitude, sensitivity, now)
            } else {
                advance(&mut state.down, &action, magnitude, sensitivity, now)
            };
            match output {
                WheelOutput::Idle => DispatchEffect::Idle,
                WheelOutput::Scroll { right } => DispatchEffect::Scroll { up, right, magnitude },
                WheelOutput::FireAction => DispatchEffect::Act(action),
            }
        },
        _ => {
            match projection {
                Some(projection) => {
                    match step_gesture(
                        &mut state.gesture,
                        projection.generation,
                        &projection.modes,
                        input,
                        newest,
                    ) {
                        GestureOutput::Action(action) => DispatchEffect::Act(action),
                        GestureOutput::PanDelta { x, y } => DispatchEffect::Pan { x, y },
                        _ => DispatchEffect::Idle,
                    }
                },
                None => {
                    state.gesture.cancel();
                    DispatchEffect::Idle
                },
            }
        },
    }
}

/// A capture session: the device, what is diverted, and the epoch it captures in.
#[derive(Debug)]
pub struct CaptureSession {
    /// The device.
    pub route: DeviceRoute,
    /// What is diverted.
    pub request: CaptureRequest,
    /// The epoch.
    pub epoch: u64,
}

impl CaptureSession {
    /// The same session parameters.
    pub open spec fn same_as(self, other: CaptureSession) -> bool {
        self.route.same_as(other.route) && self.request == other.request && self.epoch
            == other.epoch
    }
}

impl Clone for CaptureSession {
    fn clone(&self) -> (copy: Self)
        ensures
            copy == *self,
    {
        CaptureSession { route: self.route.clone(), request: self.request, epoch: self.epoch }
    }
}

/// Two optional sessions are both absent or the same.
pub open spec fn same_session(a: Option<CaptureSession>, b: Option<CaptureSession>) -> bool {
    match (a, b) {
        (Some(x), Some(y)) => x.same_as(y),
        (None, None) => true,
        _ => false,
    }
}

/// The session that should run: none while pairing owns the receiver or when no
/// device is targeted.
#[must_use]
pub fn wanted_session(
    pairing_requested: bool,
    target: Option<&DeviceRoute>,
    request: CaptureRequest,
    live_epoch: u64,
) -> (want: Option<CaptureSession>)
    ensures
        want is Some <==> !pairing_requested && target is Some,
        want matches Some(session) ==> session.route == *target->0 && session.request == request
            && session.epoch == live_epoch,
{
    if pairing_requested {
        return None;
    }
    match target {
        Some(route) => Some(CaptureSession { route: route.clone(), request, epoch: live_epoch }),
        None => None,
    }
}

/// What the manager does on a tick.
#[derive(Debug)]
pub enum TickAction {
    /// The running session is the wanted one.
    Keep,
    /// Stop the running session. The wanted one starts on a later tick.
    Stop {
        /// Whether there is a session to signal.
        signal: bool,
        /// Whether to start a new epoch.
        invalidate: bool,
    },
    /// Start this session, if the receiver can be had.
    Start {
        /// Whether there is an older session to signal.
        signal: bool,
        /// The session to start.
        session: CaptureSession,
    },
}

/// The capture manager: at most one session, and the interpretation of its input.
pub struct CaptureManager {
    /// The session believed to be running.
    pub current: Option<CaptureSession>,
    /// Whether a stop signal for it is held.
    pub stop_armed: bool,
    /// Input interpretation.
    pub dispatch: CaptureDispatchState,
}

impl CaptureManager {
    /// A stop signal is held exactly while a session runs.
    pub open spec fn wf(&self) -> bool {
        self.stop_armed == (self.current is Some)
    }

    /// No session, nothing in progress, taking part in the control's arbitration.
    #[must_use]
    pub fn new(control: &CaptureSessionControl) -> (manager: Self)
        ensures
            manager.wf(),
            manager.current is None,
            manager.dispatch@ == (CaptureModel {
                gesture: DispatchModel::idle(),
                up: WheelDirection::fresh(),
                down: WheelDirection::fresh(),
            }),
            manager.dispatch.gesture.coordinator == control.gesture_coordinator,
    {
        CaptureManager {
            current: None,
            stop_armed: false,
            dispatch: CaptureDispatchState::new(control.gesture_coordinator.clone()),
        }
    }

    /// Whether the running session is of the live epoch.
    pub open spec fn session_is_live(&self, live_epoch: u64) -> bool {
        self.current matches Some(session) && session.epoch == live_epoch
    }

    /// The input of a message that is to be dispatched: the running session and
    /// the message are both of the live epoch.
    pub open spec fn accepted(&self, message: SessionInput, live_epoch: u64) -> Option<
        CapturedInput,
    > {
        if self.session_is_live(live_epoch) {
            message.live_input(live_epoch)
        } else {
            None
        }
    }

    /// A message from a session arrived. Its input is to be dispatched only when
    /// the running session and the message are both of the live epoch; otherwise
    /// it is dropped and the gesture in progress is abandoned.
    pub fn accept(&mut self, message: &SessionInput, live_epoch: u64) -> (input: Option<
        CapturedInput,
    >)
        requires
            old(self).wf(),
        ensures
            final(self).wf(),
            input == old(self).accepted(*message, live_epoch),
            final(self).current == old(self).current,
            final(self).dispatch@ == if input is Some {
                old(self).dispatch@
            } else {
                CaptureModel {
                    gesture: old(self).dispatch@.gesture.cancelled(),
                    ..old(self).dispatch@
                }
            },
            input is Some ==> final(self).dispatch == old(self).dispatch,
            final(self).dispatch.gesture.coordinator == old(self).dispatch.gesture.coordinator,
    {
        let live = match &self.current {
            Some(session) => session.epoch == live_epoch,
            None => false,
        };
        let input = if live {
            message.taken_at(live_epoch)
        } else {
            None
        };
        if input.is_none() {
            self.dispatch.gesture.cancel();
        }
        input
    }

    /// The periodic look at what should run. A change first stops the running
    /// session; the wanted one is started on a later tick, when none runs.
    pub fn tick(&mut self, want: Option<CaptureSession>) -> (action: TickAction)
        requires
            old(self).wf(),
        ensures
            final(self).wf(),
            match action {
                TickAction::Keep => {
                    &&& same_session(want, old(self).current)
                    &&& final(self).current == old(self).current
                    &&& final(self).dispatch == old(self).dispatch
                },
                TickAction::Stop { signal, invalidate } => {
                    &&& !same_session(want, old(self).current)
                    &&& old(self).current is Some
                    &&& final(self).current is None
                    &&& signal
                    &&& invalidate == (want is None)
                },
                TickAction::Start { signal, session } => {
                    &&& old(self).current is None
                    &&& final(self).current is None
                    &&& !signal
                    &&& want == Some(session)
                },
            },
            !(action is Keep) ==> final(self).dispatch@ == (CaptureModel {
                gesture: old(self).dispatch@.gesture.cancelled(),
                ..old(self).dispatch@
            }),
            final(self).dispatch.gesture.coordinator == old(self).dispatch.gesture.coordinator,
    {
        let unchanged = match (&want, &self.current) {
            (Some(a), Some(b)) => a.route == b.route && a.request == b.request && a.epoch
                == b.epoch,
            (None, None) => true,
            _ => false,
        };
        if unchanged {
            return TickAction::Keep;
        }
        self.dispatch.gesture.cancel();
        let signal = self.stop_armed;
        self.stop_armed = false;
        let running = self.current.take();
        match want {
            Some(session) => if running.is_some() {
                TickAction::Stop { signal, invalidate: false }
            } else {
                TickAction::Start { signal, session }
            },
            None => TickAction::Stop { signal, invalidate: true },
        }
    }

    /// The session has been started, with its stop signal in hand.
    pub fn started(&mut self, session: CaptureSession)
        requires
            old(self).wf(),
        ensures
            final(self).wf(),
            final(self).current == Some(session),
            final(self).dispatch == old(self).dispatch,
    {
        self.current = Some(session);
        self.stop_armed = true;
    }

    /// A session ended. Returns whether it ended unexpectedly: then the epoch is
    /// to be invalidated, and the next tick starts a fresh session.
    pub fn finished(&mut self, done_epoch: u64, live_epoch: u64) -> (rearm: bool)
        requires
            old(self).wf(),
        ensures
            final(self).wf(),
            rearm == (done_epoch == live_epoch && old(self).current is Some),
            rearm ==> final(self).current is None && final(self).dispatch@ == (CaptureModel {
                gesture: old(self).dispatch@.gesture.cancelled(),
                ..old(self).dispatch@
            }),
            !rearm ==> final(self).current == old(self).current && final(self).dispatch == old(
                self,
            ).dispatch,
            final(self).dispatch.gesture.coordinator == old(self).dispatch.gesture.coordinator,
    {
        if should_rearm(done_epoch, live_epoch, self.current.is_some()) {
            self.dispatch.gesture.cancel();
            self.current = None;
            self.stop_armed = false;
            return true;
        }
        false
    }
}

/// Higher sensitivity never needs more increments, and at least one is always
/// needed.
pub proof fn law_threshold_drops_with_sensitivity(low: i32, high: i32)
    requires
        low <= high,
    ensures
        threshold_at(high) <= threshold_at(low),
        threshold_at(high) >= 1,
        threshold_at(DEFAULT_THUMBWHEEL_SENSITIVITY) == DEFAULT_THUMBWHEEL_SENSITIVITY,
{
}

/// A newer press owns the lifecycle: motion and releases of the button held
/// before are ignored and leave the new gesture as it is.
pub proof fn law_newest_press_owns_lifecycle(
    state: DispatchModel,
    generation: u64,
    modes: ButtonMap<GestureMode>,
    first: ButtonId,
    second: ButtonId,
    dx: i16,
    dy: i16,
    newest: bool,
)
    requires
        first != second,
        modes.slot(second) is Some,
    ensures
        ({
            let held = state.step(
                generation,
                modes,
                CapturedInput::GesturePressed(second),
                newest,
            ).0;
            &&& held.button == Some(second)
            &&& held.step(generation, modes, CapturedInput::GestureReleased(first), newest) == (
                held,
                GestureOutput::Idle,
            )
            &&& held.step(
                generation,
                modes,
                CapturedInput::GestureMotion { button: first, delta_x: dx, delta_y: dy },
                newest,
            ) == (held, GestureOutput::Idle)
        }),
{
}

/// A gesture that a newer press elsewhere has superseded, or whose projection, mode or
/// binding has changed, fires nothing: its motion only ends it, and its release is
/// silent.
pub proof fn law_stale_gesture_fires_nothing(
    state: DispatchModel,
    generation: u64,
    modes: ButtonMap<GestureMode>,
    button: ButtonId,
    dx: i16,
    dy: i16,
    newest: bool,
)
    requires
        state.button == Some(button),
        !(modes.slot(button) matches Some(mode) && state.stands(generation, button, mode, newest)),
    ensures
        state.step(
            generation,
            modes,
            CapturedInput::GestureMotion { button, delta_x: dx, delta_y: dy },
            newest,
        ) == (state.cancelled(), GestureOutput::End),
        state.step(generation, modes, CapturedInput::GestureReleased(button), newest) == (
            state.cancelled(),
            GestureOutput::Idle,
        ),
{
}

/// A press elsewhere takes over from a gesture: once the coordinator that counted its
/// press has counted any more (short of a full turn of the 64-bit counter), a reading
/// of it says that the gesture is no longer of the newest press, and with that motion
/// only ends it and its release is silent.
pub proof fn law_newer_press_takes_over(
    gesture: GestureDispatchState,
    generation: u64,
    modes: ButtonMap<GestureMode>,
    button: ButtonId,
    later: nat,
    dx: i16,
    dy: i16,
)
    requires
        gesture.button == Some(button),
        gesture.press matches Some(press) && press.is_of(gesture.coordinator),
        later < 0x1_0000_0000_0000_0000,
    ensures
        ({
            let first = shared::count_after(gesture.press->0.follows());
            let newest = gesture.newest_at(shared::count_after_many(first, later));
            let motion = CapturedInput::GestureMotion { button, delta_x: dx, delta_y: dy };
            let release = CapturedInput::GestureReleased(button);
            &&& newest <==> later == 0
            &&& later > 0 ==> gesture@.step(generation, modes, motion, newest) == (
                gesture@.cancelled(),
                GestureOutput::End,
            )
            &&& later > 0 ==> gesture@.step(generation, modes, release, newest) == (
                gesture@.cancelled(),
                GestureOutput::Idle,
            )
        }),
{
    crate::gesture_coordinator::law_newest_press_wins(
        gesture.press->0,
        gesture.coordinator,
        later,
    );
}

/// A press followed straight away by one clear motion fires the action of its
/// direction, and the release after it is no click.
pub proof fn law_fast_swipe_commits(
    state: DispatchModel,
    generation: u64,
    modes: ButtonMap<GestureMode>,
    button: ButtonId,
    directions: DirectionMap,
    dx: i16,
    dy: i16,
    direction: GestureDirection,
)
    requires
        modes.slot(button) == Some(GestureMode::Directional(directions)),
        crate::binding::swipe::swipe_direction(dx as i32, dy as i32) == Some(direction),
    ensures
        ({
            let held = state.step(
                generation,
                modes,
                CapturedInput::GesturePressed(button),
                true,
            ).0;
            let (swiped, output) = held.step(
                generation,
                modes,
                CapturedInput::GestureMotion { button, delta_x: dx, delta_y: dy },
                true,
            );
            &&& output == slot_output(directions.slot(direction))
            &&& swiped.step(generation, modes, CapturedInput::GestureReleased(button), true).1
                == GestureOutput::End
        }),
{
}

/// A press and release without motion fires the mode's click; a cancellation in
/// its place fires nothing, and the release after that is silent.
pub proof fn law_release_clicks_cancel_does_not(
    state: DispatchModel,
    generation: u64,
    modes: ButtonMap<GestureMode>,
    button: ButtonId,
    mode: GestureMode,
)
    requires
        modes.slot(button) == Some(mode),
    ensures
        ({
            let held = state.step(
                generation,
                modes,
                CapturedInput::GesturePressed(button),
                true,
            ).0;
            let cancelled = held.step(
                generation,
                modes,
                CapturedInput::GestureCancelled(button),
                true,
            );
            &&& held.step(generation, modes, CapturedInput::GestureReleased(button), true).1
                == match mode {
                GestureMode::Directional(map) => slot_output(map.click),
                GestureMode::Pan(pan) => GestureOutput::Action(pan.click),
            }
            &&& cancelled.1 == GestureOutput::End
            &&& cancelled.0.step(
                generation,
                modes,
                CapturedInput::GestureReleased(button),
                true,
            ).1 == GestureOutput::Idle
        }),
{
}

/// A custom wheel action does not fire twice within the cooldown, however far the
/// wheel turns.
pub proof fn law_one_flick_fires_once(
    direction: WheelDirection,
    action: Action,
    first: i32,
    second: i32,
    sensitivity: i32,
    then: u64,
    now: u64,
)
    requires
        direction.advanced(action, first, sensitivity, then).1 == WheelOutput::FireAction,
        then <= now < then + ACTION_COOLDOWN,
    ensures
        direction.advanced(action, first, sensitivity, then).0.advanced(
            action,
            second,
            sensitivity,
            now,
        ).1 == WheelOutput::Idle,
{
}

/// Turning the wheel one way leaves the other way's progress untouched.
pub proof fn law_directions_accumulate_independently(
    state: CaptureModel,
    rotation: i16,
    maps: Option<HookMaps>,
    sensitivity: i32,
    now: u64,
)
    ensures
        rotation >= 0 ==> state.rotated(rotation, maps, sensitivity, now).0.down == state.down,
        rotation < 0 ==> state.rotated(rotation, maps, sensitivity, now).0.up == state.up,
        state.rotated(rotation, maps, sensitivity, now).0.gesture == state.gesture,
{
}

/// What the wheel runs and scrolls by. Turning it up runs nothing but the action bound
/// to scrolling up, turning it down nothing but the action bound to scrolling down, each
/// its default where it is unbound; and where it scrolls, it does so by the amount turned,
/// to the side that the action names.
pub proof fn law_wheel_runs_its_own_direction(
    state: CaptureModel,
    rotation: i16,
    projection: Option<GestureBindingState>,
    maps: Option<HookMaps>,
    sensitivity: i32,
    now: u64,
    newest: bool,
)
    ensures
        ({
            let (after, effect) = state.dispatched(
                CapturedInput::Scroll(rotation),
                projection,
                maps,
                sensitivity,
                now,
                newest,
            );
            let up = if maps is Some && maps->0.bindings.thumbwheel_scroll_up is Some {
                maps->0.bindings.thumbwheel_scroll_up->0
            } else {
                Action::HorizontalScrollRight
            };
            let down = if maps is Some && maps->0.bindings.thumbwheel_scroll_down is Some {
                maps->0.bindings.thumbwheel_scroll_down->0
            } else {
                Action::HorizontalScrollLeft
            };
            let bound = if rotation >= 0 {
                up
            } else {
                down
            };
            &&& effect matches DispatchEffect::Act(action) ==> action == bound
            &&& bound is HorizontalScrollRight || bound is HorizontalScrollLeft ==> {
                &&& after == state
                &&& effect matches DispatchEffect::Scroll { up: upwards, right, magnitude }
                &&& upwards == (rotation >= 0)
                &&& right == (bound is HorizontalScrollRight)
                &&& magnitude as int == if rotation >= 0 {
                    rotation as int
                } else {
                    -rotation
                }
            }
            &&& bound is DoNothing ==> after == state && effect is Idle
            &&& effect is Scroll ==> bound is HorizontalScrollRight || bound
                is HorizontalScrollLeft
            &&& !(effect is Pan)
        }),
{
}

/// When the wheel fires: an action that is bound to a direction runs once that direction
/// has been turned by a hundred increments less the sensitivity, and at least by one. What
/// was turned counts for three hundred milliseconds after the last turn, and nothing fires
/// within two hundred milliseconds of the last time.
pub proof fn law_wheel_fires_at_its_threshold(
    state: CaptureModel,
    rotation: i16,
    projection: Option<GestureBindingState>,
    maps: HookMaps,
    action: Action,
    sensitivity: i32,
    now: u64,
    newest: bool,
)
    requires
        rotation >= 0 ==> maps.bindings.thumbwheel_scroll_up == Some(action),
        rotation < 0 ==> maps.bindings.thumbwheel_scroll_down == Some(action),
        !(action is DoNothing || action is HorizontalScrollRight || action
            is HorizontalScrollLeft),
        1 <= sensitivity <= 100,
        rotation >= 0 ==> state.up.action >= 0,
        rotation < 0 ==> state.down.action >= 0,
    ensures
        ({
            let (after, effect) = state.dispatched(
                CapturedInput::Scroll(rotation),
                projection,
                Some(maps),
                sensitivity,
                now,
                newest,
            );
            let magnitude = if rotation >= 0 {
                rotation as int
            } else {
                -rotation
            };
            let wheel = if rotation >= 0 {
                state.up
            } else {
                state.down
            };
            let turned = if rotation >= 0 {
                after.up
            } else {
                after.down
            };
            let counted = if wheel.last_event is Some && now > wheel.last_event->0 + 300_000_000 {
                0
            } else {
                wheel.action as int
            };
            let resting = wheel.last_fired is Some && now < wheel.last_fired->0 + 200_000_000;
            let enough = counted + magnitude >= 100 - sensitivity && counted + magnitude >= 1;
            &&& !resting && enough <==> effect == DispatchEffect::Act(action)
            &&& resting || !enough <==> effect is Idle
            &&& turned.last_event == Some(now)
            &&& !resting && enough ==> turned.action == 0 && turned.last_fired == Some(now)
            &&& resting || !enough ==> turned.last_fired == wheel.last_fired
            &&& resting ==> turned.action == counted
            &&& !resting && !enough ==> turned.action == counted + magnitude
            &&& after.gesture == state.gesture
        }),
{
}

/// A wheel that was never turned fires at the first turn that is large enough.
pub proof fn law_fresh_wheel_fires(
    state: CaptureModel,
    rotation: i16,
    projection: Option<GestureBindingState>,
    maps: HookMaps,
    action: Action,
    sensitivity: i32,
    now: u64,
    newest: bool,
)
    requires
        state.up == WheelDirection::fresh(),
        state.down == WheelDirection::fresh(),
        rotation >= 0 ==> maps.bindings.thumbwheel_scroll_up == Some(action),
        rotation < 0 ==> maps.bindings.thumbwheel_scroll_down == Some(action),
        !(action is DoNothing || action is HorizontalScrollRight || action
            is HorizontalScrollLeft),
        rotation > 0 ==> rotation >= 100 - sensitivity,
        rotation < 0 ==> -rotation >= 100 - sensitivity,
        rotation != 0,
    ensures
        state.dispatched(
            CapturedInput::Scroll(rotation),
            projection,
            Some(maps),
            sensitivity,
            now,
            newest,
        ).1 == DispatchEffect::Act(action),
        WheelDirection::fresh().action == 0,
        WheelDirection::fresh().last_event is None,
        WheelDirection::fresh().last_fired is None,
{
}

/// How much the wheel has to be turned: by a hundred increments less the sensitivity, and
/// at least by one.
pub proof fn law_threshold_in_increments(sensitivity: i32)
    ensures
        sensitivity <= 99 ==> threshold_at(sensitivity) == 100 - sensitivity,
        sensitivity >= 99 ==> threshold_at(sensitivity) == 1,
{
}

/// A button of the device that is pressed runs the action bound to that button and to no
/// other, and nothing where there is none; the gesture and the wheel stay as they are.
pub proof fn law_captured_button_runs_its_action(
    state: CaptureModel,
    button: ButtonId,
    projection: Option<GestureBindingState>,
    maps: Option<HookMaps>,
    sensitivity: i32,
    now: u64,
    newest: bool,
)
    ensures
        ({
            let (after, effect) = state.dispatched(
                CapturedInput::ButtonPressed(button),
                projection,
                maps,
                sensitivity,
                now,
                newest,
            );
            &&& after == state
            &&& effect is Act <==> maps is Some && maps->0.bindings.slot(button) is Some
            &&& effect matches DispatchEffect::Act(action) ==> maps->0.bindings.slot(button)
                == Some(action)
            &&& !(effect is Act) ==> effect is Idle
        }),
{
}

/// What a gesture's input does: without a projection the gesture is given up; with one it
/// advances, an action of it runs, a Pan of it scrolls by the same two amounts, and
/// otherwise nothing happens. The wheel stays as it is.
pub proof fn law_gesture_input_is_carried_out(
    state: CaptureModel,
    input: CapturedInput,
    projection: Option<GestureBindingState>,
    maps: Option<HookMaps>,
    sensitivity: i32,
    now: u64,
    newest: bool,
)
    requires
        !(input is ButtonPressed || input is Scroll),
    ensures
        ({
            let (after, effect) = state.dispatched(
                input,
                projection,
                maps,
                sensitivity,
                now,
                newest,
            );
            &&& after.up == state.up && after.down == state.down
            &&& projection is None ==> effect is Idle && after.gesture.button is None
                && after.gesture.mode is None && !after.gesture.coordinated
            &&& projection matches Some(maps) ==> {
                let (gesture, output) = state.gesture.step(
                    maps.generation,
                    maps.modes,
                    input,
                    newest,
                );
                &&& after.gesture == gesture
                &&& output matches GestureOutput::Action(action) ==> effect == DispatchEffect::Act(
                    action,
                )
                &&& output matches GestureOutput::PanDelta { x, y } ==> effect
                    == (DispatchEffect::Pan { x, y })
                &&& output is Idle || output is End ==> effect is Idle
            }
        }),
{
}

/// The press of a button that has a gesture begins it with no travel, in place of any
/// other, and runs nothing; the press of one without ends only its own gesture.
pub proof fn law_captured_press_begins(
    state: DispatchModel,
    generation: u64,
    modes: ButtonMap<GestureMode>,
    button: ButtonId,
    newest: bool,
)
    ensures
        ({
            let (held, output) = state.step(
                generation,
                modes,
                CapturedInput::GesturePressed(button),
                newest,
            );
            &&& output is Idle
            &&& modes.slot(button) matches Some(mode) ==> {
                &&& held.button == Some(button)
                &&& held.mode == Some(mode)
                &&& held.generation == generation
                &&& held.coordinated
                &&& mode is Directional ==> held.swipe.holding && held.swipe.ungated
                    && !held.swipe.fired && held.swipe.dx == 0 && held.swipe.dy == 0 && held.pan
                    is Released
                &&& mode is Pan ==> held.pan == (PanPhase::Pending { x: 0, y: 0 })
                    && !held.swipe.holding
            }
            &&& modes.slot(button) is None && state.button == Some(button) ==> held.button is None
                && held.mode is None && !held.coordinated
            &&& modes.slot(button) is None && state.button != Some(button) ==> held == state
        }),
{
}

/// Motion of a captured swipe runs the action of the direction that the travel comes to,
/// once, and nothing where that direction has none or the travel comes to no swipe.
pub proof fn law_captured_swipe_runs_its_direction(
    state: DispatchModel,
    generation: u64,
    modes: ButtonMap<GestureMode>,
    button: ButtonId,
    directions: DirectionMap,
    dx: i16,
    dy: i16,
)
    requires
        state.button == Some(button),
        state.generation == generation,
        state.mode == Some(GestureMode::Directional(directions)),
        state.coordinated,
        modes.slot(button) == Some(GestureMode::Directional(directions)),
    ensures
        ({
            let (after, output) = state.step(
                generation,
                modes,
                CapturedInput::GestureMotion { button, delta_x: dx, delta_y: dy },
                true,
            );
            let commit = crate::binding::swipe::swipe_direction(
                crate::arith::sat_i32(state.swipe.dx + dx),
                crate::arith::sat_i32(state.swipe.dy + dy),
            );
            let runs = state.swipe.holding && !state.swipe.fired && commit is Some;
            let ran = if commit == Some(GestureDirection::Up) {
                directions.up
            } else if commit == Some(GestureDirection::Down) {
                directions.down
            } else if commit == Some(GestureDirection::Left) {
                directions.left
            } else {
                directions.right
            };
            &&& runs && ran is Some <==> output is Action
            &&& output matches GestureOutput::Action(action) ==> ran == Some(action)
            &&& !(output is Action) ==> output is Idle
            &&& after.swipe.fired <==> state.swipe.fired || runs
            &&& after.button == state.button && after.mode == state.mode && after.generation
                == state.generation && after.coordinated && after.pan == state.pan
        }),
{
    crate::bindings::law_same_modes(
        GestureMode::Directional(directions),
        GestureMode::Directional(directions),
    );
    crate::binding::swipe::law_swipe_is_never_click(
        crate::arith::sat_i32(state.swipe.dx + dx),
        crate::arith::sat_i32(state.swipe.dy + dy),
    );
}

/// Motion of a captured Pan scrolls by the motion once it is active; a pending one by all
/// of its travel once that reaches the deadzone.
pub proof fn law_captured_pan_scrolls(
    state: DispatchModel,
    generation: u64,
    modes: ButtonMap<GestureMode>,
    button: ButtonId,
    pan: crate::binding::PanBinding,
    dx: i16,
    dy: i16,
)
    requires
        state.button == Some(button),
        state.generation == generation,
        state.mode == Some(GestureMode::Pan(pan)),
        state.coordinated,
        modes.slot(button) == Some(GestureMode::Pan(pan)),
    ensures
        ({
            let (after, output) = state.step(
                generation,
                modes,
                CapturedInput::GestureMotion { button, delta_x: dx, delta_y: dy },
                true,
            );
            &&& state.pan is Active ==> output == (GestureOutput::PanDelta {
                x: dx as i32,
                y: dy as i32,
            })
            &&& state.pan matches PanPhase::Pending { x, y } ==> {
                let (total_x, total_y) = (
                    crate::arith::sat_i32(x + dx),
                    crate::arith::sat_i32(y + dy),
                );
                if -32 < total_x < 32 && -32 < total_y < 32 {
                    output is Idle && after.pan == (PanPhase::Pending { x: total_x, y: total_y })
                } else {
                    output == (GestureOutput::PanDelta { x: total_x, y: total_y }) && after.pan
                        is Active
                }
            }
            &&& state.pan is Released ==> output is Idle
            &&& after.button == state.button && after.swipe == state.swipe
        }),
{
    crate::bindings::law_same_modes(GestureMode::Pan(pan), GestureMode::Pan(pan));
}

/// The release of a captured gesture ends it. It runs the click action of a swipe that
/// has not committed and of a Pan that has not become active, and nothing otherwise.
pub proof fn law_captured_release_ends(
    state: DispatchModel,
    generation: u64,
    modes: ButtonMap<GestureMode>,
    button: ButtonId,
    mode: GestureMode,
)
    requires
        state.button == Some(button),
        state.generation == generation,
        state.mode == Some(mode),
        state.coordinated,
        modes.slot(button) == Some(mode),
    ensures
        ({
            let (after, output) = state.step(
                generation,
                modes,
                CapturedInput::GestureReleased(button),
                true,
            );
            &&& after.button is None && after.mode is None && !after.coordinated
            &&& mode matches GestureMode::Directional(directions) ==> {
                let click = state.swipe.holding && !state.swipe.fired;
                &&& click && directions.click is Some ==> output == GestureOutput::Action(
                    directions.click->0,
                )
                &&& click && directions.click is None ==> output is Idle
                &&& !click ==> output is End
                &&& !after.swipe.holding
            }
            &&& mode matches GestureMode::Pan(pan) ==> {
                &&& state.pan is Pending ==> output == GestureOutput::Action(pan.click)
                &&& state.pan is Active ==> output is End
                &&& state.pan is Released ==> output is Idle
                &&& after.pan is Released
            }
        }),
{
    crate::bindings::law_same_modes(mode, mode);
}

/// Inputs of another button, and inputs that are no gesture's, leave the gesture alone;
/// cancelling the held button's gesture ends it without an action.
pub proof fn law_other_input_leaves_the_gesture(
    state: DispatchModel,
    generation: u64,
    modes: ButtonMap<GestureMode>,
    button: ButtonId,
    rotation: i16,
    newest: bool,
)
    ensures
        ({
            let (after, output) = state.step(
                generation,
                modes,
                CapturedInput::GestureCancelled(button),
                newest,
            );
            &&& state.button == Some(button) ==> after.button is None && after.mode is None
                && !after.coordinated && !after.swipe.holding && after.pan is Released
                && after.generation == state.generation && output is End
            &&& state.button != Some(button) ==> after == state && output is Idle
        }),
        state.step(generation, modes, CapturedInput::ButtonPressed(button), newest) == (
            state,
            GestureOutput::Idle,
        ),
        state.step(generation, modes, CapturedInput::Scroll(rotation), newest) == (
            state,
            GestureOutput::Idle,
        ),
        DispatchModel::idle().button is None,
        DispatchModel::idle().mode is None,
        !DispatchModel::idle().coordinated,
        DispatchModel::idle().generation == 0,
        !DispatchModel::idle().swipe.holding,
        DispatchModel::idle().pan is Released,
{
}

/// When the wheel has to be captured: when the sensitivity is not fifty, or one of its
/// three bindings is set to something other than its default.
pub proof fn law_wheel_is_captured_when_it_differs(maps: HookMaps, sensitivity: i32)
    ensures
        wheel_armed(None, sensitivity) <==> sensitivity != 50,
        sensitivity != 50 ==> wheel_armed(Some(maps), sensitivity),
        sensitivity == 50 ==> (wheel_armed(Some(maps), sensitivity) <==> {
            ||| maps.bindings.thumbwheel is Some && !(maps.bindings.thumbwheel->0 is AppExpose)
            ||| maps.bindings.thumbwheel_scroll_up is Some
                && !(maps.bindings.thumbwheel_scroll_up->0 is HorizontalScrollRight)
            ||| maps.bindings.thumbwheel_scroll_down is Some
                && !(maps.bindings.thumbwheel_scroll_down->0 is HorizontalScrollLeft)
        }),
{
}

/// When an input is taken: when a session runs, of the live epoch, and the input is of
/// that epoch too; it is taken as it is.
pub proof fn law_only_live_input_is_taken(
    manager: CaptureManager,
    message: SessionInput,
    live_epoch: u64,
)
    ensures
        manager.accepted(message, live_epoch) is Some <==> manager.current is Some
            && manager.current->0.epoch == live_epoch && message.epoch == live_epoch,
        manager.accepted(message, live_epoch) matches Some(input) ==> input == message.input,
{
}

/// Two sessions are the same when their route, their request and their epoch are.
pub proof fn law_same_sessions(a: CaptureSession, b: CaptureSession)
    ensures
        same_session(Some(a), Some(b)) ==> a.epoch == b.epoch && a.request == b.request
            && a.route.same_as(b.route),
        a.epoch == b.epoch && a.request == b.request && a.route.same_as(b.route) ==> same_session(
            Some(a),
            Some(b),
        ),
        !same_session(None, Some(b)),
        !same_session(Some(a), None),
        same_session(None, None),
{
}

/// A new epoch is the one after the one it supersedes, of the same counter.
pub proof fn law_epoch_moves_on(start: EpochStart, generation: CaptureEpoch)
    requires
        start.is_of(generation),
    ensures
        start.superseded() < u64::MAX ==> start.started() == start.superseded() + 1,
        start.superseded() == u64::MAX ==> start.started() == 0,
        start.started() != start.superseded(),
        start.counted_on() == generation.counter(),
{
}

/// What a dispatcher shows of its gesture: whether it takes part in the arbitration, and
/// its own button, mode, travel and projection.
pub proof fn law_dispatcher_shows_its_state(
    gesture: GestureDispatchState,
    before: GestureDispatchState,
    count: u64,
)
    ensures
        gesture@.coordinated <==> gesture.press is Some,
        gesture@.button == gesture.button,
        gesture@.mode == gesture.mode,
        gesture@.generation == gesture.generation,
        gesture@.swipe == gesture.swipe@,
        gesture@.pan == gesture.pan@,
        gesture.press is None ==> !gesture.newest_at(count),
        gesture.press is Some ==> (gesture.newest_at(count)
            <==> gesture.press->0.token().stands_for(count)),
        gesture.arbitrates_from(before, true) ==> gesture.coordinator == before.coordinator
            && gesture.press is Some && gesture.press->0.is_of(before.coordinator),
        gesture.arbitrates_from(before, false) && gesture.press is Some ==> gesture.coordinator
            == before.coordinator && gesture.press == before.press,
{
}

/// Which input begins a gesture: the press of a button that has one, and nothing else.
pub proof fn law_presses_begin_gestures(
    modes: ButtonMap<GestureMode>,
    button: ButtonId,
    input: CapturedInput,
)
    ensures
        begins_gesture(modes, CapturedInput::GesturePressed(button)) <==> modes.slot(button)
            is Some,
        !(input is GesturePressed) ==> !begins_gesture(modes, input),
{
}

} // verus!
