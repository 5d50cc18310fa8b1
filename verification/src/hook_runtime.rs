//! Decisions of the OS mouse hook: what a button or pointer event does to the
//! gesture hold in progress, whether the event reaches the system, and what is
//! injected instead.

use crate::arith;
use crate::binding::pan::PanPhase;
use crate::binding::swipe::SwipeState;
use crate::binding::{
    default_action, default_binding, Action, ButtonId, DirectionMap, GestureDirection,
    PanAccumulator, PanOutput, SwipeAccumulator,
};
use crate::bindings::GestureMode;
use crate::button_map::ButtonMap;
use crate::clock::{self, Elapsed};
use crate::gesture_coordinator::{GestureCoordinator, GesturePress};
use crate::shared::{
    self, try_wake, CountReading, FlagLower, FlagRaise, MotionLook, MotionMerge, MotionWord, WakeAttempt,
    WakeFlag,
};
use std::sync::mpsc::SyncSender;
use std::sync::Arc;
use vstd::prelude::*;

verus! {

/// Number of actions that may wait for injection before new ones are dropped.
pub const ACTION_QUEUE_CAPACITY: usize = 64;

/// The two button maps the OS-hook callback reads, published together so that a
/// press during a binding change never sees one of them new and the other old.
#[derive(Debug)]
pub struct HookMaps {
    /// Changes on every projection rebuild so an in-flight hold can fail closed
    /// even when the resulting binding is equal.
    pub generation: u64,
    /// Per-button single action.
    pub bindings: ButtonMap<Action>,
    /// Gesture modes of the OS-hook buttons.
    pub gestures: ButtonMap<GestureMode>,
}

impl Default for HookMaps {
    fn default() -> (maps: Self)
        ensures
            maps == (HookMaps {
                generation: 0,
                bindings: ButtonMap::empty(),
                gestures: ButtonMap::empty(),
            }),
    {
        HookMaps { generation: 0, bindings: ButtonMap::new(), gestures: ButtonMap::new() }
    }
}

/// A mouse event seen by the OS hook.
#[derive(Clone, Copy, Debug, PartialEq, Eq, Structural)]
pub enum MouseEvent {
    /// A button went down or up.
    Button {
        /// Which button.
        id: ButtonId,
        /// Whether it went down.
        pressed: bool,
    },
    /// The pointer moved.
    Moved {
        /// Horizontal travel.
        delta_x: i32,
        /// Vertical travel.
        delta_y: i32,
    },
    /// The wheel turned.
    Scroll {
        /// Bit pattern of the horizontal amount, a 32-bit float.
        delta_x_bits: u32,
        /// Bit pattern of the vertical amount, a 32-bit float.
        delta_y_bits: u32,
    },
    /// The system interrupted the capture.
    CaptureInterrupted,
}

/// What becomes of an event after the hook has seen it.
#[derive(Clone, Copy, Debug, PartialEq, Eq, Structural)]
pub enum EventDisposition {
    /// The event reaches the system.
    PassThrough,
    /// The event is swallowed.
    Suppress,
    /// The event is swallowed and the pointer stays where it is.
    FreezePointer,
}

/// What a gesture hold asks for.
#[derive(Debug)]
pub enum HoldOutput {
    /// Nothing.
    Suppress,
    /// An action to fire.
    Action(Action),
    /// Pan motion to inject.
    PanDelta {
        /// Horizontal amount.
        x: i32,
        /// Vertical amount.
        y: i32,
    },
}

impl PartialEq for HoldOutput {
    fn eq(&self, other: &Self) -> (same: bool) {
        match (self, other) {
            (HoldOutput::Suppress, HoldOutput::Suppress) => true,
            (HoldOutput::Action(a), HoldOutput::Action(b)) => *a == *b,
            (HoldOutput::PanDelta { x, y }, HoldOutput::PanDelta { x: u, y: v }) => *x == *u && *y
                == *v,
            _ => false,
        }
    }
}

impl Eq for HoldOutput {

}

impl vstd::std_specs::cmp::PartialEqSpecImpl for HoldOutput {
    open spec fn obeys_eq_spec() -> bool {
        true
    }

    open spec fn eq_spec(&self, other: &Self) -> bool {
        match (*self, *other) {
            (HoldOutput::Action(a), HoldOutput::Action(b)) => a.same_as(b),
            (a, b) => a == b,
        }
    }
}

/// The gesture a button is held for.
#[derive(Debug)]
pub enum HoldGesture {
    /// A swipe, or a click when none commits.
    Directional {
        /// The actions of the directions.
        directions: DirectionMap,
        /// The action of a direction that has none.
        fallback: Action,
        /// The travel so far.
        swipe: SwipeAccumulator,
    },
    /// Continuous panning, or a click when it does not start.
    Pan {
        /// The action of a click.
        click: Action,
        /// The motion so far.
        accumulator: PanAccumulator,
    },
}

/// The gesture hold of one callback thread: which OS-hook button is held, for
/// which gesture, and under which projection of the configuration it began.
pub struct HoldState {
    /// The held button.
    pub button: Option<ButtonId>,
    /// Generation of the maps when the hold began.
    pub generation: u64,
    /// Arbitration with the HID++ gesture input.
    pub coordinator: GestureCoordinator,
    /// The press, and with it its place in that arbitration.
    pub press: Option<GesturePress>,
    /// The gesture the button is held for.
    pub gesture: Option<HoldGesture>,
}

/// The content of a [`HoldGesture`].
pub enum HeldGesture {
    /// A swipe.
    Directional {
        /// The actions of the directions.
        directions: DirectionMap,
        /// The action of a direction that has none.
        fallback: Action,
        /// The travel so far.
        swipe: SwipeState,
    },
    /// Continuous panning.
    Pan {
        /// The action of a click.
        click: Action,
        /// The motion so far.
        phase: PanPhase,
    },
}

/// The content of a [`HoldState`], except for the arbitration counter.
pub struct HoldModel {
    /// The held button.
    pub button: Option<ButtonId>,
    /// Generation of the maps when the hold began.
    pub generation: u64,
    /// Whether the hold has a place in the arbitration.
    pub coordinated: bool,
    /// The gesture the button is held for.
    pub gesture: Option<HeldGesture>,
}

impl View for HoldGesture {
    type V = HeldGesture;

    open spec fn view(&self) -> HeldGesture {
        match *self {
            HoldGesture::Directional { directions, fallback, swipe } => HeldGesture::Directional {
                directions,
                fallback,
                swipe: swipe@,
            },
            HoldGesture::Pan { click, accumulator } => HeldGesture::Pan {
                click,
                phase: accumulator@,
            },
        }
    }
}

impl View for HoldState {
    type V = HoldModel;

    open spec fn view(&self) -> HoldModel {
        HoldModel {
            button: self.button,
            generation: self.generation,
            coordinated: self.press is Some,
            gesture: match self.gesture {
                Some(gesture) => Some(gesture@),
                None => None,
            },
        }
    }
}

impl HeldGesture {
    /// A fresh gesture of this mode. A direction without an action falls back to
    /// the click, and a missing click to the button's default.
    pub open spec fn begun(mode: GestureMode, button: ButtonId) -> HeldGesture {
        match mode {
            GestureMode::Directional(directions) => HeldGesture::Directional {
                directions,
                fallback: click_or_default(directions, button),
                swipe: SwipeState::fresh(false),
            },
            GestureMode::Pan(pan) => HeldGesture::Pan {
                click: pan.click,
                phase: PanPhase::Pending { x: 0, y: 0 },
            },
        }
    }

    /// Whether the gesture is still what the button is bound to.
    pub open spec fn is_of(self, mode: Option<GestureMode>) -> bool {
        match (self, mode) {
            (
                HeldGesture::Directional { directions, .. },
                Some(GestureMode::Directional(current)),
            ) => directions.same_as(current),
            (HeldGesture::Pan { click, .. }, Some(GestureMode::Pan(current))) => click.same_as(
                current.click,
            ),
            _ => false,
        }
    }
}

/// The click action of a direction map, or the button's default.
pub open spec fn click_or_default(directions: DirectionMap, button: ButtonId) -> Action {
    match directions.click {
        Some(action) => action,
        None => default_action(button),
    }
}

/// The action of a direction, or the fallback when it has none.
pub open spec fn direction_or(
    directions: DirectionMap,
    direction: GestureDirection,
    fallback: Action,
) -> Action {
    match directions.slot(direction) {
        Some(action) => action,
        None => fallback,
    }
}

impl HoldModel {
    /// No hold.
    pub open spec fn idle() -> HoldModel {
        HoldModel { button: None, generation: 0, coordinated: false, gesture: None }
    }

    /// A fresh hold.
    pub open spec fn begun(button: ButtonId, mode: GestureMode, generation: u64) -> HoldModel {
        HoldModel {
            button: Some(button),
            generation,
            coordinated: true,
            gesture: Some(HeldGesture::begun(mode, button)),
        }
    }

    /// The hold abandoned.
    pub open spec fn cancelled(self) -> HoldModel {
        HoldModel { button: None, coordinated: false, gesture: None, ..self }
    }

    /// Whether the hold is this button's, of this projection generation, and for
    /// what the button is still bound to.
    pub open spec fn projects(
        self,
        button: ButtonId,
        mode: Option<GestureMode>,
        generation: u64,
    ) -> bool {
        &&& self.button == Some(button)
        &&& self.generation == generation
        &&& self.gesture matches Some(gesture)
        &&& gesture.is_of(mode)
    }

    /// Whether the hold may go on: it projects what is bound now and no newer
    /// gesture press has taken over.
    pub open spec fn stands(
        self,
        button: ButtonId,
        mode: Option<GestureMode>,
        generation: u64,
        newest: bool,
    ) -> bool {
        newest && self.coordinated && self.projects(button, mode, generation)
    }

    /// Whether a swipe may commit when the hold has lasted this many milliseconds.
    /// Only a swipe waits for that.
    pub open spec fn open_after(self, millis: nat) -> bool {
        match self.gesture {
            Some(HeldGesture::Directional { swipe, .. }) => swipe.open_after(millis),
            _ => true,
        }
    }

    /// The hold after motion, and what the motion asks for.
    pub open spec fn moved(self, dx: i32, dy: i32, held_long_enough: bool) -> (
        HoldModel,
        HoldOutput,
    ) {
        match self.gesture {
            Some(HeldGesture::Directional { directions, fallback, swipe }) => {
                let (after, commit) = swipe.moved(dx, dy, held_long_enough);
                (
                    HoldModel {
                        gesture: Some(
                            HeldGesture::Directional { directions, fallback, swipe: after },
                        ),
                        ..self
                    },
                    match commit {
                        Some(direction) => HoldOutput::Action(
                            direction_or(directions, direction, fallback),
                        ),
                        None => HoldOutput::Suppress,
                    },
                )
            },
            Some(HeldGesture::Pan { click, phase }) => {
                let (after, output) = phase.moved(dx, dy);
                (
                    HoldModel { gesture: Some(HeldGesture::Pan { click, phase: after }), ..self },
                    match output {
                        PanOutput::Delta { x, y } => HoldOutput::PanDelta { x, y },
                        _ => HoldOutput::Suppress,
                    },
                )
            },
            None => (self, HoldOutput::Suppress),
        }
    }

    /// What releasing the held gesture asks for.
    pub open spec fn release_output(self, button: ButtonId) -> Option<HoldOutput> {
        match self.gesture {
            Some(HeldGesture::Directional { directions, swipe, .. }) => Some(
                if swipe.release_is_click() {
                    HoldOutput::Action(click_or_default(directions, button))
                } else {
                    HoldOutput::Suppress
                },
            ),
            Some(HeldGesture::Pan { click, phase }) => Some(
                if phase.release_output() == PanOutput::Click {
                    HoldOutput::Action(click)
                } else {
                    HoldOutput::Suppress
                },
            ),
            None => None,
        }
    }

    /// The hold after a button's release, and what the release asks for; nothing
    /// when it is another button's.
    pub open spec fn released(self, button: ButtonId) -> (HoldModel, Option<HoldOutput>) {
        if self.button != Some(button) {
            (self, None)
        } else {
            (self.cancelled(), self.release_output(button))
        }
    }
}

impl Default for HoldState {
    fn default() -> (hold: Self)
        ensures
            hold@ == HoldModel::idle(),
    {
        HoldState {
            button: None,
            generation: 0,
            coordinator: GestureCoordinator::default(),
            press: None,
            gesture: None,
        }
    }
}

impl HoldState {
    /// Begin a hold for `button`, abandoning any other hold without a click. Its
    /// press becomes the newest of the coordinator.
    pub fn begin(&mut self, button: ButtonId, mode: GestureMode, generation: u64)
        ensures
            final(self)@ == HoldModel::begun(button, mode, generation),
            final(self).press matches Some(press) && press.is_of(old(self).coordinator),
            final(self).since() is Some <==> mode is Directional,
            final(self).coordinator == old(self).coordinator,
    {
        let press = self.coordinator.press();
        self.begin_with(button, mode, generation, press);
    }

    /// Begin a hold for `button`, given its press. A swipe's gate is
    /// measured from the time of the call.
    pub fn begin_with(
        &mut self,
        button: ButtonId,
        mode: GestureMode,
        generation: u64,
        press: GesturePress,
    )
        ensures
            final(self)@ == HoldModel::begun(button, mode, generation),
            final(self).press == Some(press),
            final(self).since() is Some <==> mode is Directional,
            final(self).coordinator == old(self).coordinator,
    {
        let start = clock::now();
        self.begin_at(button, mode, generation, press, start);
    }

    /// Begin a hold for `button`, given its press and the reading of the
    /// clock that a swipe's gate is measured from.
    pub fn begin_at(
        &mut self,
        button: ButtonId,
        mode: GestureMode,
        generation: u64,
        press: GesturePress,
        start: std::time::Instant,
    )
        ensures
            final(self)@ == HoldModel::begun(button, mode, generation),
            final(self).press == Some(press),
            final(self).since() == if mode is Directional {
                Some(start)
            } else {
                None
            },
            final(self).coordinator == old(self).coordinator,
    {
        self.button = Some(button);
        self.generation = generation;
        self.press = Some(press);
        self.gesture = Some(
            match mode {
                GestureMode::Directional(directions) => {
                    let mut swipe = SwipeAccumulator::default();
                    swipe.begin_at(start);
                    let fallback = match directions.get(GestureDirection::Click) {
                        Some(action) => action.clone(),
                        None => default_binding(button),
                    };
                    HoldGesture::Directional { directions, fallback, swipe }
                },
                GestureMode::Pan(pan) => {
                    let mut accumulator = PanAccumulator::default();
                    accumulator.begin();
                    HoldGesture::Pan { click: pan.click, accumulator }
                },
            },
        );
    }

    /// Whether the hold is of the newest gesture press when the counter of presses
    /// holds `count`.
    pub open spec fn newest_at(&self, count: u64) -> bool {
        self.press matches Some(press) && press.token().stands_for(count)
    }

    /// Whether the hold is of the newest gesture press, going by a reading of its
    /// coordinator.
    #[must_use]
    pub fn newest_by(&self, reading: &CountReading) -> (newest: bool)
        requires
            reading.source() == self.coordinator.counter(),
        ensures
            newest == self.newest_at(reading.value()),
    {
        match &self.press {
            Some(press) => press.get_token().matches(reading.count()),
            None => false,
        }
    }

    /// Whether the hold is of the newest gesture press. Another input path may
    /// acquire a newer one at any time, so for a hold that takes part in the
    /// arbitration either answer is possible.
    #[must_use]
    pub fn is_newest(&self) -> (newest: bool)
        ensures
            exists|reading: CountReading|
                reading.source() == self.coordinator.counter() && newest == #[trigger] self.newest_at(
                    reading.value(),
                ),
    {
        let reading = self.coordinator.read();
        self.newest_by(&reading)
    }

    /// Whether the hold may go on under what `button` is bound to now: the same
    /// binding, the same projection generation, and no newer gesture press.
    #[must_use]
    pub fn mode_matches(&self, button: ButtonId, mode: Option<&GestureMode>, generation: u64) -> (matches:
        bool)
        ensures
            exists|reading: CountReading|
                reading.source() == self.coordinator.counter() && matches == self@.stands(
                    button,
                    opt_mode(mode),
                    generation,
                    #[trigger] self.newest_at(reading.value()),
                ),
    {
        self.mode_matches_now(button, mode, generation).0
    }

    /// Whether the hold may go on under what `button` is bound to now, with the reading
    /// of the coordinator that says whether it is of the newest gesture press.
    #[must_use]
    pub fn mode_matches_now(
        &self,
        button: ButtonId,
        mode: Option<&GestureMode>,
        generation: u64,
    ) -> (answer: (bool, CountReading))
        ensures
            answer.1.source() == self.coordinator.counter(),
            answer.0 == self@.stands(
                button,
                opt_mode(mode),
                generation,
                self.newest_at(answer.1.value()),
            ),
    {
        let reading = self.coordinator.read();
        let newest = self.newest_by(&reading);
        (self.stands(button, mode, generation, newest), reading)
    }

    /// Whether the hold may go on, given whether it is of the newest press.
    #[must_use]
    pub fn stands(
        &self,
        button: ButtonId,
        mode: Option<&GestureMode>,
        generation: u64,
        newest: bool,
    ) -> (stands: bool)
        ensures
            stands == self@.stands(button, opt_mode(mode), generation, newest),
    {
        let held = match self.button {
            Some(held) => held == button,
            None => false,
        };
        if !held || self.generation != generation || !newest || self.press.is_none() {
            return false;
        }
        match (&self.gesture, mode) {
            (
                Some(HoldGesture::Directional { directions, .. }),
                Some(GestureMode::Directional(current)),
            ) => *directions == *current,
            (Some(HoldGesture::Pan { click, .. }), Some(GestureMode::Pan(current))) => *click
                == current.click,
            _ => false,
        }
    }

    /// The held button.
    #[must_use]
    pub fn active_button(&self) -> (button: Option<ButtonId>)
        ensures
            button == self@.button,
    {
        self.button
    }

    /// Take part in this arbitration from the next hold on.
    pub fn coordinate_with(&mut self, coordinator: GestureCoordinator)
        ensures
            final(self)@ == old(self)@,
            final(self).coordinator == coordinator,
            final(self).press == old(self).press,
            final(self).since() == old(self).since(),
    {
        self.coordinator = coordinator;
    }

    /// How long the hold has lasted, where a swipe's gate asks for it.
    #[must_use]
    pub fn held_for(&self) -> (held: Option<Elapsed>)
        ensures
            self.is_timed_by(held),
    {
        match &self.gesture {
            Some(HoldGesture::Directional { swipe, .. }) => swipe.held_for(),
            _ => None,
        }
    }

    /// Whether a swipe may commit, given how long the hold has lasted. A Pan has
    /// nothing to wait for.
    #[must_use]
    pub fn open_by(&self, held: &Option<Elapsed>) -> (open: bool)
        requires
            self.is_timed_by(*held),
        ensures
            open == self@.open_after(clock::length_of(*held)),
    {
        match &self.gesture {
            Some(HoldGesture::Directional { swipe, .. }) => swipe.open_by(held),
            _ => true,
        }
    }

    /// Read the hold's coordinator, and how long the hold has lasted.
    #[must_use]
    pub fn observe(&self) -> (seen: HookReadings)
        ensures
            self.is_observed_by(seen),
    {
        HookReadings { presses: self.coordinator.read(), held: self.held_for() }
    }

    /// Feed a pointer-move delta into the hold. A swipe commits its direction's
    /// action exactly once per hold; an active Pan yields its motion. The time that a
    /// gated swipe has been held is read off the clock.
    pub fn accumulate(&mut self, dx: i32, dy: i32) -> (output: HoldOutput)
        ensures
            exists|held: Option<Elapsed>| #[trigger]
                old(self).is_timed_by(held) && (final(self)@, output) == old(self)@.moved(
                    dx,
                    dy,
                    old(self)@.open_after(clock::length_of(held)),
                ),
            final(self).since() == old(self).since(),
            final(self).coordinator == old(self).coordinator,
            final(self).press == old(self).press,
    {
        self.accumulate_timed(dx, dy).0
    }

    /// Feed a pointer-move delta into the hold, and say how long the hold had lasted.
    /// What the motion asks for follows from that.
    pub fn accumulate_timed(&mut self, dx: i32, dy: i32) -> (outcome: (HoldOutput, Option<Elapsed>))
        ensures
            old(self).is_timed_by(outcome.1),
            (final(self)@, outcome.0) == old(self)@.moved(
                dx,
                dy,
                old(self)@.open_after(clock::length_of(outcome.1)),
            ),
            final(self).since() == old(self).since(),
            final(self).coordinator == old(self).coordinator,
            final(self).press == old(self).press,
    {
        let held = self.held_for();
        let open = self.open_by(&held);
        let output = self.accumulate_gated(dx, dy, open);
        (output, held)
    }

    /// Feed a pointer-move delta into the hold, given whether it has lasted long
    /// enough for a swipe to commit.
    pub fn accumulate_gated(&mut self, dx: i32, dy: i32, held_long_enough: bool) -> (output:
        HoldOutput)
        ensures
            (final(self)@, output) == old(self)@.moved(dx, dy, held_long_enough),
            final(self).since() == old(self).since(),
            final(self).coordinator == old(self).coordinator,
            final(self).press == old(self).press,
    {
        match &mut self.gesture {
            Some(HoldGesture::Directional { directions, fallback, swipe }) => {
                match swipe.accumulate_gated(dx, dy, held_long_enough) {
                    Some(direction) => HoldOutput::Action(
                        match directions.get(direction) {
                            Some(action) => action.clone(),
                            None => fallback.clone(),
                        },
                    ),
                    None => HoldOutput::Suppress,
                }
            },
            Some(HoldGesture::Pan { accumulator, .. }) => match accumulator.accumulate(dx, dy) {
                PanOutput::Delta { x, y } => HoldOutput::PanDelta { x, y },
                _ => HoldOutput::Suppress,
            },
            None => HoldOutput::Suppress,
        }
    }

    /// End the hold for `button`: its click action when it never committed a
    /// swipe or activated Pan, nothing to fire when it did, and `None` for a
    /// stray release of a button that is not held.
    pub fn end(&mut self, button: ButtonId) -> (output: Option<HoldOutput>)
        ensures
            (final(self)@, output) == old(self)@.released(button),
            final(self).goes_on_from(*old(self)),
    {
        let held = match self.button {
            Some(held) => held == button,
            None => false,
        };
        if !held {
            return None;
        }
        self.button = None;
        self.press = None;
        match self.gesture.take() {
            Some(HoldGesture::Directional { directions, fallback: _, swipe }) => {
                let mut swipe = swipe;
                if swipe.end() {
                    Some(
                        HoldOutput::Action(
                            match directions.get(GestureDirection::Click) {
                                Some(action) => action.clone(),
                                None => default_binding(button),
                            },
                        ),
                    )
                } else {
                    Some(HoldOutput::Suppress)
                }
            },
            Some(HoldGesture::Pan { click, accumulator }) => {
                let mut accumulator = accumulator;
                match accumulator.end() {
                    PanOutput::Click => Some(HoldOutput::Action(click)),
                    _ => Some(HoldOutput::Suppress),
                }
            },
            None => None,
        }
    }

    /// Cancel any hold in progress without firing anything. A dropped button-up
    /// would otherwise leave a stale hold that the next stray pointer move turns
    /// into a phantom swipe.
    pub fn cancel(&mut self) -> (output: HoldOutput)
        ensures
            final(self)@ == old(self)@.cancelled(),
            final(self).goes_on_from(*old(self)),
            output == HoldOutput::Suppress,
    {
        self.button = None;
        self.press = None;
        self.gesture = None;
        HoldOutput::Suppress
    }
}

impl HoldState {
    /// The reading of the clock that the held swipe's gate is measured from.
    pub open spec fn since(&self) -> Option<std::time::Instant> {
        match self.gesture {
            Some(HoldGesture::Directional { swipe, .. }) => swipe.since(),
            _ => None,
        }
    }

    /// Whether this is the time that the hold has lasted, as far as a swipe
    /// waits for it.
    pub open spec fn is_timed_by(&self, held: Option<Elapsed>) -> bool {
        match held {
            Some(elapsed) => self.since() == Some(elapsed.since()),
            None => self.since() is None,
        }
    }

    /// Whether the hold has a press that this coordinator counted, and takes part in
    /// its arbitration.
    pub open spec fn joined(&self, coordinator: GestureCoordinator) -> bool {
        &&& self.coordinator == coordinator
        &&& self.press matches Some(press)
        &&& press.is_of(coordinator)
    }

    /// Whether these are readings of the hold's coordinator and of the time that the
    /// hold has lasted.
    pub open spec fn is_observed_by(&self, seen: HookReadings) -> bool {
        seen.presses.source() == self.coordinator.counter() && self.is_timed_by(seen.held)
    }

    /// Whether the hold goes on as it was, if it goes on at all: with the same
    /// coordinator, of the same press, and with its gate measured from the same
    /// reading.
    pub open spec fn goes_on_from(&self, before: HoldState) -> bool {
        &&& self.coordinator == before.coordinator
        &&& self@.coordinated ==> self.press == before.press
        &&& self.gesture is Some ==> self.since() == before.since()
    }
}

/// The mode behind an optional reference.
pub open spec fn opt_mode(mode: Option<&GestureMode>) -> Option<GestureMode> {
    match mode {
        Some(found) => Some(*found),
        None => None,
    }
}

/// What the hook does besides deciding the event's fate.
#[derive(Debug)]
pub enum HookEffect {
    /// Nothing.
    Idle,
    /// Queue this action for injection.
    Emit(Action),
    /// Hand this motion to the Pan worker.
    Pan {
        /// Horizontal amount.
        x: i32,
        /// Vertical amount.
        y: i32,
    },
}

/// The hook's answer to one event.
#[derive(Debug)]
pub struct HookReaction {
    /// What becomes of the event.
    pub disposition: EventDisposition,
    /// What else is done.
    pub effect: HookEffect,
}

impl HookReaction {
    /// An answer that only decides the event's fate.
    pub open spec fn only(disposition: EventDisposition) -> HookReaction {
        HookReaction { disposition, effect: HookEffect::Idle }
    }

    /// An answer that only decides the event's fate.
    fn just(disposition: EventDisposition) -> (reaction: HookReaction)
        ensures
            reaction == HookReaction::only(disposition),
    {
        HookReaction { disposition, effect: HookEffect::Idle }
    }
}

/// The button is bound to the very click it produces by itself.
pub open spec fn native_click(id: ButtonId, action: Action) -> bool {
    match (id, action) {
        (ButtonId::LeftClick, Action::LeftClick) => true,
        (ButtonId::RightClick, Action::RightClick) => true,
        (ButtonId::MiddleClick, Action::MiddleClick) => true,
        (ButtonId::Back, Action::MouseBack) => true,
        (ButtonId::Forward, Action::MouseForward) => true,
        _ => false,
    }
}

/// Whether `action` is just `id`'s own native event. The hook then passes the
/// event through rather than suppress and re-synthesise it.
#[must_use]
pub fn is_native_click(id: ButtonId, action: &Action) -> (native: bool)
    ensures
        native == native_click(id, *action),
{
    matches!(
        (id, action),
        (ButtonId::LeftClick, Action::LeftClick)
            | (ButtonId::RightClick, Action::RightClick)
            | (ButtonId::MiddleClick, Action::MiddleClick)
            | (ButtonId::Back, Action::MouseBack)
            | (ButtonId::Forward, Action::MouseForward)
    )
}

/// The answer to an ordinary button's event: unbound and native clicks reach the
/// system; otherwise the event is swallowed, and the press fires the action.
pub open spec fn single_reaction(id: ButtonId, pressed: bool, action: Option<Action>) -> HookReaction {
    match action {
        None => HookReaction::only(EventDisposition::PassThrough),
        Some(action) => if native_click(id, action) {
            HookReaction::only(EventDisposition::PassThrough)
        } else if pressed {
            HookReaction {
                disposition: EventDisposition::Suppress,
                effect: HookEffect::Emit(action),
            }
        } else {
            HookReaction::only(EventDisposition::Suppress)
        },
    }
}

/// The hold and the answer after a button event. `maps` is absent while the maps
/// are being rewritten; `newest` says whether the hold is of the newest gesture
/// press.
pub open spec fn button_reaction(
    hold: HoldModel,
    maps: Option<HookMaps>,
    id: ButtonId,
    pressed: bool,
    newest: bool,
) -> (HoldModel, HookReaction) {
    if !id.os_hook_button() {
        (hold, HookReaction::only(EventDisposition::PassThrough))
    } else {
        match maps {
            None => if hold.button != Some(id) {
                (hold, HookReaction::only(EventDisposition::PassThrough))
            } else if pressed {
                (hold.cancelled(), HookReaction::only(EventDisposition::PassThrough))
            } else {
                (hold.cancelled(), HookReaction::only(EventDisposition::Suppress))
            },
            Some(maps) => {
                let gesture = maps.gestures.slot(id);
                let action = maps.bindings.slot(id);
                if pressed {
                    match gesture {
                        Some(mode) => (
                            HoldModel::begun(id, mode, maps.generation),
                            HookReaction::only(EventDisposition::Suppress),
                        ),
                        None => (hold, single_reaction(id, pressed, action)),
                    }
                } else if hold.button != Some(id) {
                    (hold, single_reaction(id, pressed, action))
                } else if !hold.stands(id, gesture, maps.generation, newest) {
                    (hold.cancelled(), HookReaction::only(EventDisposition::Suppress))
                } else {
                    (
                        hold.cancelled(),
                        match hold.release_output(id) {
                            Some(HoldOutput::Action(click)) => HookReaction {
                                disposition: EventDisposition::Suppress,
                                effect: HookEffect::Emit(click),
                            },
                            _ => HookReaction::only(EventDisposition::Suppress),
                        },
                    )
                }
            },
        }
    }
}

/// Whether a button event begins a hold: the press of a hooked button that is bound
/// to a gesture.
pub open spec fn begins_hold(maps: Option<HookMaps>, id: ButtonId, pressed: bool) -> bool {
    &&& pressed
    &&& id.os_hook_button()
    &&& maps matches Some(maps)
    &&& maps.gestures.slot(id) is Some
}

/// Whether an event begins a hold.
pub open spec fn event_begins_hold(maps: Option<HookMaps>, event: MouseEvent) -> bool {
    event matches MouseEvent::Button { id, pressed } && begins_hold(maps, id, pressed)
}

/// What becomes of pointer motion that a Pan hold consumes.
pub open spec fn pan_disposition(macos: bool) -> EventDisposition {
    if macos {
        EventDisposition::FreezePointer
    } else {
        EventDisposition::Suppress
    }
}

/// The hold and the answer after pointer motion.
pub open spec fn motion_reaction(
    hold: HoldModel,
    maps: Option<HookMaps>,
    dx: i32,
    dy: i32,
    newest: bool,
    held_long_enough: bool,
    macos: bool,
) -> (HoldModel, HookReaction) {
    match (hold.button, maps) {
        (None, _) => (hold, HookReaction::only(EventDisposition::PassThrough)),
        (Some(_), None) => (hold.cancelled(), HookReaction::only(EventDisposition::PassThrough)),
        (Some(button), Some(maps)) => {
            let current = maps.gestures.slot(button);
            if !hold.stands(button, current, maps.generation, newest) {
                (hold.cancelled(), HookReaction::only(EventDisposition::PassThrough))
            } else {
                let (after, output) = hold.moved(dx, dy, held_long_enough);
                (
                    after,
                    match output {
                        HoldOutput::Action(action) => HookReaction {
                            disposition: EventDisposition::PassThrough,
                            effect: HookEffect::Emit(action),
                        },
                        HoldOutput::PanDelta { x, y } => HookReaction {
                            disposition: pan_disposition(macos),
                            effect: HookEffect::Pan { x, y },
                        },
                        HoldOutput::Suppress => HookReaction::only(
                            if current matches Some(GestureMode::Pan(_)) {
                                pan_disposition(macos)
                            } else {
                                EventDisposition::PassThrough
                            },
                        ),
                    },
                )
            }
        },
    }
}

/// The hold and the answer after any event.
pub open spec fn event_reaction(
    hold: HoldModel,
    maps: Option<HookMaps>,
    event: MouseEvent,
    newest: bool,
    held_long_enough: bool,
    macos: bool,
) -> (HoldModel, HookReaction) {
    match event {
        MouseEvent::Button { id, pressed } => button_reaction(hold, maps, id, pressed, newest),
        MouseEvent::Moved { delta_x, delta_y } => motion_reaction(
            hold,
            maps,
            delta_x,
            delta_y,
            newest,
            held_long_enough,
            macos,
        ),
        MouseEvent::CaptureInterrupted => (
            hold.cancelled(),
            HookReaction::only(EventDisposition::PassThrough),
        ),
        MouseEvent::Scroll { .. } => (hold, HookReaction::only(EventDisposition::PassThrough)),
    }
}

/// The maps behind an optional reference.
pub open spec fn opt_maps(maps: Option<&HookMaps>) -> Option<HookMaps> {
    match maps {
        Some(found) => Some(*found),
        None => None,
    }
}

/// Answer a button event. `maps` is `None` while they are being rewritten: the
/// callback must not wait, so the event passes and a hold of that button is
/// abandoned.
pub fn handle_button(
    hold: &mut HoldState,
    coordinator: &GestureCoordinator,
    maps: Option<&HookMaps>,
    id: ButtonId,
    pressed: bool,
) -> (reaction: HookReaction)
    ensures
        exists|presses: CountReading|
            presses.source() == old(hold).coordinator.counter() && (final(hold)@, reaction)
                == button_reaction(
                old(hold)@,
                opt_maps(maps),
                id,
                pressed,
                #[trigger] old(hold).newest_at(presses.value()),
            ),
        if begins_hold(opt_maps(maps), id, pressed) {
            final(hold).joined(*coordinator)
        } else {
            final(hold).goes_on_from(*old(hold))
        },
{
    handle_button_now(hold, coordinator, maps, id, pressed).0
}

/// Answer a button event, with the reading of the coordinator that says whether the
/// hold is of the newest gesture press.
pub fn handle_button_now(
    hold: &mut HoldState,
    coordinator: &GestureCoordinator,
    maps: Option<&HookMaps>,
    id: ButtonId,
    pressed: bool,
) -> (outcome: (HookReaction, CountReading))
    ensures
        outcome.1.source() == old(hold).coordinator.counter(),
        (final(hold)@, outcome.0) == button_reaction(
            old(hold)@,
            opt_maps(maps),
            id,
            pressed,
            old(hold).newest_at(outcome.1.value()),
        ),
        if begins_hold(opt_maps(maps), id, pressed) {
            final(hold).joined(*coordinator)
        } else {
            final(hold).goes_on_from(*old(hold))
        },
{
    let presses = hold.coordinator.read();
    let newest = hold.newest_by(&presses);
    (react_to_button(hold, coordinator, maps, id, pressed, newest), presses)
}

/// Answer a button event, given whether the hold is of the newest gesture press.
pub fn react_to_button(
    hold: &mut HoldState,
    coordinator: &GestureCoordinator,
    maps: Option<&HookMaps>,
    id: ButtonId,
    pressed: bool,
    newest: bool,
) -> (reaction: HookReaction)
    ensures
        (final(hold)@, reaction) == button_reaction(
            old(hold)@,
            opt_maps(maps),
            id,
            pressed,
            newest,
        ),
        if begins_hold(opt_maps(maps), id, pressed) {
            final(hold).joined(*coordinator)
        } else {
            final(hold).goes_on_from(*old(hold))
        },
{
    if !id.is_os_hook_button() {
        return HookReaction::just(EventDisposition::PassThrough);
    }
    let active = match hold.active_button() {
        Some(button) => button == id,
        None => false,
    };
    let maps = match maps {
        Some(maps) => maps,
        None => {
            if active {
                let _ = hold.cancel();
            }
            return HookReaction::just(
                if active && !pressed {
                    EventDisposition::Suppress
                } else {
                    EventDisposition::PassThrough
                },
            );
        },
    };
    let gesture = maps.gestures.get(id);
    if pressed {
        if let Some(mode) = gesture {
            hold.coordinate_with(coordinator.clone());
            hold.begin(id, mode.clone(), maps.generation);
            return HookReaction::just(EventDisposition::Suppress);
        }
    } else if active {
        if !hold.stands(id, gesture, maps.generation, newest) {
            let _ = hold.cancel();
            return HookReaction::just(EventDisposition::Suppress);
        }
        return match hold.end(id) {
            Some(HoldOutput::Action(click)) => HookReaction {
                disposition: EventDisposition::Suppress,
                effect: HookEffect::Emit(click),
            },
            _ => HookReaction::just(EventDisposition::Suppress),
        };
    }
    match maps.bindings.get(id) {
        None => HookReaction::just(EventDisposition::PassThrough),
        Some(action) => if is_native_click(id, action) {
            HookReaction::just(EventDisposition::PassThrough)
        } else if pressed {
            HookReaction {
                disposition: EventDisposition::Suppress,
                effect: HookEffect::Emit(action.clone()),
            }
        } else {
            HookReaction::just(EventDisposition::Suppress)
        },
    }
}

/// What becomes of pointer motion that a Pan hold consumes: macOS keeps the
/// pointer still, elsewhere the event is swallowed.
#[must_use]
pub fn pan_motion_disposition(macos: bool) -> (disposition: EventDisposition)
    ensures
        disposition == pan_disposition(macos),
{
    if macos {
        EventDisposition::FreezePointer
    } else {
        EventDisposition::Suppress
    }
}

/// Answer pointer motion.
pub fn handle_motion(
    hold: &mut HoldState,
    maps: Option<&HookMaps>,
    delta_x: i32,
    delta_y: i32,
    macos: bool,
) -> (reaction: HookReaction)
    ensures
        exists|seen: HookReadings| #[trigger]
            old(hold).is_observed_by(seen) && (final(hold)@, reaction) == motion_reaction(
                old(hold)@,
                opt_maps(maps),
                delta_x,
                delta_y,
                old(hold).newest_at(seen.presses.value()),
                old(hold)@.open_after(clock::length_of(seen.held)),
                macos,
            ),
        final(hold).goes_on_from(*old(hold)),
{
    handle_motion_now(hold, maps, delta_x, delta_y, macos).0
}

/// What is read of a hold before an event is answered.
#[derive(Debug)]
pub struct HookReadings {
    /// The counter of gesture presses.
    pub presses: CountReading,
    /// The time that the hold has lasted, where a swipe waits for it.
    pub held: Option<Elapsed>,
}

/// Answer pointer motion, with the readings that say whether the hold is of the newest
/// gesture press and how long it has lasted.
pub fn handle_motion_now(
    hold: &mut HoldState,
    maps: Option<&HookMaps>,
    delta_x: i32,
    delta_y: i32,
    macos: bool,
) -> (outcome: (HookReaction, HookReadings))
    ensures
        old(hold).is_observed_by(outcome.1),
        (final(hold)@, outcome.0) == motion_reaction(
            old(hold)@,
            opt_maps(maps),
            delta_x,
            delta_y,
            old(hold).newest_at(outcome.1.presses.value()),
            old(hold)@.open_after(clock::length_of(outcome.1.held)),
            macos,
        ),
        final(hold).goes_on_from(*old(hold)),
{
    let seen = hold.observe();
    let newest = hold.newest_by(&seen.presses);
    let open = hold.open_by(&seen.held);
    (react_to_motion(hold, maps, delta_x, delta_y, newest, open, macos), seen)
}

/// Answer pointer motion, given whether the hold is of the newest gesture press
/// and has lasted long enough for a swipe to commit.
pub fn react_to_motion(
    hold: &mut HoldState,
    maps: Option<&HookMaps>,
    delta_x: i32,
    delta_y: i32,
    newest: bool,
    held_long_enough: bool,
    macos: bool,
) -> (reaction: HookReaction)
    ensures
        (final(hold)@, reaction) == motion_reaction(
            old(hold)@,
            opt_maps(maps),
            delta_x,
            delta_y,
            newest,
            held_long_enough,
            macos,
        ),
        final(hold).goes_on_from(*old(hold)),
{
    let button = match hold.active_button() {
        Some(button) => button,
        None => {
            return HookReaction::just(EventDisposition::PassThrough);
        },
    };
    let maps = match maps {
        Some(maps) => maps,
        None => {
            let _ = hold.cancel();
            return HookReaction::just(EventDisposition::PassThrough);
        },
    };
    let current = maps.gestures.get(button);
    if !hold.stands(button, current, maps.generation, newest) {
        let _ = hold.cancel();
        return HookReaction::just(EventDisposition::PassThrough);
    }
    match hold.accumulate_gated(delta_x, delta_y, held_long_enough) {
        HoldOutput::Action(action) => HookReaction {
            disposition: EventDisposition::PassThrough,
            effect: HookEffect::Emit(action),
        },
        HoldOutput::PanDelta { x, y } => HookReaction {
            disposition: pan_motion_disposition(macos),
            effect: HookEffect::Pan { x, y },
        },
        HoldOutput::Suppress => {
            let panning = match current {
                Some(GestureMode::Pan(_)) => true,
                _ => false,
            };
            HookReaction::just(
                if panning {
                    pan_motion_disposition(macos)
                } else {
                    EventDisposition::PassThrough
                },
            )
        },
    }
}

/// Answer any event.
pub fn handle_event(
    hold: &mut HoldState,
    coordinator: &GestureCoordinator,
    maps: Option<&HookMaps>,
    event: &MouseEvent,
    macos: bool,
) -> (reaction: HookReaction)
    ensures
        exists|seen: HookReadings| #[trigger]
            old(hold).is_observed_by(seen) && (final(hold)@, reaction) == event_reaction(
                old(hold)@,
                opt_maps(maps),
                *event,
                old(hold).newest_at(seen.presses.value()),
                old(hold)@.open_after(clock::length_of(seen.held)),
                macos,
            ),
        if event_begins_hold(opt_maps(maps), *event) {
            final(hold).joined(*coordinator)
        } else {
            final(hold).goes_on_from(*old(hold))
        },
{
    handle_event_now(hold, coordinator, maps, event, macos).0
}

/// Answer any event, with the readings that say whether the hold is of the newest
/// gesture press and how long it has lasted.
pub fn handle_event_now(
    hold: &mut HoldState,
    coordinator: &GestureCoordinator,
    maps: Option<&HookMaps>,
    event: &MouseEvent,
    macos: bool,
) -> (outcome: (HookReaction, HookReadings))
    ensures
        old(hold).is_observed_by(outcome.1),
        (final(hold)@, outcome.0) == event_reaction(
            old(hold)@,
            opt_maps(maps),
            *event,
            old(hold).newest_at(outcome.1.presses.value()),
            old(hold)@.open_after(clock::length_of(outcome.1.held)),
            macos,
        ),
        if event_begins_hold(opt_maps(maps), *event) {
            final(hold).joined(*coordinator)
        } else {
            final(hold).goes_on_from(*old(hold))
        },
{
    let seen = hold.observe();
    let newest = hold.newest_by(&seen.presses);
    let open = hold.open_by(&seen.held);
    (react_to_event(hold, coordinator, maps, event, newest, open, macos), seen)
}

/// Answer any event, given whether the hold is of the newest gesture press and
/// has lasted long enough for a swipe to commit.
pub fn react_to_event(
    hold: &mut HoldState,
    coordinator: &GestureCoordinator,
    maps: Option<&HookMaps>,
    event: &MouseEvent,
    newest: bool,
    held_long_enough: bool,
    macos: bool,
) -> (reaction: HookReaction)
    ensures
        (final(hold)@, reaction) == event_reaction(
            old(hold)@,
            opt_maps(maps),
            *event,
            newest,
            held_long_enough,
            macos,
        ),
        if event_begins_hold(opt_maps(maps), *event) {
            final(hold).joined(*coordinator)
        } else {
            final(hold).goes_on_from(*old(hold))
        },
{
    match event {
        MouseEvent::Button { id, pressed } => react_to_button(
            hold,
            coordinator,
            maps,
            *id,
            *pressed,
            newest,
        ),
        MouseEvent::Moved { delta_x, delta_y } => react_to_motion(
            hold,
            maps,
            *delta_x,
            *delta_y,
            newest,
            held_long_enough,
            macos,
        ),
        MouseEvent::CaptureInterrupted => {
            let _ = hold.cancel();
            HookReaction::just(EventDisposition::PassThrough)
        },
        MouseEvent::Scroll { .. } => HookReaction::just(EventDisposition::PassThrough),
    }
}

/// A signed number as the unsigned number with the same 32 bits.
pub open spec fn unsigned_bits(n: i32) -> u64 {
    if n < 0 {
        (n + 0x1_0000_0000) as u64
    } else {
        n as u64
    }
}

/// The two numbers side by side in one word: the horizontal one in the upper
/// half.
pub open spec fn packed(x: i32, y: i32) -> u64 {
    (unsigned_bits(x) * 0x1_0000_0000 + unsigned_bits(y)) as u64
}

/// A 32-bit number read as signed.
pub open spec fn signed_bits(n: int) -> i32 {
    if n >= 0x8000_0000 {
        (n - 0x1_0000_0000) as i32
    } else {
        n as i32
    }
}

/// The two numbers held by a word.
pub open spec fn unpacked(word: u64) -> (i32, i32) {
    (signed_bits(word as int / 0x1_0000_0000), signed_bits(word as int % 0x1_0000_0000))
}

/// A word with motion added to the two numbers it holds.
pub open spec fn coalesced(word: u64, x: i32, y: i32) -> u64 {
    let (old_x, old_y) = unpacked(word);
    packed(arith::sat_i32(old_x + x), arith::sat_i32(old_y + y))
}

/// Pack two signed numbers into one word.
#[must_use]
pub fn pack_delta(x: i32, y: i32) -> (word: u64)
    ensures
        word == packed(x, y),
{
    let upper: u64 = if x < 0 {
        (x as i64 + 0x1_0000_0000) as u64
    } else {
        x as u64
    };
    let lower: u64 = if y < 0 {
        (y as i64 + 0x1_0000_0000) as u64
    } else {
        y as u64
    };
    upper * 0x1_0000_0000 + lower
}

/// Unpack the two signed numbers of a word.
#[must_use]
pub fn unpack_delta(word: u64) -> (delta: (i32, i32))
    ensures
        delta == unpacked(word),
{
    (sign_half(word / 0x1_0000_0000), sign_half(word % 0x1_0000_0000))
}

/// Read a 32-bit number as signed.
fn sign_half(half: u64) -> (signed: i32)
    requires
        half < 0x1_0000_0000,
    ensures
        signed == signed_bits(half as int),
{
    if half >= 0x8000_0000 {
        (half as i64 - 0x1_0000_0000) as i32
    } else {
        half as i32
    }
}

/// Add motion to the two numbers that a word holds, without overflow.
#[must_use]
pub fn coalesce(word: u64, x: i32, y: i32) -> (merged: u64)
    ensures
        merged == coalesced(word, x, y),
{
    let (old_x, old_y) = unpack_delta(word);
    pack_delta(arith::saturating_add(old_x, x), arith::saturating_add(old_y, y))
}

/// The motion that a taken word stands for; nothing when it holds none.
pub open spec fn motion_in(word: u64) -> Option<(i32, i32)> {
    if word == 0 {
        None
    } else {
        Some(unpacked(word))
    }
}

/// The motion that a drained word stands for; nothing when it holds none.
#[must_use]
pub fn drained(word: u64) -> (delta: Option<(i32, i32)>)
    ensures
        delta == motion_in(word),
{
    if word == 0 {
        None
    } else {
        Some(unpack_delta(word))
    }
}

/// Raising the wake flag claims the wake exactly when it was not raised before.
pub open spec fn claims_wake(raised_before: bool) -> bool {
    !raised_before
}

/// Whether raising the wake flag asks for a wake, given whether it was raised
/// before: at most one wake is outstanding.
#[must_use]
pub fn wake_needed(raised_before: bool) -> (wake: bool)
    ensures
        wake == claims_wake(raised_before),
{
    !raised_before
}

/// What one producer did to the mailbox.
pub struct PanRequest {
    /// The merge of its motion.
    pub merge: MotionMerge,
    /// The raising of the wake flag.
    pub raise: FlagRaise,
    /// Whether the worker has to be woken.
    pub wake: bool,
}

/// What one taking did to the mailbox.
pub struct PanTake {
    /// The taking of the word.
    pub look: MotionLook,
    /// The motion that was taken.
    pub delta: Option<(i32, i32)>,
}

/// What the end of one cycle of the worker did to the mailbox.
pub struct PanFinish {
    /// The lowering of the wake flag.
    pub lower: FlagLower,
    /// The look at the word.
    pub look: MotionLook,
    /// The raising of the wake flag, where the word held motion.
    pub claim: Option<FlagRaise>,
    /// Whether the worker goes on instead of waiting.
    pub again: bool,
}

impl PanRequest {
    /// Whether this is what a producer of the given motion does to a mailbox: the word
    /// holds the motion as well, and the worker has to be woken exactly when the flag
    /// was not raised before.
    pub open spec fn is_of(&self, mailbox: PanPending, x: i32, y: i32) -> bool {
        &&& self.merge.source() == mailbox.word()
        &&& self.merge.after() == coalesced(self.merge.before(), x, y)
        &&& self.raise.source() == mailbox.flag()
        &&& self.wake == claims_wake(self.raise.was_raised())
    }
}

impl PanTake {
    /// Whether this is a taking from a mailbox: of the motion that its word held.
    pub open spec fn is_of(&self, mailbox: PanPending) -> bool {
        &&& self.look.source() == mailbox.word()
        &&& self.look.takes()
        &&& self.delta == motion_in(self.look.seen())
    }
}

impl PanFinish {
    /// Whether this is the end of a cycle of a mailbox's worker: where the word holds
    /// motion the worker claims it, and goes on if no producer has claimed the wake for
    /// it before.
    pub open spec fn is_of(&self, mailbox: PanPending) -> bool {
        &&& self.lower.source() == mailbox.flag()
        &&& self.look.source() == mailbox.word()
        &&& !self.look.takes()
        &&& self.claim is Some <==> motion_in(self.look.seen()) is Some
        &&& self.claim matches Some(raise) ==> raise.source() == mailbox.flag()
        &&& self.again == (self.claim matches Some(raise) && claims_wake(raise.was_raised()))
    }
}

/// Atomic two-axis Pan accumulator with a single outstanding worker wake.
#[derive(Debug)]
pub struct PanPending {
    packed: MotionWord,
    wake_pending: WakeFlag,
}

impl Default for PanPending {
    fn default() -> (pending: Self) {
        PanPending { packed: MotionWord::default(), wake_pending: WakeFlag::default() }
    }
}

impl PanPending {
    /// The word of pending motion.
    pub closed spec fn word(&self) -> MotionWord {
        self.packed
    }

    /// The wake flag.
    pub closed spec fn flag(&self) -> WakeFlag {
        self.wake_pending
    }

    /// Add motion to what is pending. Returns whether the worker has to be woken:
    /// at most one wake is outstanding. Word and flag are shared with the worker, so
    /// either answer is possible here; [`Self::request`] says what is done to each.
    pub fn enqueue(&self, x: i32, y: i32) -> (wake: bool)
        ensures
            exists|request: PanRequest| #[trigger]
                request.is_of(*self, x, y) && wake == request.wake,
    {
        let request = self.request(x, y);
        request.wake
    }

    /// Add motion to what is pending, and keep the record of what was found and done.
    /// Word and flag are shared with the worker, so any may be found.
    pub fn request(&self, x: i32, y: i32) -> (request: PanRequest)
        ensures
            request.is_of(*self, x, y),
    {
        let merge = self.packed.merge(x, y);
        let raise = self.wake_pending.raise();
        let wake = wake_needed(raise.before());
        PanRequest { merge, raise, wake }
    }

    /// Take what is pending, leaving nothing.
    pub fn take(&self) -> (delta: Option<(i32, i32)>)
        ensures
            exists|take: PanTake| #[trigger] take.is_of(*self) && delta == take.delta,
    {
        let take = self.take_now();
        take.delta
    }

    /// Take what is pending, leaving nothing, and keep the record of what was found.
    pub fn take_now(&self) -> (take: PanTake)
        ensures
            take.is_of(*self),
    {
        let look = self.packed.take();
        let delta = drained(look.found());
        PanTake { look, delta }
    }

    /// Allow the next wake. Returns whether motion arrived meanwhile, so that the
    /// worker goes on instead of waiting. Word and flag are shared with the
    /// producers, so either answer is possible here; [`Self::finish`] says what is made
    /// of each word and flag that is found.
    pub fn finish_cycle(&self) -> (again: bool)
        ensures
            exists|finish: PanFinish| #[trigger] finish.is_of(*self) && again == finish.again,
    {
        let finish = self.finish();
        finish.again
    }

    /// Allow the next wake, claim motion that arrived meanwhile, and keep the record of
    /// what was found and done.
    pub fn finish(&self) -> (finish: PanFinish)
        ensures
            finish.is_of(*self),
    {
        let lower = self.wake_pending.lower();
        let look = self.packed.look();
        if drained(look.found()).is_some() {
            let raise = self.wake_pending.raise();
            let again = wake_needed(raise.before());
            PanFinish { lower, look, claim: Some(raise), again }
        } else {
            PanFinish { lower, look, claim: None, again: false }
        }
    }

    /// Take what is pending and allow the next wake.
    pub fn drain(&self) -> (delta: Option<(i32, i32)>)
        ensures
            exists|take: PanTake| #[trigger] take.is_of(*self) && delta == take.delta,
    {
        let (take, _lower) = self.drain_now();
        take.delta
    }

    /// Take what is pending, allow the next wake, and keep the records of both.
    pub fn drain_now(&self) -> (drain: (PanTake, FlagLower))
        ensures
            drain.0.is_of(*self),
            drain.1.source() == self.flag(),
    {
        let take = self.take_now();
        (take, self.wake_pending.lower())
    }
}

/// Non-blocking Pan producer shared by the OS hook and HID++ watcher.
#[derive(Debug)]
pub struct PanEmitter {
    pending: Arc<PanPending>,
    wake: SyncSender<()>,
}

/// What the emitting of motion did.
pub struct PanSubmission {
    /// What was done to the mailbox.
    pub request: PanRequest,
    /// The attempt to wake the worker, where it has to be woken.
    pub attempt: Option<WakeAttempt>,
}

impl PanSubmission {
    /// Whether this is what an emitter does with motion: it is merged into the emitter's
    /// mailbox, and a wake is handed to the emitter's channel exactly when the request
    /// has claimed it.
    pub open spec fn is_of(&self, emitter: PanEmitter, x: i32, y: i32) -> bool {
        &&& self.request.is_of(*emitter.mailbox(), x, y)
        &&& self.attempt is Some <==> self.request.wake
        &&& self.attempt matches Some(attempt) ==> attempt.channel() == emitter.waker()
    }
}

impl PanEmitter {
    /// The mailbox that motion is merged into.
    pub closed spec fn mailbox(&self) -> Arc<PanPending> {
        self.pending
    }

    /// The channel over which the worker is woken.
    pub closed spec fn waker(&self) -> SyncSender<()> {
        self.wake
    }

    /// A producer for the worker that drains `pending` when `wake` is received.
    #[must_use]
    pub fn new(pending: Arc<PanPending>, wake: SyncSender<()>) -> (emitter: Self)
        ensures
            emitter.mailbox() == pending,
            emitter.waker() == wake,
    {
        PanEmitter { pending, wake }
    }

    /// Coalesce motion and request at most one bounded worker wake. All of it happens
    /// in what the worker shares; [`Self::submit`] says what is done to it.
    pub fn emit(&self, x: i32, y: i32) {
        let _ = self.submit(x, y);
    }

    /// Coalesce motion, request at most one bounded worker wake, and keep the record of
    /// what was found and done. A wake that the channel does not take is dropped.
    pub fn submit(&self, x: i32, y: i32) -> (submission: PanSubmission)
        ensures
            submission.is_of(*self, x, y),
    {
        let request = self.pending.request(x, y);
        let attempt = if request.wake {
            Some(try_wake(&self.wake))
        } else {
            None
        };
        PanSubmission { request, attempt }
    }
}

/// Where the Pan worker is.
pub enum PanWorker {
    /// It waits for a wake.
    Waiting,
    /// It is about to take what is pending.
    Awake,
    /// It has taken it, and is about to allow the next wake.
    Emptied,
    /// It has allowed the next wake, and is about to look for more motion.
    Allowing,
    /// It has found more motion, and is about to claim it.
    Found,
}

/// One atomic step of a producer or of the worker, in the order in which
/// [`PanEmitter::emit`], [`PanPending::take`] and [`PanPending::finish_cycle`] make
/// them.
pub enum PanStep {
    /// A producer merges motion into the word.
    Merge {
        /// Horizontal amount.
        x: i32,
        /// Vertical amount.
        y: i32,
    },
    /// A producer that has merged sets the wake flag, and sends a wake where the flag
    /// was clear.
    Request,
    /// The worker receives a wake.
    Receive,
    /// The worker takes the word.
    Take,
    /// The worker clears the wake flag.
    Allow,
    /// The worker looks whether the word holds motion.
    Look,
    /// The worker sets the wake flag, and goes on where it was clear.
    Claim,
}

/// The Pan mailbox, between two atomic steps of its users.
pub struct PanProtocol {
    /// The pending motion.
    pub word: u64,
    /// The wake flag.
    pub flag: bool,
    /// Whether a wake is in the channel, which holds one.
    pub queued: bool,
    /// Producers that have merged motion and not yet requested a wake.
    pub producers: nat,
    /// Where the worker is.
    pub worker: PanWorker,
}

impl PanProtocol {
    /// Nothing pending, the worker waiting.
    pub open spec fn fresh() -> PanProtocol {
        PanProtocol {
            word: 0,
            flag: false,
            queued: false,
            producers: 0,
            worker: PanWorker::Waiting,
        }
    }

    /// Whether a step can come next.
    pub open spec fn allows(self, step: PanStep) -> bool {
        match step {
            PanStep::Merge { .. } => true,
            PanStep::Request => self.producers > 0,
            PanStep::Receive => self.worker is Waiting && self.queued,
            PanStep::Take => self.worker is Awake,
            PanStep::Allow => self.worker is Emptied,
            PanStep::Look => self.worker is Allowing,
            PanStep::Claim => self.worker is Found,
        }
    }

    /// The mailbox after a step.
    pub open spec fn after(self, step: PanStep) -> PanProtocol {
        match step {
            PanStep::Merge { x, y } => PanProtocol {
                word: coalesced(self.word, x, y),
                producers: self.producers + 1,
                ..self
            },
            PanStep::Request => PanProtocol {
                flag: true,
                queued: self.queued || claims_wake(self.flag),
                producers: (self.producers - 1) as nat,
                ..self
            },
            PanStep::Receive => PanProtocol { queued: false, worker: PanWorker::Awake, ..self },
            PanStep::Take => PanProtocol { word: 0, worker: PanWorker::Emptied, ..self },
            PanStep::Allow => PanProtocol { flag: false, worker: PanWorker::Allowing, ..self },
            PanStep::Look => PanProtocol {
                worker: if self.word != 0 {
                    PanWorker::Found
                } else {
                    PanWorker::Waiting
                },
                ..self
            },
            PanStep::Claim => PanProtocol {
                flag: true,
                worker: if claims_wake(self.flag) {
                    PanWorker::Awake
                } else {
                    PanWorker::Waiting
                },
                ..self
            },
        }
    }

    /// The mailbox after a run of steps.
    pub open spec fn after_all(self, steps: Seq<PanStep>) -> PanProtocol
        decreases steps.len(),
    {
        if steps.len() == 0 {
            self
        } else {
            self.after_all(steps.drop_last()).after(steps.last())
        }
    }

    /// Every step of a run can come when it does.
    pub open spec fn allows_all(self, steps: Seq<PanStep>) -> bool
        decreases steps.len(),
    {
        steps.len() == 0 || self.allows_all(steps.drop_last()) && self.after_all(
            steps.drop_last(),
        ).allows(steps.last())
    }

    /// The worker has been woken and has not allowed the next wake yet.
    pub open spec fn busy(self) -> bool {
        self.worker is Awake || self.worker is Emptied
    }

    /// What every step keeps.
    pub open spec fn sound(self) -> bool {
        &&& self.flag == (self.queued || self.busy())
        &&& !(self.queued && self.busy())
        &&& self.worker is Waiting && self.word != 0 ==> self.queued || self.producers > 0
    }
}

/// Every run of steps keeps the mailbox sound.
proof fn lemma_steps_keep_sound(steps: Seq<PanStep>)
    requires
        PanProtocol::fresh().allows_all(steps),
    ensures
        PanProtocol::fresh().after_all(steps).sound(),
    decreases steps.len(),
{
    if steps.len() > 0 {
        lemma_steps_keep_sound(steps.drop_last());
    }
}

/// However producers and worker interleave, no motion is stranded: while the worker
/// waits with motion pending, a wake is on its way to it, or a producer is about to
/// request one.
pub proof fn law_pending_motion_is_picked_up(steps: Seq<PanStep>)
    requires
        PanProtocol::fresh().allows_all(steps),
    ensures
        ({
            let mailbox = PanProtocol::fresh().after_all(steps);
            mailbox.worker is Waiting && mailbox.word != 0 ==> mailbox.queued
                || mailbox.producers > 0
        }),
{
    lemma_steps_keep_sound(steps);
}

/// However producers and worker interleave, at most one wake is outstanding: one is
/// sent only while none is in the channel and the worker is not busy, so that the
/// channel always takes it.
pub proof fn law_one_wake_is_outstanding(steps: Seq<PanStep>)
    requires
        PanProtocol::fresh().allows_all(steps),
    ensures
        ({
            let mailbox = PanProtocol::fresh().after_all(steps);
            !mailbox.flag ==> !mailbox.queued && !mailbox.busy()
        }),
{
    lemma_steps_keep_sound(steps);
}

/// The motion that a run of steps merges, in the order in which it is merged.
pub open spec fn merged_motion(steps: Seq<PanStep>) -> Seq<(i32, i32)>
    decreases steps.len(),
{
    if steps.len() == 0 {
        Seq::empty()
    } else {
        let before = merged_motion(steps.drop_last());
        match steps.last() {
            PanStep::Merge { x, y } => before.push((x, y)),
            _ => before,
        }
    }
}

/// How many wakes a run of steps puts into the channel.
pub open spec fn wakes_sent(steps: Seq<PanStep>) -> nat
    decreases steps.len(),
{
    if steps.len() == 0 {
        0
    } else {
        let before = wakes_sent(steps.drop_last());
        if steps.last() is Request && claims_wake(
            PanProtocol::fresh().after_all(steps.drop_last()).flag,
        ) {
            before + 1
        } else {
            before
        }
    }
}

/// The steps of one call of [`PanEmitter::emit`] after another.
pub open spec fn emitted(moves: Seq<(i32, i32)>) -> Seq<PanStep>
    decreases moves.len(),
{
    if moves.len() == 0 {
        Seq::empty()
    } else {
        emitted(moves.drop_last()).push(
            PanStep::Merge { x: moves.last().0, y: moves.last().1 },
        ).push(PanStep::Request)
    }
}

/// Motion that is emitted before the worker takes any is taken as one, however the
/// producers interleave: the worker's next take gives what they merged, added up on
/// each axis, or nothing where that comes to nothing; and once every producer is
/// done, exactly one wake has been sent for all of it, which is in the channel or
/// has just been received.
pub proof fn law_motion_before_a_take_is_coalesced(steps: Seq<PanStep>)
    requires
        PanProtocol::fresh().allows_all(steps),
        forall|i: int| 0 <= i < steps.len() ==> !(#[trigger] steps[i] is Take),
    ensures
        ({
            let mailbox = PanProtocol::fresh().after_all(steps);
            let total = arith::added_up(merged_motion(steps));
            &&& unpacked(mailbox.word) == total
            &&& motion_in(mailbox.word) == if total == (0i32, 0i32) {
                None
            } else {
                Some(total)
            }
            &&& mailbox.producers <= merged_motion(steps).len()
            &&& mailbox.producers < merged_motion(steps).len() ==> wakes_sent(steps) == 1
            &&& wakes_sent(steps) == if mailbox.flag {
                1nat
            } else {
                0nat
            }
            &&& mailbox.flag == (mailbox.queued || mailbox.worker is Awake)
            &&& mailbox.worker is Waiting || mailbox.worker is Awake && !mailbox.queued
        }),
    decreases steps.len(),
{
    let mailbox = PanProtocol::fresh().after_all(steps);
    if steps.len() > 0 {
        let before = steps.drop_last();
        let last = steps.last();
        assert(last == steps[steps.len() - 1]);
        assert forall|i: int| 0 <= i < before.len() implies !(#[trigger] before[i] is Take) by {
            assert(before[i] == steps[i]);
        }
        law_motion_before_a_take_is_coalesced(before);
        if let PanStep::Merge { x, y } = last {
            law_coalescing_adds_up(PanProtocol::fresh().after_all(before).word, x, y);
            assert(merged_motion(steps).drop_last() == merged_motion(before));
        }
    }
    let (x, y) = unpacked(mailbox.word);
    law_pack_round_trip(x, y, mailbox.word);
}

/// Any number of calls of [`PanEmitter::emit`] before the worker takes anything queue
/// one wake between them, and the worker, woken by it, takes the motion of all of
/// them added up on each axis, or nothing where that comes to nothing.
pub proof fn law_emits_share_one_wake(moves: Seq<(i32, i32)>)
    requires
        moves.len() > 0,
    ensures
        ({
            let steps = emitted(moves);
            let mailbox = PanProtocol::fresh().after_all(steps);
            let total = arith::added_up(moves);
            &&& PanProtocol::fresh().allows_all(steps)
            &&& wakes_sent(steps) == 1
            &&& mailbox.queued
            &&& mailbox.allows(PanStep::Receive)
            &&& mailbox.after(PanStep::Receive).allows(PanStep::Take)
            &&& motion_in(mailbox.after(PanStep::Receive).word) == if total == (0i32, 0i32) {
                None
            } else {
                Some(total)
            }
            &&& mailbox.after(PanStep::Receive).after(PanStep::Take).word == 0
        }),
{
    lemma_emitted(moves);
    law_motion_before_a_take_is_coalesced(emitted(moves));
}

/// Whether producers, one after another, each find what the one before has left, and
/// the first finds a fresh mailbox: the worker takes nothing in between.
pub open spec fn follow_each_other(submissions: Seq<PanSubmission>) -> bool {
    &&& submissions.len() > 0 ==> submissions[0].request.merge.before() == 0
        && !submissions[0].request.raise.was_raised()
    &&& forall|i: int|
        #![trigger submissions[i]]
        0 < i < submissions.len() ==> submissions[i].request.merge.before() == submissions[i
            - 1].request.merge.after() && submissions[i].request.raise.was_raised()
}

/// Calls of [`PanEmitter::submit`] on a fresh mailbox before the worker takes
/// anything: the first of them, and no other, hands a wake to the worker's channel, and
/// a taking of what the last one stored gives the motion of all of them added up on
/// each axis, or nothing where that comes to nothing.
pub proof fn law_submissions_share_one_wake(
    emitter: PanEmitter,
    submissions: Seq<PanSubmission>,
    moves: Seq<(i32, i32)>,
)
    requires
        submissions.len() == moves.len(),
        moves.len() > 0,
        follow_each_other(submissions),
        forall|i: int|
            0 <= i < moves.len() ==> (#[trigger] submissions[i]).is_of(
                emitter,
                moves[i].0,
                moves[i].1,
            ),
    ensures
        forall|i: int|
            0 <= i < submissions.len() ==> ((#[trigger] submissions[i]).attempt is Some <==> i == 0),
        submissions[0].attempt->0.channel() == emitter.waker(),
        motion_in(submissions.last().request.merge.after()) == if arith::added_up(moves) == (
            0i32,
            0i32,
        ) {
            None
        } else {
            Some(arith::added_up(moves))
        },
        forall|take: PanTake|
            take.is_of(*emitter.mailbox()) && take.look.seen()
                == submissions.last().request.merge.after() ==> (#[trigger] take.delta) == (
            if arith::added_up(moves) == (0i32, 0i32) {
                None
            } else {
                Some(arith::added_up(moves))
            }),
    decreases moves.len(),
{
    let last = submissions.last();
    let (x, y) = moves.last();
    let (found, stored) = (last.request.merge.before(), last.request.merge.after());
    assert(last.is_of(emitter, x, y));
    law_coalescing_adds_up(found, x, y);
    if moves.len() > 1 {
        let before = submissions.drop_last();
        assert forall|i: int| 0 <= i < before.len() implies (#[trigger] before[i]).is_of(
            emitter,
            moves.drop_last()[i].0,
            moves.drop_last()[i].1,
        ) by {
            assert(before[i] == submissions[i]);
        }
        assert(follow_each_other(before)) by {
            assert forall|i: int|
                #![trigger before[i]]
                0 < i < before.len() implies before[i].request.merge.before() == before[i
                - 1].request.merge.after() && before[i].request.raise.was_raised() by {
                assert(before[i] == submissions[i]);
                assert(before[i - 1] == submissions[i - 1]);
            }
        }
        law_submissions_share_one_wake(emitter, before, moves.drop_last());
        assert(submissions[submissions.len() - 1].request.merge.before()
            == before.last().request.merge.after());
        let (a, b) = unpacked(found);
        law_pack_round_trip(a, b, found);
        assert forall|i: int| 0 <= i < submissions.len() implies ((
        #[trigger] submissions[i]).attempt is Some <==> i == 0) by {
            if i < before.len() {
                assert(before[i] == submissions[i]);
            }
        }
        assert(before[0] == submissions[0]);
    } else {
        assert(submissions[0].is_of(emitter, moves[0].0, moves[0].1));
        assert(moves.drop_last().len() == 0);
        assert(arith::added_up(moves.drop_last()) == (0i32, 0i32));
        law_pack_round_trip(0, 0, 0);
    }
    let (a, b) = unpacked(stored);
    law_pack_round_trip(a, b, stored);
}

/// What is recorded of a request are the two steps of a producer in the protocol:
/// whatever the mailbox holds at each, the merge stores the word that the first step
/// leads to, and a wake is claimed exactly where the second step sends one.
pub proof fn law_request_follows_the_protocol(
    mailbox: PanPending,
    request: PanRequest,
    x: i32,
    y: i32,
    merging: PanProtocol,
    requesting: PanProtocol,
)
    requires
        request.is_of(mailbox, x, y),
        merging.word == request.merge.before(),
        requesting.flag == request.raise.was_raised(),
        !requesting.queued,
    ensures
        merging.after(PanStep::Merge { x, y }).word == request.merge.after(),
        requesting.after(PanStep::Request).flag,
        requesting.after(PanStep::Request).queued <==> request.wake,
{
}

/// What is recorded of the worker's cycle are its steps in the protocol: a taking gives
/// the motion that the word holds and leaves none; the look finds motion exactly where
/// the worker goes on to claim it; and the claim succeeds exactly where the worker goes
/// on instead of waiting.
pub proof fn law_cycle_follows_the_protocol(
    mailbox: PanPending,
    take: PanTake,
    finish: PanFinish,
    taking: PanProtocol,
    allowing: PanProtocol,
    looking: PanProtocol,
    claiming: PanProtocol,
)
    requires
        take.is_of(mailbox),
        finish.is_of(mailbox),
        taking.word == take.look.seen(),
        looking.word == finish.look.seen(),
        finish.claim matches Some(raise) ==> claiming.flag == raise.was_raised(),
    ensures
        take.delta == motion_in(taking.word),
        taking.after(PanStep::Take).word == 0,
        !allowing.after(PanStep::Allow).flag,
        looking.after(PanStep::Look).worker is Found <==> finish.claim is Some,
        looking.after(PanStep::Look).worker is Waiting <==> finish.claim is None,
        finish.claim is Some ==> claiming.after(PanStep::Claim).flag && (claiming.after(
            PanStep::Claim,
        ).worker is Awake <==> finish.again),
        finish.claim is None ==> !finish.again,
{
}

/// Calls of [`PanEmitter::emit`] one after another are a run of steps in which only
/// producers take part.
proof fn lemma_emitted(moves: Seq<(i32, i32)>)
    ensures
        ({
            let mailbox = PanProtocol::fresh().after_all(emitted(moves));
            &&& PanProtocol::fresh().allows_all(emitted(moves))
            &&& merged_motion(emitted(moves)) == moves
            &&& mailbox.producers == 0
            &&& mailbox.worker is Waiting
        }),
        forall|i: int|
            0 <= i < emitted(moves).len() ==> !(#[trigger] emitted(moves)[i] is Take),
    decreases moves.len(),
{
    if moves.len() > 0 {
        let before = emitted(moves.drop_last());
        let (x, y) = moves.last();
        let merged = before.push(PanStep::Merge { x, y });
        let steps = merged.push(PanStep::Request);
        lemma_emitted(moves.drop_last());
        assert(merged.drop_last() == before);
        assert(steps.drop_last() == merged);
        assert(steps == emitted(moves));
        assert(moves.drop_last().push((x, y)) == moves);
        assert(merged_motion(merged) == moves);
        assert(merged_motion(steps) == merged_motion(merged));
        assert(PanProtocol::fresh().allows_all(merged));
    }
}

/// Where a bound action is carried out.
#[derive(Clone, Copy, Debug, PartialEq, Eq, Structural)]
pub enum ActionRoute {
    /// Step to the next DPI preset of the active device.
    CycleDpi,
    /// Jump to a DPI preset of the active device.
    SetDpi(usize),
    /// Flip the wheel mode of the active device.
    ToggleSmartShift,
    /// Synthesise an OS event.
    Inject,
}

/// Where an action is carried out.
pub open spec fn route_of(action: Action) -> ActionRoute {
    match action {
        Action::CycleDpiPresets => ActionRoute::CycleDpi,
        Action::SetDpiPreset(index) => ActionRoute::SetDpi(index as usize),
        Action::ToggleSmartShift => ActionRoute::ToggleSmartShift,
        _ => ActionRoute::Inject,
    }
}

/// Route a bound action either to OS-level event synthesis or to one of the
/// hardware-side handlers.
#[must_use]
pub fn dispatch_action(action: &Action) -> (route: ActionRoute)
    ensures
        route == route_of(*action),
{
    match action {
        Action::CycleDpiPresets => ActionRoute::CycleDpi,
        Action::SetDpiPreset(index) => ActionRoute::SetDpi(*index as usize),
        Action::ToggleSmartShift => ActionRoute::ToggleSmartShift,
        _ => ActionRoute::Inject,
    }
}

/// Packing and unpacking undo each other.
pub proof fn law_pack_round_trip(x: i32, y: i32, word: u64)
    ensures
        unpacked(packed(x, y)) == (x, y),
        packed(unpacked(word).0, unpacked(word).1) == word,
        packed(x, y) == 0 <==> x == 0 && y == 0,
{
}

/// Motion that is coalesced before the worker wakes adds up on each axis, and a
/// word that held nothing holds just the motion.
pub proof fn law_coalescing_adds_up(word: u64, x: i32, y: i32)
    ensures
        unpacked(coalesced(word, x, y)) == (
            arith::sat_i32(unpacked(word).0 + x),
            arith::sat_i32(unpacked(word).1 + y),
        ),
        unpacked(coalesced(0, x, y)) == (x, y),
{
    law_pack_round_trip(x, y, word);
    let (a, b) = unpacked(word);
    law_pack_round_trip(arith::sat_i32(a + x), arith::sat_i32(b + y), word);
}

/// A swipe that has just begun commits the direction of its first motion exactly when
/// that motion comes once the hold has passed its gate.
pub proof fn law_held_swipe_waits_for_its_gate(
    button: ButtonId,
    directions: DirectionMap,
    generation: u64,
    dx: i32,
    dy: i32,
    millis: nat,
)
    ensures
        ({
            let hold = HoldModel::begun(button, GestureMode::Directional(directions), generation);
            let (after, output) = hold.moved(dx, dy, hold.open_after(millis));
            let swipe = crate::binding::swipe::swipe_direction(dx, dy);
            if millis >= crate::binding::swipe::GESTURE_HOLD_FOR_SWIPE && swipe is Some {
                output == HoldOutput::Action(
                    direction_or(directions, swipe->0, click_or_default(directions, button)),
                )
            } else {
                output == HoldOutput::Suppress && after.release_output(button) == Some(
                    HoldOutput::Action(click_or_default(directions, button)),
                )
            }
        }),
{
}

/// The newest press keeps the hold: whatever was held before, a new press makes
/// its own button the held one, and a release of any other button leaves the hold
/// alone and fires nothing.
pub proof fn law_newest_hold_wins(
    first: ButtonId,
    second: ButtonId,
    mode: GestureMode,
    generation: u64,
)
    requires
        first != second,
    ensures
        ({
            let hold = HoldModel::begun(second, mode, generation);
            &&& hold.button == Some(second)
            &&& hold.released(first) == (hold, None::<HoldOutput>)
        }),
{
}

/// A cancelled hold never fires: no release of any button clicks, and no motion
/// asks for anything.
pub proof fn law_cancelled_hold_is_silent(
    hold: HoldModel,
    button: ButtonId,
    dx: i32,
    dy: i32,
    gate: bool,
)
    ensures
        hold.cancelled().released(button).1 is None,
        hold.cancelled().moved(dx, dy, gate) == (hold.cancelled(), HoldOutput::Suppress),
        hold.cancelled().button is None,
{
}

/// Once the projection has changed, an equal binding does not keep a hold going:
/// its motion passes and its release is swallowed, and neither fires anything.
pub proof fn law_generation_change_cancels(
    hold: HoldModel,
    maps: HookMaps,
    button: ButtonId,
    dx: i32,
    dy: i32,
    newest: bool,
    gate: bool,
    macos: bool,
)
    requires
        hold.button == Some(button),
        hold.generation != maps.generation,
        button.os_hook_button(),
    ensures
        motion_reaction(hold, Some(maps), dx, dy, newest, gate, macos) == (
            hold.cancelled(),
            HookReaction::only(EventDisposition::PassThrough),
        ),
        button_reaction(hold, Some(maps), button, false, newest) == (
            hold.cancelled(),
            HookReaction::only(EventDisposition::Suppress),
        ),
{
}

/// A press on the dedicated gesture control invalidates an OS-hook hold: its
/// motion no longer pans or fires, and the release after that clicks nothing of
/// the gesture.
pub proof fn law_superseded_hold_fires_nothing(
    hold: HoldModel,
    maps: HookMaps,
    button: ButtonId,
    dx: i32,
    dy: i32,
    gate: bool,
    macos: bool,
)
    requires
        hold.button == Some(button),
        button.os_hook_button(),
    ensures
        motion_reaction(hold, Some(maps), dx, dy, false, gate, macos) == (
            hold.cancelled(),
            HookReaction::only(EventDisposition::PassThrough),
        ),
        button_reaction(hold, Some(maps), button, false, false) == (
            hold.cancelled(),
            HookReaction::only(EventDisposition::Suppress),
        ),
        button_reaction(hold.cancelled(), Some(maps), button, false, false) == (
            hold.cancelled(),
            single_reaction(button, false, maps.bindings.slot(button)),
        ),
{
}

/// A press elsewhere takes over from a hold: once the coordinator that counted the
/// hold's press has counted any more (short of a full turn of the 64-bit counter), a
/// reading of it says that the hold is no longer of the newest press, and with that
/// motion ends the hold and a release is silent. Until then the hold goes on.
pub proof fn law_newer_press_takes_over(
    hold: HoldState,
    maps: HookMaps,
    button: ButtonId,
    later: nat,
    dx: i32,
    dy: i32,
    gate: bool,
    macos: bool,
)
    requires
        hold.button == Some(button),
        button.os_hook_button(),
        hold.joined(hold.coordinator),
        later < 0x1_0000_0000_0000_0000,
    ensures
        ({
            let first = shared::count_after(hold.press->0.follows());
            let newest = hold.newest_at(shared::count_after_many(first, later));
            &&& newest <==> later == 0
            &&& later > 0 ==> motion_reaction(hold@, Some(maps), dx, dy, newest, gate, macos) == (
                hold@.cancelled(),
                HookReaction::only(EventDisposition::PassThrough),
            )
            &&& later > 0 ==> button_reaction(hold@, Some(maps), button, false, newest) == (
                hold@.cancelled(),
                HookReaction::only(EventDisposition::Suppress),
            )
        }),
{
    crate::gesture_coordinator::law_newest_press_wins(hold.press->0, hold.coordinator, later);
    law_superseded_hold_fires_nothing(hold@, maps, button, dx, dy, gate, macos);
}

/// While the maps are being rewritten the callback fails open: a press reaches
/// the system, motion abandons the hold, and nothing is fired.
pub proof fn law_contention_fails_open(
    hold: HoldModel,
    event: MouseEvent,
    newest: bool,
    gate: bool,
    macos: bool,
)
    ensures
        ({
            let (after, reaction) = event_reaction(hold, None, event, newest, gate, macos);
            &&& reaction.effect == HookEffect::Idle
            &&& (event matches MouseEvent::Button { pressed, .. } ==> pressed ==> reaction.disposition
                == EventDisposition::PassThrough)
            &&& (event is Moved ==> after.button is None && reaction.disposition
                == EventDisposition::PassThrough)
        }),
{
}

/// The primary clicks and the controls that the OS hook does not see always pass
/// through and never touch the hold.
pub proof fn law_other_buttons_pass(
    hold: HoldModel,
    maps: Option<HookMaps>,
    id: ButtonId,
    pressed: bool,
    newest: bool,
)
    requires
        !id.os_hook_button(),
    ensures
        button_reaction(hold, maps, id, pressed, newest) == (
            hold,
            HookReaction::only(EventDisposition::PassThrough),
        ),
{
}

/// A press and release of a gesture button without motion between them fires the
/// click of its mode, on the release and only there.
pub proof fn law_still_press_is_a_click(
    hold: HoldModel,
    maps: HookMaps,
    button: ButtonId,
    mode: GestureMode,
)
    requires
        button.os_hook_button(),
        maps.gestures.slot(button) == Some(mode),
    ensures
        ({
            let (held, press) = button_reaction(hold, Some(maps), button, true, true);
            let (after, release) = button_reaction(held, Some(maps), button, false, true);
            &&& press == HookReaction::only(EventDisposition::Suppress)
            &&& after.button is None
            &&& release == (HookReaction {
                disposition: EventDisposition::Suppress,
                effect: HookEffect::Emit(
                    match mode {
                        GestureMode::Directional(map) => click_or_default(map, button),
                        GestureMode::Pan(pan) => pan.click,
                    },
                ),
            })
        }),
{
}

/// Which clicks the system does by itself: a button bound to its own click.
pub proof fn law_native_clicks(id: ButtonId, action: Action)
    ensures
        native_click(id, action) <==> (id is LeftClick && action is LeftClick) || (id is RightClick
            && action is RightClick) || (id is MiddleClick && action is MiddleClick) || (id is Back
            && action is MouseBack) || (id is Forward && action is MouseForward),
{
}

/// A click of a button with a single action runs the action exactly once: the press is
/// swallowed and emits it, the release is swallowed and emits nothing. A button without
/// an action, or bound to its own click, passes through both times. A hold of another
/// button goes on.
pub proof fn law_single_action_fires_once_per_click(
    hold: HoldModel,
    maps: HookMaps,
    id: ButtonId,
    action: Action,
    newest: bool,
)
    requires
        id == ButtonId::MiddleClick || id == ButtonId::Back || id == ButtonId::Forward,
        hold.button != Some(id),
        maps.gestures.slot(id) is None,
    ensures
        ({
            let (held, press) = button_reaction(hold, Some(maps), id, true, newest);
            let (after, release) = button_reaction(held, Some(maps), id, false, newest);
            let own_click = (id is MiddleClick && action is MiddleClick) || (id is Back && action
                is MouseBack) || (id is Forward && action is MouseForward);
            &&& held == hold && after == hold
            &&& release.effect is Idle
            &&& maps.bindings.slot(id) == Some(action) && !own_click ==> {
                &&& press.disposition == EventDisposition::Suppress
                &&& press.effect == HookEffect::Emit(action)
                &&& release.disposition == EventDisposition::Suppress
            }
            &&& maps.bindings.slot(id) is None || (maps.bindings.slot(id) == Some(action)
                && own_click) ==> {
                &&& press.disposition == EventDisposition::PassThrough
                &&& press.effect is Idle
                &&& release.disposition == EventDisposition::PassThrough
            }
        }),
{
}

/// The press of a button that is bound to a gesture is swallowed and runs nothing yet;
/// it begins a hold of that button, of this projection, with no travel.
pub proof fn law_gesture_press_begins_a_hold(
    hold: HoldModel,
    maps: HookMaps,
    id: ButtonId,
    mode: GestureMode,
    newest: bool,
)
    requires
        id == ButtonId::MiddleClick || id == ButtonId::Back || id == ButtonId::Forward,
        maps.gestures.slot(id) == Some(mode),
    ensures
        ({
            let (held, press) = button_reaction(hold, Some(maps), id, true, newest);
            &&& press.disposition == EventDisposition::Suppress
            &&& press.effect is Idle
            &&& held.button == Some(id)
            &&& held.generation == maps.generation
            &&& held.coordinated
            &&& mode matches GestureMode::Directional(map) ==> {
                &&& held.gesture matches Some(HeldGesture::Directional { directions, fallback, swipe })
                &&& directions == map
                &&& fallback == if map.click is Some {
                    map.click->0
                } else {
                    default_action(id)
                }
                &&& swipe.holding && !swipe.ungated && !swipe.fired
                &&& swipe.dx == 0 && swipe.dy == 0
            }
            &&& mode matches GestureMode::Pan(pan) ==> {
                &&& held.gesture matches Some(HeldGesture::Pan { click, phase })
                &&& click == pan.click
                &&& phase == (PanPhase::Pending { x: 0, y: 0 })
            }
        }),
{
}

/// Motion of a held swipe always moves the pointer as well. Where the hold may commit
/// and has not yet, and the travel so far comes to a swipe, it runs the action of that
/// swipe's direction, or the click action where the direction has none; otherwise it
/// runs nothing.
pub proof fn law_held_swipe_runs_its_direction(
    hold: HoldModel,
    maps: HookMaps,
    button: ButtonId,
    directions: DirectionMap,
    fallback: Action,
    swipe: SwipeState,
    dx: i32,
    dy: i32,
    gate: bool,
    macos: bool,
)
    requires
        hold.button == Some(button),
        hold.generation == maps.generation,
        hold.coordinated,
        hold.gesture == Some(HeldGesture::Directional { directions, fallback, swipe }),
        maps.gestures.slot(button) == Some(GestureMode::Directional(directions)),
    ensures
        ({
            let (after, reaction) = motion_reaction(hold, Some(maps), dx, dy, true, gate, macos);
            let commit = crate::binding::swipe::swipe_direction(
                arith::sat_i32(swipe.dx + dx),
                arith::sat_i32(swipe.dy + dy),
            );
            let runs = swipe.holding && !swipe.fired && gate && commit is Some;
            &&& reaction.disposition == EventDisposition::PassThrough
            &&& !runs ==> reaction.effect is Idle
            &&& runs && commit == Some(GestureDirection::Up) ==> reaction.effect
                == HookEffect::Emit(if directions.up is Some { directions.up->0 } else { fallback })
            &&& runs && commit == Some(GestureDirection::Down) ==> reaction.effect
                == HookEffect::Emit(
                if directions.down is Some { directions.down->0 } else { fallback },
            )
            &&& runs && commit == Some(GestureDirection::Left) ==> reaction.effect
                == HookEffect::Emit(
                if directions.left is Some { directions.left->0 } else { fallback },
            )
            &&& runs && commit == Some(GestureDirection::Right) ==> reaction.effect
                == HookEffect::Emit(
                if directions.right is Some { directions.right->0 } else { fallback },
            )
            &&& after.button == Some(button) && after.generation == hold.generation
            &&& after.coordinated
            &&& after.gesture matches Some(HeldGesture::Directional { swipe: travelled, .. })
            &&& travelled.fired <==> swipe.fired || runs
        }),
{
    crate::binding::law_same_bindings(
        directions,
        directions,
        crate::binding::Binding::Gesture(directions),
        crate::binding::Binding::Gesture(directions),
    );
    crate::binding::swipe::law_swipe_is_never_click(
        arith::sat_i32(swipe.dx + dx),
        arith::sat_i32(swipe.dy + dy),
    );
}

/// Motion of a held Pan never moves the pointer: macOS keeps it still, elsewhere the
/// event is swallowed. An active Pan scrolls by exactly the motion; a pending one scrolls
/// by all of its travel once that reaches the deadzone, and until then not at all.
pub proof fn law_held_pan_scrolls_instead(
    hold: HoldModel,
    maps: HookMaps,
    button: ButtonId,
    pan: crate::binding::PanBinding,
    phase: PanPhase,
    dx: i32,
    dy: i32,
    gate: bool,
    macos: bool,
)
    requires
        hold.button == Some(button),
        hold.generation == maps.generation,
        hold.coordinated,
        hold.gesture == Some(HeldGesture::Pan { click: pan.click, phase }),
        maps.gestures.slot(button) == Some(GestureMode::Pan(pan)),
    ensures
        ({
            let (after, reaction) = motion_reaction(hold, Some(maps), dx, dy, true, gate, macos);
            &&& macos ==> reaction.disposition == EventDisposition::FreezePointer
            &&& !macos ==> reaction.disposition == EventDisposition::Suppress
            &&& phase is Active ==> reaction.effect == (HookEffect::Pan { x: dx, y: dy })
            &&& phase matches PanPhase::Pending { x, y } ==> {
                let (total_x, total_y) = (arith::sat_i32(x + dx), arith::sat_i32(y + dy));
                if -32 < total_x < 32 && -32 < total_y < 32 {
                    reaction.effect is Idle
                } else {
                    reaction.effect == (HookEffect::Pan { x: total_x, y: total_y })
                }
            }
            &&& after.button == Some(button) && after.generation == hold.generation
        }),
{
    crate::binding::law_same_actions(pan.click, pan.click);
    crate::binding::law_action_equality(pan.click, pan.click, pan.click);
}

/// The release of a held button is always swallowed and ends the hold. It runs the click
/// action of a swipe that has not committed and of a Pan that has not become active, and
/// nothing otherwise.
pub proof fn law_release_ends_the_hold(
    hold: HoldModel,
    maps: HookMaps,
    id: ButtonId,
    mode: GestureMode,
)
    requires
        id == ButtonId::MiddleClick || id == ButtonId::Back || id == ButtonId::Forward,
        hold.button == Some(id),
        hold.generation == maps.generation,
        hold.coordinated,
        maps.gestures.slot(id) == Some(mode),
        match (hold.gesture, mode) {
            (
                Some(HeldGesture::Directional { directions, .. }),
                GestureMode::Directional(map),
            ) => directions == map,
            (Some(HeldGesture::Pan { click, .. }), GestureMode::Pan(pan)) => click == pan.click,
            _ => false,
        },
    ensures
        ({
            let (after, release) = button_reaction(hold, Some(maps), id, false, true);
            &&& release.disposition == EventDisposition::Suppress
            &&& after.button is None && after.gesture is None && !after.coordinated
            &&& hold.gesture matches Some(HeldGesture::Directional { directions, swipe, .. }) ==> if swipe.holding
                && !swipe.fired {
                release.effect == HookEffect::Emit(
                    if directions.click is Some {
                        directions.click->0
                    } else {
                        default_action(id)
                    },
                )
            } else {
                release.effect is Idle
            }
            &&& hold.gesture matches Some(HeldGesture::Pan { click, phase }) ==> if phase is Pending {
                release.effect == HookEffect::Emit(click)
            } else {
                release.effect is Idle
            }
        }),
{
    if let GestureMode::Directional(map) = mode {
        crate::binding::law_same_bindings(map, map, crate::binding::Binding::Gesture(map), crate::binding::Binding::Gesture(map));
    }
    if let GestureMode::Pan(pan) = mode {
        crate::binding::law_action_equality(pan.click, pan.click, pan.click);
    }
}

/// While the maps are being rewritten nothing runs. A button event passes, except that
/// the release of the held button is swallowed, as its press was; either way a hold of
/// that button is given up, and one of another button goes on.
pub proof fn law_unreadable_maps_run_nothing(
    hold: HoldModel,
    id: ButtonId,
    pressed: bool,
    newest: bool,
    dx: i32,
    dy: i32,
    gate: bool,
    macos: bool,
)
    requires
        id == ButtonId::MiddleClick || id == ButtonId::Back || id == ButtonId::Forward,
    ensures
        ({
            let (after, reaction) = button_reaction(hold, None, id, pressed, newest);
            &&& reaction.effect is Idle
            &&& reaction.disposition == EventDisposition::Suppress <==> hold.button == Some(id)
                && !pressed
            &&& reaction.disposition == EventDisposition::PassThrough <==> !(hold.button == Some(id)
                && !pressed)
            &&& hold.button == Some(id) ==> after.button is None && after.gesture is None
                && !after.coordinated
            &&& hold.button != Some(id) ==> after == hold
        }),
        ({
            let (after, reaction) = motion_reaction(hold, None, dx, dy, newest, gate, macos);
            &&& reaction.effect is Idle
            &&& reaction.disposition == EventDisposition::PassThrough
            &&& after.button is None
        }),
{
}

/// What kinds of events do: a button event is answered as one, motion by its two amounts
/// in their order, an interruption gives the hold up and passes, and scrolling passes
/// and leaves the hold alone. Motion without a hold passes and runs nothing.
pub proof fn law_events_by_kind(
    hold: HoldModel,
    maps: Option<HookMaps>,
    event: MouseEvent,
    newest: bool,
    gate: bool,
    macos: bool,
)
    ensures
        ({
            let (after, reaction) = event_reaction(hold, maps, event, newest, gate, macos);
            &&& event matches MouseEvent::Button { id, pressed } ==> (after, reaction)
                == button_reaction(hold, maps, id, pressed, newest)
            &&& event matches MouseEvent::Moved { delta_x, delta_y } ==> (after, reaction)
                == motion_reaction(hold, maps, delta_x, delta_y, newest, gate, macos)
            &&& event is CaptureInterrupted ==> after.button is None && after.gesture is None
                && !after.coordinated && reaction.disposition == EventDisposition::PassThrough
                && reaction.effect is Idle
            &&& event is Scroll ==> after == hold && reaction.disposition
                == EventDisposition::PassThrough && reaction.effect is Idle
            &&& event is Moved && hold.button is None ==> after == hold && reaction.disposition
                == EventDisposition::PassThrough && reaction.effect is Idle
            &&& event_begins_hold(maps, event) ==> (event matches MouseEvent::Button { id, pressed }
                && pressed && after.button == Some(id) && reaction.effect is Idle)
            &&& maps matches Some(maps) ==> (event_begins_hold(Some(maps), event) <==> (event matches
                MouseEvent::Button { id, pressed } && pressed && (id == ButtonId::MiddleClick || id == ButtonId::Back || id == ButtonId::Forward)
                && maps.gestures.slot(id) is Some))
            &&& maps is None ==> !event_begins_hold(maps, event)
        }),
{
}

/// When a hold may go on: it is of this button, of this projection and of the newest
/// press, it takes part in the arbitration, and its gesture is what the button is still
/// bound to.
pub proof fn law_hold_goes_on_only_as_it_was(
    hold: HoldModel,
    button: ButtonId,
    mode: Option<GestureMode>,
    generation: u64,
    newest: bool,
)
    ensures
        hold.stands(button, mode, generation, newest) ==> newest && hold.coordinated && hold.button
            == Some(button) && hold.generation == generation && hold.gesture is Some && mode is Some,
        hold.stands(button, mode, generation, newest) ==> (hold.gesture matches Some(
            HeldGesture::Pan { click, .. },
        ) ==> (mode matches Some(GestureMode::Pan(pan)) && click.same_as(pan.click))),
        hold.stands(button, mode, generation, newest) ==> (hold.gesture matches Some(
            HeldGesture::Directional { directions, .. },
        ) ==> (mode matches Some(GestureMode::Directional(map)) && directions.same_as(map))),
        newest && mode is Some ==> HoldModel::begun(button, mode->0, generation).stands(
            button,
            mode,
            generation,
            newest,
        ),
        HoldModel::idle().button is None && HoldModel::idle().gesture is None
            && !HoldModel::idle().coordinated && HoldModel::idle().generation == 0,
        hold.cancelled().generation == hold.generation,
{
    if let Some(GestureMode::Directional(map)) = mode {
        crate::binding::law_same_bindings(map, map, crate::binding::Binding::Gesture(map), crate::binding::Binding::Gesture(map));
    }
    if let Some(GestureMode::Pan(pan)) = mode {
        crate::binding::law_action_equality(pan.click, pan.click, pan.click);
    }
}

/// What a hold shows of itself: its button, its projection, whether it has a press, and
/// its gesture with its content.
pub proof fn law_hold_shows_its_state(hold: HoldState)
    ensures
        hold@.button == hold.button,
        hold@.generation == hold.generation,
        hold@.coordinated <==> hold.press is Some,
        hold@.gesture is Some <==> hold.gesture is Some,
        hold.gesture matches Some(HoldGesture::Directional { directions, fallback, swipe })
            ==> hold@.gesture == Some(
            HeldGesture::Directional { directions, fallback, swipe: swipe@ },
        ),
        hold.gesture matches Some(HoldGesture::Pan { click, accumulator }) ==> hold@.gesture
            == Some(HeldGesture::Pan { click, phase: accumulator@ }),
{
}

/// Only a held swipe waits: it may commit from a hundred and sixty milliseconds on, or at
/// once where it is not gated.
pub proof fn law_only_swipes_wait(hold: HoldModel, millis: nat)
    ensures
        !(hold.gesture matches Some(HeldGesture::Directional { .. })) ==> hold.open_after(millis),
        hold.gesture matches Some(HeldGesture::Directional { swipe, .. }) ==> (hold.open_after(
            millis,
        ) <==> swipe.ungated || swipe.holding && millis >= 160),
{
}

/// What the readings that an answer rests on are of: the hold's own coordinator, and the
/// start of the hold's own swipe; and what a hold that goes on keeps.
pub proof fn law_readings_are_of_the_hold(hold: HoldState, before: HoldState, seen: HookReadings)
    ensures
        hold.is_observed_by(seen) ==> seen.presses.source() == hold.coordinator.counter(),
        hold.is_observed_by(seen) ==> (seen.held is Some <==> hold.since() is Some),
        hold.is_observed_by(seen) ==> (seen.held matches Some(elapsed) ==> hold.since() == Some(
            elapsed.since(),
        )),
        hold.gesture matches Some(HoldGesture::Directional { swipe, .. }) ==> hold.since()
            == swipe.since(),
        hold.gesture is None ==> hold.since() is None,
        hold.goes_on_from(before) ==> hold.coordinator == before.coordinator,
        hold.goes_on_from(before) && hold.press is Some ==> hold.press == before.press,
        hold.goes_on_from(before) && hold.gesture is Some ==> hold.since() == before.since(),
        hold.joined(before.coordinator) ==> hold.coordinator == before.coordinator && hold.press
            is Some && hold.press->0.source() == before.coordinator.counter(),
        hold.press is None ==> forall|count: u64| !(#[trigger] hold.newest_at(count)),
        hold.press matches Some(press) ==> forall|count: u64|
            #[trigger] hold.newest_at(count) == press.token().stands_for(count),
{
}

/// Where an action is carried out: the device does the presets and the wheel mode, with
/// the preset that was asked for, and the system everything else.
pub proof fn law_actions_go_where_they_work(action: Action, index: u8)
    ensures
        route_of(Action::CycleDpiPresets) == ActionRoute::CycleDpi,
        route_of(Action::SetDpiPreset(index)) matches ActionRoute::SetDpi(preset) && preset
            as int == index as int,
        route_of(Action::ToggleSmartShift) == ActionRoute::ToggleSmartShift,
        route_of(action) is Inject <==> !(action is CycleDpiPresets || action is SetDpiPreset
            || action is ToggleSmartShift),
{
}

/// How two amounts share a word: the horizontal one is the upper half and the vertical
/// one the lower, each as its thirty-two bits. An empty word holds no motion, and any
/// other the two amounts that it was packed from.
pub proof fn law_word_holds_both_amounts(x: i32, y: i32)
    ensures
        packed(x, y) as int / 0x1_0000_0000 == (if x < 0 { x + 0x1_0000_0000 } else { x as int }),
        packed(x, y) as int % 0x1_0000_0000 == (if y < 0 { y + 0x1_0000_0000 } else { y as int }),
        motion_in(0) is None,
        x != 0 || y != 0 ==> motion_in(packed(x, y)) == Some((x, y)),
{
    law_pack_round_trip(x, y, 0);
}

/// What the record of a request says: it concerns this mailbox's word and flag, the word
/// stored holds both amounts added to what was found, and the worker has to be woken
/// exactly when the flag was down.
pub proof fn law_request_adds_motion(mailbox: PanPending, request: PanRequest, x: i32, y: i32)
    requires
        request.is_of(mailbox, x, y),
    ensures
        request.merge.source() == mailbox.word(),
        request.raise.source() == mailbox.flag(),
        unpacked(request.merge.after()).0 == arith::sat_i32(unpacked(request.merge.before()).0 + x),
        unpacked(request.merge.after()).1 == arith::sat_i32(unpacked(request.merge.before()).1 + y),
        request.wake <==> !request.raise.was_raised(),
{
    law_coalescing_adds_up(request.merge.before(), x, y);
}

/// What the records of a taking, of the end of a cycle and of a submission say: each
/// concerns its own mailbox and channel; a taking empties the word and gives what it
/// held; the end of a cycle lowers the flag, and goes on exactly when it then found
/// motion with the flag still down; and a wake is handed over exactly when it was
/// claimed.
pub proof fn law_records_say_what_was_done(
    mailbox: PanPending,
    take: PanTake,
    finish: PanFinish,
    emitter: PanEmitter,
    submission: PanSubmission,
    x: i32,
    y: i32,
)
    ensures
        take.is_of(mailbox) ==> take.look.source() == mailbox.word() && take.look.takes(),
        take.is_of(mailbox) ==> (take.delta is None <==> take.look.seen() == 0),
        take.is_of(mailbox) && take.look.seen() != 0 ==> take.delta == Some(
            unpacked(take.look.seen()),
        ),
        finish.is_of(mailbox) ==> finish.lower.source() == mailbox.flag() && finish.look.source()
            == mailbox.word() && !finish.look.takes(),
        finish.is_of(mailbox) ==> (finish.claim is Some <==> finish.look.seen() != 0),
        finish.is_of(mailbox) && finish.claim is Some ==> finish.claim->0.source()
            == mailbox.flag(),
        finish.is_of(mailbox) ==> (finish.again <==> finish.look.seen() != 0
            && !finish.claim->0.was_raised()),
        submission.is_of(emitter, x, y) ==> submission.request.is_of(*emitter.mailbox(), x, y),
        submission.is_of(emitter, x, y) ==> (submission.attempt is Some
            <==> !submission.request.raise.was_raised()),
        submission.is_of(emitter, x, y) && submission.attempt is Some
            ==> submission.attempt->0.channel() == emitter.waker(),
{
}

/// Releasing the held button ends the hold; releasing another leaves it as it is and asks
/// for nothing. Only a hold with a gesture asks for anything.
pub proof fn law_only_its_own_release_ends_a_hold(hold: HoldModel, button: ButtonId)
    ensures
        hold.button != Some(button) ==> hold.released(button).0 == hold && hold.released(
            button,
        ).1 is None,
        hold.button == Some(button) ==> {
            let (after, output) = hold.released(button);
            &&& after.button is None && after.gesture is None && !after.coordinated
            &&& after.generation == hold.generation
            &&& output is Some <==> hold.gesture is Some
            &&& !(output matches Some(HoldOutput::PanDelta { .. }))
        },
{
}

/// A hold that may not go on is given up: its release is swallowed, its motion moves the
/// pointer, and neither runs anything.
pub proof fn law_stale_hold_is_given_up(
    hold: HoldModel,
    maps: HookMaps,
    id: ButtonId,
    dx: i32,
    dy: i32,
    newest: bool,
    gate: bool,
    macos: bool,
)
    requires
        id == ButtonId::MiddleClick || id == ButtonId::Back || id == ButtonId::Forward,
        hold.button == Some(id),
        !newest || !hold.coordinated || hold.generation != maps.generation || maps.gestures.slot(
            id,
        ) is None,
    ensures
        ({
            let (after, release) = button_reaction(hold, Some(maps), id, false, newest);
            &&& release.disposition == EventDisposition::Suppress
            &&& release.effect is Idle
            &&& after.button is None && after.gesture is None && !after.coordinated
        }),
        ({
            let (after, motion) = motion_reaction(hold, Some(maps), dx, dy, newest, gate, macos);
            &&& motion.disposition == EventDisposition::PassThrough
            &&& motion.effect is Idle
            &&& after.button is None && after.gesture is None && !after.coordinated
        }),
{
}

/// Motion adds up in the held gesture: in a swipe that has not committed both amounts, in
/// their order, and in a Pan that is pending until it becomes active.
pub proof fn law_motion_adds_up_in_the_hold(hold: HoldModel, dx: i32, dy: i32, gate: bool)
    ensures
        hold.moved(dx, dy, gate).0.button == hold.button,
        hold.moved(dx, dy, gate).0.generation == hold.generation,
        hold.moved(dx, dy, gate).0.coordinated == hold.coordinated,
        hold.gesture is None ==> hold.moved(dx, dy, gate) == (hold, HoldOutput::Suppress),
        hold.gesture matches Some(HeldGesture::Directional { directions, fallback, swipe }) ==> {
            &&& hold.moved(dx, dy, gate).0.gesture matches Some(
                HeldGesture::Directional {
                    directions: kept,
                    fallback: click,
                    swipe: after,
                },
            )
            &&& kept == directions && click == fallback
            &&& swipe.holding && !swipe.fired && gate ==> after.dx == arith::sat_i32(swipe.dx + dx)
                && after.dy == arith::sat_i32(swipe.dy + dy)
        },
        hold.gesture matches Some(HeldGesture::Pan { click, phase }) ==> {
            &&& hold.moved(dx, dy, gate).0.gesture matches Some(
                HeldGesture::Pan { click: kept, phase: after },
            )
            &&& kept == click
            &&& phase is Active ==> after is Active
            &&& phase is Released ==> after is Released
            &&& phase matches PanPhase::Pending { x, y } ==> (after is Active || after == (
            PanPhase::Pending { x: arith::sat_i32(x + dx), y: arith::sat_i32(y + dy) }))
        },
{
}

} // verus!
