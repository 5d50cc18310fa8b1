//! The swipe-gesture runtime machinery: travel thresholds, the
//! [`detect_swipe`] classifier, and the [`SwipeAccumulator`] state machine
//! shared by both gesture-capture paths.

use super::GestureDirection;
use crate::arith;
use crate::clock::{self, Elapsed};
use vstd::prelude::*;

verus! {

/// Minimum dominant-axis travel (raw-XY units) before a held gesture commits to
/// a direction.
pub const GESTURE_SWIPE_THRESHOLD: i32 = 50;

/// Maximum cross-axis travel allowed at the threshold, so only a reasonably
/// straight swipe commits. Grows with the dominant axis (`max(deadzone, 35%)`).
pub const GESTURE_SWIPE_DEADZONE: i32 = 40;

/// Minimum time, in milliseconds, that a gesture button must be held before its
/// travel can commit to a swipe. Distinguishes a deliberate hold-and-swipe from
/// a quick click whose cursor happened to be moving.
pub const GESTURE_HOLD_FOR_SWIPE: u64 = 160;

/// Cross-axis travel that a swipe with this dominant travel may have.
pub open spec fn cross_limit(dominant: int) -> int {
    let share = arith::sat_i32(dominant * 35) / 100;
    if share > GESTURE_SWIPE_DEADZONE {
        share
    } else {
        GESTURE_SWIPE_DEADZONE as int
    }
}

/// The direction that travel commits to: the dominant axis has passed the
/// threshold and the other axis is within its band. `+x` is right, `+y` is
/// down; an exact diagonal counts as vertical.
pub open spec fn swipe_direction(dx: i32, dy: i32) -> Option<GestureDirection> {
    let ax = arith::sat_i32(arith::abs(dx as int)) as int;
    let ay = arith::sat_i32(arith::abs(dy as int)) as int;
    if ax > ay {
        if ax < GESTURE_SWIPE_THRESHOLD || ay > cross_limit(ax) {
            None
        } else if dx > 0 {
            Some(GestureDirection::Right)
        } else {
            Some(GestureDirection::Left)
        }
    } else {
        if ay < GESTURE_SWIPE_THRESHOLD || ax > cross_limit(ay) {
            None
        } else if dy > 0 {
            Some(GestureDirection::Down)
        } else {
            Some(GestureDirection::Up)
        }
    }
}

/// Classify the *running* raw-XY travel of a held gesture button into a
/// directional swipe, the instant it commits — or `None` while it's still too
/// short or too diagonal.
///
/// The dominant axis must pass [`GESTURE_SWIPE_THRESHOLD`] while the cross axis
/// stays within `max(`[`GESTURE_SWIPE_DEADZONE`]`, 35% of dominant)`. The
/// arithmetic saturates, since a hold that never commits keeps summing travel.
#[must_use]
pub fn detect_swipe(dx: i32, dy: i32) -> (direction: Option<GestureDirection>)
    ensures
        direction == swipe_direction(dx, dy),
{
    let (abs_x, abs_y) = (arith::saturating_abs(dx), arith::saturating_abs(dy));
    let dominant: i32 = arith::max(abs_x, abs_y);
    if dominant < GESTURE_SWIPE_THRESHOLD {
        return None;
    }
    let limit: i32 = arith::max(GESTURE_SWIPE_DEADZONE, arith::saturating_mul(dominant, 35) / 100);
    if abs_x > abs_y {
        if abs_y > limit {
            return None;
        }
        if dx > 0 {
            Some(GestureDirection::Right)
        } else {
            Some(GestureDirection::Left)
        }
    } else {
        if abs_x > limit {
            return None;
        }
        if dy > 0 {
            Some(GestureDirection::Down)
        } else {
            Some(GestureDirection::Up)
        }
    }
}

/// When a hold began.
#[derive(Debug)]
enum HoldStart {
    /// No hold is in progress.
    Released,
    /// Held since this instant; travel may commit once the hold gate has passed.
    Since(std::time::Instant),
    /// Held without a minimum duration; travel may commit at once.
    Ungated,
}

/// The mid-swipe state machine shared by both gesture-capture paths.
///
/// A gesture button's hold accumulates travel; the instant the dominant axis
/// commits a direction — after the button has been held
/// [`GESTURE_HOLD_FOR_SWIPE`], so a quick click whose cursor drifted doesn't
/// count — [`Self::accumulate`] returns that direction exactly once. A hold that
/// never commits is a plain click, reported by [`Self::end`].
#[derive(Debug)]
pub struct SwipeAccumulator {
    held: HoldStart,
    dx: i32,
    dy: i32,
    fired: bool,
}

/// Where a swipe hold stands.
pub struct SwipeState {
    /// Whether a hold is in progress.
    pub holding: bool,
    /// Whether the hold-time gate is open whatever the time.
    pub ungated: bool,
    /// Accumulated horizontal travel.
    pub dx: i32,
    /// Accumulated vertical travel.
    pub dy: i32,
    /// Whether a direction has committed this hold.
    pub fired: bool,
}

impl SwipeState {
    /// A fresh hold.
    pub open spec fn fresh(ungated: bool) -> SwipeState {
        SwipeState { holding: true, ungated, dx: 0, dy: 0, fired: false }
    }

    /// No hold, nothing accumulated.
    pub open spec fn idle() -> SwipeState {
        SwipeState { holding: false, ungated: false, dx: 0, dy: 0, fired: false }
    }

    /// The state after motion and the direction it commits, given whether the
    /// hold has lasted long enough.
    pub open spec fn moved(self, dx: i32, dy: i32, held_long_enough: bool) -> (
        SwipeState,
        Option<GestureDirection>,
    ) {
        if self.fired || !self.holding {
            (self, None)
        } else {
            let (sx, sy) = (arith::sat_i32(self.dx + dx), arith::sat_i32(self.dy + dy));
            let commit = if held_long_enough {
                swipe_direction(sx, sy)
            } else {
                None
            };
            (SwipeState { dx: sx, dy: sy, fired: commit is Some, ..self }, commit)
        }
    }

    /// Whether travel may commit when a hold has lasted this many milliseconds.
    pub open spec fn open_after(self, millis: nat) -> bool {
        self.ungated || self.holding && millis >= GESTURE_HOLD_FOR_SWIPE
    }

    /// The state after motion and the direction it commits, given how many
    /// milliseconds the hold has lasted.
    pub open spec fn moved_after(self, dx: i32, dy: i32, millis: nat) -> (
        SwipeState,
        Option<GestureDirection>,
    ) {
        self.moved(dx, dy, self.open_after(millis))
    }

    /// Whether a release counts as a click.
    pub open spec fn release_is_click(self) -> bool {
        self.holding && !self.fired
    }

    /// The state after a release.
    pub open spec fn released(self) -> SwipeState {
        SwipeState { holding: false, ungated: false, ..self }
    }

    /// The state after a trace of motion, each with its gate reading.
    pub open spec fn after(self, trace: Seq<(i32, i32, bool)>) -> SwipeState
        decreases trace.len(),
    {
        if trace.len() == 0 {
            self
        } else {
            let step = trace.last();
            self.after(trace.drop_last()).moved(step.0, step.1, step.2).0
        }
    }
}

impl View for SwipeAccumulator {
    type V = SwipeState;

    closed spec fn view(&self) -> SwipeState {
        SwipeState {
            holding: !(self.held is Released),
            ungated: self.held is Ungated,
            dx: self.dx,
            dy: self.dy,
            fired: self.fired,
        }
    }
}

impl Default for SwipeAccumulator {
    fn default() -> (swipe: Self)
        ensures
            swipe@ == SwipeState::idle(),
            swipe.since() is None,
    {
        SwipeAccumulator { held: HoldStart::Released, dx: 0, dy: 0, fired: false }
    }
}

impl SwipeAccumulator {
    /// The reading of the clock that the hold-time gate is measured from; none
    /// without a hold, or when the hold is not gated.
    pub closed spec fn since(&self) -> Option<std::time::Instant> {
        match self.held {
            HoldStart::Since(start) => Some(start),
            _ => None,
        }
    }

    /// Whether this is the time that the current hold has lasted, as far as its gate
    /// asks for it.
    pub open spec fn is_timed_by(&self, held: Option<Elapsed>) -> bool {
        match held {
            Some(elapsed) => self.since() == Some(elapsed.since()),
            None => self.since() is None,
        }
    }

    /// Begin a fresh hold, resetting the travel accumulator and commit state. Its gate
    /// is measured from the time of the call.
    pub fn begin(&mut self)
        ensures
            final(self)@ == SwipeState::fresh(false),
            final(self).since() is Some,
    {
        let start = clock::now();
        self.begin_at(start);
    }

    /// Begin a fresh hold whose gate is measured from `start`.
    pub fn begin_at(&mut self, start: std::time::Instant)
        ensures
            final(self)@ == SwipeState::fresh(false),
            final(self).since() == Some(start),
    {
        *self = SwipeAccumulator {
            held: HoldStart::Since(start),
            dx: 0,
            dy: 0,
            fired: false,
        };
    }

    /// Begin a fresh hold whose motion may commit immediately.
    ///
    /// Use this only for a diverted HID++ RawXY lifecycle, whose button press is
    /// authoritative. OS-hook input should continue using [`Self::begin`] so
    /// ordinary pointer drift cannot turn a quick click into a swipe.
    pub fn begin_immediate(&mut self)
        ensures
            final(self)@ == SwipeState::fresh(true),
            final(self).since() is None,
    {
        *self = SwipeAccumulator { held: HoldStart::Ungated, dx: 0, dy: 0, fired: false };
    }

    /// Whether a hold is in progress (between [`Self::begin`] and [`Self::end`]).
    #[must_use]
    pub fn is_holding(&self) -> (holding: bool)
        ensures
            holding == self@.holding,
    {
        !matches!(self.held, HoldStart::Released)
    }

    /// Feed a pointer-move / raw-XY delta into the current hold. Returns
    /// `Some(direction)` exactly once per hold — the instant travel commits, and
    /// only after the hold passes [`GESTURE_HOLD_FOR_SWIPE`] — and `None` while
    /// still too short, already committed, or not holding.
    ///
    /// The time that a gated hold has lasted is read off the clock, so any is
    /// possible here; it is measured from what [`Self::begin`] stored.
    pub fn accumulate(&mut self, dx: i32, dy: i32) -> (direction: Option<GestureDirection>)
        ensures
            exists|held: Option<Elapsed>| #[trigger]
                old(self).is_timed_by(held) && (final(self)@, direction) == old(self)@.moved_after(
                    dx,
                    dy,
                    clock::length_of(held),
                ),
            final(self).since() == old(self).since(),
    {
        self.accumulate_timed(dx, dy).0
    }

    /// Feed motion into the current hold, and say how long the hold had lasted. What
    /// the motion commits follows from that.
    pub fn accumulate_timed(&mut self, dx: i32, dy: i32) -> (outcome: (
        Option<GestureDirection>,
        Option<Elapsed>,
    ))
        ensures
            old(self).is_timed_by(outcome.1),
            (final(self)@, outcome.0) == old(self)@.moved_after(
                dx,
                dy,
                clock::length_of(outcome.1),
            ),
            final(self).since() == old(self).since(),
    {
        let held = self.held_for();
        let open = self.open_by(&held);
        let direction = self.accumulate_gated(dx, dy, open);
        (direction, held)
    }

    /// How long the current hold has lasted, where its gate asks for it.
    #[must_use]
    pub fn held_for(&self) -> (held: Option<Elapsed>)
        ensures
            self.is_timed_by(held),
    {
        match &self.held {
            HoldStart::Since(start) => Some(clock::elapsed(*start)),
            _ => None,
        }
    }

    /// Whether travel may commit, given how long the current hold has lasted.
    #[must_use]
    pub fn open_by(&self, held: &Option<Elapsed>) -> (open: bool)
        requires
            self.is_timed_by(*held),
        ensures
            open == self@.open_after(clock::length_of(*held)),
    {
        match held {
            Some(elapsed) => self.long_enough_after(elapsed.millis()),
            None => self.long_enough_after(0),
        }
    }

    /// Whether travel may commit, given how many milliseconds the current hold has
    /// lasted.
    #[must_use]
    pub fn long_enough_after(&self, millis: u128) -> (open: bool)
        ensures
            open == self@.open_after(millis as nat),
    {
        match self.held {
            HoldStart::Since(_) => millis >= GESTURE_HOLD_FOR_SWIPE as u128,
            HoldStart::Ungated => true,
            HoldStart::Released => false,
        }
    }

    /// Feed motion into the current hold, given whether the hold has lasted long
    /// enough for its travel to commit.
    pub fn accumulate_gated(&mut self, dx: i32, dy: i32, held_long_enough: bool) -> (direction:
        Option<GestureDirection>)
        ensures
            (final(self)@, direction) == old(self)@.moved(dx, dy, held_long_enough),
            final(self).since() == old(self).since(),
    {
        if self.fired || !self.is_holding() {
            return None;
        }
        self.dx = arith::saturating_add(self.dx, dx);
        self.dy = arith::saturating_add(self.dy, dy);
        if held_long_enough {
            if let Some(direction) = detect_swipe(self.dx, self.dy) {
                self.fired = true;
                return Some(direction);
            }
        }
        None
    }

    /// End the current hold. Returns `true` when an in-progress hold ended
    /// without committing a swipe — the caller should fire the plain `Click`
    /// action — and `false` when a swipe already fired mid-motion, or when there
    /// was no hold to end (a stray release reports no click).
    pub fn end(&mut self) -> (was_click: bool)
        ensures
            was_click == old(self)@.release_is_click(),
            final(self)@ == old(self)@.released(),
            final(self).since() is None,
    {
        let was_click = self.is_holding() && !self.fired;
        self.held = HoldStart::Released;
        was_click
    }

    /// Open the hold gate of the current hold, so that a test can exercise a
    /// committed swipe without sleeping. A no-op when not currently holding.
    pub fn backdate_hold_for_test(&mut self)
        ensures
            final(self)@ == (SwipeState { ungated: old(self)@.holding, ..old(self)@ }),
            final(self).since() is None,
    {
        if self.is_holding() {
            self.held = HoldStart::Ungated;
        }
    }
}

/// Straight travel past the threshold commits along its axis.
pub proof fn law_straight_swipes_commit(travel: i32)
    requires
        travel >= GESTURE_SWIPE_THRESHOLD,
    ensures
        swipe_direction(travel, 0) == Some(GestureDirection::Right),
        swipe_direction((-travel) as i32, 0) == Some(GestureDirection::Left),
        swipe_direction(0, travel) == Some(GestureDirection::Down),
        swipe_direction(0, (-travel) as i32) == Some(GestureDirection::Up),
{
}

/// Mirroring the travel mirrors the direction.
pub proof fn law_swipes_mirror(dx: i32, dy: i32)
    requires
        dx > i32::MIN,
        dy > i32::MIN,
    ensures
        swipe_direction((-dx) as i32, (-dy) as i32) == match swipe_direction(dx, dy) {
            Some(GestureDirection::Left) => Some(GestureDirection::Right),
            Some(GestureDirection::Right) => Some(GestureDirection::Left),
            Some(GestureDirection::Up) => Some(GestureDirection::Down),
            Some(GestureDirection::Down) => Some(GestureDirection::Up),
            other => other,
        },
{
}

/// Travel never classifies as a click, only as one of the four swipes.
pub proof fn law_swipe_is_never_click(dx: i32, dy: i32)
    ensures
        swipe_direction(dx, dy) != Some(GestureDirection::Click),
{
}

/// A hold commits at most one direction: once one has fired, no later motion of
/// the same hold fires again, and its release is not a click.
pub proof fn law_swipe_fires_once(state: SwipeState, trace: Seq<(i32, i32, bool)>)
    requires
        state.fired,
    ensures
        state.after(trace) == state,
        forall|dx: i32, dy: i32, gate: bool|
            (#[trigger] state.after(trace).moved(dx, dy, gate)).1 is None,
        !state.after(trace).release_is_click(),
    decreases trace.len(),
{
    if trace.len() > 0 {
        law_swipe_fires_once(state, trace.drop_last());
    }
}

/// A hold is released as a click exactly when it never committed a direction.
pub proof fn law_click_iff_no_swipe(state: SwipeState, trace: Seq<(i32, i32, bool)>)
    requires
        state.holding,
        !state.fired,
    ensures
        state.after(trace).holding,
        state.after(trace).release_is_click() <==> forall|n: int|
            0 <= n < trace.len() ==> (#[trigger] commit_at(state, trace, n)) is None,
    decreases trace.len(),
{
    if trace.len() > 0 {
        let earlier = trace.drop_last();
        law_click_iff_no_swipe(state, earlier);
        assert(trace.take(trace.len() - 1) =~= earlier);
        assert forall|n: int| 0 <= n < earlier.len() implies #[trigger] commit_at(state, trace, n)
            == commit_at(state, earlier, n) by {
            assert(trace.take(n) =~= earlier.take(n));
        }
        assert(commit_at(state, trace, trace.len() - 1) == state.after(earlier).moved(
            trace.last().0,
            trace.last().1,
            trace.last().2,
        ).1);
        if state.after(trace).release_is_click() {
            assert forall|n: int| 0 <= n < trace.len() implies (#[trigger] commit_at(
                state,
                trace,
                n,
            )) is None by {
                if n < earlier.len() {
                    assert(commit_at(state, earlier, n) is None);
                }
            }
        } else if forall|n: int| 0 <= n < trace.len() ==> (#[trigger] commit_at(state, trace, n)) is None {
            assert forall|n: int| 0 <= n < earlier.len() implies (#[trigger] commit_at(
                state,
                earlier,
                n,
            )) is None by {
                assert(commit_at(state, trace, n) is None);
            }
            assert(commit_at(state, trace, trace.len() - 1) is None);
        }
    }
}

/// What the `n`-th motion of a trace commits.
pub open spec fn commit_at(state: SwipeState, trace: Seq<(i32, i32, bool)>, n: int) -> Option<
    GestureDirection,
> {
    state.after(trace.take(n)).moved(trace[n].0, trace[n].1, trace[n].2).1
}

/// Motion of a hold.
pub struct TimedMotion {
    /// Horizontal travel.
    pub dx: i32,
    /// Vertical travel.
    pub dy: i32,
    /// Milliseconds from the beginning of the hold.
    pub millis: nat,
}

/// The travel of motions.
pub open spec fn travel_of(moves: Seq<TimedMotion>) -> Seq<(i32, i32)> {
    moves.map_values(|motion: TimedMotion| (motion.dx, motion.dy))
}

/// The state after motions.
pub open spec fn after_motions(state: SwipeState, moves: Seq<TimedMotion>) -> SwipeState
    decreases moves.len(),
{
    if moves.len() == 0 {
        state
    } else {
        let motion = moves.last();
        after_motions(state, moves.drop_last()).moved_after(motion.dx, motion.dy, motion.millis).0
    }
}

/// What the `n`-th of several motions commits.
pub open spec fn committed_by(state: SwipeState, moves: Seq<TimedMotion>, n: int) -> Option<
    GestureDirection,
> {
    after_motions(state, moves.take(n)).moved_after(
        moves[n].dx,
        moves[n].dy,
        moves[n].millis,
    ).1
}

/// Where a hold stands after motions: its travel has added up, unless one of them has
/// committed.
proof fn lemma_after_motions(ungated: bool, moves: Seq<TimedMotion>)
    ensures
        ({
            let start = SwipeState::fresh(ungated);
            let state = after_motions(start, moves);
            &&& state.holding
            &&& state.ungated == ungated
            &&& state.fired <==> exists|n: int|
                0 <= n < moves.len() && (#[trigger] committed_by(start, moves, n)) is Some
            &&& !state.fired ==> (state.dx, state.dy) == arith::added_up(travel_of(moves))
        }),
    decreases moves.len(),
{
    let start = SwipeState::fresh(ungated);
    if moves.len() > 0 {
        let earlier = moves.drop_last();
        let last = moves.len() - 1;
        lemma_after_motions(ungated, earlier);
        assert(moves.take(last) =~= earlier);
        assert(travel_of(moves).drop_last() =~= travel_of(earlier));
        assert forall|n: int| 0 <= n < last implies #[trigger] committed_by(start, moves, n)
            == committed_by(start, earlier, n) by {
            assert(moves.take(n) =~= earlier.take(n));
        }
        if after_motions(start, earlier).fired {
            let n = choose|n: int|
                0 <= n < last && (#[trigger] committed_by(start, earlier, n)) is Some;
            assert(committed_by(start, moves, n) is Some);
        }
        if committed_by(start, moves, last) is None && !after_motions(start, earlier).fired {
            assert forall|n: int| 0 <= n < moves.len() implies (#[trigger] committed_by(
                start,
                moves,
                n,
            )) is None by {
                if n < last {
                    assert(committed_by(start, earlier, n) is None);
                }
            }
        }
    }
}

/// What the latest motion of a hold gives: the direction of all travel since the hold
/// began, added up on each axis, if no earlier motion of the hold has given one and
/// the hold has passed its gate; nothing otherwise. Earlier travel counts too.
pub proof fn law_travel_commits_once_past_the_gate(ungated: bool, moves: Seq<TimedMotion>)
    requires
        moves.len() > 0,
    ensures
        ({
            let start = SwipeState::fresh(ungated);
            let last = moves.len() - 1;
            let (dx, dy) = arith::added_up(travel_of(moves));
            committed_by(start, moves, last) == if (forall|n: int|
                0 <= n < last ==> (#[trigger] committed_by(start, moves, n)) is None) && (ungated
                || moves[last].millis >= GESTURE_HOLD_FOR_SWIPE) {
                swipe_direction(dx, dy)
            } else {
                None
            }
        }),
{
    let start = SwipeState::fresh(ungated);
    let earlier = moves.drop_last();
    let last = moves.len() - 1;
    lemma_after_motions(ungated, earlier);
    assert(moves.take(last) =~= earlier);
    assert(travel_of(moves).drop_last() =~= travel_of(earlier));
    assert forall|n: int| 0 <= n < last implies #[trigger] committed_by(start, moves, n)
        == committed_by(start, earlier, n) by {
        assert(moves.take(n) =~= earlier.take(n));
    }
    if after_motions(start, earlier).fired {
        let n = choose|n: int|
            0 <= n < last && (#[trigger] committed_by(start, earlier, n)) is Some;
        assert(committed_by(start, moves, n) is Some);
    } else {
        assert forall|n: int| 0 <= n < last implies (#[trigger] committed_by(
            start,
            moves,
            n,
        )) is None by {
            assert(committed_by(start, earlier, n) is None);
        }
    }
}

/// A hold that only moves before its gate commits nothing, however far it travels,
/// and is released as a click.
pub proof fn law_quick_drift_is_a_click(moves: Seq<TimedMotion>)
    requires
        forall|n: int|
            0 <= n < moves.len() ==> (#[trigger] moves[n]).millis < GESTURE_HOLD_FOR_SWIPE,
    ensures
        forall|n: int|
            0 <= n < moves.len() ==> (#[trigger] committed_by(
                SwipeState::fresh(false),
                moves,
                n,
            )) is None,
        after_motions(SwipeState::fresh(false), moves).release_is_click(),
{
    let start = SwipeState::fresh(false);
    assert forall|n: int| 0 <= n < moves.len() implies (#[trigger] committed_by(
        start,
        moves,
        n,
    )) is None by {
        lemma_after_motions(false, moves.take(n));
        assert(moves[n].millis < GESTURE_HOLD_FOR_SWIPE);
    }
    lemma_after_motions(false, moves);
}

/// Motion outside a hold is dropped, and a stray release is no click.
pub proof fn law_idle_ignores_motion(state: SwipeState, dx: i32, dy: i32, gate: bool)
    requires
        !state.holding,
    ensures
        state.moved(dx, dy, gate) == (state, None::<GestureDirection>),
        !state.release_is_click(),
{
}

/// How far cross-axis travel may go beside this much dominant travel: forty units, or
/// thirty-five hundredths of the dominant travel where that is more.
pub open spec fn within_band(cross: int, dominant: int) -> bool {
    cross <= 40 || cross <= (if dominant * 35 > 0x7fff_ffff {
        0x7fff_ffffint
    } else {
        dominant * 35
    }) / 100
}

/// A swipe goes where its dominant axis goes. Travel that is mostly vertical, or exactly
/// diagonal, commits to down or up by the sign of its vertical part, and travel that is
/// mostly horizontal to right or left by the sign of its horizontal part; the other axis
/// only decides whether it commits at all.
pub proof fn law_swipe_follows_its_dominant_axis(dx: i32, dy: i32)
    ensures
        ({
            let across = if dx < 0 { if dx == i32::MIN { 0x7fff_ffffint } else { -dx } } else { dx as int };
            let along = if dy < 0 { if dy == i32::MIN { 0x7fff_ffffint } else { -dy } } else { dy as int };
            let vertical = along >= across && along >= 50 && within_band(across, along);
            let horizontal = across > along && across >= 50 && within_band(along, across);
            &&& swipe_direction(dx, dy) == Some(GestureDirection::Down) <==> vertical && dy > 0
            &&& swipe_direction(dx, dy) == Some(GestureDirection::Up) <==> vertical && dy < 0
            &&& swipe_direction(dx, dy) == Some(GestureDirection::Right) <==> horizontal && dx > 0
            &&& swipe_direction(dx, dy) == Some(GestureDirection::Left) <==> horizontal && dx < 0
            &&& swipe_direction(dx, dy) is None <==> !vertical && !horizontal
        }),
{
}

/// Swapping the axes of travel that has a dominant one swaps the direction's axis: right
/// with down, and left with up.
pub proof fn law_swipes_transpose(dx: i32, dy: i32)
    requires
        arith::abs(dx as int) != arith::abs(dy as int),
        dx > i32::MIN,
        dy > i32::MIN,
    ensures
        swipe_direction(dy, dx) == match swipe_direction(dx, dy) {
            Some(GestureDirection::Right) => Some(GestureDirection::Down),
            Some(GestureDirection::Left) => Some(GestureDirection::Up),
            Some(GestureDirection::Down) => Some(GestureDirection::Right),
            Some(GestureDirection::Up) => Some(GestureDirection::Left),
            other => other,
        },
{
}

/// What one motion does to a hold: its travel is added on each axis with saturation,
/// and where the hold may commit, the total commits to its direction; the hold remembers
/// that it has. A hold that has committed, or none at all, takes no motion.
pub proof fn law_motion_adds_to_the_hold(state: SwipeState, dx: i32, dy: i32, open: bool)
    ensures
        ({
            let (after, commit) = state.moved(dx, dy, open);
            &&& after.holding == state.holding && after.ungated == state.ungated
            &&& !state.holding || state.fired ==> after == state && commit is None
            &&& state.holding && !state.fired ==> after.dx == arith::sat_i32(state.dx + dx)
                && after.dy == arith::sat_i32(state.dy + dy)
            &&& state.holding && !state.fired && open ==> commit == swipe_direction(
                after.dx,
                after.dy,
            )
            &&& !open ==> commit is None
            &&& after.fired <==> state.fired || commit is Some
        }),
{
}

/// When a hold may commit: at once if it is not gated, and otherwise from a hundred and
/// sixty milliseconds on. A fresh hold has no travel and has committed nothing; its
/// release is a click, and it leaves no hold behind.
pub proof fn law_hold_waits_and_ends(state: SwipeState, ungated: bool, millis: nat)
    ensures
        SwipeState::fresh(true).open_after(millis),
        SwipeState::fresh(false).open_after(millis) <==> millis >= 160,
        !SwipeState::idle().open_after(millis),
        SwipeState::fresh(ungated).holding && !SwipeState::fresh(ungated).fired,
        SwipeState::fresh(ungated).dx == 0 && SwipeState::fresh(ungated).dy == 0,
        !SwipeState::idle().holding,
        state.release_is_click() <==> state.holding && !state.fired,
        !state.released().holding && !state.released().ungated,
        state.released().fired == state.fired,
{
}

/// What times a hold: the time since its own start, and none where it has no start.
pub proof fn law_hold_is_timed_by_its_start(swipe: SwipeAccumulator, held: Option<Elapsed>)
    requires
        swipe.is_timed_by(held),
    ensures
        held is Some <==> swipe.since() is Some,
        held matches Some(elapsed) ==> swipe.since() == Some(elapsed.since()),
{
}

} // verus!
