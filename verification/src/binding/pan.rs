//! Continuous two-axis Pan: the hold lifecycle between press and release.

use crate::arith;
use vstd::prelude::*;

verus! {

/// Raw-XY travel threshold that activates Pan. Motion below the boundary stays
/// buffered as a click candidate; reaching it flushes the buffered motion. A
/// physical click can settle through some twenty units of travel, so the
/// boundary separates that jitter from a deliberate drag.
pub const PAN_DEADZONE: i32 = 32;

/// Typed result of one Pan state-machine transition.
#[derive(Clone, Copy, Debug, PartialEq, Eq, Structural)]
pub enum PanOutput {
    /// No hold is active, or motion is still buffered inside the deadzone.
    Idle,
    /// Signed two-axis motion to inject as one continuous Pan update.
    Delta {
        /// Horizontal raw-XY delta (`+x` is right).
        x: i32,
        /// Vertical raw-XY delta (`+y` is down).
        y: i32,
    },
    /// A held button ended before Pan activated; fire its click fallback.
    Click,
    /// An activated Pan ended, or an in-progress hold was cancelled.
    End,
}

/// Pure hold-lifecycle state for continuous Pan gestures.
///
/// Motion inside [`PAN_DEADZONE`] is accumulated with saturating arithmetic.
/// Once either axis reaches the boundary, the entire buffered prefix is emitted
/// so slow gesture starts are not lost. Subsequent motion is emitted directly.
#[derive(Debug)]
pub struct PanAccumulator {
    holding: bool,
    active: bool,
    buffered_x: i32,
    buffered_y: i32,
}

/// Where a Pan hold stands.
pub enum PanPhase {
    /// No hold.
    Released,
    /// Held, with the travel buffered so far, all of it inside the deadzone.
    Pending {
        /// Buffered horizontal travel.
        x: i32,
        /// Buffered vertical travel.
        y: i32,
    },
    /// Held and panning.
    Active,
}

/// Whether travel has reached the deadzone boundary on either axis.
pub open spec fn leaves_deadzone(x: int, y: int) -> bool {
    arith::abs(x) >= PAN_DEADZONE || arith::abs(y) >= PAN_DEADZONE
}

impl PanPhase {
    /// The phase after motion, and what the motion produces.
    pub open spec fn moved(self, dx: i32, dy: i32) -> (PanPhase, PanOutput) {
        match self {
            PanPhase::Released => (self, PanOutput::Idle),
            PanPhase::Active => (self, PanOutput::Delta { x: dx, y: dy }),
            PanPhase::Pending { x, y } => {
                let (sx, sy) = (arith::sat_i32(x + dx), arith::sat_i32(y + dy));
                if leaves_deadzone(sx as int, sy as int) {
                    (PanPhase::Active, PanOutput::Delta { x: sx, y: sy })
                } else {
                    (PanPhase::Pending { x: sx, y: sy }, PanOutput::Idle)
                }
            },
        }
    }

    /// What a release produces.
    pub open spec fn release_output(self) -> PanOutput {
        match self {
            PanPhase::Released => PanOutput::Idle,
            PanPhase::Pending { .. } => PanOutput::Click,
            PanPhase::Active => PanOutput::End,
        }
    }

    /// What a cancellation produces.
    pub open spec fn cancel_output(self) -> PanOutput {
        match self {
            PanPhase::Released => PanOutput::Idle,
            _ => PanOutput::End,
        }
    }

    /// The phase after a whole trace of motion.
    pub open spec fn after(self, trace: Seq<(i32, i32)>) -> PanPhase
        decreases trace.len(),
    {
        if trace.len() == 0 {
            self
        } else {
            let before = self.after(trace.drop_last());
            before.moved(trace.last().0, trace.last().1).0
        }
    }
}

impl View for PanAccumulator {
    type V = PanPhase;

    closed spec fn view(&self) -> PanPhase {
        if !self.holding {
            PanPhase::Released
        } else if self.active {
            PanPhase::Active
        } else {
            PanPhase::Pending { x: self.buffered_x, y: self.buffered_y }
        }
    }
}

impl Default for PanAccumulator {
    fn default() -> (pan: Self)
        ensures
            pan@ == PanPhase::Released,
            pan.valid(),
    {
        PanAccumulator { holding: false, active: false, buffered_x: 0, buffered_y: 0 }
    }
}

impl PanAccumulator {
    /// Pan is only ever active during a hold.
    pub closed spec fn valid(&self) -> bool {
        self.active ==> self.holding
    }

    /// Begin a fresh hold, discarding any stale state from an interrupted hold.
    pub fn begin(&mut self)
        ensures
            final(self)@ == (PanPhase::Pending { x: 0, y: 0 }),
            final(self).valid(),
    {
        *self = PanAccumulator { holding: true, active: false, buffered_x: 0, buffered_y: 0 };
    }

    /// Whether a hold is currently in progress.
    #[must_use]
    pub fn is_holding(&self) -> (holding: bool)
        ensures
            holding == !(self@ is Released),
    {
        self.holding
    }

    /// Whether the current hold has crossed the deadzone and activated Pan.
    #[must_use]
    pub fn is_active(&self) -> (active: bool)
        requires
            self.valid(),
        ensures
            active == (self@ is Active),
    {
        self.active
    }

    /// Feed signed raw-XY motion into the hold.
    pub fn accumulate(&mut self, x: i32, y: i32) -> (output: PanOutput)
        ensures
            (final(self)@, output) == old(self)@.moved(x, y),
            old(self).valid() ==> final(self).valid(),
    {
        if !self.holding {
            return PanOutput::Idle;
        }
        if self.active {
            return PanOutput::Delta { x, y };
        }
        self.buffered_x = arith::saturating_add(self.buffered_x, x);
        self.buffered_y = arith::saturating_add(self.buffered_y, y);
        if arith::max(
            arith::saturating_abs(self.buffered_x),
            arith::saturating_abs(self.buffered_y),
        ) < PAN_DEADZONE {
            return PanOutput::Idle;
        }
        self.active = true;
        PanOutput::Delta { x: self.buffered_x, y: self.buffered_y }
    }

    /// End a hold, returning [`PanOutput::Click`] before activation and
    /// [`PanOutput::End`] after activation. A stray release is idle.
    pub fn end(&mut self) -> (output: PanOutput)
        ensures
            output == old(self)@.release_output(),
            final(self)@ == PanPhase::Released,
            old(self).valid() ==> final(self).valid(),
    {
        if !self.holding {
            return PanOutput::Idle;
        }
        let output = if self.active {
            PanOutput::End
        } else {
            PanOutput::Click
        };
        *self = PanAccumulator::default();
        output
    }

    /// Cancel an interrupted hold without ever committing its click fallback.
    /// Returns [`PanOutput::End`] whenever a pending or active hold was
    /// cancelled, and [`PanOutput::Idle`] when there was no hold to cancel.
    pub fn cancel(&mut self) -> (output: PanOutput)
        ensures
            output == old(self)@.cancel_output(),
            final(self)@ == PanPhase::Released,
            old(self).valid() ==> final(self).valid(),
    {
        if !self.holding {
            return PanOutput::Idle;
        }
        *self = PanAccumulator::default();
        PanOutput::End
    }
}

/// Sum of a trace's horizontal travel.
pub open spec fn travel_x(trace: Seq<(i32, i32)>) -> int
    decreases trace.len(),
{
    if trace.len() == 0 {
        0
    } else {
        travel_x(trace.drop_last()) + trace.last().0
    }
}

/// Sum of a trace's vertical travel.
pub open spec fn travel_y(trace: Seq<(i32, i32)>) -> int
    decreases trace.len(),
{
    if trace.len() == 0 {
        0
    } else {
        travel_y(trace.drop_last()) + trace.last().1
    }
}

/// Every prefix of the trace stays inside the deadzone.
pub open spec fn stays_inside(trace: Seq<(i32, i32)>) -> bool {
    forall|n: int|
        0 <= n <= trace.len() ==> !leaves_deadzone(
            travel_x(#[trigger] trace.take(n)),
            travel_y(trace.take(n)),
        )
}

/// Once Pan is active, no further motion deactivates it, and its release is
/// never a click.
pub proof fn law_active_pan_never_clicks(trace: Seq<(i32, i32)>)
    ensures
        PanPhase::Active.after(trace) is Active,
        PanPhase::Active.after(trace).release_output() == PanOutput::End,
    decreases trace.len(),
{
    if trace.len() > 0 {
        law_active_pan_never_clicks(trace.drop_last());
    }
}

/// A hold is released as a click exactly when its travel never left the
/// deadzone.
pub proof fn law_click_iff_jitter(trace: Seq<(i32, i32)>)
    ensures
        (PanPhase::Pending { x: 0, y: 0 }).after(trace).release_output() == PanOutput::Click
            <==> stays_inside(trace),
        stays_inside(trace) ==> (PanPhase::Pending { x: 0, y: 0 }).after(trace) == (
        PanPhase::Pending { x: travel_x(trace) as i32, y: travel_y(trace) as i32 }),
        !((PanPhase::Pending { x: 0, y: 0 }).after(trace) is Released),
    decreases trace.len(),
{
    let start = PanPhase::Pending { x: 0, y: 0 };
    assert(trace.take(trace.len() as int) =~= trace);
    if trace.len() == 0 {
        assert forall|n: int| 0 <= n <= trace.len() implies !leaves_deadzone(
            travel_x(#[trigger] trace.take(n)),
            travel_y(trace.take(n)),
        ) by {
            assert(trace.take(n).len() == 0);
        }
    } else {
        let earlier = trace.drop_last();
        law_click_iff_jitter(earlier);
        assert forall|n: int| 0 <= n <= earlier.len() implies #[trigger] earlier.take(n)
            == trace.take(n) by {
            assert(earlier.take(n) =~= trace.take(n));
        }
        if stays_inside(trace) {
            assert(stays_inside(earlier)) by {
                assert forall|n: int| 0 <= n <= earlier.len() implies !leaves_deadzone(
                    travel_x(#[trigger] earlier.take(n)),
                    travel_y(earlier.take(n)),
                ) by {
                    assert(earlier.take(n) == trace.take(n));
                }
            }
        } else if stays_inside(earlier) {
            let n = choose|n: int|
                0 <= n <= trace.len() && leaves_deadzone(
                    travel_x(#[trigger] trace.take(n)),
                    travel_y(trace.take(n)),
                );
            if n < trace.len() {
                assert(earlier.take(n) == trace.take(n));
            }
            assert(n == trace.len());
            assert(earlier.take(earlier.len() as int) =~= earlier);
        } else {
            assert(start.after(earlier) is Active);
        }
    }
}

/// The motion that activates Pan carries the whole buffered travel, so nothing
/// of a slow start is lost.
pub proof fn law_activation_emits_buffered_prefix(trace: Seq<(i32, i32)>, dx: i32, dy: i32)
    requires
        stays_inside(trace),
        leaves_deadzone(
            arith::sat_i32(travel_x(trace) + dx) as int,
            arith::sat_i32(travel_y(trace) + dy) as int,
        ),
    ensures
        (PanPhase::Pending { x: 0, y: 0 }).after(trace).moved(dx, dy) == (
            PanPhase::Active,
            PanOutput::Delta {
                x: arith::sat_i32(travel_x(trace) + dx),
                y: arith::sat_i32(travel_y(trace) + dy),
            },
        ),
{
    law_click_iff_jitter(trace);
    assert(trace.take(trace.len() as int) =~= trace);
}

/// Cancelling never clicks, whatever the phase.
pub proof fn law_cancel_never_clicks(phase: PanPhase)
    ensures
        phase.cancel_output() != PanOutput::Click,
{
}

/// Sum of the motion that a hold emits over a trace.
pub open spec fn emitted_travel(trace: Seq<(i32, i32)>) -> (int, int)
    decreases trace.len(),
{
    if trace.len() == 0 {
        (0, 0)
    } else {
        let (x, y) = emitted_travel(trace.drop_last());
        let phase = (PanPhase::Pending { x: 0, y: 0 }).after(trace.drop_last());
        match phase.moved(trace.last().0, trace.last().1).1 {
            PanOutput::Delta { x: dx, y: dy } => (x + dx, y + dy),
            _ => (x, y),
        }
    }
}

/// The travel that a hold still buffers.
pub open spec fn buffered_travel(phase: PanPhase) -> (int, int) {
    match phase {
        PanPhase::Pending { x, y } => (x as int, y as int),
        _ => (0, 0),
    }
}

/// No motion of the trace carries the buffered travel out of the 32-bit range.
pub open spec fn buffer_fits(trace: Seq<(i32, i32)>) -> bool
    decreases trace.len(),
{
    trace.len() == 0 || buffer_fits(trace.drop_last()) && {
        let (x, y) = buffered_travel((PanPhase::Pending { x: 0, y: 0 }).after(trace.drop_last()));
        &&& i32::MIN <= x + trace.last().0 <= i32::MAX
        &&& i32::MIN <= y + trace.last().1 <= i32::MAX
    }
}

/// What a hold emits adds up to the motion that was fed into it, except for what it
/// still buffers; once it pans, nothing is left out.
pub proof fn law_emitted_motion_adds_up(trace: Seq<(i32, i32)>)
    requires
        buffer_fits(trace),
    ensures
        ({
            let phase = (PanPhase::Pending { x: 0, y: 0 }).after(trace);
            let (x, y) = emitted_travel(trace);
            let (rest_x, rest_y) = buffered_travel(phase);
            &&& x + rest_x == travel_x(trace)
            &&& y + rest_y == travel_y(trace)
            &&& phase is Active ==> emitted_travel(trace) == (travel_x(trace), travel_y(trace))
            &&& !(phase is Released)
        }),
    decreases trace.len(),
{
    if trace.len() > 0 {
        law_emitted_motion_adds_up(trace.drop_last());
    }
}

/// What one motion does to a Pan hold: within thirty-two units on both axes it is kept
/// back, reaching them on either axis gives out everything that was kept back, and an
/// active Pan passes its motion on unchanged, each axis on its own. Without a hold
/// nothing happens.
pub proof fn law_pan_passes_motion_on(x: i32, y: i32, dx: i32, dy: i32)
    ensures
        ({
            let (total_x, total_y) = (arith::sat_i32(x + dx), arith::sat_i32(y + dy));
            let inside = -32 < total_x < 32 && -32 < total_y < 32;
            let (after, output) = (PanPhase::Pending { x, y }).moved(dx, dy);
            &&& inside ==> output == PanOutput::Idle && after == (PanPhase::Pending {
                x: total_x,
                y: total_y,
            })
            &&& !inside ==> after is Active && output == (PanOutput::Delta {
                x: total_x,
                y: total_y,
            })
        }),
        PanPhase::Active.moved(dx, dy) == (PanPhase::Active, PanOutput::Delta { x: dx, y: dy }),
        PanPhase::Released.moved(dx, dy) == (PanPhase::Released, PanOutput::Idle),
{
}

/// How a Pan hold ends: released before it became active it is a click, released after
/// that it just ends, and cancelled it ends without a click. Without a hold neither does
/// anything.
pub proof fn law_pan_ends(x: i32, y: i32)
    ensures
        (PanPhase::Pending { x, y }).release_output() == PanOutput::Click,
        PanPhase::Active.release_output() == PanOutput::End,
        PanPhase::Released.release_output() == PanOutput::Idle,
        (PanPhase::Pending { x, y }).cancel_output() == PanOutput::End,
        PanPhase::Active.cancel_output() == PanOutput::End,
        PanPhase::Released.cancel_output() == PanOutput::Idle,
{
}

} // verus!
