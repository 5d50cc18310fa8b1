//! Live event monitor: a bounded buffer that mirrors the events the OS mouse
//! hook observes, on demand.
//!
//! Monitoring is off by default. Polling turns it on, and the idle check turns it
//! back off when polls stop, so a closed panel or a crashed window can't leave
//! the callback doing buffer work forever.

use crate::hook_runtime::MouseEvent;
use crate::ipc::{MonitorEvent, MonitorModel};
use std::collections::VecDeque;
use vstd::prelude::*;

verus! {

/// How many recent events are retained between polls.
pub const CAPACITY: usize = 256;

/// How often, in milliseconds, an idle monitor is looked for.
pub const IDLE_TICK: u64 = 3000;

/// Buffers the hook's observed events when enabled.
#[derive(Debug)]
pub struct EventMonitor {
    enabled: bool,
    polled: bool,
    events: VecDeque<MonitorEvent>,
}

/// The content of an [`EventMonitor`].
#[verifier::ext_equal]
pub struct MonitorState {
    /// Whether monitoring is on.
    pub enabled: bool,
    /// Whether there was a poll since the last idle check.
    pub polled: bool,
    /// The buffered events, oldest first.
    pub events: Seq<MonitorModel>,
}

/// The content of events.
pub open spec fn event_models(events: Seq<MonitorEvent>) -> Seq<MonitorModel> {
    events.map_values(|event: MonitorEvent| event@)
}

/// What is recorded of a hook event: nothing of a pointer move.
pub open spec fn recorded(event: MouseEvent) -> Option<MonitorModel> {
    match event {
        MouseEvent::Button { id, pressed } => Some(
            MonitorModel::Button { button: id.label_text(), pressed },
        ),
        MouseEvent::Scroll { delta_x_bits, delta_y_bits } => Some(
            MonitorModel::Scroll { delta_x_bits, delta_y_bits },
        ),
        MouseEvent::CaptureInterrupted => Some(MonitorModel::CaptureInterrupted),
        MouseEvent::Moved { .. } => None,
    }
}

impl MonitorState {
    /// Monitoring off, nothing buffered.
    pub open spec fn off() -> MonitorState {
        MonitorState { enabled: false, polled: false, events: Seq::empty() }
    }

    /// The state after an event: a full buffer loses its oldest event.
    pub open spec fn after_event(self, event: MouseEvent) -> MonitorState {
        match recorded(event) {
            Some(model) if self.enabled => MonitorState {
                events: if self.events.len() == CAPACITY {
                    self.events.skip(1).push(model)
                } else {
                    self.events.push(model)
                },
                ..self
            },
            _ => self,
        }
    }

    /// The state after a poll.
    pub open spec fn after_poll(self) -> MonitorState {
        MonitorState { enabled: true, polled: true, events: Seq::empty() }
    }

    /// The state after an idle check.
    pub open spec fn after_check(self) -> MonitorState {
        if !self.enabled {
            self
        } else if self.polled {
            MonitorState { polled: false, ..self }
        } else {
            MonitorState { enabled: false, events: Seq::empty(), ..self }
        }
    }

    /// The state after a run of events.
    pub open spec fn after_events(self, events: Seq<MouseEvent>) -> MonitorState
        decreases events.len(),
    {
        if events.len() == 0 {
            self
        } else {
            self.after_events(events.drop_last()).after_event(events.last())
        }
    }
}

impl View for EventMonitor {
    type V = MonitorState;

    closed spec fn view(&self) -> MonitorState {
        MonitorState {
            enabled: self.enabled,
            polled: self.polled,
            events: event_models(self.events@),
        }
    }
}

impl Default for EventMonitor {
    fn default() -> (monitor: Self)
        ensures
            monitor@ == MonitorState::off(),
    {
        let monitor = EventMonitor { enabled: false, polled: false, events: VecDeque::new() };
        assert(monitor@ =~= MonitorState::off());
        monitor
    }
}

impl EventMonitor {
    /// Whether monitoring is currently on.
    #[must_use]
    pub fn enabled(&self) -> (enabled: bool)
        ensures
            enabled == self@.enabled,
    {
        self.enabled
    }

    /// Record a hook event, if monitoring is on. Pointer moves are dropped; a full
    /// buffer loses its oldest event.
    pub fn record(&mut self, event: &MouseEvent)
        ensures
            final(self)@ == old(self)@.after_event(*event),
    {
        if !self.enabled {
            return;
        }
        let mapped = match event {
            MouseEvent::Button { id, pressed } => MonitorEvent::Button {
                button: id.label().to_owned(),
                pressed: *pressed,
            },
            MouseEvent::Scroll { delta_x_bits, delta_y_bits } => MonitorEvent::Scroll {
                delta_x_bits: *delta_x_bits,
                delta_y_bits: *delta_y_bits,
            },
            MouseEvent::CaptureInterrupted => MonitorEvent::CaptureInterrupted,
            MouseEvent::Moved { .. } => {
                return;
            },
        };
        if self.events.len() == CAPACITY {
            let _ = self.events.pop_front();
        }
        self.events.push_back(mapped);
        assert(self@ =~= old(self)@.after_event(*event));
    }

    /// Enable monitoring (idempotent) and drain everything buffered since the last
    /// poll, oldest first.
    pub fn poll(&mut self) -> (events: Vec<MonitorEvent>)
        ensures
            event_models(events@) == old(self)@.events,
            final(self)@ == old(self)@.after_poll(),
    {
        self.polled = true;
        self.enabled = true;
        let mut drained: Vec<MonitorEvent> = Vec::new();
        let ghost all = self.events@;
        let n = self.events.len();
        let mut i: usize = 0;
        while i < n
            invariant
                n == all.len(),
                i <= n,
                self.enabled,
                self.polled,
                self.events@ == all.skip(i as int),
                drained@ == all.take(i as int),
            decreases n - i,
        {
            match self.events.pop_front() {
                Some(event) => {
                    drained.push(event);
                },
                None => {},
            }
            i += 1;
            assert(self.events@ =~= all.skip(i as int));
            assert(drained@ =~= all.take(i as int));
        }
        assert(drained@ =~= all);
        assert(self@ =~= old(self)@.after_poll());
        drained
    }

    /// Turn monitoring off and discard any buffered events.
    fn disable(&mut self)
        ensures
            final(self)@ == (MonitorState {
                enabled: false,
                events: Seq::empty(),
                ..old(self)@
            }),
    {
        self.enabled = false;
        self.events.clear();
        assert(self@ =~= (MonitorState { enabled: false, events: Seq::empty(), ..old(self)@ }));
    }

    /// The periodic idle check: if monitoring is on but no poll arrived since the
    /// previous check, nobody is watching — disable and free the buffer.
    pub fn idle_check(&mut self)
        ensures
            final(self)@ == old(self)@.after_check(),
    {
        if self.enabled {
            if self.polled {
                self.polled = false;
            } else {
                self.disable();
            }
        }
        assert(self@ =~= old(self)@.after_check());
    }
}

/// However many events arrive, the buffer never grows past its capacity.
pub proof fn law_buffer_is_bounded(state: MonitorState, events: Seq<MouseEvent>)
    requires
        state.events.len() <= CAPACITY,
    ensures
        state.after_events(events).events.len() <= CAPACITY,
        state.after_events(events).enabled == state.enabled,
    decreases events.len(),
{
    if events.len() > 0 {
        law_buffer_is_bounded(state, events.drop_last());
    }
}

/// Nothing is recorded while monitoring is off, and a pointer move never is.
pub proof fn law_records_only_while_enabled(state: MonitorState, event: MouseEvent)
    ensures
        !state.enabled ==> state.after_event(event) == state,
        event is Moved ==> state.after_event(event) == state,
{
}

/// The newest event is always in the buffer, last.
pub proof fn law_newest_event_survives(state: MonitorState, event: MouseEvent)
    requires
        state.enabled,
        recorded(event) is Some,
    ensures
        state.after_event(event).events.last() == recorded(event)->0,
        state.after_event(event).events.len() > 0,
{
}

/// A poll keeps monitoring alive through one idle check, and two checks without a
/// poll between them end it.
pub proof fn law_idle_monitor_turns_off(state: MonitorState)
    ensures
        state.after_poll().after_check().enabled,
        !state.after_poll().after_check().after_check().enabled,
        state.after_poll().after_check().after_check().events.len() == 0,
{
}

/// What is recorded of a run of events, oldest first.
pub open spec fn recorded_all(events: Seq<MouseEvent>) -> Seq<MonitorModel>
    decreases events.len(),
{
    if events.len() == 0 {
        Seq::empty()
    } else {
        let earlier = recorded_all(events.drop_last());
        match recorded(events.last()) {
            Some(model) => earlier.push(model),
            None => earlier,
        }
    }
}

/// The newest entries, as many as the buffer holds.
pub open spec fn newest(all: Seq<MonitorModel>) -> Seq<MonitorModel> {
    if all.len() <= CAPACITY {
        all
    } else {
        all.skip(all.len() - CAPACITY)
    }
}

/// A poll gives the newest events since the poll before, in their order, as many as the
/// buffer holds.
pub proof fn law_poll_gives_the_newest_events(before: MonitorState, events: Seq<MouseEvent>)
    ensures
        before.after_poll().after_events(events).events == newest(recorded_all(events)),
        before.after_poll().after_events(events).enabled,
    decreases events.len(),
{
    let state = before.after_poll();
    if events.len() > 0 {
        let earlier = events.drop_last();
        law_poll_gives_the_newest_events(before, earlier);
        if let Some(model) = recorded(events.last()) {
            let all = recorded_all(earlier);
            assert(state.after_events(events).events =~= newest(all.push(model)));
        }
    }
}

/// What is recorded of an event: of a button its name and whether it went down, of a
/// scroll both amounts in their order, and an interruption as such; motion is not.
pub proof fn law_events_are_recorded(event: MouseEvent)
    ensures
        event matches MouseEvent::Button { id, pressed } ==> recorded(event) == Some(
            MonitorModel::Button { button: id.label_text(), pressed },
        ),
        event matches MouseEvent::Scroll { delta_x_bits, delta_y_bits } ==> recorded(event) == Some(
            MonitorModel::Scroll { delta_x_bits, delta_y_bits },
        ),
        event is CaptureInterrupted ==> recorded(event) == Some(MonitorModel::CaptureInterrupted),
        event is Moved <==> recorded(event) is None,
{
}

/// How the buffer fills: a new event goes to its end; the others keep their order, and of
/// two hundred and fifty-six only the oldest goes.
pub proof fn law_oldest_event_goes(state: MonitorState, event: MouseEvent, i: int)
    requires
        state.enabled,
        recorded(event) is Some,
    ensures
        ({
            let after = state.after_event(event);
            let count = state.events.len();
            &&& after.enabled && after.polled == state.polled
            &&& count != 256 ==> after.events.len() == count + 1
            &&& count == 256 ==> after.events.len() == 256
            &&& count != 256 && 0 <= i < count ==> after.events[i] == state.events[i]
            &&& count == 256 && 0 < i < count ==> after.events[i - 1] == state.events[i]
            &&& Some(after.events[after.events.len() - 1]) == recorded(event)
        }),
{
}

/// Polling switches the monitor on and empties it. A check leaves a monitor that was
/// polled since the last one on, with its events; one that was not is switched off and
/// emptied; and one that is off stays as it is.
pub proof fn law_polling_keeps_it_on(state: MonitorState)
    ensures
        !MonitorState::off().enabled,
        !MonitorState::off().polled,
        MonitorState::off().events.len() == 0,
        state.after_poll().enabled,
        state.after_poll().polled,
        state.after_poll().events.len() == 0,
        !state.enabled ==> state.after_check() == state,
        state.enabled && state.polled ==> state.after_check().enabled
            && !state.after_check().polled && state.after_check().events == state.events,
        state.enabled && !state.polled ==> !state.after_check().enabled
            && !state.after_check().polled && state.after_check().events.len() == 0,
{
}

} // verus!
