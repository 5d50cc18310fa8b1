//! The OS hook's reaction to events, holds and the Pan worker's mailbox.

use std::sync::mpsc::{sync_channel, Receiver, SyncSender, TryRecvError};
use std::sync::Arc;
use std::time::{Duration, Instant};

use openlogi::binding::pan::PAN_DEADZONE;
use openlogi::binding::swipe::GESTURE_SWIPE_THRESHOLD;
use openlogi::binding::{
    default_binding, Action, ButtonId, DirectionMap, GestureDirection, KeyCombo, PanBinding,
};
use openlogi::bindings::GestureMode;
use openlogi::button_map::ButtonMap;
use openlogi::gesture_coordinator::GestureCoordinator;
use openlogi::hook_runtime::{
    coalesce, dispatch_action, drained, handle_button, handle_button_now, handle_event,
    handle_event_now, handle_motion, handle_motion_now,
    is_native_click, pack_delta, unpack_delta, wake_needed, ActionRoute, EventDisposition, HoldGesture,
    HoldOutput, HoldState, HookEffect, HookMaps, HookReaction, MouseEvent, PanEmitter, PanPending,
};

fn directions(entries: &[(GestureDirection, Action)]) -> DirectionMap {
    let mut map = DirectionMap::new();
    for (direction, action) in entries {
        map.insert(*direction, action.clone());
    }
    map
}

fn modes(entries: &[(ButtonId, GestureMode)]) -> ButtonMap<GestureMode> {
    let mut map = ButtonMap::new();
    for (button, mode) in entries {
        map.insert(*button, mode.clone());
    }
    map
}

/// A hook with the queue that its actions go to.
struct Hook {
    hold: HoldState,
    coordinator: GestureCoordinator,
    maps: HookMaps,
    queue: SyncSender<Action>,
    macos: bool,
}

impl Hook {
    fn new(generation: u64, gestures: ButtonMap<GestureMode>, capacity: usize) -> (Hook, Receiver<Action>) {
        let (queue, actions) = sync_channel(capacity);
        (
            Hook {
                hold: HoldState::default(),
                coordinator: GestureCoordinator::default(),
                maps: HookMaps {
                    generation,
                    bindings: ButtonMap::new(),
                    gestures,
                },
                queue,
                macos: false,
            },
            actions,
        )
    }

    fn perform(&self, reaction: HookReaction) -> EventDisposition {
        if let HookEffect::Emit(action) = reaction.effect {
            let _ = self.queue.try_send(action);
        }
        reaction.disposition
    }

    fn event(&mut self, event: MouseEvent) -> EventDisposition {
        let reaction = handle_event(
            &mut self.hold,
            &self.coordinator,
            Some(&self.maps),
            &event,
            self.macos,
        );
        self.perform(reaction)
    }

    fn button(&mut self, id: ButtonId, pressed: bool) -> EventDisposition {
        let reaction = handle_button(
            &mut self.hold,
            &self.coordinator,
            Some(&self.maps),
            id,
            pressed,
        );
        self.perform(reaction)
    }

    fn motion(&mut self, delta_x: i32, delta_y: i32) -> EventDisposition {
        let reaction = handle_motion(
            &mut self.hold,
            Some(&self.maps),
            delta_x,
            delta_y,
            self.macos,
        );
        self.perform(reaction)
    }
}

fn pan_hook() -> (Hook, Receiver<Action>) {
    Hook::new(
        1,
        modes(&[(
            ButtonId::Back,
            GestureMode::Pan(PanBinding {
                click: Action::SmartZoom,
            }),
        )]),
        2,
    )
}

fn action_hook(capacity: usize) -> (Hook, Receiver<Action>) {
    let (mut hook, actions) = Hook::new(1, ButtonMap::new(), capacity);
    hook.maps.bindings.insert(ButtonId::Back, Action::Copy);
    (hook, actions)
}

#[test]
fn pan_hold_suppresses_motion_and_clicks_only_inside_deadzone() {
    let mut hold = HoldState::default();
    hold.begin(
        ButtonId::Back,
        GestureMode::Pan(PanBinding {
            click: Action::SmartZoom,
        }),
        1,
    );

    assert_eq!(hold.accumulate(PAN_DEADZONE - 1, 0), HoldOutput::Suppress);
    assert_eq!(
        hold.end(ButtonId::Back),
        Some(HoldOutput::Action(Action::SmartZoom))
    );

    hold.begin(
        ButtonId::Back,
        GestureMode::Pan(PanBinding {
            click: Action::SmartZoom,
        }),
        1,
    );
    assert_eq!(
        hold.accumulate(PAN_DEADZONE, -7),
        HoldOutput::PanDelta {
            x: PAN_DEADZONE,
            y: -7,
        }
    );
    assert_eq!(hold.end(ButtonId::Back), Some(HoldOutput::Suppress));
}

#[test]
fn pan_pending_coalesces_two_axes_behind_one_wake() {
    let pending = PanPending::default();
    assert!(pending.enqueue(3, -4), "the first delta requests a wake");
    assert!(
        !pending.enqueue(-1, 9),
        "a pending wake coalesces later motion"
    );
    assert_eq!(pending.drain(), Some((2, 5)));
    assert!(pending.enqueue(7, 8), "draining re-arms the next wake");
}

#[test]
fn cancelling_pan_resets_without_click() {
    let mut hold = HoldState::default();
    hold.begin(
        ButtonId::Back,
        GestureMode::Pan(PanBinding {
            click: Action::SmartZoom,
        }),
        1,
    );
    assert_eq!(hold.cancel(), HoldOutput::Suppress);
    assert_eq!(hold.end(ButtonId::Back), None);
}

#[test]
fn overlapping_gesture_holds_keep_only_the_newest_press() {
    for (first, second) in [
        (ButtonId::Back, ButtonId::Forward),
        (ButtonId::Forward, ButtonId::Back),
    ] {
        let mut hold = HoldState::default();
        hold.begin(
            first,
            GestureMode::Directional(directions(&[(
                GestureDirection::Click,
                Action::Copy,
            )])),
            1,
        );
        hold.begin(
            second,
            GestureMode::Pan(PanBinding {
                click: Action::SmartZoom,
            }),
            1,
        );

        assert_eq!(hold.active_button(), Some(second));
        assert_eq!(
            hold.accumulate(PAN_DEADZONE, -7),
            HoldOutput::PanDelta {
                x: PAN_DEADZONE,
                y: -7,
            },
            "motion belongs to the newest hold"
        );
        assert_eq!(hold.end(first), None, "the cancelled hold cannot click");
        assert_eq!(
            hold.end(second),
            Some(HoldOutput::Suppress),
            "the newest hold owns release"
        );
    }
}

#[test]
fn overlapping_gesture_interruption_and_generation_reset_do_not_click() {
    let mode = GestureMode::Pan(PanBinding {
        click: Action::SmartZoom,
    });
    let mut hold = HoldState::default();
    hold.begin(ButtonId::Back, mode.clone(), 7);
    hold.begin(ButtonId::Forward, mode.clone(), 7);
    assert_eq!(hold.cancel(), HoldOutput::Suppress);
    assert_eq!(hold.end(ButtonId::Back), None);
    assert_eq!(hold.end(ButtonId::Forward), None);

    hold.begin(ButtonId::Back, mode.clone(), 7);
    hold.begin(ButtonId::Forward, mode.clone(), 7);
    assert!(!hold.mode_matches(ButtonId::Forward, Some(&mode), 8));
    assert_eq!(hold.cancel(), HoldOutput::Suppress);
    assert_eq!(hold.end(ButtonId::Back), None);
    assert_eq!(hold.end(ButtonId::Forward), None);
}

#[test]
fn projection_generation_change_cancels_an_equal_pan_binding() {
    let mode = GestureMode::Pan(PanBinding {
        click: Action::SmartZoom,
    });
    let mut hold = HoldState::default();
    hold.begin(ButtonId::Back, mode.clone(), 7);
    assert!(!hold.mode_matches(ButtonId::Back, Some(&mode), 8));
    let _ = hold.cancel();
    assert_eq!(hold.end(ButtonId::Back), None);
}

#[test]
fn accumulate_tags_a_committed_swipe_with_the_held_button() {
    let mut hold = HoldState::default();
    hold.begin(
        ButtonId::Back,
        GestureMode::Directional(directions(&[(
            GestureDirection::Right,
            Action::Copy,
        )])),
        1,
    );
    let Some(HoldGesture::Directional { swipe, .. }) = hold.gesture.as_mut() else {
        panic!("directional hold");
    };
    swipe.backdate_hold_for_test();

    // A clear rightward swipe commits, tagged with the held button.
    assert_eq!(
        hold.accumulate(GESTURE_SWIPE_THRESHOLD + 10, 0),
        HoldOutput::Action(Action::Copy)
    );
    assert_eq!(
        hold.accumulate(50, 0),
        HoldOutput::Suppress,
        "commits at most once per hold"
    );
    // A release after a committed swipe is NOT a click.
    assert_eq!(hold.end(ButtonId::Back), Some(HoldOutput::Suppress));
}

#[test]
fn sparse_directional_map_preserves_click_fallback() {
    let mut hold = HoldState::default();
    hold.begin(
        ButtonId::Back,
        GestureMode::Directional(directions(&[(
            GestureDirection::Click,
            Action::Copy,
        )])),
        1,
    );
    let Some(HoldGesture::Directional { swipe, .. }) = hold.gesture.as_mut() else {
        panic!("directional hold");
    };
    swipe.backdate_hold_for_test();
    assert_eq!(
        hold.accumulate(-(GESTURE_SWIPE_THRESHOLD + 10), 0),
        HoldOutput::Action(Action::Copy)
    );
}

#[test]
fn end_matches_the_held_button() {
    let mut hold = HoldState::default();
    hold.begin(ButtonId::Back, GestureMode::Directional(DirectionMap::new()), 1);
    // A stray release of a button we weren't holding is ignored...
    assert_eq!(hold.end(ButtonId::Forward), None);
    // ...and ending the held button with no swipe is a plain click.
    assert_eq!(
        hold.end(ButtonId::Back),
        Some(HoldOutput::Action(default_binding(ButtonId::Back)))
    );
}

#[test]
fn ordinary_button_callback_only_enqueues_action() {
    let (mut hook, actions) = action_hook(1);
    assert_eq!(
        hook.event(MouseEvent::Button {
            id: ButtonId::Back,
            pressed: true,
        }),
        EventDisposition::Suppress
    );
    assert_eq!(actions.try_recv(), Ok(Action::Copy));
}

#[test]
fn full_action_queue_drops_new_action_without_blocking_callback() {
    let (mut hook, actions) = action_hook(1);
    assert!(hook.queue.try_send(Action::Paste).is_ok());

    assert_eq!(
        hook.event(MouseEvent::Button {
            id: ButtonId::Back,
            pressed: true,
        }),
        EventDisposition::Suppress
    );
    assert_eq!(actions.try_recv(), Ok(Action::Paste));
    assert_eq!(actions.try_recv(), Err(TryRecvError::Empty));
}

#[test]
fn pan_click_and_directional_commit_only_enqueue_actions() {
    let (mut pan, pan_actions) = pan_hook();
    assert_eq!(pan.button(ButtonId::Back, true), EventDisposition::Suppress);
    assert_eq!(
        pan.button(ButtonId::Back, false),
        EventDisposition::Suppress
    );
    assert_eq!(pan_actions.try_recv(), Ok(Action::SmartZoom));

    let (mut directional, directional_actions) = Hook::new(
        1,
        modes(&[(
            ButtonId::Back,
            GestureMode::Directional(directions(&[(GestureDirection::Right, Action::Copy)])),
        )]),
        2,
    );
    assert_eq!(
        directional.button(ButtonId::Back, true),
        EventDisposition::Suppress
    );
    let Some(HoldGesture::Directional { swipe, .. }) = directional.hold.gesture.as_mut() else {
        panic!("directional hold");
    };
    swipe.backdate_hold_for_test();
    assert_eq!(
        directional.motion(GESTURE_SWIPE_THRESHOLD + 1, 0),
        EventDisposition::PassThrough
    );
    assert_eq!(directional_actions.try_recv(), Ok(Action::Copy));
}

#[test]
fn button_fails_open_while_the_maps_are_being_rewritten() {
    let mut hold = HoldState::default();
    let reaction = handle_event(
        &mut hold,
        &GestureCoordinator::default(),
        None,
        &MouseEvent::Button {
            id: ButtonId::Back,
            pressed: true,
        },
        false,
    );
    assert_eq!(reaction.disposition, EventDisposition::PassThrough);
    assert!(matches!(reaction.effect, HookEffect::Idle));
}

#[test]
fn active_motion_cancels_while_the_maps_are_being_rewritten() {
    let (mut hook, actions) = pan_hook();
    assert_eq!(
        hook.event(MouseEvent::Button {
            id: ButtonId::Back,
            pressed: true,
        }),
        EventDisposition::Suppress
    );
    let reaction = handle_event(
        &mut hook.hold,
        &hook.coordinator,
        None,
        &MouseEvent::Moved {
            delta_x: PAN_DEADZONE,
            delta_y: 0,
        },
        false,
    );
    assert_eq!(reaction.disposition, EventDisposition::PassThrough);
    assert_eq!(hook.hold.active_button(), None);
    assert_eq!(actions.try_recv(), Err(TryRecvError::Empty));
}

#[test]
fn dedicated_press_invalidates_os_hold_without_phantom_click() {
    for button in [ButtonId::Back, ButtonId::Forward] {
        let (mut hook, actions) = Hook::new(
            7,
            modes(&[(
                button,
                GestureMode::Pan(PanBinding {
                    click: Action::SmartZoom,
                }),
            )]),
            1,
        );
        assert_eq!(hook.button(button, true), EventDisposition::Suppress);

        let _dedicated = hook.coordinator.acquire();
        assert_eq!(
            hook.motion(PAN_DEADZONE, -7),
            EventDisposition::PassThrough,
            "stale OS motion must not pan or dispatch"
        );
        assert_eq!(
            hook.button(button, false),
            EventDisposition::PassThrough,
            "release after stale motion must not click"
        );
        assert_eq!(actions.try_recv(), Err(TryRecvError::Empty));
    }
}

#[test]
fn os_hook_pan_freezes_motion_until_interrupted() {
    for macos in [true, false] {
        let (mut hook, _actions) = pan_hook();
        hook.macos = macos;

        assert_eq!(
            hook.event(MouseEvent::Button {
                id: ButtonId::Back,
                pressed: true,
            }),
            EventDisposition::Suppress
        );
        let motion = hook.event(MouseEvent::Moved {
            delta_x: 1,
            delta_y: -1,
        });
        if macos {
            assert_eq!(motion, EventDisposition::FreezePointer);
        } else {
            assert_eq!(motion, EventDisposition::Suppress);
        }
        assert_eq!(
            hook.event(MouseEvent::CaptureInterrupted),
            EventDisposition::PassThrough
        );
        assert_eq!(hook.hold.active_button(), None);
    }
}

#[test]
fn active_pan_hands_its_motion_to_the_worker() {
    let (mut hook, _actions) = pan_hook();
    assert_eq!(hook.button(ButtonId::Back, true), EventDisposition::Suppress);
    let reaction = handle_motion(&mut hook.hold, Some(&hook.maps), PAN_DEADZONE, -7, true);
    assert_eq!(reaction.disposition, EventDisposition::FreezePointer);
    assert!(matches!(
        reaction.effect,
        HookEffect::Pan {
            x: PAN_DEADZONE,
            y: -7
        }
    ));
}

#[test]
fn native_clicks_and_unbound_buttons_pass_through() {
    assert!(is_native_click(ButtonId::Back, &Action::MouseBack));
    assert!(!is_native_click(ButtonId::Back, &Action::MouseForward));

    let (mut hook, actions) = Hook::new(1, ButtonMap::new(), 1);
    assert_eq!(
        hook.button(ButtonId::Back, true),
        EventDisposition::PassThrough,
        "a button without a binding is left alone"
    );
    hook.maps.bindings.insert(ButtonId::Back, Action::MouseBack);
    assert_eq!(
        hook.button(ButtonId::Back, true),
        EventDisposition::PassThrough,
        "a button bound to what it already does is left alone"
    );
    assert_eq!(actions.try_recv(), Err(TryRecvError::Empty));
}

#[test]
fn scrolling_is_never_touched() {
    let (mut hook, _actions) = pan_hook();
    assert_eq!(
        hook.event(MouseEvent::Scroll {
            delta_x_bits: 0,
            delta_y_bits: 1.0f32.to_bits(),
        }),
        EventDisposition::PassThrough
    );
}

#[test]
fn packed_motion_reads_back_at_the_extremes() {
    for (x, y) in [
        (0, 0),
        (3, -4),
        (-1, 9),
        (i32::MAX, i32::MIN),
        (i32::MIN, i32::MAX),
    ] {
        assert_eq!(unpack_delta(pack_delta(x, y)), (x, y));
    }
    assert_eq!(pack_delta(1, -1), 0x0000_0001_ffff_ffff);
    assert_eq!(drained(0), None);
    assert_eq!(
        drained(coalesce(pack_delta(i32::MAX, i32::MIN), 1, -1)),
        Some((i32::MAX, i32::MIN)),
        "coalesced motion saturates"
    );
}

#[test]
fn a_raised_flag_needs_no_second_wake() {
    assert!(wake_needed(false));
    assert!(!wake_needed(true));
}

#[test]
fn only_a_swipe_waits_for_its_hold() {
    let mut hold = HoldState::default();
    assert!(hold.held_for().is_none() && hold.open_by(&None), "nothing waits");
    hold.begin(
        ButtonId::Back,
        GestureMode::Pan(PanBinding {
            click: Action::SmartZoom,
        }),
        1,
    );
    assert!(hold.held_for().is_none());
    assert!(hold.open_by(&None), "a Pan has nothing to wait for");
    hold.begin(ButtonId::Back, GestureMode::Directional(DirectionMap::new()), 1);
    let held = hold.held_for();
    assert!(!hold.open_by(&held), "a swipe has only begun");
}

#[test]
fn pan_emitter_wakes_its_worker_once_per_batch() {
    let pending = Arc::new(PanPending::default());
    let (wake, woken) = sync_channel(1);
    let emitter = PanEmitter::new(Arc::clone(&pending), wake);

    emitter.emit(3, -4);
    emitter.emit(-1, 9);
    assert!(woken.try_recv().is_ok(), "the first delta wakes the worker");
    assert!(woken.try_recv().is_err(), "later motion shares that wake");
    assert_eq!(pending.take(), Some((2, 5)));
    assert!(!pending.finish_cycle(), "nothing arrived meanwhile");
    assert_eq!(pending.take(), None);

    emitter.emit(7, 8);
    assert!(woken.try_recv().is_ok(), "a finished cycle re-arms the wake");
    emitter.emit(1, 1);
    assert!(
        pending.finish_cycle(),
        "motion that arrived during the cycle is picked up"
    );
}

#[test]
fn device_actions_are_routed_to_the_device() {
    assert!(matches!(
        dispatch_action(&Action::CycleDpiPresets),
        ActionRoute::CycleDpi
    ));
    assert!(matches!(
        dispatch_action(&Action::SetDpiPreset(2)),
        ActionRoute::SetDpi(2)
    ));
    assert!(matches!(
        dispatch_action(&Action::ToggleSmartShift),
        ActionRoute::ToggleSmartShift
    ));
    assert!(matches!(
        dispatch_action(&Action::CustomShortcut(KeyCombo {
            modifiers: KeyCombo::MOD_CMD,
            key_code: 0x23,
            display: String::new(),
        })),
        ActionRoute::Inject
    ));
}

#[test]
fn a_hold_takes_part_with_the_press_it_is_given() {
    let coordinator = GestureCoordinator::default();
    let pan = GestureMode::Pan(PanBinding {
        click: Action::SmartZoom,
    });
    let mut hold = HoldState::default();
    hold.coordinate_with(coordinator.clone());
    let older = coordinator.press();
    let newer = coordinator.press();
    let newer_token = newer.get_token();

    hold.begin_with(ButtonId::Back, pan.clone(), 3, older);
    assert_eq!(hold.active_button(), Some(ButtonId::Back));
    assert!(!hold.is_newest(), "another press came after it");
    assert!(!hold.mode_matches(ButtonId::Back, Some(&pan), 3));

    hold.begin_with(ButtonId::Back, pan.clone(), 3, newer);
    assert!(hold.is_newest());
    let (matches, reading) = hold.mode_matches_now(ButtonId::Back, Some(&pan), 3);
    assert!(matches && newer_token.matches(reading.count()));
    let _ = hold.accumulate(PAN_DEADZONE, 0);
    assert!(hold.is_newest(), "motion keeps the hold's press");

    hold.begin(ButtonId::Forward, pan, 3);
    assert!(
        !coordinator.is_current(newer_token),
        "a new hold is the newest press"
    );
    assert!(hold.is_newest());
    let _ = hold.cancel();
    assert!(!hold.is_newest());
}

#[test]
fn a_gesture_press_joins_the_arbitration_it_is_handed() {
    let (mut hook, _actions) = pan_hook();
    let button = ButtonId::Back;
    let before = hook.coordinator.acquire();
    assert_eq!(hook.button(button, true), EventDisposition::Suppress);
    assert!(
        !hook.coordinator.is_current(before),
        "the press is counted by the shared coordinator"
    );
    assert!(hook.hold.is_newest());
    let _newer = hook.coordinator.acquire();
    assert!(!hook.hold.is_newest());
}

#[test]
fn any_number_of_emits_share_one_wake_and_add_up() {
    let moves = [(i32::MAX, -5), (7, i32::MIN), (-10, -1), (0, 6)];
    let pending = Arc::new(PanPending::default());
    let (wake, woken) = sync_channel(1);
    let emitter = PanEmitter::new(Arc::clone(&pending), wake);
    for (x, y) in moves {
        emitter.emit(x, y);
    }
    assert!(woken.try_recv().is_ok());
    assert!(woken.try_recv().is_err(), "exactly one wake is queued");
    assert_eq!(pending.take(), Some((i32::MAX - 10, i32::MIN + 6)));

    let quiet = Arc::new(PanPending::default());
    let (wake, woken) = sync_channel(1);
    let emitter = PanEmitter::new(Arc::clone(&quiet), wake);
    emitter.emit(4, -9);
    emitter.emit(-4, 9);
    assert!(woken.try_recv().is_ok());
    assert_eq!(quiet.take(), None, "motion that cancels out is nothing");
}

#[test]
fn a_held_swipe_is_measured_from_its_press() {
    let coordinator = GestureCoordinator::default();
    let swipe = GestureMode::Directional(directions(&[(GestureDirection::Right, Action::Copy)]));
    let long_ago = Instant::now() - Duration::from_secs(1);
    let mut hold = HoldState::default();
    hold.coordinate_with(coordinator.clone());

    hold.begin_at(ButtonId::Back, swipe.clone(), 1, coordinator.press(), long_ago);
    let held = hold.held_for();
    assert!(hold.open_by(&held));
    assert_eq!(hold.accumulate(1, 0), HoldOutput::Suppress);
    assert_eq!(
        hold.accumulate(GESTURE_SWIPE_THRESHOLD, 0),
        HoldOutput::Action(Action::Copy)
    );

    hold.begin_at(ButtonId::Back, swipe, 1, coordinator.press(), Instant::now());
    assert_eq!(
        hold.accumulate(GESTURE_SWIPE_THRESHOLD, 0),
        HoldOutput::Suppress,
        "a quick drift is no swipe"
    );
    assert_eq!(
        hold.end(ButtonId::Back),
        Some(HoldOutput::Action(default_binding(ButtonId::Back)))
    );
}

#[test]
fn a_submission_says_what_it_found_and_did() {
    let pending = Arc::new(PanPending::default());
    let (wake, woken) = sync_channel(1);
    let emitter = PanEmitter::new(Arc::clone(&pending), wake);
    let first = emitter.submit(3, -4);
    assert_eq!(first.request.merge.found(), 0);
    assert_eq!(first.request.merge.stored(), pack_delta(3, -4));
    assert!(!first.request.raise.before() && first.request.wake);
    assert!(first.attempt.expect("the claimed wake is sent").taken());
    let second = emitter.submit(-1, 9);
    assert_eq!(second.request.merge.found(), first.request.merge.stored());
    assert_eq!(second.request.merge.stored(), pack_delta(2, 5));
    assert!(second.request.raise.before() && !second.request.wake);
    assert!(second.attempt.is_none());
    assert!(woken.try_recv().is_ok());
    assert!(woken.try_recv().is_err());

    let take = pending.take_now();
    assert_eq!(take.look.found(), pack_delta(2, 5));
    assert_eq!(take.delta, Some((2, 5)));
}

#[test]
fn the_worker_goes_on_exactly_when_motion_is_unclaimed() {
    let pending = PanPending::default();
    assert!(pending.enqueue(1, 1));
    assert_eq!(pending.take(), Some((1, 1)));
    let idle = pending.finish();
    assert_eq!(idle.look.found(), 0);
    assert!(idle.claim.is_none() && !idle.again);

    assert!(pending.enqueue(2, 0), "the next wake is allowed");
    assert!(!pending.enqueue(3, 0), "and claimed once");
    let more = pending.finish();
    assert_eq!(more.look.found(), pack_delta(5, 0));
    assert!(!more.claim.expect("motion is claimed").before());
    assert!(more.again);
    assert!(!pending.enqueue(1, 0), "the worker has claimed the wake");
    assert_eq!(pending.drain(), Some((6, 0)));
    assert!(pending.enqueue(1, 0), "draining allows the next wake");
}

#[test]
fn a_dropped_wake_is_reported() {
    let (wake, woken) = sync_channel(1);
    drop(woken);
    let emitter = PanEmitter::new(Arc::new(PanPending::default()), wake);
    let submission = emitter.submit(1, 0);
    assert!(!submission.attempt.expect("a wake was due").taken());
}

#[test]
fn an_answer_comes_with_what_was_read() {
    let (mut hook, _actions) = pan_hook();
    let (reaction, presses) = handle_button_now(
        &mut hook.hold,
        &hook.coordinator,
        Some(&hook.maps),
        ButtonId::Back,
        true,
    );
    assert_eq!(reaction.disposition, EventDisposition::Suppress);
    let (_, seen) = handle_motion_now(&mut hook.hold, Some(&hook.maps), PAN_DEADZONE, 0, false);
    assert!(seen.held.is_none(), "a Pan is not timed");
    let _ = presses.count();
    let newer = hook.coordinator.acquire();
    let (reaction, seen) = handle_event_now(
        &mut hook.hold,
        &hook.coordinator,
        Some(&hook.maps),
        &MouseEvent::Moved {
            delta_x: 5,
            delta_y: 5,
        },
        false,
    );
    assert!(newer.matches(seen.presses.count()));
    assert_eq!(reaction.disposition, EventDisposition::PassThrough);
    assert!(hook.hold.active_button().is_none(), "the newer press ends it");
}
