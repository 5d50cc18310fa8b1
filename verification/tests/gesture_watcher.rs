//! HID++ gestures, the thumb wheel and the capture session's lifecycle.

use openlogi::binding::pan::PAN_DEADZONE;
use openlogi::binding::{Action, ButtonId, DirectionMap, GestureDirection, PanBinding};
use openlogi::bindings::GestureMode;
use openlogi::button_map::ButtonMap;
use openlogi::config::settings::DEFAULT_THUMBWHEEL_SENSITIVITY;
use openlogi::device::DeviceRoute;
use openlogi::gesture_coordinator::GestureCoordinator;
use openlogi::hook_runtime::HookMaps;
use openlogi::shared::next_count;
use openlogi::watchers::gesture::{
    action_threshold, advance, advance_gesture, advance_gesture_now, capture_request, dispatch,
    dispatch_now, should_rearm,
    thumbwheel_armed, wanted_session, CaptureDispatchState, CaptureEpoch, CaptureManager,
    CaptureSession, CaptureSessionControl, CapturedInput, DispatchEffect,
    GestureBindingState, GestureDispatchState, GestureOutput, SessionInput, TickAction,
    WheelDirection, WheelOutput, ACTION_COOLDOWN, ACTION_DECAY,
};

const GESTURE_BUTTON: ButtonId = ButtonId::GestureButton;

fn directions(entries: &[(GestureDirection, Action)]) -> DirectionMap {
    let mut map = DirectionMap::new();
    for (direction, action) in entries {
        map.insert(*direction, action.clone());
    }
    map
}

fn modes(entries: &[(ButtonId, GestureMode)]) -> ButtonMap<GestureMode> {
    let mut map = ButtonMap::new();
    for (button, mode) in entries {
        map.insert(*button, mode.clone());
    }
    map
}

fn advance_mode(
    gesture: &mut GestureDispatchState,
    generation: u64,
    mode: &GestureMode,
    input: CapturedInput,
) -> GestureOutput {
    let button = match input {
        CapturedInput::GesturePressed(button)
        | CapturedInput::GestureReleased(button)
        | CapturedInput::GestureCancelled(button)
        | CapturedInput::GestureMotion { button, .. } => button,
        CapturedInput::ButtonPressed(_) | CapturedInput::Scroll(_) => GESTURE_BUTTON,
    };
    advance_gesture(gesture, generation, &modes(&[(button, mode.clone())]), input)
}

fn gesture_pressed() -> CapturedInput {
    CapturedInput::GesturePressed(GESTURE_BUTTON)
}

fn gesture_released() -> CapturedInput {
    CapturedInput::GestureReleased(GESTURE_BUTTON)
}

fn gesture_cancelled() -> CapturedInput {
    CapturedInput::GestureCancelled(GESTURE_BUTTON)
}

fn gesture_motion(delta_x: i16, delta_y: i16) -> CapturedInput {
    CapturedInput::GestureMotion {
        button: GESTURE_BUTTON,
        delta_x,
        delta_y,
    }
}

fn bolt(slot: u8) -> DeviceRoute {
    DeviceRoute::Bolt {
        receiver_uid: "AA00".to_string(),
        slot,
    }
}

#[test]
fn capture_request_changes_when_one_gesture_button_changes() {
    let back = GestureMode::Directional(directions(&[(
        GestureDirection::Click,
        Action::MissionControl,
    )]));
    let pan = GestureMode::Pan(PanBinding {
        click: Action::SmartZoom,
    });
    let back_only = modes(&[(ButtonId::Back, back.clone())]);
    let both = modes(&[(ButtonId::Back, back), (ButtonId::Forward, pan)]);

    let before = capture_request(false, &back_only);
    let after = capture_request(false, &both);

    assert_ne!(before, after, "the session key must observe the button set");
    for button in ButtonId::ALL {
        assert_eq!(
            after.gesture_buttons.contains(button),
            matches!(button, ButtonId::Back | ButtonId::Forward)
        );
    }
    assert!(!after.capture_thumbwheel);
}

#[test]
fn newest_button_press_owns_lifecycle_and_stale_release_is_ignored() {
    let forward = GestureMode::Pan(PanBinding {
        click: Action::SmartZoom,
    });
    let back = GestureMode::Directional(directions(&[(
        GestureDirection::Click,
        Action::MissionControl,
    )]));
    let mut gesture = GestureDispatchState::default();

    assert_eq!(
        advance_mode(
            &mut gesture,
            1,
            &forward,
            CapturedInput::GesturePressed(ButtonId::Forward),
        ),
        GestureOutput::Idle
    );
    assert_eq!(
        advance_mode(
            &mut gesture,
            1,
            &back,
            CapturedInput::GesturePressed(ButtonId::Back),
        ),
        GestureOutput::Idle
    );
    assert_eq!(
        advance_mode(
            &mut gesture,
            1,
            &forward,
            CapturedInput::GestureReleased(ButtonId::Forward),
        ),
        GestureOutput::Idle,
        "the superseded button cannot release the newest hold"
    );
    assert_eq!(gesture.button, Some(ButtonId::Back));
    assert_eq!(
        advance_mode(
            &mut gesture,
            1,
            &back,
            CapturedInput::GestureReleased(ButtonId::Back),
        ),
        GestureOutput::Action(Action::MissionControl)
    );
}

#[test]
fn keyed_back_motion_and_forward_pan_use_independent_modes() {
    let back = GestureMode::Directional(directions(&[(
        GestureDirection::Left,
        Action::PreviousDesktop,
    )]));
    let forward = GestureMode::Pan(PanBinding {
        click: Action::SmartZoom,
    });
    let modes = modes(&[(ButtonId::Back, back), (ButtonId::Forward, forward)]);
    let mut gesture = GestureDispatchState::default();

    assert_eq!(
        advance_gesture(
            &mut gesture,
            1,
            &modes,
            CapturedInput::GesturePressed(ButtonId::Forward),
        ),
        GestureOutput::Idle
    );
    assert_eq!(
        advance_gesture(
            &mut gesture,
            1,
            &modes,
            CapturedInput::GestureReleased(ButtonId::Forward),
        ),
        GestureOutput::Action(Action::SmartZoom),
        "Forward Pan keeps its click fallback"
    );

    assert_eq!(
        advance_gesture(
            &mut gesture,
            1,
            &modes,
            CapturedInput::GesturePressed(ButtonId::Back),
        ),
        GestureOutput::Idle
    );
    gesture.swipe.backdate_hold_for_test();
    assert_eq!(
        advance_gesture(
            &mut gesture,
            1,
            &modes,
            CapturedInput::GestureMotion {
                button: ButtonId::Back,
                delta_x: -120,
                delta_y: 0,
            },
        ),
        GestureOutput::Action(Action::PreviousDesktop)
    );
    assert_eq!(
        advance_gesture(
            &mut gesture,
            1,
            &modes,
            CapturedInput::GestureReleased(ButtonId::Back),
        ),
        GestureOutput::End
    );

    assert_eq!(
        advance_gesture(
            &mut gesture,
            1,
            &modes,
            CapturedInput::GesturePressed(ButtonId::Forward),
        ),
        GestureOutput::Idle
    );
    assert_eq!(
        advance_gesture(
            &mut gesture,
            1,
            &modes,
            CapturedInput::GestureMotion {
                button: ButtonId::Forward,
                delta_x: 40,
                delta_y: -9,
            },
        ),
        GestureOutput::PanDelta { x: 40, y: -9 }
    );
}

#[test]
fn hid_pan_lifecycle_emits_delta_then_ends_without_click() {
    let mode = GestureMode::Pan(PanBinding {
        click: Action::SmartZoom,
    });
    let mut gesture = GestureDispatchState::default();

    assert_eq!(
        advance_mode(&mut gesture, 1, &mode, gesture_pressed()),
        GestureOutput::Idle
    );
    assert_eq!(
        advance_mode(&mut gesture, 1, &mode, gesture_motion(40, -9)),
        GestureOutput::PanDelta { x: 40, y: -9 }
    );
    assert_eq!(
        advance_mode(&mut gesture, 1, &mode, gesture_released()),
        GestureOutput::End
    );
}

#[test]
fn hid_pan_release_inside_deadzone_dispatches_click_but_cancel_does_not() {
    let mode = GestureMode::Pan(PanBinding {
        click: Action::SmartZoom,
    });
    let mut gesture = GestureDispatchState::default();
    assert_eq!(
        advance_mode(&mut gesture, 1, &mode, gesture_pressed()),
        GestureOutput::Idle
    );
    assert_eq!(
        advance_mode(&mut gesture, 1, &mode, gesture_released()),
        GestureOutput::Action(Action::SmartZoom)
    );

    assert_eq!(
        advance_mode(&mut gesture, 1, &mode, gesture_pressed()),
        GestureOutput::Idle
    );
    assert_eq!(
        advance_mode(&mut gesture, 1, &mode, gesture_cancelled()),
        GestureOutput::End
    );
    assert_eq!(
        advance_mode(&mut gesture, 1, &mode, gesture_released()),
        GestureOutput::Idle
    );
}

#[test]
fn hid_projection_generation_change_cancels_without_click() {
    let mode = GestureMode::Pan(PanBinding {
        click: Action::SmartZoom,
    });
    let mut gesture = GestureDispatchState::default();
    assert_eq!(
        advance_mode(&mut gesture, 1, &mode, gesture_pressed()),
        GestureOutput::Idle
    );
    assert_eq!(
        advance_mode(&mut gesture, 2, &mode, gesture_released()),
        GestureOutput::Idle
    );
    assert!(gesture.mode.is_none());
}

#[test]
fn os_press_invalidates_dedicated_hold_without_phantom_click() {
    let coordinator = GestureCoordinator::default();
    let mode = GestureMode::Pan(PanBinding {
        click: Action::SmartZoom,
    });
    let mut gesture = GestureDispatchState::new(coordinator.clone());
    assert_eq!(
        advance_mode(&mut gesture, 1, &mode, gesture_pressed()),
        GestureOutput::Idle
    );

    let _os = coordinator.acquire();
    assert_eq!(
        advance_mode(&mut gesture, 1, &mode, gesture_motion(40, -20)),
        GestureOutput::End
    );
    assert_eq!(
        advance_mode(&mut gesture, 1, &mode, gesture_released()),
        GestureOutput::Idle
    );
}

#[test]
fn dedicated_press_takes_over_from_os_and_owns_motion_and_release() {
    let coordinator = GestureCoordinator::default();
    let _os = coordinator.acquire();
    let mode = GestureMode::Pan(PanBinding {
        click: Action::SmartZoom,
    });
    let mut gesture = GestureDispatchState::new(coordinator.clone());
    assert_eq!(
        advance_mode(&mut gesture, 1, &mode, gesture_pressed()),
        GestureOutput::Idle
    );
    assert_eq!(
        advance_mode(&mut gesture, 1, &mode, gesture_motion(40, -9)),
        GestureOutput::PanDelta { x: 40, y: -9 }
    );
    assert_eq!(
        advance_mode(&mut gesture, 1, &mode, gesture_released()),
        GestureOutput::End
    );
}

#[test]
fn hid_raw_xy_commits_a_fast_direction_instead_of_misfiring_click() {
    let mode = GestureMode::Directional(directions(&[
        (GestureDirection::Right, Action::Paste),
        (GestureDirection::Click, Action::Copy),
    ]));
    let mut gesture = GestureDispatchState::default();

    assert_eq!(
        advance_mode(&mut gesture, 1, &mode, gesture_pressed()),
        GestureOutput::Idle
    );
    assert_eq!(
        advance_mode(&mut gesture, 1, &mode, gesture_motion(120, 5)),
        GestureOutput::Action(Action::Paste),
        "trusted HID++ RawXY must not turn a fast swipe into the Click action"
    );
    assert_eq!(
        advance_mode(&mut gesture, 1, &mode, gesture_released()),
        GestureOutput::End
    );
}

#[test]
fn gesture_motion_maps_all_four_directions_once() {
    for (delta_x, delta_y, direction, expected) in [
        (120, 5, GestureDirection::Right, Action::Paste),
        (-120, 5, GestureDirection::Left, Action::Copy),
        (5, 120, GestureDirection::Down, Action::AppExpose),
        (5, -120, GestureDirection::Up, Action::MissionControl),
    ] {
        let mode = GestureMode::Directional(directions(&[(direction, expected.clone())]));
        let mut gesture = GestureDispatchState::default();
        assert_eq!(
            advance_mode(&mut gesture, 1, &mode, gesture_pressed()),
            GestureOutput::Idle
        );
        gesture.swipe.backdate_hold_for_test();
        assert_eq!(
            advance_mode(&mut gesture, 1, &mode, gesture_motion(delta_x, delta_y)),
            GestureOutput::Action(expected)
        );
        assert_eq!(
            advance_mode(&mut gesture, 1, &mode, gesture_motion(delta_x, delta_y)),
            GestureOutput::Idle,
            "a committed direction fires once"
        );
        assert_eq!(
            advance_mode(&mut gesture, 1, &mode, gesture_released()),
            GestureOutput::End,
            "a committed swipe does not also click"
        );
    }
}

#[test]
fn gesture_release_and_cancel_reset_without_phantom_clicks() {
    let mode =
        GestureMode::Directional(directions(&[(GestureDirection::Click, Action::Copy)]));
    let mut gesture = GestureDispatchState::default();

    assert_eq!(
        advance_mode(&mut gesture, 1, &mode, gesture_released()),
        GestureOutput::Idle,
        "a stray release is not a click"
    );
    assert_eq!(
        advance_mode(&mut gesture, 1, &mode, gesture_pressed()),
        GestureOutput::Idle
    );
    assert_eq!(
        advance_mode(&mut gesture, 1, &mode, gesture_cancelled()),
        GestureOutput::End
    );
    assert_eq!(
        advance_mode(&mut gesture, 1, &mode, gesture_released()),
        GestureOutput::Idle,
        "release after cancellation is not a click"
    );
    assert_eq!(
        advance_mode(&mut gesture, 1, &mode, gesture_pressed()),
        GestureOutput::Idle
    );
    assert_eq!(
        advance_mode(&mut gesture, 1, &mode, gesture_released()),
        GestureOutput::Action(Action::Copy),
        "cancellation resets the accumulator for the next hold"
    );
}

#[test]
fn action_threshold_drops_with_sensitivity_and_floors_at_one() {
    assert_eq!(
        action_threshold(DEFAULT_THUMBWHEEL_SENSITIVITY),
        DEFAULT_THUMBWHEEL_SENSITIVITY
    );
    assert!(
        action_threshold(1) > action_threshold(DEFAULT_THUMBWHEEL_SENSITIVITY),
        "low sensitivity needs more increments"
    );
    assert_eq!(action_threshold(100), 1, "high sensitivity floors at one");
}

#[test]
fn custom_action_fires_on_threshold_then_respects_cooldown() {
    let mut dir = WheelDirection::default();
    let now: u64 = 1_000_000_000;
    // Threshold at default sensitivity is DEFAULT increments.
    for _ in 0..DEFAULT_THUMBWHEEL_SENSITIVITY - 1 {
        assert_eq!(
            advance(
                &mut dir,
                &Action::VolumeUp,
                1,
                DEFAULT_THUMBWHEEL_SENSITIVITY,
                now
            ),
            WheelOutput::Idle
        );
    }
    assert_eq!(
        advance(
            &mut dir,
            &Action::VolumeUp,
            1,
            DEFAULT_THUMBWHEEL_SENSITIVITY,
            now
        ),
        WheelOutput::FireAction
    );
    // Immediately after, the cooldown swallows further increments.
    for _ in 0..DEFAULT_THUMBWHEEL_SENSITIVITY {
        assert_eq!(
            advance(
                &mut dir,
                &Action::VolumeUp,
                1,
                DEFAULT_THUMBWHEEL_SENSITIVITY,
                now
            ),
            WheelOutput::Idle
        );
    }
}

#[test]
fn none_action_is_suppressed() {
    let mut dir = WheelDirection::default();
    assert_eq!(
        advance(
            &mut dir,
            &Action::DoNothing,
            5,
            DEFAULT_THUMBWHEEL_SENSITIVITY,
            1_000_000_000
        ),
        WheelOutput::Idle
    );
}

#[test]
fn rearms_when_the_current_session_dies_with_a_target() {
    // The live session ended on its own while a device is still targeted.
    assert!(should_rearm(7, 7, true));
}

#[test]
fn ignores_a_stale_session_superseded_by_a_restart() {
    // An older session reports completion after a deliberate restart already
    // bumped the epoch; re-arming would needlessly cycle the live session.
    assert!(!should_rearm(6, 7, true));
}

#[test]
fn ignores_a_deliberate_stop_to_idle() {
    // The session was stopped on purpose (pairing took the receiver, or no
    // device is targeted): no target means there is nothing to re-arm.
    assert!(!should_rearm(7, 7, false));
}

#[test]
fn queued_input_of_an_older_session_is_dropped_after_invalidation() {
    let epoch = CaptureEpoch::default();
    let old_epoch = epoch.current();
    let deadzone = i16::try_from(PAN_DEADZONE).unwrap_or_default();
    let queued = [
        gesture_pressed(),
        gesture_released(),
        gesture_pressed(),
        gesture_motion(deadzone, -deadzone),
        gesture_released(),
    ];

    assert!(
        queued.iter().all(|input| epoch
            .take_current(&SessionInput {
                epoch: old_epoch,
                input: *input,
            })
            .is_some()),
        "input of the live session is taken"
    );
    epoch.invalidate();
    assert!(
        queued.iter().all(|input| epoch
            .take_current(&SessionInput {
                epoch: old_epoch,
                input: *input,
            })
            .is_none()),
        "old queued lifecycle must be dropped"
    );
}

#[test]
fn stale_wheel_progress_decays() {
    let mut direction = WheelDirection::default();
    let start: u64 = 1_000_000_000;
    let short = DEFAULT_THUMBWHEEL_SENSITIVITY - 1;
    assert_eq!(
        advance(
            &mut direction,
            &Action::VolumeUp,
            short,
            DEFAULT_THUMBWHEEL_SENSITIVITY,
            start
        ),
        WheelOutput::Idle
    );
    assert_eq!(
        advance(
            &mut direction,
            &Action::VolumeUp,
            1,
            DEFAULT_THUMBWHEEL_SENSITIVITY,
            start + ACTION_DECAY + 1
        ),
        WheelOutput::Idle,
        "the old progress no longer counts"
    );
    assert_eq!(
        advance(
            &mut direction,
            &Action::VolumeUp,
            short,
            DEFAULT_THUMBWHEEL_SENSITIVITY,
            start + ACTION_DECAY + 2
        ),
        WheelOutput::FireAction
    );
    assert_eq!(
        advance(
            &mut direction,
            &Action::VolumeUp,
            DEFAULT_THUMBWHEEL_SENSITIVITY,
            DEFAULT_THUMBWHEEL_SENSITIVITY,
            start + ACTION_DECAY + 2 + ACTION_COOLDOWN
        ),
        WheelOutput::FireAction,
        "the cooldown is over"
    );
}

#[test]
fn horizontal_scroll_follows_the_wheel() {
    let mut direction = WheelDirection::default();
    assert_eq!(
        advance(&mut direction, &Action::HorizontalScrollLeft, 1, 50, 0),
        WheelOutput::Scroll { right: false }
    );
    assert_eq!(
        advance(&mut direction, &Action::HorizontalScrollRight, 1, 50, 0),
        WheelOutput::Scroll { right: true }
    );
    assert_eq!(direction, WheelDirection::default());
}

#[test]
fn the_wheel_is_diverted_only_when_it_does_more_than_scroll() {
    assert!(!thumbwheel_armed(
        Some(&HookMaps::default()),
        DEFAULT_THUMBWHEEL_SENSITIVITY
    ));
    assert!(thumbwheel_armed(
        Some(&HookMaps::default()),
        DEFAULT_THUMBWHEEL_SENSITIVITY + 1
    ));
    let mut maps = HookMaps::default();
    maps.bindings
        .insert(ButtonId::ThumbwheelScrollUp, Action::VolumeUp);
    assert!(thumbwheel_armed(Some(&maps), DEFAULT_THUMBWHEEL_SENSITIVITY));
}

#[test]
fn dispatch_fires_bound_buttons_and_gestures() {
    let mut state = CaptureDispatchState::new(GestureCoordinator::default());
    let mut maps = HookMaps::default();
    maps.bindings.insert(ButtonId::Thumbwheel, Action::AppExpose);
    let projection = GestureBindingState {
        generation: 1,
        modes: modes(&[(
            GESTURE_BUTTON,
            GestureMode::Pan(PanBinding {
                click: Action::SmartZoom,
            }),
        )]),
    };

    assert!(matches!(
        dispatch(
            CapturedInput::ButtonPressed(ButtonId::Thumbwheel),
            &mut state,
            Some(&projection),
            Some(&maps),
            DEFAULT_THUMBWHEEL_SENSITIVITY,
            0
        ),
        DispatchEffect::Act(Action::AppExpose)
    ));
    assert!(matches!(
        dispatch(
            gesture_pressed(),
            &mut state,
            Some(&projection),
            Some(&maps),
            DEFAULT_THUMBWHEEL_SENSITIVITY,
            0
        ),
        DispatchEffect::Idle
    ));
    assert!(matches!(
        dispatch(
            gesture_motion(40, -9),
            &mut state,
            Some(&projection),
            Some(&maps),
            DEFAULT_THUMBWHEEL_SENSITIVITY,
            0
        ),
        DispatchEffect::Pan { x: 40, y: -9 }
    ));
}

#[test]
fn sessions_restart_on_a_change_and_rearm_after_a_loss() {
    let control =
        CaptureSessionControl::new(CaptureEpoch::default(), GestureCoordinator::default());
    let live = control.epoch.current();
    let mut manager = CaptureManager::new(&control);
    let request = capture_request(false, &ButtonMap::new());

    assert!(wanted_session(true, Some(&bolt(1)), request, live).is_none());
    assert!(wanted_session(false, None, request, live).is_none());
    assert!(matches!(manager.tick(None), TickAction::Keep));

    let first = wanted_session(false, Some(&bolt(1)), request, live);
    let TickAction::Start { signal, session } = manager.tick(first.clone()) else {
        panic!("an idle manager starts the wanted session");
    };
    assert!(!signal, "there is no older session to stop");
    manager.started(session);
    assert!(matches!(manager.tick(first.clone()), TickAction::Keep));

    let second = CaptureSession {
        route: bolt(2),
        request,
        epoch: live,
    };
    assert!(matches!(
        manager.tick(Some(second.clone())),
        TickAction::Stop {
            signal: true,
            invalidate: false
        }
    ));
    assert!(matches!(
        manager.tick(Some(second.clone())),
        TickAction::Start { signal: false, .. }
    ));
    manager.started(second.clone());
    assert!(!manager.finished(live.wrapping_add(1), live));
    assert!(manager.finished(live, live), "the live session was lost");
    assert!(matches!(
        manager.tick(Some(second.clone())),
        TickAction::Start { signal: false, .. }
    ));
    manager.started(second);
    assert!(matches!(
        manager.tick(None),
        TickAction::Stop {
            signal: true,
            invalidate: true
        }
    ));
}

#[test]
fn only_input_of_the_running_live_session_is_accepted() {
    let control =
        CaptureSessionControl::new(CaptureEpoch::default(), GestureCoordinator::default());
    let live = control.epoch.current();
    let mut manager = CaptureManager::new(&control);
    let message = SessionInput {
        epoch: live,
        input: gesture_pressed(),
    };
    assert!(manager.accept(&message, live).is_none(), "no session runs");
    manager.started(CaptureSession {
        route: bolt(1),
        request: capture_request(true, &ButtonMap::new()),
        epoch: live,
    });
    assert!(manager.accept(&message, live).is_some());
    assert!(manager.accept(&message, live.wrapping_add(1)).is_none());
}

#[test]
fn only_the_newest_press_is_current() {
    let coordinator = GestureCoordinator::default();
    let first = coordinator.acquire();
    assert!(coordinator.is_current(first));
    let second = coordinator.clone().acquire();
    assert!(!coordinator.is_current(first));
    assert!(coordinator.is_current(second));
}

#[test]
fn a_gesture_takes_part_with_the_press_it_is_given() {
    let coordinator = GestureCoordinator::default();
    let mode = GestureMode::Pan(PanBinding {
        click: Action::SmartZoom,
    });
    let mut gesture = GestureDispatchState::new(coordinator.clone());
    let older = coordinator.press();
    let newer = coordinator.press();

    gesture.begin_gesture(4, GESTURE_BUTTON, &mode, older);
    assert_eq!(gesture.button, Some(GESTURE_BUTTON));
    assert_eq!(gesture.generation, 4);
    assert!(!gesture.is_newest());
    assert_eq!(
        advance_mode(&mut gesture, 4, &mode, gesture_motion(PAN_DEADZONE as i16, 0)),
        GestureOutput::End,
        "a superseded press is abandoned"
    );

    gesture.begin_gesture(4, GESTURE_BUTTON, &mode, newer);
    assert!(gesture.is_newest());
    let _ = advance_mode(&mut gesture, 4, &mode, gesture_motion(PAN_DEADZONE as i16, 0));
    assert!(gesture.is_newest(), "motion keeps the press");
    let (output, reading) = advance_gesture_now(
        &mut gesture,
        4,
        &modes(&[(GESTURE_BUTTON, mode)]),
        gesture_pressed(),
    );
    assert_eq!(output, GestureOutput::Idle);
    assert_eq!(
        coordinator.read().count(),
        next_count(reading.count()),
        "a press is counted once"
    );
    assert!(gesture.is_newest());
}

#[test]
fn starting_an_epoch_names_it() {
    let epoch = CaptureEpoch::default();
    let before = epoch.current();
    let start = epoch.invalidate();
    assert_eq!(start.epoch(), before + 1);
    assert_eq!(epoch.current(), start.epoch());
    let queued = SessionInput {
        epoch: before,
        input: gesture_pressed(),
    };
    assert_eq!(queued.taken_at(before), Some(gesture_pressed()));
    assert_eq!(queued.taken_at(start.epoch()), None);
}

#[test]
fn the_wheel_counts_at_any_sensitivity_whose_threshold_fits() {
    let lowest = 2 * DEFAULT_THUMBWHEEL_SENSITIVITY - i32::MAX;
    assert_eq!(action_threshold(lowest), i32::MAX);
    let mut direction = WheelDirection {
        action: i32::MAX - 2,
        last_event: None,
        last_fired: None,
    };
    assert_eq!(
        advance(&mut direction, &Action::VolumeUp, 1, lowest, 0),
        WheelOutput::Idle
    );
    assert_eq!(direction.action, i32::MAX - 1);
    assert_eq!(
        advance(&mut direction, &Action::VolumeUp, i32::MAX, lowest, 0),
        WheelOutput::FireAction
    );
    assert_eq!(direction.action, 0);
}

#[test]
fn a_gesture_whose_mode_is_gone_fires_nothing() {
    let mode = GestureMode::Pan(PanBinding {
        click: Action::SmartZoom,
    });
    let other = GestureMode::Pan(PanBinding {
        click: Action::Copy,
    });
    for now in [modes(&[]), modes(&[(GESTURE_BUTTON, other)])] {
        let mut gesture = GestureDispatchState::default();
        let _ = advance_mode(&mut gesture, 1, &mode, gesture_pressed());
        assert_eq!(
            advance_gesture(&mut gesture, 1, &now, gesture_released()),
            GestureOutput::Idle
        );
        let _ = advance_mode(&mut gesture, 1, &mode, gesture_pressed());
        assert_eq!(
            advance_gesture(&mut gesture, 1, &now, gesture_motion(100, 0)),
            GestureOutput::End
        );
    }
}

#[test]
fn counts_turn_over() {
    assert_eq!(next_count(0), 1);
    assert_eq!(next_count(u64::MAX), 0);
}

#[test]
fn superseded_input_is_dropped_with_its_reading() {
    let epoch = CaptureEpoch::default();
    let queued = SessionInput {
        epoch: epoch.current(),
        input: gesture_pressed(),
    };
    let (input, reading) = epoch.take_current_now(&queued);
    assert_eq!(input, Some(gesture_pressed()));
    assert_eq!(reading.count(), queued.epoch);
    let start = epoch.clone().invalidate();
    let (input, reading) = epoch.take_current_now(&queued);
    assert_eq!(input, None);
    assert_eq!(reading.count(), start.epoch());
}

#[test]
fn dispatch_arbitrates_by_what_it_reads() {
    let coordinator = GestureCoordinator::default();
    let mut state = CaptureDispatchState::new(coordinator.clone());
    let projection = GestureBindingState {
        generation: 1,
        modes: modes(&[(
            GESTURE_BUTTON,
            GestureMode::Pan(PanBinding {
                click: Action::SmartZoom,
            }),
        )]),
    };
    let mut send = |input| {
        dispatch_now(
            input,
            &mut state,
            Some(&projection),
            None,
            DEFAULT_THUMBWHEEL_SENSITIVITY,
            0,
        )
    };
    let _ = send(gesture_pressed());
    let newer = coordinator.acquire();
    let (effect, reading) = send(gesture_released());
    assert!(matches!(effect, DispatchEffect::Idle), "no phantom click");
    assert!(newer.matches(reading.count()));
}
