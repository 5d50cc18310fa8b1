//! A held pan: the click deadzone, buffered activation and cancellation.

use openlogi::binding::pan::{PanAccumulator, PanOutput, PAN_DEADZONE};

#[test]
fn release_without_motion_is_a_click() {
    let mut pan = PanAccumulator::default();
    pan.begin();
    assert_eq!(pan.end(), PanOutput::Click);
    assert_eq!(pan.end(), PanOutput::Idle);
}

#[test]
fn jitter_stays_inside_the_deadzone_and_preserves_click() {
    let mut pan = PanAccumulator::default();
    pan.begin();
    assert_eq!(pan.accumulate(1, -1), PanOutput::Idle);
    assert_eq!(pan.accumulate(1, 1), PanOutput::Idle);
    assert_eq!(pan.end(), PanOutput::Click);
}

#[test]
fn physical_m650_click_jitter_stays_a_click() {
    // Captured from a 180 ms physical Forward click on the acceptance M650.
    // The hand settles back near its origin, so this must not become Pan.
    let trace = [
        (-4, -22),
        (-2, 3),
        (-1, 4),
        (-2, 4),
        (-1, 2),
        (-1, 2),
        (0, 1),
        (0, 1),
        (0, 1),
        (1, 0),
        (0, 1),
        (1, 0),
        (1, 1),
        (1, 0),
        (0, 1),
        (-1, 0),
    ];
    let mut pan = PanAccumulator::default();
    pan.begin();
    for (x, y) in trace {
        assert_eq!(pan.accumulate(x, y), PanOutput::Idle);
    }
    assert_eq!(pan.end(), PanOutput::Click);
}

#[test]
fn activation_emits_buffered_first_motion() {
    let mut pan = PanAccumulator::default();
    pan.begin();
    assert_eq!(pan.accumulate(PAN_DEADZONE - 1, 2), PanOutput::Idle);
    assert_eq!(
        pan.accumulate(2, -1),
        PanOutput::Delta {
            x: PAN_DEADZONE + 1,
            y: 1,
        }
    );
}

#[test]
fn active_pan_emits_each_two_axis_delta_then_end() {
    let mut pan = PanAccumulator::default();
    pan.begin();
    assert!(matches!(
        pan.accumulate(PAN_DEADZONE, 0),
        PanOutput::Delta { .. }
    ));
    assert_eq!(pan.accumulate(-7, 11), PanOutput::Delta { x: -7, y: 11 });
    assert_eq!(pan.end(), PanOutput::End);
}

#[test]
fn buffered_motion_saturates_without_overflow() {
    let mut pan = PanAccumulator::default();
    pan.begin();
    assert_eq!(pan.accumulate(PAN_DEADZONE - 1, 0), PanOutput::Idle);
    assert_eq!(
        pan.accumulate(i32::MAX, i32::MIN),
        PanOutput::Delta {
            x: i32::MAX,
            y: i32::MIN,
        }
    );
}

#[test]
fn cancel_never_commits_a_click_and_resets_state() {
    let mut pan = PanAccumulator::default();
    pan.begin();
    assert_eq!(pan.accumulate(1, 0), PanOutput::Idle);
    assert_eq!(pan.cancel(), PanOutput::End);
    assert_eq!(pan.end(), PanOutput::Idle);

    pan.begin();
    assert!(matches!(
        pan.accumulate(PAN_DEADZONE, 0),
        PanOutput::Delta { .. }
    ));
    assert_eq!(pan.cancel(), PanOutput::End);
    assert_eq!(pan.accumulate(10, 10), PanOutput::Idle);
}

#[test]
fn emitted_motion_adds_up_to_what_was_fed_in() {
    let moves = [(10, -3), (9, -4), (20, 1), (-7, 50), (0, 2)];
    let mut pan = PanAccumulator::default();
    pan.begin();
    let (mut x, mut y) = (0, 0);
    for (dx, dy) in moves {
        if let PanOutput::Delta { x: out_x, y: out_y } = pan.accumulate(dx, dy) {
            x += out_x;
            y += out_y;
        }
    }
    assert_eq!((x, y), (32, 46));
}
