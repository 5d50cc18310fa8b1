//! A held swipe: direction detection, the minimum hold and saturation.

use openlogi::binding::swipe::{
    detect_swipe, SwipeAccumulator, GESTURE_HOLD_FOR_SWIPE, GESTURE_SWIPE_THRESHOLD,
};
use openlogi::binding::GestureDirection;
use std::time::{Duration, Instant};

#[test]
fn detect_swipe_below_threshold_keeps_accumulating() {
    // Too little travel to commit — caller keeps summing raw-XY.
    assert_eq!(detect_swipe(40, 5), None);
    assert_eq!(detect_swipe(0, 0), None);
}

#[test]
fn detect_swipe_commits_clean_direction() {
    assert_eq!(detect_swipe(120, 5), Some(GestureDirection::Right));
    assert_eq!(detect_swipe(-120, 5), Some(GestureDirection::Left));
    assert_eq!(detect_swipe(5, 120), Some(GestureDirection::Down));
    assert_eq!(detect_swipe(5, -120), Some(GestureDirection::Up));
}

#[test]
fn detect_swipe_rejects_diagonal() {
    // Past the threshold but too diagonal (cross axis beyond the band).
    assert_eq!(detect_swipe(60, 60), None);
    assert_eq!(detect_swipe(-60, -60), None);
}

#[test]
fn detect_swipe_threshold_and_cross_band_boundaries() {
    // The threshold bound is inclusive (`< THRESHOLD` rejects), so exactly at
    // it commits and one below does not.
    assert_eq!(
        detect_swipe(GESTURE_SWIPE_THRESHOLD, 0),
        Some(GestureDirection::Right)
    );
    assert_eq!(detect_swipe(GESTURE_SWIPE_THRESHOLD - 1, 0), None);

    // The cross-axis band is max(deadzone, 35% of dominant). For a large
    // dominant the 35% term wins (200 → 70): 69 commits, 71 is too diagonal.
    assert_eq!(detect_swipe(200, 69), Some(GestureDirection::Right));
    assert_eq!(detect_swipe(200, 71), None);
    // For a small dominant the 40-unit floor wins (100 → max(40, 35) = 40).
    assert_eq!(detect_swipe(100, 39), Some(GestureDirection::Right));
    assert_eq!(detect_swipe(100, 41), None);
}

#[test]
fn detect_swipe_does_not_panic_on_extreme_values() {
    // Saturated accumulator travel can reach the i32 bounds. `i32::MIN.abs()`
    // panics and `dominant * 35` overflows — both must be clamped, not crash.
    assert_eq!(detect_swipe(i32::MAX, 0), Some(GestureDirection::Right));
    assert_eq!(detect_swipe(i32::MIN, 0), Some(GestureDirection::Left));
    assert_eq!(detect_swipe(0, i32::MAX), Some(GestureDirection::Down));
    assert_eq!(detect_swipe(0, i32::MIN), Some(GestureDirection::Up));
    // A diagonal at the extremes is still rejected, without panicking.
    assert_eq!(detect_swipe(i32::MIN, i32::MIN), None);
}

#[test]
fn accumulator_commits_a_direction_once_after_the_hold_gate() {
    let mut acc = SwipeAccumulator::default();
    acc.begin();
    acc.backdate_hold_for_test();
    // A clear rightward swipe commits exactly once, mid-motion.
    assert_eq!(
        acc.accumulate(GESTURE_SWIPE_THRESHOLD + 10, 0),
        Some(GestureDirection::Right)
    );
    // Further travel in the same hold must not re-fire.
    assert_eq!(acc.accumulate(50, 0), None);
}

#[test]
fn accumulator_does_not_commit_before_the_hold_gate() {
    let mut acc = SwipeAccumulator::default();
    acc.begin(); // held_since = now, so the hold is not yet long enough
    // A big delta arriving immediately (a quick click whose cursor drifted)
    // must not commit.
    assert_eq!(acc.accumulate(GESTURE_SWIPE_THRESHOLD + 100, 0), None);
    // Once held long enough, the next delta commits.
    acc.backdate_hold_for_test();
    assert!(acc.accumulate(GESTURE_SWIPE_THRESHOLD + 100, 0).is_some());
}

#[test]
fn accumulator_end_reports_click_only_when_no_swipe_fired() {
    // A hold with only tiny drift never commits → end() is a click.
    let mut acc = SwipeAccumulator::default();
    acc.begin();
    acc.backdate_hold_for_test();
    assert_eq!(acc.accumulate(2, -1), None);
    assert!(acc.end(), "a hold that never swiped is a click");

    // A hold that committed a swipe → end() is not a click.
    acc.begin();
    acc.backdate_hold_for_test();
    assert!(acc.accumulate(GESTURE_SWIPE_THRESHOLD + 10, 0).is_some());
    assert!(!acc.end(), "a committed swipe must not also click");
}

#[test]
fn accumulator_ignores_motion_when_not_holding() {
    let mut acc = SwipeAccumulator::default();
    assert!(!acc.is_holding());
    // Travel outside a hold is dropped, never committing a stray swipe.
    assert_eq!(acc.accumulate(GESTURE_SWIPE_THRESHOLD + 100, 0), None);
}

#[test]
fn accumulator_sums_sub_threshold_deltas_until_they_commit() {
    // The whole reason for an accumulator (vs. detect_swipe on one delta):
    // several deltas each too small to commit on their own must sum across
    // the hold until the running total crosses the threshold, then commit.
    let mut acc = SwipeAccumulator::default();
    acc.begin();
    acc.backdate_hold_for_test();
    // Just under half the threshold: one or two steps never reach it, three do.
    let step = GESTURE_SWIPE_THRESHOLD / 2 - 1;
    assert_eq!(acc.accumulate(step, 0), None, "one step is sub-threshold");
    assert_eq!(acc.accumulate(step, 0), None, "two steps still under");
    assert_eq!(
        acc.accumulate(step, 0),
        Some(GestureDirection::Right),
        "the running sum finally crosses the threshold"
    );
}

#[test]
fn accumulator_saturates_instead_of_overflowing() {
    // The doc promises an arbitrarily long hold can't overflow. A perfect
    // diagonal never commits, so travel keeps summing; feed deltas that would
    // overflow both an i32 sum and a naive cross-band multiply — both must
    // saturate, not panic (debug builds panic on overflow).
    let mut acc = SwipeAccumulator::default();
    acc.begin();
    acc.backdate_hold_for_test();
    assert_eq!(
        acc.accumulate(i32::MAX, i32::MAX),
        None,
        "a diagonal never commits"
    );
    assert_eq!(
        acc.accumulate(i32::MAX, i32::MAX),
        None,
        "the saturating sum must not panic"
    );
    // A clean axis on a fresh hold still commits with a saturated magnitude.
    acc.begin();
    acc.backdate_hold_for_test();
    assert_eq!(acc.accumulate(i32::MAX, 0), Some(GestureDirection::Right));
}

#[test]
fn accumulator_begin_recovers_a_stale_hold() {
    // A missed release (e.g. focus loss between press and release) can leave
    // a dangling hold that already fired with travel in some direction. A
    // fresh begin() must wipe both the `fired` latch and the travel, so the
    // next press isn't poisoned by the old one.
    let mut acc = SwipeAccumulator::default();
    acc.begin();
    acc.backdate_hold_for_test();
    // Stale hold commits LEFT (negative dx) and latches `fired`.
    assert_eq!(
        acc.accumulate(-(GESTURE_SWIPE_THRESHOLD + 10), 0),
        Some(GestureDirection::Left)
    );
    // No end() — a dropped release, then a fresh press.
    acc.begin();
    acc.backdate_hold_for_test();
    // Had `fired` leaked this would be None; had the negative travel leaked it
    // would commit Left. Committing Right proves begin() reset both.
    assert_eq!(
        acc.accumulate(GESTURE_SWIPE_THRESHOLD + 10, 0),
        Some(GestureDirection::Right)
    );
}

#[test]
fn accumulator_end_without_a_hold_is_not_a_click() {
    // end() in isolation (no begin) must not claim a click — there was no
    // hold — so a stray release can't be read as a press.
    let mut acc = SwipeAccumulator::default();
    assert!(!acc.end(), "a release with no hold is not a click");
    // A redundant second release after a real hold already ended is inert too.
    acc.begin();
    assert!(acc.end(), "the held release is a click");
    assert!(!acc.end(), "the redundant second release is not a click");
}

#[test]
fn a_hold_opens_at_its_minimum_duration() {
    let mut acc = SwipeAccumulator::default();
    assert!(acc.held_for().is_none(), "nothing is held");
    assert!(!acc.long_enough_after(10_000));

    acc.begin();
    let minimum = u128::from(GESTURE_HOLD_FOR_SWIPE);
    assert_eq!(minimum, 160);
    assert!(!acc.long_enough_after(minimum - 1));
    assert!(acc.long_enough_after(minimum));

    acc.begin_immediate();
    assert!(acc.held_for().is_none(), "nothing to wait for");
    assert!(acc.long_enough_after(0));
}

#[test]
fn the_gate_is_measured_from_the_beginning_of_the_hold() {
    let far = GESTURE_SWIPE_THRESHOLD + 100;
    let minimum = Duration::from_millis(GESTURE_HOLD_FOR_SWIPE);
    let long_ago = Instant::now() - minimum * 2;

    let mut acc = SwipeAccumulator::default();
    acc.begin_at(long_ago);
    let held = acc.held_for().expect("a gated hold is timed");
    assert!(held.millis() >= 2 * u128::from(GESTURE_HOLD_FOR_SWIPE));
    assert!(acc.open_by(&Some(held)));
    assert_eq!(acc.accumulate(far, 0), Some(GestureDirection::Right));

    acc.begin_at(long_ago);
    assert_eq!(acc.accumulate(2, 0), None, "too short to commit");
    assert_eq!(
        acc.accumulate(far, 0),
        Some(GestureDirection::Right),
        "motion does not start the hold anew"
    );

    acc.begin_at(long_ago);
    let (direction, held) = acc.accumulate_timed(0, -far);
    assert_eq!(direction, Some(GestureDirection::Up));
    assert!(held.expect("a gated hold is timed").millis() >= 2 * 160);

    acc.begin();
    let held = acc.held_for();
    assert!(!acc.open_by(&held), "the hold has only begun");
    assert_eq!(acc.accumulate(far, 0), None);
}

#[test]
fn travel_before_the_gate_counts_once_it_opens() {
    let mut acc = SwipeAccumulator::default();
    acc.begin();
    let early = acc.long_enough_after(u128::from(GESTURE_HOLD_FOR_SWIPE) - 1);
    assert_eq!(acc.accumulate_gated(0, GESTURE_SWIPE_THRESHOLD, early), None);
    let late = acc.long_enough_after(u128::from(GESTURE_HOLD_FOR_SWIPE));
    assert_eq!(
        acc.accumulate_gated(0, 1, late),
        Some(GestureDirection::Down)
    );
    assert_eq!(acc.accumulate_gated(0, 100, late), None, "only once");
    assert!(!acc.end());
}
