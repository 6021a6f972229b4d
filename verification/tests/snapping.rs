//! Snap quantization on concrete values.

use scale_gizmo::fixed::{round_to_interval, SCALE_ONE};

/// A quarter of a scale factor unit, the snap interval of the scenarios.
const QUARTER: i64 = SCALE_ONE / 4;

#[test]
fn snaps_to_nearest_multiple() {
    // A raw factor of about 1.618 snaps to 1.5 with a 0.25 interval.
    assert_eq!(round_to_interval(212079, QUARTER), 196608);
    assert_eq!(196608, 3 * SCALE_ONE / 2);
}

#[test]
fn snaps_negative_values_symmetrically() {
    assert_eq!(round_to_interval(-212079, QUARTER), -196608);
}

#[test]
fn snaps_midpoint_away_from_zero() {
    // 1.5 interval widths sit exactly between two multiples.
    assert_eq!(round_to_interval(3 * QUARTER / 2, QUARTER), 2 * QUARTER);
    assert_eq!(round_to_interval(-3 * QUARTER / 2, QUARTER), -2 * QUARTER);
}

#[test]
fn snaps_small_factors_to_zero() {
    assert_eq!(round_to_interval(QUARTER / 4, QUARTER), 0);
}

#[test]
fn snapping_twice_changes_nothing() {
    let intervals = [1, 3, QUARTER, SCALE_ONE, 7 * SCALE_ONE];
    let values = [-212079, -QUARTER, -1, 0, 1, 6553, 212079, 5 * SCALE_ONE + 17];
    for &i in &intervals {
        for &x in &values {
            let once = round_to_interval(x, i);
            assert_eq!(round_to_interval(once, i), once);
        }
    }
}
