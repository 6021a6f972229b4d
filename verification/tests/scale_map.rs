//! The drag-to-scale curve on concrete values.

use scale_gizmo::fixed::{isqrt, isqrt_ceil, scale_map, ONE, RATIO_LIMIT, SCALE_ONE};

#[test]
fn scale_map_zero_is_identity() {
    // No pointer motion maps to exactly 1.0.
    assert_eq!(scale_map(0), SCALE_ONE);
}

#[test]
fn scale_map_unit_drag_matches_golden_ratio() {
    // d = 1.0 maps to (1 + sqrt(5)) / 2.
    let r = scale_map(ONE);
    assert_eq!(r, 212079);
    let real = r as f64 / SCALE_ONE as f64;
    assert!((real - (1.0 + 5.0f64.sqrt()) / 2.0).abs() < 1e-4);
}

#[test]
fn scale_map_negative_unit_drag_shrinks() {
    // d = -1.0 maps to (sqrt(5) - 1) / 2.
    let r = scale_map(-ONE);
    assert_eq!(r, 81007);
    let real = r as f64 / SCALE_ONE as f64;
    assert!((real - (5.0f64.sqrt() - 1.0) / 2.0).abs() < 1e-4);
}

#[test]
fn scale_map_positive_everywhere() {
    let samples = [
        -RATIO_LIMIT,
        -RATIO_LIMIT + 1,
        -3 * ONE,
        -ONE,
        -1,
        0,
        1,
        ONE,
        3 * ONE,
        RATIO_LIMIT,
    ];
    for d in samples {
        assert!(scale_map(d) >= 1);
    }
}

#[test]
fn scale_map_monotone_on_samples() {
    let samples = [
        -RATIO_LIMIT,
        -100 * ONE,
        -3 * ONE,
        -ONE,
        -100,
        0,
        100,
        ONE,
        3 * ONE,
        100 * ONE,
        RATIO_LIMIT,
    ];
    for pair in samples.windows(2) {
        assert!(scale_map(pair[0]) <= scale_map(pair[1]));
    }
    // Strictly increasing where the ratio does not shrink the object.
    let nonneg = [0, 1, 100, ONE, 3 * ONE, 100 * ONE, RATIO_LIMIT];
    for pair in nonneg.windows(2) {
        assert!(scale_map(pair[0]) < scale_map(pair[1]));
    }
}

#[test]
fn scale_map_asymptotically_linear() {
    // Far out on the positive side the factor sits just above the ratio
    // itself (2 * d in scale-factor units), and the gap scaled by the
    // ratio stays below the curve constant.
    let c: i64 = 4 * ONE * ONE;
    let d = RATIO_LIMIT;
    let r = scale_map(d);
    assert!(r > 2 * d);
    assert!((r - 2 * d - 1) * 2 * d < c);
    // Far out on the negative side the factor sinks toward zero without
    // reaching it.
    let r = scale_map(-d);
    assert!(r >= 1);
    assert!((r - 1) * 2 * d < c);
    assert_eq!(r, 4);
}

#[test]
fn isqrt_rounds_down() {
    assert_eq!(isqrt(0), 0);
    assert_eq!(isqrt(1), 1);
    assert_eq!(isqrt(15), 3);
    assert_eq!(isqrt(16), 4);
    assert_eq!(isqrt(17), 4);
    assert_eq!(isqrt(u64::MAX), 0xFFFF_FFFF);
}

#[test]
fn isqrt_ceil_rounds_up() {
    assert_eq!(isqrt_ceil(0), 0);
    assert_eq!(isqrt_ceil(1), 1);
    assert_eq!(isqrt_ceil(15), 4);
    assert_eq!(isqrt_ceil(16), 4);
    assert_eq!(isqrt_ceil(17), 5);
    assert_eq!(isqrt_ceil(u64::MAX), 0x1_0000_0000);
}
