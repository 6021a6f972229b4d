//! Fixed-point arithmetic for the gizmo core: integer square roots, the
//! drag-to-scale curve, and snapping to an interval.
//!
//! Screen coordinates and drag ratios are Q16 fixed-point numbers: `ONE`
//! (65536) stands for 1.0.  Scale factors carry one extra bit of resolution,
//! `SCALE_ONE` (131072), so that the curve's midpoint division by two is
//! exact and the identity `scale_map(0) == 1` holds with no rounding at all.

use vstd::prelude::*;
use vstd::arithmetic::div_mod::{
    lemma_fundamental_div_mod, lemma_fundamental_div_mod_converse, lemma_div_pos_is_pos,
    lemma_mod_multiples_basic,
};

verus! {

/// One whole unit of a screen coordinate or of the dimensionless drag ratio.
pub const ONE: i64 = 65536;

/// One whole unit of a scale factor (twice the resolution of `ONE`).
pub const SCALE_ONE: i64 = 131072;

/// Largest magnitude of drag ratio that `scale_map` accepts (32768 whole
/// units); the update controller saturates the ratio here.
pub const RATIO_LIMIT: i64 = 0x8000_0000;

/// Largest scale factor or snap interval that `round_to_interval` accepts.
pub const FACTOR_LIMIT: i64 = 0x1_0000_0000_0000;

/// `r` is the integer square root of `n`, rounded down.
pub open spec fn is_sqrt_floor(n: int, r: int) -> bool {
    &&& 0 <= r
    &&& r * r <= n
    &&& n < (r + 1) * (r + 1)
}

/// `r` is the integer square root of `n`, rounded up.
pub open spec fn is_sqrt_ceil(n: int, r: int) -> bool {
    &&& 0 <= r
    &&& n <= r * r
    &&& r == 0 || (r - 1) * (r - 1) < n
}

/// The integer square root of `n`, rounded down.
pub open spec fn sqrt_floor(n: int) -> int {
    choose|r: int| is_sqrt_floor(n, r)
}

/// The integer square root of `n`, rounded up.
pub open spec fn sqrt_ceil(n: int) -> int {
    choose|r: int| is_sqrt_ceil(n, r)
}

/// Every nonnegative integer has a rounded-up square root.
pub proof fn lemma_sqrt_ceil_exists(n: int)
    requires
        0 <= n,
    ensures
        is_sqrt_ceil(n, sqrt_ceil(n)),
    decreases n,
{
    if n == 0 {
        assert(is_sqrt_ceil(0, 0));
    } else {
        lemma_sqrt_ceil_exists(n - 1);
        let r = sqrt_ceil(n - 1);
        if n <= r * r {
            assert(is_sqrt_ceil(n, r));
        } else {
            // n - 1 <= r * r < n, so n == r * r + 1
            assert(n <= (r + 1) * (r + 1) && r * r < n) by (nonlinear_arith)
                requires 0 <= r && n == r * r + 1;
            assert(is_sqrt_ceil(n, r + 1));
        }
    }
}

/// The rounded-down square root is unique.
pub proof fn lemma_sqrt_floor_unique(n: int, r: int)
    requires
        is_sqrt_floor(n, r),
    ensures
        sqrt_floor(n) == r,
{
    let rc = sqrt_floor(n);
    assert(is_sqrt_floor(n, rc));
    assert(rc == r) by (nonlinear_arith)
        requires
            0 <= r && r * r <= n && n < (r + 1) * (r + 1),
            0 <= rc && rc * rc <= n && n < (rc + 1) * (rc + 1);
}

/// The rounded-up square root is unique.
pub proof fn lemma_sqrt_ceil_unique(n: int, r: int)
    requires
        is_sqrt_ceil(n, r),
    ensures
        sqrt_ceil(n) == r,
{
    let rc = sqrt_ceil(n);
    assert(is_sqrt_ceil(n, rc));
    assert(rc == r) by (nonlinear_arith)
        requires
            0 <= r && n <= r * r && (r == 0 || (r - 1) * (r - 1) < n),
            0 <= rc && n <= rc * rc && (rc == 0 || (rc - 1) * (rc - 1) < n);
}

/// Rounded-up square roots do not decrease when the radicand grows.
pub proof fn lemma_sqrt_ceil_monotone(n1: int, n2: int)
    requires
        0 <= n1 <= n2,
    ensures
        sqrt_ceil(n1) <= sqrt_ceil(n2),
{
    lemma_sqrt_ceil_exists(n1);
    lemma_sqrt_ceil_exists(n2);
    let s1 = sqrt_ceil(n1);
    let s2 = sqrt_ceil(n2);
    assert(s1 <= s2) by (nonlinear_arith)
        requires
            n1 <= n2,
            0 <= s1 && n1 <= s1 * s1 && (s1 == 0 || (s1 - 1) * (s1 - 1) < n1),
            0 <= s2 && n2 <= s2 * s2 && (s2 == 0 || (s2 - 1) * (s2 - 1) < n2);
}

/// Integer square root, rounded down, by binary search.
pub fn isqrt(n: u64) -> (r: u64)
    ensures
        is_sqrt_floor(n as int, r as int),
        r <= 0xFFFF_FFFF,
{
    let mut lo: u64 = 0;
    let mut hi: u64 = 0xFFFF_FFFF;
    while lo < hi
        invariant
            lo <= hi <= 0xFFFF_FFFF,
            lo * lo <= n,
            n < (hi + 1) * (hi + 1),
        decreases hi - lo,
    {
        let mid = lo + (hi - lo + 1) / 2;
        assert(lo < mid <= hi);
        assert(mid * mid <= 0xFFFF_FFFF * 0xFFFF_FFFF) by (nonlinear_arith)
            requires mid <= 0xFFFF_FFFF;
        if mid * mid <= n {
            lo = mid;
        } else {
            hi = mid - 1;
        }
    }
    lo
}

/// Integer square root, rounded up.
pub fn isqrt_ceil(n: u64) -> (r: u64)
    ensures
        is_sqrt_ceil(n as int, r as int),
        r <= 0x1_0000_0000,
{
    let r = isqrt(n);
    assert(r * r <= 0xFFFF_FFFF * 0xFFFF_FFFF) by (nonlinear_arith)
        requires r <= 0xFFFF_FFFF;
    if r * r == n {
        proof {
            if r >= 1 {
                assert((r - 1) * (r - 1) < r * r) by (nonlinear_arith)
                    requires 1 <= r;
            }
        }
        r
    } else {
        r + 1
    }
}

/// The drag-to-scale curve, exactly as computed: the ratio `d` is Q16, the
/// result is a scale factor in `SCALE_ONE` units.  It is the fixed-point
/// image of (d + sqrt(d^2 + 4)) / 2, with the square root rounded up.
pub open spec fn spec_scale_map(d: int) -> int {
    d + sqrt_ceil(d * d + 4 * ONE * ONE)
}

/// Maps a signed drag ratio to a uniform scale factor through a smooth,
/// sign-extending curve: zero motion gives exactly `SCALE_ONE`, positive
/// ratios grow almost linearly, negative ratios shrink toward (but never
/// reach) zero.
pub fn scale_map(d: i64) -> (r: i64)
    requires
        -RATIO_LIMIT <= d <= RATIO_LIMIT,
    ensures
        r == spec_scale_map(d as int),
        1 <= r <= 0x1_8000_0000,
{
    let a: u64 = if d >= 0 { d as u64 } else { (-d) as u64 };
    assert(a * a == d * d && a * a <= 0x4000_0000_0000_0000) by (nonlinear_arith)
        requires a == d || a == -d, 0 <= a <= 0x8000_0000;
    let n: u64 = a * a + 17_179_869_184;
    assert(n == d * d + 4 * ONE * ONE);
    let s: u64 = isqrt_ceil(n);
    proof {
        lemma_sqrt_ceil_unique(n as int, s as int);
        // s exceeds |d|, so d + s stays positive and within range
        assert(a < s) by (nonlinear_arith)
            requires 0 <= a, 0 <= s, a * a < n <= s * s;
    }
    d + (s as i64)
}

/// Law: no pointer motion maps to exactly the identity scale factor.
pub proof fn lemma_scale_map_identity()
    ensures
        spec_scale_map(0) == SCALE_ONE,
{
    assert((2 * ONE - 1) * (2 * ONE - 1) < 4 * ONE * ONE) by (nonlinear_arith);
    assert(4 * ONE * ONE <= (2 * ONE) * (2 * ONE)) by (nonlinear_arith);
    assert(is_sqrt_ceil(4 * ONE * ONE, 2 * ONE));
    lemma_sqrt_ceil_unique(4 * ONE * ONE, 2 * ONE);
}

/// Law: the scale factor is strictly positive for every ratio.
pub proof fn lemma_scale_map_positive(d: int)
    ensures
        spec_scale_map(d) >= 1,
{
    let c = 4 * ONE * ONE;
    assert(0 <= d * d) by (nonlinear_arith);
    lemma_sqrt_ceil_exists(d * d + c);
    let s = sqrt_ceil(d * d + c);
    assert(s > d && s > -d) by (nonlinear_arith)
        requires 0 <= s, d * d < s * s;
}

/// Law: the curve never decreases as the ratio grows.
pub proof fn lemma_scale_map_monotone(d1: int, d2: int)
    requires
        d1 <= d2,
    ensures
        spec_scale_map(d1) <= spec_scale_map(d2),
{
    let c = 4 * ONE * ONE;
    assert(0 <= d1 * d1 && 0 <= d2 * d2) by (nonlinear_arith);
    lemma_sqrt_ceil_exists(d1 * d1 + c);
    lemma_sqrt_ceil_exists(d2 * d2 + c);
    let s1 = sqrt_ceil(d1 * d1 + c);
    let s2 = sqrt_ceil(d2 * d2 + c);
    let k = d2 - d1;
    if s1 > s2 + k {
        // Impossible: squeeze (s1 - 1)^2 between the two radicands.
        assert(s2 >= 1) by (nonlinear_arith)
            requires 0 <= s2, c <= d2 * d2 + c <= s2 * s2, c == 17_179_869_184, 0 <= d2 * d2;
        assert((s2 + k) * (s2 + k) <= (s1 - 1) * (s1 - 1)) by (nonlinear_arith)
            requires 0 <= s2 + k <= s1 - 1;
        assert((s1 - 1) * (s1 - 1) < d1 * d1 + c) by (nonlinear_arith)
            requires 1 <= s1, (s1 - 1) * (s1 - 1) < d1 * d1 + c;
        assert(d1 * d1 > d2 * d2 + 2 * k * s2 + k * k) by (nonlinear_arith)
            requires
                (s2 + k) * (s2 + k) < d1 * d1 + c,
                d2 * d2 + c <= s2 * s2;
        assert(d1 * d1 - d2 * d2 == -k * (d1 + d2)) by (nonlinear_arith)
            requires k == d2 - d1;
        // k == 0 is already contradictory; for k >= 1 divide through by k
        assert(k >= 1) by (nonlinear_arith)
            requires d1 * d1 > d2 * d2 + 2 * k * s2 + k * k, d1 * d1 - d2 * d2 == -k * (d1 + d2), 0 <= k, 0 <= s2;
        assert(s2 < -d2) by (nonlinear_arith)
            requires
                d1 * d1 - d2 * d2 == -k * (d1 + d2),
                d1 * d1 > d2 * d2 + 2 * k * s2 + k * k,
                k == d2 - d1,
                1 <= k;
        assert(false) by (nonlinear_arith)
            requires 0 <= s2 < -d2, d2 * d2 < s2 * s2;
    }
    assert(spec_scale_map(d1) <= spec_scale_map(d2));
}

/// Law: for ratios that do not shrink the object the curve is strictly
/// increasing.  (At negative ratios the real curve is still strictly
/// increasing, but its slope falls below one fixed-point step, so the
/// computed value can repeat there.)
pub proof fn lemma_scale_map_strictly_increasing(d1: int, d2: int)
    requires
        0 <= d1 < d2,
    ensures
        spec_scale_map(d1) < spec_scale_map(d2),
{
    let c = 4 * ONE * ONE;
    assert(0 <= d1 * d1 <= d2 * d2) by (nonlinear_arith)
        requires 0 <= d1 <= d2;
    lemma_sqrt_ceil_monotone(d1 * d1 + c, d2 * d2 + c);
}

/// Law: above the identity the curve hugs its linear asymptote from above;
/// the gap to the asymptote, scaled by the ratio, stays below the curve
/// constant, so it vanishes as the ratio grows.
pub proof fn lemma_scale_map_asymptote_positive(d: int)
    requires
        1 <= d,
    ensures
        2 * d < spec_scale_map(d),
        (spec_scale_map(d) - 2 * d - 1) * (2 * d) < 4 * ONE * ONE,
{
    let c = 4 * ONE * ONE;
    assert(0 <= d * d) by (nonlinear_arith);
    lemma_sqrt_ceil_exists(d * d + c);
    let s = sqrt_ceil(d * d + c);
    assert(d < s) by (nonlinear_arith)
        requires 0 <= s, 0 <= d, d * d < s * s;
    let gap = s - d - 1;
    assert(gap * (2 * d) < c) by (nonlinear_arith)
        requires
            1 <= d,
            0 <= gap,
            s == gap + d + 1,
            gap == 0 || (s - 1) * (s - 1) < d * d + c,
            c == 17_179_869_184;
    assert(spec_scale_map(d) == d + s);
    assert((spec_scale_map(d) - 2 * d - 1) * (2 * d) == gap * (2 * d)) by (nonlinear_arith)
        requires spec_scale_map(d) == d + s, gap == s - d - 1;
}

/// Law: below the identity the scale factor stays positive but sinks toward
/// zero; its distance above zero, scaled by the ratio, stays below the curve
/// constant, so the factor vanishes as the ratio falls.
pub proof fn lemma_scale_map_asymptote_negative(d: int)
    requires
        d <= -1,
    ensures
        1 <= spec_scale_map(d),
        (spec_scale_map(d) - 1) * (-2 * d) < 4 * ONE * ONE,
{
    let c = 4 * ONE * ONE;
    assert(0 <= d * d) by (nonlinear_arith);
    lemma_sqrt_ceil_exists(d * d + c);
    let s = sqrt_ceil(d * d + c);
    assert(-d < s) by (nonlinear_arith)
        requires 0 <= s, d <= -1, d * d < s * s;
    let gap = s + d - 1;
    assert(gap * (-2 * d) < c) by (nonlinear_arith)
        requires
            d <= -1,
            0 <= gap,
            s == gap - d + 1,
            gap == 0 || (s - 1) * (s - 1) < d * d + c,
            c == 17_179_869_184;
    assert(spec_scale_map(d) == d + s);
    assert((spec_scale_map(d) - 1) * (-2 * d) == gap * (-2 * d)) by (nonlinear_arith)
        requires spec_scale_map(d) == d + s, gap == s + d - 1;
}

/// The nearest multiple of `interval`, with a midpoint rounded away from
/// zero.  Division here is Euclidean, which rounds toward minus infinity for
/// the nonnegative operands it is applied to.
pub open spec fn spec_round_to_interval(x: int, interval: int) -> int
    recommends
        1 <= interval,
{
    if x >= 0 {
        interval * ((2 * x + interval) / (2 * interval))
    } else {
        -(interval * ((2 * (-x) + interval) / (2 * interval)))
    }
}

/// Quantizes `x` to the nearest multiple of `interval`; a value exactly
/// halfway between two multiples moves away from zero.
pub fn round_to_interval(x: i64, interval: i64) -> (r: i64)
    requires
        1 <= interval <= FACTOR_LIMIT,
        -FACTOR_LIMIT <= x <= FACTOR_LIMIT,
    ensures
        r == spec_round_to_interval(x as int, interval as int),
{
    let a: u64 = if x >= 0 { x as u64 } else { (-x) as u64 };
    let i: u64 = interval as u64;
    let q: u64 = (2 * a + i) / (2 * i);
    proof {
        lemma_fundamental_div_mod(2 * a + i, 2 * i);
        assert(q * i <= a + i) by (nonlinear_arith)
            requires
                1 <= i,
                0 <= q,
                q * (2 * i) <= 2 * a + i;
    }
    let m: u64 = q * i;
    if x >= 0 {
        m as i64
    } else {
        -(m as i64)
    }
}

/// Law: snapping is idempotent; quantizing an already quantized value
/// changes nothing, for any positive interval.
pub proof fn lemma_round_to_interval_idempotent(x: int, interval: int)
    requires
        1 <= interval,
    ensures
        spec_round_to_interval(spec_round_to_interval(x, interval), interval)
            == spec_round_to_interval(x, interval),
{
    let i = interval;
    let a = if x >= 0 { x } else { -x };
    let q = (2 * a + i) / (2 * i);
    lemma_div_pos_is_pos(2 * a + i, 2 * i);
    lemma_round_multiple_fixed(q, i);
    assert(0 <= i * q) by (nonlinear_arith)
        requires 0 <= q, 1 <= i;
    if x >= 0 {
        assert(spec_round_to_interval(x, i) == i * q);
    } else {
        assert(spec_round_to_interval(x, i) == -(i * q));
        if i * q == 0 {
            assert(spec_round_to_interval(0, i) == i * ((i) / (2 * i)));
            lemma_fundamental_div_mod_converse(i, 2 * i, 0, i);
        }
    }
}

/// An exact multiple of the interval is left unchanged by snapping.
proof fn lemma_round_multiple_fixed(q: int, i: int)
    requires
        0 <= q,
        1 <= i,
    ensures
        spec_round_to_interval(i * q, i) == i * q,
        spec_round_to_interval(-(i * q), i) == -(i * q),
{
    assert(0 <= i * q) by (nonlinear_arith)
        requires 0 <= q, 1 <= i;
    assert(2 * (i * q) + i == q * (2 * i) + i) by (nonlinear_arith);
    lemma_fundamental_div_mod_converse(2 * (i * q) + i, 2 * i, q, i);
    assert((2 * (i * q) + i) / (2 * i) == q);
    assert(spec_round_to_interval(i * q, i) == i * q);
    if i * q == 0 {
        assert(spec_round_to_interval(-(i * q), i) == i * q);
    } else {
        assert(spec_round_to_interval(-(i * q), i) == -(i * ((2 * (i * q) + i) / (2 * i))));
    }
}

/// Law: the snapped value is a multiple of the interval, and no multiple is
/// closer to the input (stated doubled, to stay in integers: the snapped
/// value sits within half an interval of the input).
pub proof fn lemma_round_to_interval_nearest(x: int, interval: int)
    requires
        1 <= interval,
    ensures
        spec_round_to_interval(x, interval) % interval == 0,
        -interval <= 2 * (spec_round_to_interval(x, interval) - x) <= interval,
{
    let i = interval;
    let a = if x >= 0 { x } else { -x };
    let q = (2 * a + i) / (2 * i);
    lemma_div_pos_is_pos(2 * a + i, 2 * i);
    lemma_fundamental_div_mod(2 * a + i, 2 * i);
    let rem = (2 * a + i) % (2 * i);
    assert(0 <= rem < 2 * i);
    assert(2 * (i * q) - 2 * a == i - rem) by (nonlinear_arith)
        requires 2 * a + i == (2 * i) * q + rem;
    lemma_mod_multiples_basic(q, i);
    assert(i * q == q * i) by (nonlinear_arith);
    if x >= 0 {
        assert(spec_round_to_interval(x, i) % i == 0);
    } else {
        assert((-(q * i)) == (-q) * i) by (nonlinear_arith);
        lemma_mod_multiples_basic(-q, i);
        assert(spec_round_to_interval(x, i) % i == 0);
    }
}

} // verus!
