//! How far a tolerance band sits from a wanted one, and where to place a band on the size grid.

use vstd::prelude::*;

verus! {

/// The absolute value of `x`.
pub open spec fn abs(x: int) -> int {
    if x < 0 {
        -x
    } else {
        x
    }
}

/// A deviation from the nominal size, within ten kilometres of it.
pub open spec fn small(x: int) -> bool {
    -10_000_000_000_000 <= x <= 10_000_000_000_000
}

/// A position that two `i64` values add up to, such as a nominal size moved by any deviation:
/// every distance computed from such positions fits an `i128` with room to spare.
pub open spec fn reachable(x: int) -> bool {
    -20_000_000_000_000_000_000 <= x <= 20_000_000_000_000_000_000
}

/// How far a candidate band sits from the wanted one, in nanometres, doubled: both limits
/// are counted, plus the midpoint.
pub open spec fn spec_band_error(candidate: (int, int), target: (int, int)) -> int {
    let upper = candidate.0 - target.0;
    let lower = candidate.1 - target.1;
    2 * abs(upper) + 2 * abs(lower) + abs(upper + lower)
}

fn abs_i128(x: i128) -> (r: i128)
    requires
        x > i128::MIN,
    ensures
        r == abs(x as int),
{
    if x < 0 {
        -x
    } else {
        x
    }
}

/// How far a candidate band sits from the wanted one, in nanometres, doubled. Both limits
/// are counted, plus the midpoint, which weights where the band sits against how wide it
/// is. Doubling keeps the midpoint term exact rather than halving it away.
pub fn band_error(candidate: (i128, i128), target: (i128, i128)) -> (r: i128)
    requires
        reachable(candidate.0 as int),
        reachable(candidate.1 as int),
        reachable(target.0 as int),
        reachable(target.1 as int),
    ensures
        r == spec_band_error((candidate.0 as int, candidate.1 as int), (target.0 as int, target.1 as int)),
        0 <= r <= 240_000_000_000_000_000_000,
        r >= spec_width_bound(candidate.0 - candidate.1, (target.0 as int, target.1 as int)),
{
    proof {
        law_width_bound((candidate.0 as int, candidate.1 as int), (target.0 as int, target.1 as int));
    }
    let upper = candidate.0 - target.0;
    let lower = candidate.1 - target.1;
    2 * abs_i128(upper) + 2 * abs_i128(lower) + abs_i128(upper + lower)
}

/// Deviations against a nominal size, as the absolute limits of the feature.
pub open spec fn spec_absolute(size: int, limits: (int, int)) -> (int, int) {
    (size + limits.0, size + limits.1)
}

/// Deviations against a nominal size, as the absolute limits of the feature.
pub fn absolute(size: i64, limits: (i64, i64)) -> (r: (i128, i128))
    ensures
        r.0 == size + limits.0,
        r.1 == size + limits.1,
{
    (size as i128 + limits.0 as i128, size as i128 + limits.1 as i128)
}

/// The least error any band of width `tolerance` can reach against `target`, however its
/// nominal size is chosen.
pub open spec fn spec_width_bound(tolerance: int, target: (int, int)) -> int {
    2 * abs(tolerance - (target.0 - target.1))
}

// The least error any class of this band width can reach, however its nominal size is
// chosen. Sliding the nominal size moves a band without resizing it, so the mismatch in
// width is the part of the error that no choice of size can pay off.
pub fn width_bound(tolerance: i64, target: (i128, i128)) -> (r: i128)
    requires
        reachable(target.0 as int),
        reachable(target.1 as int),
    ensures
        r == spec_width_bound(tolerance as int, (target.0 as int, target.1 as int)),
{
    2 * abs_i128(tolerance as i128 - (target.0 - target.1))
}

/// No band of width `tolerance` gets closer to `target` than the width bound: sliding the
/// nominal size cannot pay off a mismatch in width.
pub proof fn law_width_bound(candidate: (int, int), target: (int, int))
    ensures
        spec_width_bound(candidate.0 - candidate.1, target) <= spec_band_error(candidate, target),
{
}

/// The width bound is the error of a band placed with its midpoint on the target's: twice the
/// mismatch in width, so no smaller bound holds.
pub proof fn law_width_bound_is_reached(limits: (int, int), target: (int, int), size: int)
    requires
        2 * size == target.0 + target.1 - limits.0 - limits.1,
    ensures
        spec_band_error(spec_absolute(size, limits), target) == spec_width_bound(limits.0 - limits.1, target),
        spec_width_bound(limits.0 - limits.1, target) == 2 * abs((limits.0 - limits.1) - (target.0 - target.1)),
{
}

/// The distance between two bands is never negative, is zero exactly when the bands are the
/// same, does not depend on which band is which, and does not change when both bands move by
/// the same amount.
pub proof fn law_band_error(a: (int, int), b: (int, int), shift: int)
    ensures
        spec_band_error(a, b) >= 0,
        spec_band_error(a, b) == 0 <==> a == b,
        spec_band_error(a, b) == spec_band_error(b, a),
        spec_band_error((a.0 + shift, a.1 + shift), (b.0 + shift, b.1 + shift)) == spec_band_error(a, b),
{
}

/// `x` brought into `[low, high]`.
pub open spec fn clamp(x: int, low: int, high: int) -> int {
    if x < low {
        low
    } else if x > high {
        high
    } else {
        x
    }
}

/// `size` is a nominal size on the grid of `quantum` within the bracket, whose lower bound is
/// left out.
pub open spec fn on_grid(size: int, bracket: (int, int), quantum: int) -> bool {
    size % quantum == 0 && bracket.0 + quantum <= size <= bracket.1
}

/// `size` places the band best: it lies on the grid within the bracket, no size there gives a
/// smaller error, and no smaller size there gives the same error.
pub open spec fn is_best_fit(limits: (int, int), target: (int, int), bracket: (int, int), quantum: int, size: int) -> bool {
    &&& on_grid(size, bracket, quantum)
    &&& forall|other: int|
        #[trigger] on_grid(other, bracket, quantum) ==> spec_band_error(spec_absolute(size, limits), target)
            < spec_band_error(spec_absolute(other, limits), target) || (spec_band_error(
            spec_absolute(size, limits),
            target,
        ) == spec_band_error(spec_absolute(other, limits), target) && size <= other)
}

/// Where `best_fit` places a band, and the error it reaches there: the nominal size on the
/// grid within the bracket with the least error, and of equal errors the smallest.
pub open spec fn spec_best_fit(
    limits: (int, int),
    target: (int, int),
    bracket: (int, int),
    quantum: int,
) -> (int, int) {
    let size = choose|size: int| is_best_fit(limits, target, bracket, quantum, size);
    (size, spec_band_error(spec_absolute(size, limits), target))
}

/// Of the two grid points either side of the size at which the band's midpoint meets the
/// target's, clamped into the bracket, the one with the smaller error, and of equal errors the
/// smaller size; with its error.
spec fn closer_neighbour(
    limits: (int, int),
    target: (int, int),
    bracket: (int, int),
    quantum: int,
) -> (int, int) {
    let ideal = target.0 + target.1 - limits.0 - limits.1;
    let below = (ideal / (2 * quantum)) * quantum;
    let low = bracket.0 + quantum;
    let high = bracket.1;
    let s1 = clamp(below, low, high);
    let s2 = clamp(below + quantum, low, high);
    let e1 = spec_band_error(spec_absolute(s1, limits), target);
    let e2 = spec_band_error(spec_absolute(s2, limits), target);
    if e1 < e2 || (e1 == e2 && s1 <= s2) {
        (s1, e1)
    } else {
        (s2, e2)
    }
}

/// Below the size at which its midpoint meets the target's, sliding a band up strictly lowers
/// its error.
proof fn lemma_error_falls_strictly(limits: (int, int), target: (int, int), x: int, y: int)
    requires
        x < y,
        2 * y <= target.0 + target.1 - limits.0 - limits.1,
    ensures
        spec_band_error(spec_absolute(x, limits), target) > spec_band_error(spec_absolute(y, limits), target),
{
}

/// Above it, sliding a band up strictly raises its error.
proof fn lemma_error_rises_strictly(limits: (int, int), target: (int, int), x: int, y: int)
    requires
        x < y,
        2 * x >= target.0 + target.1 - limits.0 - limits.1,
    ensures
        spec_band_error(spec_absolute(x, limits), target) < spec_band_error(spec_absolute(y, limits), target),
{
}

/// The closer of the two neighbours of the ideal size is the best placement.
#[verifier::spinoff_prover]
proof fn lemma_closer_neighbour_is_best(limits: (int, int), target: (int, int), bracket: (int, int), quantum: int)
    requires
        quantum > 0,
        bracket.0 % quantum == 0,
        bracket.1 % quantum == 0,
        bracket.0 + quantum <= bracket.1,
    ensures
        is_best_fit(limits, target, bracket, quantum, closer_neighbour(limits, target, bracket, quantum).0),
        spec_best_fit(limits, target, bracket, quantum) == closer_neighbour(limits, target, bracket, quantum),
{
    let ideal = target.0 + target.1 - limits.0 - limits.1;
    let t = ideal / (2 * quantum);
    let below = t * quantum;
    let low = bracket.0 + quantum;
    let high = bracket.1;
    let s1 = clamp(below, low, high);
    let s2 = clamp(below + quantum, low, high);
    let n = closer_neighbour(limits, target, bracket, quantum);
    let err = |x: int| spec_band_error(spec_absolute(x, limits), target);
    assert(2 * below <= ideal < 2 * (below + quantum)) by (nonlinear_arith)
        requires
            t == ideal / (2 * quantum),
            below == t * quantum,
            quantum > 0,
    ;
    assert(below % quantum == 0) by (nonlinear_arith)
        requires
            below == t * quantum,
            quantum > 0,
    ;
    assert((below + quantum) % quantum == 0) by (nonlinear_arith)
        requires
            below % quantum == 0,
            quantum > 0,
    ;
    assert(low % quantum == 0) by (nonlinear_arith)
        requires
            low == bracket.0 + quantum,
            bracket.0 % quantum == 0,
            quantum > 0,
    ;
    assert(on_grid(s1, bracket, quantum));
    assert(on_grid(s2, bracket, quantum));
    assert(s1 <= s2);
    assert forall|other: int| #[trigger] on_grid(other, bracket, quantum) implies err(n.0) < err(other) || (
    err(n.0) == err(other) && n.0 <= other) by {
        if other < s1 {
            assert(s1 <= below);
            lemma_error_falls_strictly(limits, target, other, s1);
        } else if other > s2 {
            assert(s2 >= below + quantum);
            lemma_error_rises_strictly(limits, target, s2, other);
        } else if other != s1 && other != s2 {
            assert(s1 + quantum <= other) by (nonlinear_arith)
                requires
                    other % quantum == 0,
                    s1 % quantum == 0,
                    s1 < other,
                    quantum > 0,
            ;
            assert(s2 <= s1 + quantum);
        }
    }
    assert(is_best_fit(limits, target, bracket, quantum, n.0));
    let c = choose|size: int| is_best_fit(limits, target, bracket, quantum, size);
    assert(is_best_fit(limits, target, bracket, quantum, c));
    assert(on_grid(c, bracket, quantum));
    assert(on_grid(n.0, bracket, quantum));
    assert(c == n.0);
}

/// `best_fit` places a band on the size grid as close to the target as it gets: the size it
/// picks lies on the grid within the bracket, no nominal size on the grid there gives a smaller
/// error, and none smaller gives the same error.
pub proof fn law_best_fit_optimal(
    limits: (int, int),
    target: (int, int),
    bracket: (int, int),
    quantum: int,
    size: int,
)
    requires
        quantum > 0,
        bracket.0 % quantum == 0,
        bracket.1 % quantum == 0,
        bracket.0 + quantum <= bracket.1,
        size % quantum == 0,
        bracket.0 + quantum <= size <= bracket.1,
    ensures
        spec_band_error(spec_absolute(size, limits), target) >= spec_best_fit(
            limits,
            target,
            bracket,
            quantum,
        ).1,
        spec_band_error(spec_absolute(size, limits), target) == spec_best_fit(limits, target, bracket, quantum).1
            ==> spec_best_fit(limits, target, bracket, quantum).0 <= size,
        spec_best_fit(limits, target, bracket, quantum).0 % quantum == 0,
        bracket.0 + quantum <= spec_best_fit(limits, target, bracket, quantum).0 <= bracket.1,
        spec_best_fit(limits, target, bracket, quantum).1 == spec_band_error(
            spec_absolute(spec_best_fit(limits, target, bracket, quantum).0, limits),
            target,
        ),
{
    lemma_closer_neighbour_is_best(limits, target, bracket, quantum);
    let best = spec_best_fit(limits, target, bracket, quantum);
    assert(is_best_fit(limits, target, bracket, quantum, best.0));
    assert(on_grid(size, bracket, quantum));
}

/// Floor division.
fn div_floor(a: i128, d: i128) -> (q: i128)
    requires
        d > 0,
        a > i128::MIN,
    ensures
        q == a as int / d as int,
{
    if a >= 0 {
        a / d
    } else {
        let t = (-(a + 1)) / d;
        let q = -t - 1;
        assert(q * d <= a < q * d + d) by (nonlinear_arith)
            requires
                t == (-(a + 1)) as int / d as int,
                -(a + 1) >= 0,
                d > 0,
                q == -t - 1,
        ;
        assert(q == a as int / d as int) by (nonlinear_arith)
            requires
                q * d <= a < q * d + d,
                d > 0,
        ;
        q
    }
}

fn clamp_i128(x: i128, low: i128, high: i128) -> (r: i128)
    requires
        low <= high,
    ensures
        r == clamp(x as int, low as int, high as int),
{
    if x < low {
        low
    } else if x > high {
        high
    } else {
        x
    }
}

fn smaller(x: i128, y: i128) -> (r: bool)
    ensures
        r == (x < y),
{
    x < y
}

// Place a candidate band as close to the target as the size grid allows, returning the
// nominal size chosen and the error it achieves, within a single size bracket.
//
// Moving the nominal size slides the band without resizing it, so the error is convex in
// the size and bottoms out where the two bands share a midpoint. The best size on the grid
// is therefore whichever of the two grid points either side of that ideal scores better,
// once both are clamped into the bracket.
pub fn best_fit(limits: (i64, i64), target: (i128, i128), bracket: (i64, i64), quantum: i64) -> (r: (
    i64,
    i128,
))
    requires
        reachable(target.0 as int),
        reachable(target.1 as int),
        quantum > 0,
        bracket.0 % quantum == 0,
        bracket.1 % quantum == 0,
        bracket.0 + quantum <= bracket.1,
    ensures
        (r.0 as int, r.1 as int) == spec_best_fit(
            (limits.0 as int, limits.1 as int),
            (target.0 as int, target.1 as int),
            (bracket.0 as int, bracket.1 as int),
            quantum as int,
        ),
        bracket.0 + quantum <= r.0 <= bracket.1,
        r.0 % quantum == 0,
{
    proof {
        lemma_closer_neighbour_is_best(
            (limits.0 as int, limits.1 as int),
            (target.0 as int, target.1 as int),
            (bracket.0 as int, bracket.1 as int),
            quantum as int,
        );
    }
    // Twice the size at which the midpoints coincide, left doubled to stay exact.
    let ideal: i128 = target.0 + target.1 - limits.0 as i128 - limits.1 as i128;
    let step: i128 = 2 * quantum as i128;
    let q = div_floor(ideal, step);
    assert(-40_000_000_000_000_000_000 <= q * quantum <= 40_000_000_000_000_000_000) by (nonlinear_arith)
        requires
            q == ideal as int / step as int,
            step == 2 * quantum,
            -60_000_000_000_000_000_000 <= ideal <= 60_000_000_000_000_000_000,
            0 < quantum <= 0x7fff_ffff_ffff_ffff,
    ;
    let below: i128 = q * quantum as i128;
    // The bracket leaves out its lower bound; both bounds sit on the grid.
    let low = bracket.0 + quantum;
    let high = bracket.1;
    let s1 = clamp_i128(below, low as i128, high as i128) as i64;
    let s2 = clamp_i128(below + quantum as i128, low as i128, high as i128) as i64;
    let e1 = band_error(absolute(s1, limits), target);
    let e2 = band_error(absolute(s2, limits), target);
    if smaller(e1, e2) || (e1 == e2 && s1 <= s2) {
        (s1, e1)
    } else {
        (s2, e2)
    }
}

} // verus!
