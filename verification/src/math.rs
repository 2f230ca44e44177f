//! Scalar helpers shared by the simulation systems: absolute value, the
//! truncating mean used by collision response, and the axis-aligned
//! bounding-box overlap test.

use vstd::prelude::*;

verus! {

/// Absolute value of a mathematical integer.
pub open spec fn abs_val(a: int) -> int {
    if a < 0 {
        -a
    } else {
        a
    }
}

/// Mean of two integers with truncation toward zero, matching what the
/// executable `mean_i64` computes on `i64` values.
pub open spec fn mean(a: int, b: int) -> int {
    let s = a + b;
    if s >= 0 {
        s / 2
    } else {
        -((-s) / 2)
    }
}

/// Two axis-aligned rectangles, given by their centres and full extents,
/// overlap iff on each axis the distance of the centres is strictly less
/// than the sum of the half extents.
pub open spec fn aabb_overlap(
    px1: int,
    py1: int,
    bx1: int,
    by1: int,
    px2: int,
    py2: int,
    bx2: int,
    by2: int,
) -> bool {
    &&& 2 * abs_val(px1 - px2) < bx1 + bx2
    &&& 2 * abs_val(py1 - py2) < by1 + by2
}

/// The mean of two equal values is that value again, even under
/// truncation; this is what makes collision resolution idempotent.
pub proof fn lemma_mean_of_equal(m: int)
    ensures
        mean(m, m) == m,
{
}

/// Both partners of a colliding pair receive the same mean, whichever
/// side of the pair they stand on.
pub proof fn lemma_mean_symmetric(a: int, b: int)
    ensures
        mean(a, b) == mean(b, a),
{
}

/// A product is bounded by the product of the factors' bounds.
pub proof fn lemma_mul_abs_bound(a: int, b: int, am: int, bm: int)
    by (nonlinear_arith)
    requires
        abs_val(a) <= am,
        0 <= b <= bm,
    ensures
        abs_val(a * b) <= am * bm,
{
}

/// Truncating mean of two `i64` values, the collision response:
/// both colliders' velocities are replaced by `(v1 + v2) / 2`.
pub fn mean_i64(a: i64, b: i64) -> (r: i64)
    requires
        i64::MIN < a + b <= i64::MAX,
    ensures
        r == mean(a as int, b as int),
{
    let s: i64 = a + b;
    if s >= 0 {
        s / 2
    } else {
        -((-s) / 2)
    }
}

/// Executable overlap test; positions and extents are widened to `i128`
/// so that the test is total over all `i64` component values.
pub fn overlap_test(
    px1: i64,
    py1: i64,
    bx1: i64,
    by1: i64,
    px2: i64,
    py2: i64,
    bx2: i64,
    by2: i64,
) -> (r: bool)
    ensures
        r == aabb_overlap(
            px1 as int,
            py1 as int,
            bx1 as int,
            by1 as int,
            px2 as int,
            py2 as int,
            bx2 as int,
            by2 as int,
        ),
{
    let dx: i128 = px1 as i128 - px2 as i128;
    let dy: i128 = py1 as i128 - py2 as i128;
    let ax: i128 = if dx < 0 {
        -dx
    } else {
        dx
    };
    let ay: i128 = if dy < 0 {
        -dy
    } else {
        dy
    };
    2 * ax < bx1 as i128 + bx2 as i128 && 2 * ay < by1 as i128 + by2 as i128
}

} // verus!
