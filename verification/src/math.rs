//! Fixed-point plane geometry for the game logic.
//!
//! All coordinates and direction components are signed integers counting
//! thousandths of a world unit, so every step of the input resolution and of
//! the player movement is exact integer arithmetic.

use vstd::arithmetic::div_mod::{
    lemma_div_is_ordered, lemma_div_multiples_vanish, lemma_div_pos_is_pos,
};
use vstd::prelude::*;

verus! {

/// Fixed-point sub-units per world unit: a coordinate of one world unit is
/// stored as `UNIT` sub-units.
pub const UNIT: i64 = 1000;

/// Largest magnitude accepted for a world coordinate handed to the input
/// resolver, in sub-units.  The difference of two in-range coordinates still
/// has a squared length that fits in an `i64`.
pub const COORD_LIMIT: i64 = 1_000_000_000;

/// Largest component magnitude on which a vector may be normalized: the
/// difference of two in-range coordinates.
pub const NORM_LIMIT: i64 = 2 * COORD_LIMIT;

/// A two-dimensional vector or point in fixed-point world coordinates.
#[derive(Clone, Copy, Debug, PartialEq, Eq, Structural)]
pub struct FixedVec2 {
    pub x: i64,
    pub y: i64,
}

/// The vector has both components zero.
pub open spec fn is_zero(v: FixedVec2) -> bool {
    v.x == 0 && v.y == 0
}

/// Both components lie within the coordinate range accepted by the resolver.
pub open spec fn in_coord_range(v: FixedVec2) -> bool {
    &&& -COORD_LIMIT <= v.x <= COORD_LIMIT
    &&& -COORD_LIMIT <= v.y <= COORD_LIMIT
}

/// Both components are small enough for normalization arithmetic.
pub open spec fn in_norm_range(v: FixedVec2) -> bool {
    &&& -NORM_LIMIT <= v.x <= NORM_LIMIT
    &&& -NORM_LIMIT <= v.y <= NORM_LIMIT
}

/// Both components lie within `UNIT` of zero, as every normalized vector
/// does.
pub open spec fn in_unit_range(v: FixedVec2) -> bool {
    &&& -UNIT <= v.x <= UNIT
    &&& -UNIT <= v.y <= UNIT
}

/// The component-wise difference `a − b`.
pub open spec fn diff(a: FixedVec2, b: FixedVec2) -> FixedVec2 {
    FixedVec2 { x: (a.x - b.x) as i64, y: (a.y - b.y) as i64 }
}

/// Squared Euclidean length of `v`.
pub open spec fn sq_len(v: FixedVec2) -> int {
    v.x * v.x + v.y * v.y
}

/// The squared length of the zero vector is zero; stated apart because the
/// product of a variable with itself is outside the default solver's theory.
pub proof fn lemma_zero_sq_len(v: FixedVec2)
    ensures
        is_zero(v) ==> sq_len(v) == 0,
{
    if is_zero(v) {
        assert(v.x * v.x + v.y * v.y == 0) by (nonlinear_arith)
            requires
                v.x == 0,
                v.y == 0,
        ;
    }
}

/// `r` is the integer square root of `n`: the largest integer whose square
/// does not exceed `n`.
pub open spec fn is_isqrt(n: int, r: int) -> bool {
    &&& 0 <= r
    &&& r * r <= n
    &&& n < (r + 1) * (r + 1)
}

/// The integer square root of `n` (zero for non-positive arguments).
pub open spec fn isqrt_spec(n: int) -> int
    decreases n,
{
    if n <= 0 {
        0
    } else {
        let p = isqrt_spec(n - 1);
        if (p + 1) * (p + 1) <= n {
            p + 1
        } else {
            p
        }
    }
}

/// `isqrt_spec` satisfies the defining property of the integer square root.
pub proof fn lemma_isqrt_spec_is_isqrt(n: int)
    requires
        0 <= n,
    ensures
        is_isqrt(n, isqrt_spec(n)),
    decreases n,
{
    if n > 0 {
        lemma_isqrt_spec_is_isqrt(n - 1);
        let p = isqrt_spec(n - 1);
        if (p + 1) * (p + 1) <= n {
            assert(n < (p + 2) * (p + 2)) by (nonlinear_arith)
                requires
                    n - 1 < (p + 1) * (p + 1),
                    0 <= p,
            ;
        }
    }
}

/// At most one integer satisfies the square-root property for a given `n`.
pub proof fn lemma_isqrt_unique(n: int, a: int, b: int)
    requires
        is_isqrt(n, a),
        is_isqrt(n, b),
    ensures
        a == b,
{
    assert(a == b) by (nonlinear_arith)
        requires
            0 <= a,
            a * a <= n,
            n < (a + 1) * (a + 1),
            0 <= b,
            b * b <= n,
            n < (b + 1) * (b + 1),
    ;
}

/// Integer square root by binary search.
pub fn isqrt64(n: u64) -> (r: u64)
    requires
        n < 9_000_000_000_000_000_000,
    ensures
        is_isqrt(n as int, r as int),
        r as int == isqrt_spec(n as int),
{
    let mut lo: u64 = 0;
    let mut hi: u64 = 3_000_000_000;
    while lo + 1 < hi
        invariant
            lo < hi,
            hi <= 3_000_000_000,
            (lo as int) * (lo as int) <= n as int,
            (n as int) < (hi as int) * (hi as int),
        decreases hi - lo,
    {
        let mid = lo + (hi - lo) / 2;
        assert(lo < mid && mid < hi);
        assert((mid as int) * (mid as int) <= 9_000_000_000_000_000_000) by (nonlinear_arith)
            requires
                0 <= mid as int <= 3_000_000_000,
        ;
        if mid * mid <= n {
            lo = mid;
        } else {
            hi = mid;
        }
    }
    proof {
        lemma_isqrt_spec_is_isqrt(n as int);
        lemma_isqrt_unique(n as int, lo as int, isqrt_spec(n as int));
    }
    lo
}

/// `c` scaled by `UNIT` and divided by `len`, rounding toward zero.
pub open spec fn scaled_div(c: int, len: int) -> int {
    if c >= 0 {
        (c * UNIT) / len
    } else {
        -(((-c) * UNIT) / len)
    }
}

/// Fixed-point normalization: each component becomes its share of the
/// vector's own length, scaled to `UNIT`.  For a non-zero in-range vector
/// the result plays the role of the unit vector of this model.
pub open spec fn norm_spec(v: FixedVec2) -> FixedVec2 {
    let len = isqrt_spec(sq_len(v));
    FixedVec2 {
        x: scaled_div(v.x as int, len) as i64,
        y: scaled_div(v.y as int, len) as i64,
    }
}

proof fn lemma_scaled_div_bounded(c: int, len: int)
    requires
        0 < len,
        -len <= c <= len,
    ensures
        -UNIT <= scaled_div(c, len) <= UNIT,
{
    let a = if c >= 0 { c } else { -c };
    assert(a * (UNIT as int) <= len * (UNIT as int)) by (nonlinear_arith)
        requires
            0 <= a <= len,
    ;
    lemma_div_is_ordered(a * (UNIT as int), len * (UNIT as int), len);
    lemma_div_multiples_vanish(UNIT as int, len);
    assert(len * (UNIT as int) == (UNIT as int) * len) by (nonlinear_arith);
    lemma_div_pos_is_pos(a * (UNIT as int), len);
}

/// The integer square root of the squared length is at least each component's
/// magnitude, and at least 1 for a non-zero vector.
proof fn lemma_len_dominates_components(v: FixedVec2)
    requires
        !is_zero(v),
    ensures
        1 <= isqrt_spec(sq_len(v)),
        v.x <= isqrt_spec(sq_len(v)),
        -v.x <= isqrt_spec(sq_len(v)),
        v.y <= isqrt_spec(sq_len(v)),
        -v.y <= isqrt_spec(sq_len(v)),
{
    let s = sq_len(v);
    assert(1 <= s) by (nonlinear_arith)
        requires
            !(v.x == 0 && v.y == 0),
            s == v.x * v.x + v.y * v.y,
    ;
    lemma_isqrt_spec_is_isqrt(s);
    let len = isqrt_spec(s);
    assert(1 <= len && v.x <= len && -v.x <= len && v.y <= len && -v.y <= len)
        by (nonlinear_arith)
        requires
            1 <= s,
            s == v.x * v.x + v.y * v.y,
            0 <= len,
            len * len <= s,
            s < (len + 1) * (len + 1),
    ;
}

/// The normalized form of a non-zero in-range vector has both components
/// within `UNIT` of zero.
pub proof fn lemma_norm_spec_bounded(v: FixedVec2)
    requires
        in_norm_range(v),
        !is_zero(v),
    ensures
        -UNIT <= norm_spec(v).x <= UNIT,
        -UNIT <= norm_spec(v).y <= UNIT,
{
    lemma_len_dominates_components(v);
    let len = isqrt_spec(sq_len(v));
    lemma_scaled_div_bounded(v.x as int, len);
    lemma_scaled_div_bounded(v.y as int, len);
}

/// Fixed-point normalization of a non-zero in-range vector.
pub fn normalize(v: FixedVec2) -> (r: FixedVec2)
    requires
        in_norm_range(v),
        !is_zero(v),
    ensures
        r == norm_spec(v),
        -UNIT <= r.x <= UNIT,
        -UNIT <= r.y <= UNIT,
{
    proof {
        lemma_norm_spec_bounded(v);
        lemma_len_dominates_components(v);
    }
    let ax: u64 = if v.x < 0 {
        (-v.x) as u64
    } else {
        v.x as u64
    };
    let ay: u64 = if v.y < 0 {
        (-v.y) as u64
    } else {
        v.y as u64
    };
    assert(ax as int * (ax as int) + ay as int * (ay as int) == sq_len(v)
        && sq_len(v) < 9_000_000_000_000_000_000) by (nonlinear_arith)
        requires
            in_norm_range(v),
            ax as int == if v.x < 0 { -(v.x as int) } else { v.x as int },
            ay as int == if v.y < 0 { -(v.y as int) } else { v.y as int },
    ;
    let s = ax * ax + ay * ay;
    let len = isqrt64(s);
    assert(len >= 1);
    let sx = ax * (UNIT as u64) / len;
    let sy = ay * (UNIT as u64) / len;
    assert(sx as int == (ax as int * (UNIT as int)) / (len as int));
    assert(sy as int == (ay as int * (UNIT as int)) / (len as int));
    proof {
        lemma_scaled_div_bounded(v.x as int, len as int);
        lemma_scaled_div_bounded(v.y as int, len as int);
    }
    let rx: i64 = if v.x < 0 {
        -(sx as i64)
    } else {
        sx as i64
    };
    let ry: i64 = if v.y < 0 {
        -(sy as i64)
    } else {
        sy as i64
    };
    FixedVec2 { x: rx, y: ry }
}

} // verus!
