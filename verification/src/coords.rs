//! Fixed-point world coordinates and the arithmetic the other modules need.
//!
//! A coordinate is an `i64` counting `FX_ONE`-ths of a world pixel. All
//! positions, speeds (per second) and elapsed times (in seconds) use this
//! representation, so `90` world pixels are stored as `90 * FX_ONE`.

use vstd::prelude::*;

verus! {

/// One world pixel, in fixed-point subunits.
pub const FX_ONE: i64 = 65536;

/// Edge length of every chunk: 144 world pixels, in subunits.
pub const CHUNK_EDGE: i64 = 144 * 65536;

/// Largest magnitude allowed for a chunk origin coordinate.
pub const COORD_LIMIT: i64 = 0x100_0000_0000;

/// Largest speed the movement resolver accepts (4096 pixels per second).
pub const MAX_SPEED: i64 = 0x1000_0000;

/// Largest elapsed time per tick the movement resolver accepts (64 seconds).
pub const MAX_ELAPSED: i64 = 0x40_0000;

/// Largest magnitude an actor position can reach: a position inside a chunk
/// is bounded by `COORD_LIMIT + CHUNK_EDGE`, and one committed move adds at
/// most `MAX_SPEED * MAX_ELAPSED / FX_ONE` subunits.
pub const POS_LIMIT: i64 = 0x100_0000_0000 + 144 * 65536 + 0x4_0000_0000;

/// Fixed-point value of one over the square root of two, rounded to the
/// nearest subunit: the per-axis factor that keeps diagonal speed equal to
/// cardinal speed.
pub const FRAC_RSQRT2: i64 = 46341;

/// A point (or displacement) in fixed-point world coordinates.
#[derive(Clone, Copy, Debug, PartialEq, Eq, Structural)]
pub struct WorldPoint {
    pub x: i64,
    pub y: i64,
}

/// Fixed-point product of two nonnegative values: `a * b / FX_ONE`,
/// rounded toward zero.
pub fn fx_mul(a: i64, b: i64) -> (r: i64)
    requires
        0 <= a,
        0 <= b,
        a * b <= i64::MAX,
    ensures
        r == (a * b) / (FX_ONE as int),
        0 <= r,
        r <= a * b,
{
    let p: i64 = a * b;
    let r: i64 = p / FX_ONE;
    proof {
        vstd::arithmetic::div_mod::lemma_div_is_ordered_by_denominator(p as int, 1, FX_ONE as int);
        vstd::arithmetic::div_mod::lemma_div_by_multiple(p as int, 1);
        vstd::arithmetic::div_mod::lemma_div_pos_is_pos(p as int, FX_ONE as int);
    }
    r
}

/// Quotient of `a` by a positive `b`, rounded toward negative infinity.
/// This matches the mathematical (Euclidean) quotient `a / b`.
pub fn floor_div(a: i64, b: i64) -> (r: i64)
    requires
        0 < b,
        -0x4000_0000_0000_0000 <= a <= 0x4000_0000_0000_0000,
    ensures
        r == a as int / b as int,
{
    let q: i64 = a / b;
    let rem: i64 = a % b;
    if rem != 0 && a < 0 {
        proof {
            lemma_truncated_vs_floor_div(a as int, b as int);
        }
        q - 1
    } else {
        proof {
            lemma_truncated_vs_floor_div(a as int, b as int);
        }
        q
    }
}

/// For a negative dividend and positive divisor, the truncated quotient that
/// the machine computes sits one above the floored quotient unless the
/// division is exact.
proof fn lemma_truncated_vs_floor_div(a: int, b: int)
    requires
        0 < b,
    ensures
        a < 0 && (-a) % b == 0 ==> -((-a) / b) == a / b,
        a < 0 && (-a) % b != 0 ==> -((-a) / b) - 1 == a / b,
{
    if a < 0 {
        let m = -a;
        vstd::arithmetic::div_mod::lemma_fundamental_div_mod(m, b);
        let qm = m / b;
        let rm = m % b;
        vstd::arithmetic::div_mod::lemma_mod_bound(m, b);
        if rm == 0 {
            assert(a == b * (-qm) + 0) by (nonlinear_arith)
                requires
                    m == b * qm + rm,
                    rm == 0,
                    a == -m,
            ;
            vstd::arithmetic::div_mod::lemma_fundamental_div_mod_converse(a, b, -qm, 0);
        } else {
            assert(a == b * (-qm - 1) + (b - rm)) by (nonlinear_arith)
                requires
                    m == b * qm + rm,
                    a == -m,
            ;
            vstd::arithmetic::div_mod::lemma_fundamental_div_mod_converse(a, b, -qm - 1, b - rm);
        }
    }
}

/// Grid cell index (along one axis) of a coordinate, for cells of edge
/// `size`: the floored quotient, so cell `c` spans `[c * size, (c + 1) * size)`.
pub open spec fn cell_index(v: int, size: int) -> int {
    v / size
}

/// Grid cell (along one axis) of a coordinate for cells of edge `size`.
pub fn cell_of(v: i64, size: i64) -> (c: i64)
    requires
        0 < size,
        -0x4000_0000_0000_0000 <= v <= 0x4000_0000_0000_0000,
    ensures
        c == cell_index(v as int, size as int),
{
    floor_div(v, size)
}

} // verus!
