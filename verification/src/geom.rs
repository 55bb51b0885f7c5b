//! Fixed-point plane geometry: positions, aim directions, the circle
//! overlap test used by collision resolution, and rotation of an aim
//! direction by a fixed angle for multi-shot fan-out.
//!
//! A coordinate is a signed 64-bit count of world units (ten units to one
//! display pixel).  A direction is a vector in milli-units: the vector
//! (1000, 0) points along the positive x axis with length one.

use vstd::prelude::*;

verus! {

/// Largest coordinate magnitude the world admits.
pub const COORD_LIMIT: i64 = 1_000_000_000;

/// Largest direction component magnitude the world admits.
pub const DIR_LIMIT: i64 = 10_000;

/// Largest radius the overlap test accepts.
pub const RADIUS_LIMIT: u32 = 1_000_000;

/// A point of the world plane, in fixed-point world units.
#[derive(Debug, Clone, Copy, PartialEq, Eq, Structural)]
pub struct Pos {
    pub x: i64,
    pub y: i64,
}

impl Pos {
    /// The point lies within the world's coordinate bounds.
    pub open spec fn wf(self) -> bool {
        &&& -COORD_LIMIT <= self.x <= COORD_LIMIT
        &&& -COORD_LIMIT <= self.y <= COORD_LIMIT
    }

    pub fn new(x: i64, y: i64) -> (p: Pos)
        requires
            -COORD_LIMIT <= x <= COORD_LIMIT,
            -COORD_LIMIT <= y <= COORD_LIMIT,
        ensures
            p.x == x,
            p.y == y,
            p.wf(),
    {
        Pos { x, y }
    }
}

/// A direction vector in milli-units; (1000, 0) has length one.
#[derive(Debug, Clone, Copy, PartialEq, Eq, Structural)]
pub struct Dir {
    pub x: i64,
    pub y: i64,
}

impl Dir {
    /// The components lie within the admitted direction bounds.
    pub open spec fn wf(self) -> bool {
        &&& -DIR_LIMIT <= self.x <= DIR_LIMIT
        &&& -DIR_LIMIT <= self.y <= DIR_LIMIT
    }

    /// The vector is small enough that one rotation keeps it within
    /// the admitted bounds: an aim handed in from outside satisfies
    /// this with components of at most one unit length.
    pub open spec fn rotatable(self) -> bool {
        &&& -4_000 <= self.x <= 4_000
        &&& -4_000 <= self.y <= 4_000
    }
}

/// Squared Euclidean distance between two points, as a mathematical integer.
pub open spec fn dist2(a: Pos, b: Pos) -> int {
    (a.x - b.x) * (a.x - b.x) + (a.y - b.y) * (a.y - b.y)
}

/// Whether two circles at `a` and `b` whose radii sum to `radius_sum`
/// overlap: the collision criterion of the combat resolver.  A hit is
/// declared exactly when the distance is strictly below the radius sum.
pub fn circles_overlap(a: Pos, b: Pos, radius_sum: u32) -> (hit: bool)
    requires
        a.wf(),
        b.wf(),
        radius_sum <= RADIUS_LIMIT,
    ensures
        hit == (dist2(a, b) < radius_sum * radius_sum),
{
    let dx: i64 = a.x - b.x;
    let dy: i64 = a.y - b.y;
    proof {
        assert(dx * dx <= 2_000_000_000i64 * 2_000_000_000i64 && dx * dx >= 0)
            by (nonlinear_arith)
            requires -2_000_000_000 <= dx <= 2_000_000_000;
        assert(dy * dy <= 2_000_000_000i64 * 2_000_000_000i64 && dy * dy >= 0)
            by (nonlinear_arith)
            requires -2_000_000_000 <= dy <= 2_000_000_000;
    }
    let d2: i64 = dx * dx + dy * dy;
    let r: i64 = radius_sum as i64;
    proof {
        assert(r * r <= 1_000_000i64 * 1_000_000i64 && r * r >= 0)
            by (nonlinear_arith)
            requires 0 <= r <= 1_000_000;
    }
    d2 < r * r
}

/// Quotient of `a` by `b`, truncated toward zero, as machine division
/// of signed integers truncates.
pub open spec fn div_trunc(a: int, b: int) -> int {
    if a >= 0 {
        a / b
    } else {
        -((-a) / b)
    }
}

/// The fixed-point rotation of a direction by the angle whose cosine
/// and sine are given in milli-units.
pub open spec fn spec_rotated(d: Dir, cos_m: i64, sin_m: i64) -> Dir {
    Dir {
        x: div_trunc(d.x * cos_m - d.y * sin_m, 1_000) as i64,
        y: div_trunc(d.x * sin_m + d.y * cos_m, 1_000) as i64,
    }
}

/// Coordinate clamped into the world's bounds.
pub open spec fn spec_clamp_coord(v: int) -> int {
    if v < -COORD_LIMIT {
        -COORD_LIMIT as int
    } else if v > COORD_LIMIT {
        COORD_LIMIT as int
    } else {
        v
    }
}

/// Rotate a direction by the angle whose cosine and sine are given in
/// milli-units, as the fan-out of a multi-shot action does.  The result
/// is the exact fixed-point rotation, with truncating division.
pub fn rotate_dir(d: Dir, cos_m: i64, sin_m: i64) -> (r: Dir)
    requires
        d.rotatable(),
        -1_000 <= cos_m <= 1_000,
        -1_000 <= sin_m <= 1_000,
    ensures
        r == spec_rotated(d, cos_m, sin_m),
        r.wf(),
{
    proof {
        assert({
            &&& -4_000_000i64 <= d.x * cos_m <= 4_000_000i64
            &&& -4_000_000i64 <= d.y * sin_m <= 4_000_000i64
            &&& -4_000_000i64 <= d.x * sin_m <= 4_000_000i64
            &&& -4_000_000i64 <= d.y * cos_m <= 4_000_000i64
        })
            by (nonlinear_arith)
            requires
                -4_000 <= d.x <= 4_000,
                -4_000 <= d.y <= 4_000,
                -1_000 <= cos_m <= 1_000,
                -1_000 <= sin_m <= 1_000;
    }
    let nx: i64 = d.x * cos_m - d.y * sin_m;
    let ny: i64 = d.x * sin_m + d.y * cos_m;
    let rx: i64 = if nx >= 0 { nx / 1_000 } else { -((-nx) / 1_000) };
    let ry: i64 = if ny >= 0 { ny / 1_000 } else { -((-ny) / 1_000) };
    Dir { x: rx, y: ry }
}

/// A position advanced one tick along a direction: each coordinate
/// moves by `direction x speed x elapsed time`, scaled back from milli
/// direction units and milliseconds, and is clamped into the world's
/// bounds.
pub open spec fn spec_advanced_pos(pos: Pos, dir: Dir, speed: u32, dt_ms: u32) -> Pos {
    Pos {
        x: spec_clamp_coord(pos.x + div_trunc(dir.x * speed * dt_ms, 1_000_000)) as i64,
        y: spec_clamp_coord(pos.y + div_trunc(dir.y * speed * dt_ms, 1_000_000)) as i64,
    }
}

/// Advance a position one tick along a direction at the given speed.
pub fn advance_pos(pos: Pos, dir: Dir, speed: u32, dt_ms: u32) -> (r: Pos)
    requires
        pos.wf(),
        dir.wf(),
        speed <= 100_000,
        dt_ms <= 60_000,
    ensures
        r == spec_advanced_pos(pos, dir, speed, dt_ms),
        r.wf(),
{
    proof {
        assert({
            &&& -1_000_000_000i64 <= dir.x * speed <= 1_000_000_000i64
            &&& -1_000_000_000i64 <= dir.y * speed <= 1_000_000_000i64
            &&& -60_000_000_000_000i64 <= dir.x * speed * dt_ms <= 60_000_000_000_000i64
            &&& -60_000_000_000_000i64 <= dir.y * speed * dt_ms <= 60_000_000_000_000i64
        })
            by (nonlinear_arith)
            requires
                -10_000 <= dir.x <= 10_000,
                -10_000 <= dir.y <= 10_000,
                0 <= speed <= 100_000,
                0 <= dt_ms <= 60_000;
    }
    let dx = div_trunc_i64(dir.x * (speed as i64) * (dt_ms as i64), 1_000_000);
    let dy = div_trunc_i64(dir.y * (speed as i64) * (dt_ms as i64), 1_000_000);
    Pos { x: clamp_coord(pos.x + dx), y: clamp_coord(pos.y + dy) }
}

/// The integer square root: the unique non-negative root whose square
/// is at most `n` while the next square exceeds it.
pub open spec fn spec_isqrt(n: int) -> int {
    choose|r: int| 0 <= r && #[trigger] (r * r) <= n && n < (r + 1) * (r + 1)
}

/// Any value with the integer-square-root property is the integer
/// square root: the property determines it uniquely.
pub proof fn lemma_isqrt_unique(n: int, r: int)
    requires
        0 <= r,
        r * r <= n,
        n < (r + 1) * (r + 1),
    ensures
        r == spec_isqrt(n),
{
    assert(exists|q: int| 0 <= q && #[trigger] (q * q) <= n && n < (q + 1) * (q + 1)) by {
        assert(0 <= r && r * r <= n && n < (r + 1) * (r + 1));
    }
    let c = spec_isqrt(n);
    assert(0 <= c && c * c <= n && n < (c + 1) * (c + 1));
    assert(c == r) by (nonlinear_arith)
        requires
            0 <= r,
            r * r <= n,
            n < (r + 1) * (r + 1),
            0 <= c,
            c * c <= n,
            n < (c + 1) * (c + 1);
}

/// The integer square root of a non-negative machine integer, by
/// binary search.
pub fn isqrt(n: i64) -> (r: i64)
    requires
        0 <= n <= 8_000_000_000_000_000_000,
    ensures
        r == spec_isqrt(n as int),
        0 <= r <= 3_000_000_000i64,
        r * r <= n,
        n < (r + 1) * (r + 1),
{
    let mut lo: i64 = 0;
    let mut hi: i64 = 3_000_000_000;
    proof {
        assert(3_000_000_001i64 * 3_000_000_001i64 > 8_000_000_000_000_000_000i64)
            by (nonlinear_arith);
    }
    while lo < hi
        invariant
            0 <= lo <= hi <= 3_000_000_000,
            lo * lo <= n,
            n < (hi + 1) * (hi + 1),
        decreases hi - lo,
    {
        let mid = lo + (hi - lo + 1) / 2;
        proof {
            assert(0 <= mid * mid <= 3_000_000_000i64 * 3_000_000_000i64) by (nonlinear_arith)
                requires
                    0 <= mid <= 3_000_000_000;
        }
        if mid * mid <= n {
            lo = mid;
        } else {
            hi = mid - 1;
        }
    }
    proof {
        lemma_isqrt_unique(n as int, lo as int);
    }
    lo
}

/// Quotient of `a` by `b`, truncated toward zero, on machine integers.
pub fn div_trunc_i64(a: i64, b: i64) -> (q: i64)
    requires
        b > 0,
        -1_000_000_000_000_000_000 <= a <= 1_000_000_000_000_000_000,
    ensures
        q == div_trunc(a as int, b as int),
{
    if a >= 0 {
        a / b
    } else {
        -((-a) / b)
    }
}

/// Clamp a coordinate into the world's bounds.
pub fn clamp_coord(v: i64) -> (c: i64)
    ensures
        c == spec_clamp_coord(v as int),
        -COORD_LIMIT <= c <= COORD_LIMIT,
{
    if v < -COORD_LIMIT {
        -COORD_LIMIT
    } else if v > COORD_LIMIT {
        COORD_LIMIT
    } else {
        v
    }
}

} // verus!
