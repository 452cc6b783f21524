//! Planar positions in milli-units, exact squared distances, and integer
//! square roots.
use vstd::prelude::*;

use crate::inventory::clamp;

verus! {

/// A point or vector in the plane, in milli-units.
#[derive(Debug, Clone, Copy, PartialEq, Eq, Structural)]
pub struct Point {
    pub x: i64,
    pub y: i64,
}

/// Angles (milliradians) or angular velocities (milliradians per second)
/// about three axes.
#[derive(Debug, Clone, Copy, PartialEq, Eq, Structural)]
pub struct Spin {
    pub x: i64,
    pub y: i64,
    pub z: i64,
}

/// Squared distance between two points, as an exact integer.
pub open spec fn dist2(a: Point, b: Point) -> int {
    (a.x - b.x) * (a.x - b.x) + (a.y - b.y) * (a.y - b.y)
}

/// Squared length of a vector.
pub open spec fn norm2(p: Point) -> int {
    p.x * p.x + p.y * p.y
}

/// `a + b`, held within the range of `i64`.
pub open spec fn sat_add(a: int, b: int) -> i64 {
    clamp(a + b, i64::MIN as int, i64::MAX as int) as i64
}

/// `p` moved by `d`, each coordinate held within the range of `i64`.
pub open spec fn translate(p: Point, d: Point) -> Point {
    Point { x: sat_add(p.x as int, d.x as int), y: sat_add(p.y as int, d.y as int) }
}

/// Whether `r` is the integer square root of `n`.
pub open spec fn is_isqrt(n: int, r: int) -> bool {
    0 <= r && r * r <= n < (r + 1) * (r + 1)
}

/// `c * length / len`, rounded toward zero.
pub open spec fn scale_component(c: int, length: int, len: int) -> int {
    if c >= 0 {
        c * length / len
    } else {
        -((-c) * length / len)
    }
}

/// `d` stretched to about `length`: each coordinate times `length`, divided by
/// the integer square root of the squared length of `d`.
pub open spec fn scaled_to(d: Point, length: int, len: int) -> Point {
    Point {
        x: scale_component(d.x as int, length, len) as i64,
        y: scale_component(d.y as int, length, len) as i64,
    }
}

/// `a + b` without overflow: the result is held within the range of `i64`.
pub fn saturating_add(a: i64, b: i64) -> (r: i64)
    ensures
        r == sat_add(a as int, b as int),
{
    let s: i128 = a as i128 + b as i128;
    if s < i64::MIN as i128 {
        i64::MIN
    } else if s > i64::MAX as i128 {
        i64::MAX
    } else {
        s as i64
    }
}

impl Point {
    /// This point moved by `d`, coordinates held within the range of `i64`.
    pub fn translated(self, d: Point) -> (r: Point)
        ensures
            r == translate(self, d),
    {
        Point { x: saturating_add(self.x, d.x), y: saturating_add(self.y, d.y) }
    }

    /// Whether this point lies strictly farther than `max_distance` from
    /// `other`, compared on squared distances without rounding.
    pub fn farther_than(self, other: Point, max_distance: i64) -> (r: bool)
        ensures
            r == (dist2(self, other) > max_distance * max_distance),
    {
        let dx: i128 = self.x as i128 - other.x as i128;
        let dy: i128 = self.y as i128 - other.y as i128;
        let ax: u128 = if dx < 0 {
            (-dx) as u128
        } else {
            dx as u128
        };
        let ay: u128 = if dy < 0 {
            (-dy) as u128
        } else {
            dy as u128
        };
        let am: u128 = if max_distance < 0 {
            (-(max_distance as i128)) as u128
        } else {
            max_distance as u128
        };
        proof {
            assert(ax * ax <= 0x1_0000_0000_0000_0000 * 0x1_0000_0000_0000_0000 - 0x2_0000_0000_0000_0000 + 1)
                by (nonlinear_arith)
                requires ax <= 0xffff_ffff_ffff_ffff;
            assert(ay * ay <= 0x1_0000_0000_0000_0000 * 0x1_0000_0000_0000_0000 - 0x2_0000_0000_0000_0000 + 1)
                by (nonlinear_arith)
                requires ay <= 0xffff_ffff_ffff_ffff;
            assert(am * am <= 0x8000_0000_0000_0000 * 0x8000_0000_0000_0000) by (nonlinear_arith)
                requires am <= 0x8000_0000_0000_0000;
            assert(ax * ax == dx * dx) by (nonlinear_arith)
                requires ax == dx || ax == -dx;
            assert(ay * ay == dy * dy) by (nonlinear_arith)
                requires ay == dy || ay == -dy;
            assert(am * am == max_distance * max_distance) by (nonlinear_arith)
                requires am == max_distance || am == -max_distance;
        }
        let x2: u128 = ax * ax;
        let y2: u128 = ay * ay;
        let m2: u128 = am * am;
        if x2 > u128::MAX - y2 {
            true
        } else {
            x2 + y2 > m2
        }
    }
}

/// The integer square root of `n`.
pub fn isqrt(n: u64) -> (r: u64)
    ensures
        is_isqrt(n as int, r as int),
{
    isqrt_wide(n as u128)
}

/// The integer square root of a 128-bit `n`.
pub fn isqrt_wide(n: u128) -> (r: u64)
    ensures
        is_isqrt(n as int, r as int),
{
    let mut lo: u128 = 0;
    let mut hi: u128 = 0x1_0000_0000_0000_0000;
    assert(hi * hi > n) by (nonlinear_arith)
        requires hi == 0x1_0000_0000_0000_0000, n < 0x1_0000_0000_0000_0000 * 0x1_0000_0000_0000_0000;
    while hi - lo > 1
        invariant
            lo < hi <= 0x1_0000_0000_0000_0000,
            lo * lo <= n,
            n < hi * hi,
        decreases hi - lo,
    {
        let mid: u128 = lo + (hi - lo) / 2;
        assert(mid * mid < 0x1_0000_0000_0000_0000 * 0x1_0000_0000_0000_0000) by (nonlinear_arith)
            requires mid < 0x1_0000_0000_0000_0000;
        if mid * mid <= n {
            lo = mid;
        } else {
            hi = mid;
        }
    }
    lo as u64
}

/// Fixed-point factor that directions are scaled by before their length is
/// taken, so that short directions normalise accurately.
pub const FINE: u128 = 0x1_0000_0000;

/// Whether `len` is the integer square root of the squared length of `d`
/// scaled by `FINE`.
pub open spec fn fine_len(d: Point, len: int) -> bool {
    is_isqrt(norm2(d) * (FINE as int) * (FINE as int), len)
}

/// `d` scaled by `FINE`, then stretched to `length` over `len`, each
/// coordinate rounded toward zero.
pub open spec fn normalized_to(d: Point, length: int, len: int) -> Point {
    Point {
        x: scale_component(d.x * (FINE as int), length, len) as i64,
        y: scale_component(d.y * (FINE as int), length, len) as i64,
    }
}

/// `d` stretched to `length`, rounded toward zero: each coordinate is
/// `c * length / |d|`, with `|d|` taken in fixed point.
pub fn scale_to_length(d: Point, length: i64) -> (r: Point)
    requires
        d.x != 0 || d.y != 0,
        length >= 0,
        -0x8000_0000 < d.x < 0x8000_0000,
        -0x8000_0000 < d.y < 0x8000_0000,
    ensures
        exists|len: int| fine_len(d, len) && r == normalized_to(d, length as int, len),
{
    let ax: u128 = if d.x < 0 {
        (-d.x) as u128
    } else {
        d.x as u128
    };
    let ay: u128 = if d.y < 0 {
        (-d.y) as u128
    } else {
        d.y as u128
    };
    proof {
        assert(ax * ax == d.x * d.x) by (nonlinear_arith)
            requires ax == d.x || ax == -d.x;
        assert(ay * ay == d.y * d.y) by (nonlinear_arith)
            requires ay == d.y || ay == -d.y;
        assert(ax * ax <= 0x8000_0000 * 0x8000_0000) by (nonlinear_arith)
            requires ax <= 0x8000_0000;
        assert(ay * ay <= 0x8000_0000 * 0x8000_0000) by (nonlinear_arith)
            requires ay <= 0x8000_0000;
        assert(ax * ax + ay * ay > 0) by (nonlinear_arith)
            requires ax > 0 || ay > 0;
    }
    let n2: u128 = ax * ax + ay * ay;
    proof {
        assert(n2 * FINE * FINE <= 0x8000_0000_0000_0000 * 0x1_0000_0000_0000_0000) by (nonlinear_arith)
            requires n2 <= 0x8000_0000_0000_0000, FINE == 0x1_0000_0000;
    }
    let n: u128 = n2 * FINE * FINE;
    let len = isqrt_wide(n);
    let fx: u128 = ax * FINE;
    let fy: u128 = ay * FINE;
    proof {
        assert(n > 0) by (nonlinear_arith)
            requires n2 > 0, n == n2 * FINE * FINE, FINE == 0x1_0000_0000;
        assert(is_isqrt(n as int, len as int));
        assert(len >= 1) by (nonlinear_arith)
            requires n > 0, n < (len + 1) * (len + 1), len >= 0;
        assert(fx * fx <= n) by (nonlinear_arith)
            requires fx == ax * FINE, n == (ax * ax + ay * ay) * FINE * FINE;
        assert(fy * fy <= n) by (nonlinear_arith)
            requires fy == ay * FINE, n == (ax * ax + ay * ay) * FINE * FINE;
        assert(fx <= len) by (nonlinear_arith)
            requires fx * fx <= n, n < (len + 1) * (len + 1), len >= 0, fx >= 0;
        assert(fy <= len) by (nonlinear_arith)
            requires fy * fy <= n, n < (len + 1) * (len + 1), len >= 0, fy >= 0;
        assert(fx * length <= 0x1_0000_0000_0000_0000 * 0x8000_0000_0000_0000) by (nonlinear_arith)
            requires fx <= len, len < 0x1_0000_0000_0000_0000, 0 <= length < 0x8000_0000_0000_0000;
        assert(fy * length <= 0x1_0000_0000_0000_0000 * 0x8000_0000_0000_0000) by (nonlinear_arith)
            requires fy <= len, len < 0x1_0000_0000_0000_0000, 0 <= length < 0x8000_0000_0000_0000;
        let (xi, yi, li, ni) = (fx as int, fy as int, len as int, length as int);
        assert(xi * ni / li <= ni) by (nonlinear_arith)
            requires xi <= li, li > 0, ni >= 0;
        assert(yi * ni / li <= ni) by (nonlinear_arith)
            requires yi <= li, li > 0, ni >= 0;
        assert(norm2(d) * (FINE as int) * (FINE as int) == n);
    }
    let sx: u128 = fx * length as u128 / len as u128;
    let sy: u128 = fy * length as u128 / len as u128;
    let x: i64 = if d.x < 0 {
        -(sx as i64)
    } else {
        sx as i64
    };
    let y: i64 = if d.y < 0 {
        -(sy as i64)
    } else {
        sy as i64
    };
    proof {
        assert(fine_len(d, len as int));
        assert(d.x < 0 ==> -d.x * (FINE as int) == fx);
        assert(d.y < 0 ==> -d.y * (FINE as int) == fy);
    }
    Point { x, y }
}

/// The integer square root is unique.
pub proof fn lemma_isqrt_unique(n: int, r: int)
    requires
        is_isqrt(n, r),
    ensures
        forall|s: int| is_isqrt(n, s) ==> s == r,
{
    assert forall|s: int| is_isqrt(n, s) implies s == r by {
        if s < r {
            assert((s + 1) * (s + 1) <= r * r) by (nonlinear_arith)
                requires 0 <= s < r;
        } else if s > r {
            assert((r + 1) * (r + 1) <= s * s) by (nonlinear_arith)
                requires 0 <= r < s;
        }
    }
}

} // verus!
