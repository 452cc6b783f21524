//! Random draws for procedural placement. Every draw goes through
//! `random_range`; the rest is verified for whatever values come back.
use vstd::prelude::*;

use rand::Rng;

use crate::geometry::{dist2, scaled_to, Point};

verus! {

/// Candidate draws made by a rejection sampler before it gives up. Each draw
/// is accepted with probability above three quarters, so giving up is
/// practically unheard of.
pub const DRAW_ATTEMPTS: u32 = 64;

/// Resolution of a drawn direction or unit-disk point: coordinates run from
/// minus this to plus this.
pub const DIRECTION_RESOLUTION: i64 = 1000;

/// A uniformly drawn integer of `[min, max]`.
///
/// Relies on rand's `Rng::gen_range` over an inclusive range, from
/// `rand::thread_rng()`: the value lies within the bounds. `gen_range` panics
/// on an empty range, which the precondition rules out.
#[verifier::external_body]
pub fn random_range(min: i64, max: i64) -> (r: i64)
    requires
        min <= max,
    ensures
        min <= r <= max,
{
    rand::thread_rng().gen_range(min..=max)
}

/// A drawn direction candidate: the pair as a point, unless both are zero.
pub fn direction_candidate(x: i64, y: i64) -> (r: Option<Point>)
    ensures
        r == (if x != 0 || y != 0 {
            Some(Point { x, y })
        } else {
            None
        }),
{
    if x != 0 || y != 0 {
        Some(Point { x, y })
    } else {
        None
    }
}

/// A random non-zero direction: a point of the square of side
/// `2 * DIRECTION_RESOLUTION` other than its centre, the first accepted by
/// `direction_candidate`. It is not normalised; see `scale_to_length`.
pub fn random_direction() -> (r: Point)
    ensures
        r.x != 0 || r.y != 0,
        -DIRECTION_RESOLUTION <= r.x <= DIRECTION_RESOLUTION,
        -DIRECTION_RESOLUTION <= r.y <= DIRECTION_RESOLUTION,
{
    let mut attempt: u32 = 0;
    while attempt < DRAW_ATTEMPTS
        decreases DRAW_ATTEMPTS - attempt,
    {
        let x = random_range(-DIRECTION_RESOLUTION, DIRECTION_RESOLUTION);
        let y = random_range(-DIRECTION_RESOLUTION, DIRECTION_RESOLUTION);
        if let Some(d) = direction_candidate(x, y) {
            return d;
        }
        attempt = attempt + 1;
    }
    Point { x: DIRECTION_RESOLUTION, y: 0 }
}

/// A drawn unit-disk candidate `(x, y)`, in steps of `DIRECTION_RESOLUTION`:
/// kept if it lies in the closed unit disk, and then scaled by `radius`,
/// each coordinate rounded toward zero.
pub fn unit_disk_candidate(x: i64, y: i64, radius: i64) -> (r: Option<Point>)
    requires
        0 <= radius,
        -DIRECTION_RESOLUTION <= x <= DIRECTION_RESOLUTION,
        -DIRECTION_RESOLUTION <= y <= DIRECTION_RESOLUTION,
    ensures
        r == (if x * x + y * y <= DIRECTION_RESOLUTION * DIRECTION_RESOLUTION {
            Some(scaled_to(Point { x, y }, radius as int, DIRECTION_RESOLUTION as int))
        } else {
            None
        }),
{
    assert(0 <= x * x <= 1_000_000 && 0 <= y * y <= 1_000_000) by (nonlinear_arith)
        requires -1000 <= x <= 1000, -1000 <= y <= 1000;
    if x * x + y * y <= DIRECTION_RESOLUTION * DIRECTION_RESOLUTION {
        Some(Point { x: scale_by_thousandths(x, radius), y: scale_by_thousandths(y, radius) })
    } else {
        None
    }
}

/// A random point of the closed disk of radius `radius` around the origin:
/// the first drawn candidate that `unit_disk_candidate` keeps (the origin if
/// every draw misses).
pub fn random_in_circle(radius: i64) -> (r: Point)
    requires
        0 <= radius,
    ensures
        exists|p: Point|
            dist2(p, Point { x: 0, y: 0 }) <= DIRECTION_RESOLUTION * DIRECTION_RESOLUTION
                && r == scaled_to(p, radius as int, DIRECTION_RESOLUTION as int),
{
    let mut attempt: u32 = 0;
    while attempt < DRAW_ATTEMPTS
        invariant
            0 <= radius,
        decreases DRAW_ATTEMPTS - attempt,
    {
        let x = random_range(-DIRECTION_RESOLUTION, DIRECTION_RESOLUTION);
        let y = random_range(-DIRECTION_RESOLUTION, DIRECTION_RESOLUTION);
        if let Some(r) = unit_disk_candidate(x, y, radius) {
            assert(dist2(Point { x, y }, Point { x: 0, y: 0 }) <= DIRECTION_RESOLUTION * DIRECTION_RESOLUTION);
            return r;
        }
        attempt = attempt + 1;
    }
    let p = Point { x: 0, y: 0 };
    let r = Point { x: scale_by_thousandths(0, radius), y: scale_by_thousandths(0, radius) };
    assert(dist2(p, Point { x: 0, y: 0 }) <= DIRECTION_RESOLUTION * DIRECTION_RESOLUTION);
    assert(r == scaled_to(p, radius as int, DIRECTION_RESOLUTION as int));
    r
}

/// `c * length / DIRECTION_RESOLUTION`, rounded toward zero.
fn scale_by_thousandths(c: i64, length: i64) -> (r: i64)
    requires
        -DIRECTION_RESOLUTION <= c <= DIRECTION_RESOLUTION,
        0 <= length,
    ensures
        r == crate::geometry::scale_component(c as int, length as int, DIRECTION_RESOLUTION as int),
{
    let a: u128 = if c < 0 {
        (-c) as u128
    } else {
        c as u128
    };
    proof {
        let (ai, li) = (a as int, length as int);
        assert(ai * li <= 1000 * 0x8000_0000_0000_0000) by (nonlinear_arith)
            requires 0 <= ai <= 1000, 0 <= li < 0x8000_0000_0000_0000;
        assert(ai * li / 1000 <= li) by (nonlinear_arith)
            requires 0 <= ai <= 1000, 0 <= li;
    }
    let s: u128 = a * length as u128 / 1000;
    if c < 0 {
        -(s as i64)
    } else {
        s as i64
    }
}

/// A drawn candidate for a point strictly inside the disk of radius
/// `radius` around the origin: kept if it lies inside, dropped otherwise.
pub fn disk_candidate(x: i64, y: i64, radius: i64) -> (r: Option<Point>)
    requires
        0 <= radius,
        -radius <= x <= radius,
        -radius <= y <= radius,
    ensures
        r == (if x * x + y * y < radius * radius {
            Some(Point { x, y })
        } else {
            None
        }),
{
    let ax: u128 = if x < 0 {
        (-x) as u128
    } else {
        x as u128
    };
    let ay: u128 = if y < 0 {
        (-y) as u128
    } else {
        y as u128
    };
    let ar: u128 = radius as u128;
    proof {
        assert(ax * ax <= ar * ar) by (nonlinear_arith)
            requires ax <= ar;
        assert(ay * ay <= ar * ar) by (nonlinear_arith)
            requires ay <= ar;
        assert(ar * ar <= 0x8000_0000_0000_0000 * 0x8000_0000_0000_0000) by (nonlinear_arith)
            requires ar <= 0x8000_0000_0000_0000;
        assert(ax * ax == x * x) by (nonlinear_arith)
            requires ax == x || ax == -x;
        assert(ay * ay == y * y) by (nonlinear_arith)
            requires ay == y || ay == -y;
    }
    if ax * ax + ay * ay < ar * ar {
        Some(Point { x, y })
    } else {
        None
    }
}

/// A random point strictly inside the disk of radius `radius` around the
/// origin, by rejection from the enclosing square: the first drawn candidate
/// that `disk_candidate` keeps, or the origin itself if every draw misses (or
/// the disk is empty).
pub fn scatter_in_disk(radius: i64) -> (r: Point)
    requires
        0 <= radius,
    ensures
        dist2(r, Point { x: 0, y: 0 }) < radius * radius || r == (Point { x: 0, y: 0 }),
        -radius <= r.x <= radius,
        -radius <= r.y <= radius,
{
    let mut attempt: u32 = 0;
    while attempt < DRAW_ATTEMPTS
        invariant
            0 <= radius,
        decreases DRAW_ATTEMPTS - attempt,
    {
        let x = random_range(-radius, radius);
        let y = random_range(-radius, radius);
        if let Some(p) = disk_candidate(x, y, radius) {
            return p;
        }
        attempt = attempt + 1;
    }
    Point { x: 0, y: 0 }
}

} // verus!
