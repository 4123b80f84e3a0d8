//! Fixed-point geometry. World coordinates are milli-units (one thousandth
//! of a world unit); the screen maps to world units through a fixed
//! world-to-screen scale factor, so a window pixel is a quarter unit and
//! converts to milli-units exactly.

use vstd::prelude::*;

verus! {

/// Screen pixels per world unit.
pub const SCALE_FACTOR: i64 = 4;

/// Milli-units per window pixel: 1000 / SCALE_FACTOR.
pub const PX_TO_MU: i64 = 250;

/// Largest window dimension accepted, in pixels.
pub const MAX_WINDOW_PX: u32 = 100_000;

/// Largest viewport extent in milli-units: MAX_WINDOW_PX * PX_TO_MU.
pub const MAX_VIEW_MU: i64 = 25_000_000;

/// Positions of simulated entities stay within this bound (the viewport
/// plus generous slack for off-screen travel within a tick).
pub const POS_LIMIT_MU: i64 = 200_000_000;

/// Longest tick accepted, in milliseconds.
pub const MAX_TICK_MS: u32 = 1_000;

/// The viewport in world milli-units, centered on the origin.
#[derive(Clone, Copy, PartialEq, Eq, Structural, Debug)]
pub struct Viewport {
    pub width: i64,
    pub height: i64,
}

impl Viewport {
    /// A usable viewport: at least a few sprites wide and tall, within the
    /// machine bound, and with even extents (pixel dimensions convert to
    /// even milli-unit counts).
    pub open spec fn wf(self) -> bool {
        &&& 32_000 <= self.width <= MAX_VIEW_MU
        &&& 32_000 <= self.height <= MAX_VIEW_MU
        &&& self.width % 2 == 0
        &&& self.height % 2 == 0
    }

    /// Converts window dimensions in pixels to a viewport in milli-units.
    pub fn from_window(width_px: u32, height_px: u32) -> (v: Viewport)
        requires
            128 <= width_px <= MAX_WINDOW_PX,
            128 <= height_px <= MAX_WINDOW_PX,
        ensures
            v.wf(),
            v.width == width_px * PX_TO_MU,
            v.height == height_px * PX_TO_MU,
    {
        Viewport {
            width: (width_px as i64) * PX_TO_MU,
            height: (height_px as i64) * PX_TO_MU,
        }
    }
}

/// The displacement `v * dt / 1000` of a velocity in milli-units per second
/// over `dt` milliseconds, truncated toward zero.
pub open spec fn scale_ms(v: int, dt: int) -> int {
    if v >= 0 {
        (v * dt) / 1000
    } else {
        -(((-v) * dt) / 1000)
    }
}

/// Computes `scale_ms` on machine integers.
pub fn mul_ms(v: i64, dt: u32) -> (r: i64)
    requires
        -1_000_000_000_000 <= v <= 1_000_000_000_000,
        dt <= MAX_TICK_MS,
    ensures
        r == scale_ms(v as int, dt as int),
        v >= 0 ==> 0 <= r <= v,
        v < 0 ==> v <= r <= 0,
{
    let mag: i64 = if v >= 0 { v } else { -v };
    proof {
        vstd::arithmetic::mul::lemma_mul_upper_bound(
            mag as int,
            1_000_000_000_000,
            dt as int,
            1000,
        );
    }
    let m: u64 = (mag as u64) * (dt as u64);
    proof {
        vstd::arithmetic::mul::lemma_mul_upper_bound(mag as int, mag as int, dt as int, 1000);
        vstd::arithmetic::div_mod::lemma_div_is_ordered(m as int, mag as int * 1000, 1000);
        vstd::arithmetic::div_mod::lemma_div_by_multiple(mag as int, 1000);
    }
    let q: i64 = (m / 1000) as i64;
    if v >= 0 {
        q
    } else {
        -q
    }
}

/// Whether two points lie strictly within `r` of each other (Euclidean
/// distance), stated on squares to stay in integers.
pub open spec fn close_within(ax: int, ay: int, bx: int, by: int, r: int) -> bool {
    (ax - bx) * (ax - bx) + (ay - by) * (ay - by) < r * r
}

/// Whether two points lie within `r` of each other or exactly at it.
pub open spec fn within_dist(ax: int, ay: int, bx: int, by: int, r: int) -> bool {
    (ax - bx) * (ax - bx) + (ay - by) * (ay - by) <= r * r
}

/// The square of a difference, on unsigned machine words.
fn square(d: i64) -> (s: u64)
    requires
        -2_100_000_000 <= d <= 2_100_000_000,
    ensures
        s == (d as int) * (d as int),
        s <= 4_410_000_000_000_000_000,
{
    let m: u64 = if d >= 0 { d as u64 } else { (-d) as u64 };
    proof {
        vstd::arithmetic::mul::lemma_mul_upper_bound(
            m as int,
            2_100_000_000,
            m as int,
            2_100_000_000,
        );
        assert(m as int * m as int == d as int * d as int) by (nonlinear_arith)
            requires
                m as int == d as int || m as int == -(d as int),
        ;
    }
    m * m
}

/// Decides `close_within` on machine integers.
pub fn is_close_within(ax: i64, ay: i64, bx: i64, by: i64, r: i64) -> (c: bool)
    requires
        -1_000_000_000 <= ax <= 1_000_000_000,
        -1_000_000_000 <= ay <= 1_000_000_000,
        -1_000_000_000 <= bx <= 1_000_000_000,
        -1_000_000_000 <= by <= 1_000_000_000,
        0 <= r <= 1_000_000_000,
    ensures
        c == close_within(ax as int, ay as int, bx as int, by as int, r as int),
{
    let sdx: u64 = square(ax - bx);
    let sdy: u64 = square(ay - by);
    let sr: u64 = square(r);
    sdx + sdy < sr
}

/// Decides `within_dist` on machine integers.
pub fn is_within_dist(ax: i64, ay: i64, bx: i64, by: i64, r: i64) -> (c: bool)
    requires
        -1_000_000_000 <= ax <= 1_000_000_000,
        -1_000_000_000 <= ay <= 1_000_000_000,
        -1_000_000_000 <= bx <= 1_000_000_000,
        -1_000_000_000 <= by <= 1_000_000_000,
        0 <= r <= 1_000_000_000,
    ensures
        c == within_dist(ax as int, ay as int, bx as int, by as int, r as int),
{
    let sdx: u64 = square(ax - bx);
    let sdy: u64 = square(ay - by);
    let sr: u64 = square(r);
    sdx + sdy <= sr
}

/// A displacement over at most a second never exceeds the velocity itself
/// and never points against it.
pub proof fn lemma_scale_ms_bounds(v: int, dt: int)
    requires
        0 <= dt <= 1000,
    ensures
        v >= 0 ==> 0 <= scale_ms(v, dt) <= v,
        v < 0 ==> v <= scale_ms(v, dt) <= 0,
{
    let mag = if v >= 0 {
        v
    } else {
        -v
    };
    vstd::arithmetic::mul::lemma_mul_nonnegative(mag, dt);
    vstd::arithmetic::mul::lemma_mul_upper_bound(mag, mag, dt, 1000);
    vstd::arithmetic::div_mod::lemma_div_pos_is_pos(mag * dt, 1000);
    vstd::arithmetic::div_mod::lemma_div_is_ordered(mag * dt, mag * 1000, 1000);
    vstd::arithmetic::div_mod::lemma_div_by_multiple(mag, 1000);
}

/// Points within distance `r` of each other differ by at most `r` in each
/// coordinate.
pub proof fn lemma_dist_bounds_components(ax: int, ay: int, bx: int, by: int, r: int)
    requires
        within_dist(ax, ay, bx, by, r),
        r >= 0,
    ensures
        -r <= ax - bx <= r,
        -r <= ay - by <= r,
{
    assert(-r <= ax - bx <= r && -r <= ay - by <= r) by (nonlinear_arith)
        requires
            (ax - bx) * (ax - bx) + (ay - by) * (ay - by) <= r * r,
            r >= 0,
    ;
}

} // verus!
