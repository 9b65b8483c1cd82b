//! Headings: where the ball is going.
//!
//! A heading is a pair of whole numbers `(x, y)` that stands for the real
//! vector `(x / DIR_ONE, y / DIR_ONE)`. It is a unit vector up to the
//! rounding of its components, and only ever changes by the sign of a
//! component.

use vstd::prelude::*;
use crate::arena::DIR_ONE;

verus! {

/// A point or a displacement of the plane, in mathematical integers.
pub struct Vector {
    pub x: int,
    pub y: int,
}

impl Vector {
    /// The square of the length.
    pub open spec fn norm_sq(self) -> int {
        self.x * self.x + self.y * self.y
    }

    /// The vector mirrored in the vertical axis.
    pub open spec fn flip_x(self) -> Vector {
        Vector { x: -self.x, y: self.y }
    }

    /// The vector mirrored in the horizontal axis.
    pub open spec fn flip_y(self) -> Vector {
        Vector { x: self.x, y: -self.y }
    }
}

/// The square of the length of a unit heading: `DIR_ONE` times `DIR_ONE`.
pub const UNIT_SQ: i64 = 281_474_976_710_656;

/// How far the square of a heading's length may be from `UNIT_SQ`.
/// As a fraction of that square it is 2^-22, which keeps the length itself
/// within 2^-23 of one.
pub const UNIT_SLACK: i64 = 67_108_864;

/// Whether `v` has length one, up to the rounding of its components.
pub open spec fn is_unit(v: Vector) -> bool {
    UNIT_SQ - UNIT_SLACK <= v.norm_sq() <= UNIT_SQ + UNIT_SLACK
}

/// The square of one is one squared.
pub proof fn lemma_unit_sq()
    ensures
        UNIT_SQ == DIR_ONE * DIR_ONE,
{
}

/// Mirroring a vector keeps its length.
pub proof fn lemma_flip_keeps_norm(v: Vector)
    ensures
        v.flip_x().norm_sq() == v.norm_sq(),
        v.flip_y().norm_sq() == v.norm_sq(),
        is_unit(v.flip_x()) == is_unit(v),
        is_unit(v.flip_y()) == is_unit(v),
{
    assert((-v.x) * (-v.x) == v.x * v.x) by (nonlinear_arith);
    assert((-v.y) * (-v.y) == v.y * v.y) by (nonlinear_arith);
}

/// A unit vector's components are no longer than the vector.
pub proof fn lemma_unit_components(v: Vector)
    requires
        is_unit(v),
    ensures
        -DIR_ONE - 1 <= v.x <= DIR_ONE + 1,
        -DIR_ONE - 1 <= v.y <= DIR_ONE + 1,
{
    lemma_square_bound(v.x, v.y);
    lemma_square_bound(v.y, v.x);
}

proof fn lemma_square_bound(a: int, b: int)
    requires
        a * a + b * b <= UNIT_SQ + UNIT_SLACK,
    ensures
        -DIR_ONE - 1 <= a <= DIR_ONE + 1,
{
    assert(b * b >= 0) by (nonlinear_arith);
    assert(a >= 16_777_218 ==> a * a >= 16_777_218 * 16_777_218) by (nonlinear_arith);
    assert(a <= -16_777_218 ==> a * a >= 16_777_218 * 16_777_218) by (nonlinear_arith);
}

/// The heading of the ball.
#[derive(Clone, Copy, Debug, PartialEq, Eq)]
pub struct Direction {
    x: i32,
    y: i32,
}

impl View for Direction {
    type V = Vector;

    closed spec fn view(&self) -> Vector {
        Vector { x: self.x as int, y: self.y as int }
    }
}

impl Direction {
    /// A heading is well formed when it is a unit vector.
    pub open spec fn wf(&self) -> bool {
        is_unit(self@)
    }

    /// Two headings that stand for the same vector are the same heading.
    pub proof fn lemma_view_injective(self, other: Direction)
        requires
            self@ == other@,
        ensures
            self == other,
    {
    }

    /// The heading with components `x` and `y`, if that is a unit vector.
    pub fn new(x: i32, y: i32) -> (r: Option<Direction>)
        ensures
            r is Some <==> is_unit(Vector { x: x as int, y: y as int }),
            r matches Some(d) ==> d@ == (Vector { x: x as int, y: y as int }),
    {
        let wx: i128 = x as i128;
        let wy: i128 = y as i128;
        assert(wx * wx <= 0x4000_0000_0000_0000 && wx * wx >= 0) by (nonlinear_arith)
            requires
                -0x8000_0000 <= wx <= 0x8000_0000,
        ;
        assert(wy * wy <= 0x4000_0000_0000_0000 && wy * wy >= 0) by (nonlinear_arith)
            requires
                -0x8000_0000 <= wy <= 0x8000_0000,
        ;
        let n: i128 = wx * wx + wy * wy;
        if (UNIT_SQ - UNIT_SLACK) as i128 <= n && n <= (UNIT_SQ + UNIT_SLACK) as i128 {
            Some(Direction { x, y })
        } else {
            None
        }
    }

    /// The horizontal component.
    pub fn x(&self) -> (r: i32)
        ensures
            r == self@.x,
    {
        self.x
    }

    /// The vertical component.
    pub fn y(&self) -> (r: i32)
        ensures
            r == self@.y,
    {
        self.y
    }

    /// The heading mirrored in the vertical axis.
    pub fn flipped_x(self) -> (r: Direction)
        requires
            self.wf(),
        ensures
            r@ == self@.flip_x(),
            r.wf(),
    {
        proof {
            lemma_unit_components(self@);
            lemma_flip_keeps_norm(self@);
        }
        Direction { x: -self.x, y: self.y }
    }

    /// The heading mirrored in the horizontal axis.
    pub fn flipped_y(self) -> (r: Direction)
        requires
            self.wf(),
        ensures
            r@ == self@.flip_y(),
            r.wf(),
    {
        proof {
            lemma_unit_components(self@);
            lemma_flip_keeps_norm(self@);
        }
        Direction { x: self.x, y: -self.y }
    }
}

/// The part of a 32-bit sample that is used: its upper 24 bits, a whole
/// number of steps of `1 / DIR_ONE` from zero up to, not including, one.
pub open spec fn fraction(sample: u32) -> int {
    sample as int / 256
}

/// The point whose coordinates are the fractions of the samples `a` and `b`.
pub open spec fn sampled(a: u32, b: u32) -> Vector {
    Vector { x: fraction(a), y: fraction(b) }
}

/// Whether `d` is the component `k` of a vector whose squared length is
/// `s`, after that vector has been stretched to the length `DIR_ONE`, and
/// rounded down: the whole number `d` with `d <= k * DIR_ONE / sqrt(s) < d + 1`.
pub open spec fn is_scaled(d: int, k: int, s: int) -> bool {
    &&& 0 <= d
    &&& d * d * s <= k * k * UNIT_SQ
    &&& k * k * UNIT_SQ < (d + 1) * (d + 1) * s
}

/// Whether `v` is the vector `k`, which points up and to the right, brought
/// to unit length, each component rounded down.
pub open spec fn is_normalized(v: Vector, k: Vector) -> bool {
    &&& is_scaled(v.x, k.x, k.norm_sq())
    &&& is_scaled(v.y, k.y, k.norm_sq())
}

/// At most one number is a given component brought to unit length.
pub proof fn lemma_scaled_unique(d: int, e: int, k: int, s: int)
    requires
        is_scaled(d, k, s),
        is_scaled(e, k, s),
        s > 0,
    ensures
        d == e,
{
    if d < e {
        lemma_square_step(d + 1, e, s);
    } else if e < d {
        lemma_square_step(e + 1, d, s);
    }
}

/// Squares grow with their roots, and so do their multiples.
proof fn lemma_square_step(a: int, b: int, s: int)
    requires
        0 <= a <= b,
        s >= 0,
    ensures
        a * a * s <= b * b * s,
{
    assert(a * a <= b * b) by (nonlinear_arith)
        requires
            0 <= a <= b,
    ;
    assert(a * a * s <= b * b * s) by (nonlinear_arith)
        requires
            a * a <= b * b,
            s >= 0,
    ;
}

/// A vector brought to unit length is a unit vector, up to rounding.
pub proof fn lemma_normalized_is_unit(v: Vector, k: Vector)
    requires
        is_normalized(v, k),
        k.norm_sq() > 0,
    ensures
        is_unit(v),
        v.norm_sq() <= UNIT_SQ,
{
    let s = k.norm_sq();
    let u = UNIT_SQ as int;
    let (x, y) = (v.x, v.y);
    assert((x * x + y * y) * s <= u * s) by (nonlinear_arith)
        requires
            x * x * s <= k.x * k.x * u,
            y * y * s <= k.y * k.y * u,
            s == k.x * k.x + k.y * k.y,
    ;
    assert(x * x + y * y <= u) by (nonlinear_arith)
        requires
            (x * x + y * y) * s <= u * s,
            s > 0,
    ;
    assert(((x + 1) * (x + 1) + (y + 1) * (y + 1)) * s > u * s) by (nonlinear_arith)
        requires
            k.x * k.x * u < (x + 1) * (x + 1) * s,
            k.y * k.y * u < (y + 1) * (y + 1) * s,
            s == k.x * k.x + k.y * k.y,
    ;
    assert((x + 1) * (x + 1) + (y + 1) * (y + 1) > u) by (nonlinear_arith)
        requires
            ((x + 1) * (x + 1) + (y + 1) * (y + 1)) * s > u * s,
            s > 0,
    ;
    assert((x + 1) * (x + 1) + (y + 1) * (y + 1) == x * x + y * y + 2 * (x + y) + 2)
        by (nonlinear_arith);
    assert(x + y <= 2 * DIR_ONE - 1) by (nonlinear_arith)
        requires
            0 <= x,
            0 <= y,
            x * x + y * y <= 281_474_976_710_656,
            DIR_ONE == 16_777_216,
    ;
}

/// How often `random` draws again after two samples that were both zero.
pub const REDRAWS: u32 = 8;

/// The component of a heading that points halfway between up and right.
pub const DIAGONAL: i32 = 11_863_283;

/// Draws a 32-bit number with `rand::random`, from the generator that the
/// running thread keeps. Nothing is claimed of the number: it is any `u32`.
/// The call itself is taken on trust; it fails only where the operating
/// system can give the thread's generator no seed.
#[verifier::external_body]
fn random_sample() -> (r: u32) {
    rand::random::<u32>()
}

/// Brings the component `k` of a vector of squared length `s` to the scale
/// on which that vector has the length `DIR_ONE`.
fn scale_component(k: u64, s: u64) -> (d: u64)
    requires
        k < DIR_ONE,
        0 < s < 2 * UNIT_SQ,
        k * k <= s,
    ensures
        is_scaled(d as int, k as int, s as int),
        d <= DIR_ONE,
{
    let goal: u128 = (k as u128) * (k as u128) * (UNIT_SQ as u128);
    let mut lo: u64 = 0;
    let mut hi: u64 = (DIR_ONE + 1) as u64;
    assert(goal < (hi * hi) * s) by (nonlinear_arith)
        requires
            goal == k * k * UNIT_SQ,
            k * k <= s,
            0 < s,
            hi * hi > UNIT_SQ,
            UNIT_SQ > 0,
    ;
    assert(lo * lo * s == 0) by (nonlinear_arith)
        requires
            lo == 0,
    ;
    while hi - lo > 1
        invariant
            lo < hi <= DIR_ONE + 1,
            0 < s < 2 * UNIT_SQ,
            goal == k * k * UNIT_SQ,
            lo * lo * s <= goal,
            goal < hi * hi * s,
        decreases hi - lo,
    {
        let mid: u64 = lo + (hi - lo) / 2;
        assert(mid * mid <= 16_777_217 * 16_777_217) by (nonlinear_arith)
            requires
                mid <= 16_777_217,
        ;
        assert(mid * mid * s <= 16_777_217 * 16_777_217 * 562_949_953_421_312) by (nonlinear_arith)
            requires
                mid * mid <= 16_777_217 * 16_777_217,
                s <= 562_949_953_421_312,
        ;
        let reach: u128 = (mid as u128) * (mid as u128) * (s as u128);
        if reach <= goal {
            lo = mid;
        } else {
            hi = mid;
        }
    }
    lo
}

impl Direction {
    /// The heading that points from the origin to the point whose
    /// coordinates are the fractions of the two samples `a` and `b`; none
    /// when that point is the origin itself.
    pub fn from_samples(a: u32, b: u32) -> (r: Option<Direction>)
        ensures
            r is None <==> fraction(a) == 0 && fraction(b) == 0,
            r matches Some(d) ==> d.wf() && is_normalized(d@, sampled(a, b)) && sampled(a, b).norm_sq() > 0,
    {
        let kx: u64 = (a / 256) as u64;
        let ky: u64 = (b / 256) as u64;
        if kx == 0 && ky == 0 {
            return None;
        }
        assert(kx * kx <= 16_777_215 * 16_777_215 && ky * ky <= 16_777_215 * 16_777_215
            && kx * kx + ky * ky > 0) by (nonlinear_arith)
            requires
                kx <= 16_777_215,
                ky <= 16_777_215,
                kx > 0 || ky > 0,
        ;
        let s: u64 = kx * kx + ky * ky;
        let x = scale_component(kx, s);
        let y = scale_component(ky, s);
        let d = Direction { x: x as i32, y: y as i32 };
        proof {
            lemma_normalized_is_unit(d@, Vector { x: kx as int, y: ky as int });
        }
        Some(d)
    }

    /// The heading halfway between up and right.
    pub fn diagonal() -> (r: Direction)
        ensures
            r@ == (Vector { x: DIAGONAL as int, y: DIAGONAL as int }),
            r.wf(),
    {
        assert(DIAGONAL * DIAGONAL + DIAGONAL * DIAGONAL == 281_474_967_076_178) by (nonlinear_arith)
            requires
                DIAGONAL == 11_863_283,
        ;
        Direction { x: DIAGONAL, y: DIAGONAL }
    }

    /// A heading drawn at random, up and to the right: two samples are
    /// drawn, and drawn again while both are zero, `REDRAWS` times at most;
    /// after that the heading is the diagonal.
    pub fn random() -> (r: Direction)
        ensures
            r.wf(),
            r@.x >= 0,
            r@.y >= 0,
            r@ == (Vector { x: DIAGONAL as int, y: DIAGONAL as int }) || exists|a: u32, b: u32|
                is_normalized(r@, #[trigger] sampled(a, b)) && sampled(a, b).norm_sq() > 0,
    {
        let mut left: u32 = REDRAWS;
        loop
            invariant
                left <= REDRAWS,
            decreases left,
        {
            let a = random_sample();
            let b = random_sample();
            match Direction::from_samples(a, b) {
                Some(d) => {
                    return d;
                },
                None => {},
            }
            if left == 0 {
                return Direction::diagonal();
            }
            left = left - 1;
        }
    }
}

} // verus!
