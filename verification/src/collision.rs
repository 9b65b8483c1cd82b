//! Contact between two axis-aligned boxes, and what it does to a heading.

use vstd::prelude::*;
use crate::direction::{Direction, Vector};

verus! {

/// The side of a box that another box has run into.
#[derive(Clone, Copy, Debug, PartialEq, Eq)]
pub enum Collision {
    Left,
    Right,
    Top,
    Bottom,
    Inside,
}

/// An axis-aligned box, given by its centre and its size.
#[derive(Clone, Copy, Debug, PartialEq, Eq)]
pub struct Rect {
    pub x: i64,
    pub y: i64,
    pub width: i64,
    pub height: i64,
}

/// A box in mathematical integers: what a `Rect` stands for.
pub struct Bounds {
    pub x: int,
    pub y: int,
    pub width: int,
    pub height: int,
}

impl View for Rect {
    type V = Bounds;

    open spec fn view(&self) -> Bounds {
        Bounds {
            x: self.x as int,
            y: self.y as int,
            width: self.width as int,
            height: self.height as int,
        }
    }
}

/// The edges of a box are compared at twice their coordinate, so that a box
/// of odd size needs no rounding.
impl Bounds {
    /// Twice the coordinate of the left edge.
    pub open spec fn left(self) -> int {
        2 * self.x - self.width
    }

    /// Twice the coordinate of the right edge.
    pub open spec fn right(self) -> int {
        2 * self.x + self.width
    }

    /// Twice the coordinate of the bottom edge.
    pub open spec fn bottom(self) -> int {
        2 * self.y - self.height
    }

    /// Twice the coordinate of the top edge.
    pub open spec fn top(self) -> int {
        2 * self.y + self.height
    }
}

/// Whether the interiors of `a` and `b` meet.
pub open spec fn overlap(a: Bounds, b: Bounds) -> bool {
    &&& a.left() < b.right()
    &&& a.right() > b.left()
    &&& a.bottom() < b.top()
    &&& a.top() > b.bottom()
}

/// Whether the centre of `a` lies inside `b`, on none of its edges.
pub open spec fn centre_inside(a: Bounds, b: Bounds) -> bool {
    &&& b.left() < 2 * a.x < b.right()
    &&& b.bottom() < 2 * a.y < b.top()
}

/// Whether `a` reaches across the side `side` of `b`: that side lies
/// between the two opposite edges of `a`.
pub open spec fn crosses(a: Bounds, b: Bounds, side: Collision) -> bool {
    match side {
        Collision::Left => a.left() < b.left() < a.right(),
        Collision::Right => a.left() < b.right() < a.right(),
        Collision::Bottom => a.bottom() < b.bottom() < a.top(),
        Collision::Top => a.bottom() < b.top() < a.top(),
        Collision::Inside => false,
    }
}

/// How far `a` has passed the side `side` of `b`, at twice its measure.
pub open spec fn depth(a: Bounds, b: Bounds, side: Collision) -> int {
    match side {
        Collision::Left => a.right() - b.left(),
        Collision::Right => b.right() - a.left(),
        Collision::Bottom => a.top() - b.bottom(),
        Collision::Top => b.top() - a.bottom(),
        Collision::Inside => 0,
    }
}

/// The place of a side in the order that settles equal depths: the upright
/// sides come before the level ones.
pub open spec fn rank(side: Collision) -> int {
    match side {
        Collision::Left => 0,
        Collision::Right => 1,
        Collision::Bottom => 2,
        Collision::Top => 3,
        Collision::Inside => 4,
    }
}

/// Whether `side` is to be preferred to `other` as the side that `a` has
/// run into: `a` reaches across `side`, and `other` is not reached across,
/// or is passed more deeply, or as deeply and comes later in the order.
pub open spec fn prevails(a: Bounds, b: Bounds, side: Collision, other: Collision) -> bool {
    &&& crosses(a, b, side)
    &&& {
        ||| !crosses(a, b, other)
        ||| depth(a, b, side) < depth(a, b, other)
        ||| depth(a, b, side) == depth(a, b, other) && rank(side) <= rank(other)
    }
}

/// Whether `side` is the side of `b` that `a` has passed by the least depth.
pub open spec fn shallowest(a: Bounds, b: Bounds, side: Collision) -> bool {
    &&& prevails(a, b, side, Collision::Left)
    &&& prevails(a, b, side, Collision::Right)
    &&& prevails(a, b, side, Collision::Bottom)
    &&& prevails(a, b, side, Collision::Top)
}

/// The side of `b` that `a` has run into: none when the boxes do not
/// overlap; `Inside` when they do and the centre of `a` lies inside `b`;
/// otherwise the side that `a` has passed by the least depth.
pub open spec fn contact(a: Bounds, b: Bounds) -> Option<Collision> {
    if !overlap(a, b) {
        None
    } else if centre_inside(a, b) {
        Some(Collision::Inside)
    } else if shallowest(a, b, Collision::Left) {
        Some(Collision::Left)
    } else if shallowest(a, b, Collision::Right) {
        Some(Collision::Right)
    } else if shallowest(a, b, Collision::Bottom) {
        Some(Collision::Bottom)
    } else {
        Some(Collision::Top)
    }
}

/// Finds the side of `b` that `a` has run into.
pub fn collide(a: Rect, b: Rect) -> (r: Option<Collision>)
    ensures
        r == contact(a@, b@),
{
    let a_left: i128 = 2 * (a.x as i128) - (a.width as i128);
    let a_right: i128 = 2 * (a.x as i128) + (a.width as i128);
    let a_bottom: i128 = 2 * (a.y as i128) - (a.height as i128);
    let a_top: i128 = 2 * (a.y as i128) + (a.height as i128);
    let b_left: i128 = 2 * (b.x as i128) - (b.width as i128);
    let b_right: i128 = 2 * (b.x as i128) + (b.width as i128);
    let b_bottom: i128 = 2 * (b.y as i128) - (b.height as i128);
    let b_top: i128 = 2 * (b.y as i128) + (b.height as i128);

    if !(a_left < b_right && a_right > b_left && a_bottom < b_top && a_top > b_bottom) {
        return None;
    }
    let centre_x: i128 = 2 * (a.x as i128);
    let centre_y: i128 = 2 * (a.y as i128);
    if b_left < centre_x && centre_x < b_right && b_bottom < centre_y && centre_y < b_top {
        return Some(Collision::Inside);
    }
    // The sides are tried in the order that settles equal depths, so a later
    // side takes over only where it is strictly less deep.
    let mut found: Option<(Collision, i128)> = None;
    if a_left < b_left && b_left < a_right {
        found = Some((Collision::Left, a_right - b_left));
    }
    if a_left < b_right && b_right < a_right {
        found = shallower(found, Collision::Right, b_right - a_left);
    }
    if a_bottom < b_bottom && b_bottom < a_top {
        found = shallower(found, Collision::Bottom, a_top - b_bottom);
    }
    if a_bottom < b_top && b_top < a_top {
        found = shallower(found, Collision::Top, b_top - a_bottom);
    }
    // A box that overlaps another with its centre outside reaches across one
    // of the other's sides at least.
    assert(found is Some);
    let (side, _) = found.unwrap();
    Some(side)
}

/// Keeps `found`, unless `side` at `depth` is strictly less deep.
fn shallower(found: Option<(Collision, i128)>, side: Collision, depth: i128) -> (r: Option<(Collision, i128)>)
    ensures
        r == match found {
            Some((_, least)) if least <= depth => found,
            _ => Some((side, depth)),
        },
{
    match found {
        Some((_, least)) if least <= depth => found,
        _ => Some((side, depth)),
    }
}

/// Whether a ball heading along `d` turns back horizontally on meeting
/// `side`: only when it is moving into that side.
pub open spec fn flips_x(side: Collision, d: Vector) -> bool {
    match side {
        Collision::Left => d.x > 0,
        Collision::Right => d.x < 0,
        _ => false,
    }
}

/// Whether a ball heading along `d` turns back vertically on meeting `side`:
/// only when it is moving into that side.
pub open spec fn flips_y(side: Collision, d: Vector) -> bool {
    match side {
        Collision::Top => d.y < 0,
        Collision::Bottom => d.y > 0,
        _ => false,
    }
}

/// The heading `d` after meeting `side`.
pub open spec fn reflect(d: Vector, side: Collision) -> Vector {
    let turned = if flips_x(side, d) {
        d.flip_x()
    } else {
        d
    };
    if flips_y(side, d) {
        turned.flip_y()
    } else {
        turned
    }
}

/// The heading `d` after a test for contact that gave `hit`.
pub open spec fn deflect(d: Vector, hit: Option<Collision>) -> Vector {
    match hit {
        Some(side) => reflect(d, side),
        None => d,
    }
}

/// Says which components of the heading `d` change sign on meeting `side`:
/// the horizontal one first, the vertical one second.
pub fn reflection(side: Collision, d: Direction) -> (r: (bool, bool))
    ensures
        r.0 == flips_x(side, d@),
        r.1 == flips_y(side, d@),
{
    match side {
        Collision::Left => (d.x() > 0, false),
        Collision::Right => (d.x() < 0, false),
        Collision::Top => (false, d.y() < 0),
        Collision::Bottom => (false, d.y() > 0),
        Collision::Inside => (false, false),
    }
}

/// Turns the heading `d` as meeting `side` demands.
pub fn reflected(d: Direction, side: Collision) -> (r: Direction)
    requires
        d.wf(),
    ensures
        r@ == reflect(d@, side),
        r.wf(),
        r@.norm_sq() == d@.norm_sq(),
{
    let (turn_x, turn_y) = reflection(side, d);
    let mut r = d;
    if turn_x {
        r = r.flipped_x();
    }
    if turn_y {
        r = r.flipped_y();
    }
    proof {
        crate::direction::lemma_flip_keeps_norm(d@);
        crate::direction::lemma_flip_keeps_norm(d@.flip_x());
    }
    r
}

} // verus!
