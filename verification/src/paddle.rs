//! The paddles: from keys to motion, and motion kept inside the field.

use vstd::prelude::*;
use crate::arena::{clamp, saturated, DIR_ONE, PADDLE_LIMIT, PADDLE_OFFSET, PADDLE_SCALE_X, PADDLE_SCALE_Y, PADDLE_SPEED};
use crate::collision::{Bounds, Rect};
use crate::direction::Vector;

verus! {

/// The two seats at the table.
#[derive(Clone, Copy, Debug, PartialEq, Eq)]
pub enum Player {
    /// The player on the left.
    One,
    /// The player on the right.
    Two,
}

/// The sign of a paddle's motion for one frame: `+1` when only the up key
/// is held, `-1` when only the down key is held, `0` otherwise.
pub open spec fn axis(up: bool, down: bool) -> int {
    (if up { 1int } else { 0int }) - (if down { 1int } else { 0int })
}

/// Turns the state of a player's two keys into the paddle's direction.
pub fn paddle_direction(up: bool, down: bool) -> (d: i8)
    ensures
        d == axis(up, down),
{
    let mut d: i8 = 0;
    if up {
        d = d + 1;
    }
    if down {
        d = d - 1;
    }
    d
}

/// Whether a paddle centred at height `y` lies wholly inside the field.
pub open spec fn in_range(y: int) -> bool {
    -PADDLE_LIMIT <= y <= PADDLE_LIMIT
}

/// The height nearest to `y` at which a paddle lies wholly inside the field.
pub open spec fn clamped(y: int) -> int {
    clamp(y, -PADDLE_LIMIT, PADDLE_LIMIT as int)
}

/// The distance a paddle covers in `dt` time units when steered by
/// `direction`.
pub open spec fn paddle_travel(direction: int, dt: int) -> int {
    direction * (PADDLE_SPEED * DIR_ONE) * dt
}

/// The height of a paddle one frame of `dt` time units after it was at
/// `y`, steered by `direction`.
pub open spec fn paddle_step(y: int, direction: int, dt: int) -> int {
    clamped(y + paddle_travel(direction, dt))
}

/// The horizontal position of a player's paddle.
pub open spec fn paddle_x(player: Player) -> int {
    match player {
        Player::One => -PADDLE_OFFSET,
        Player::Two => PADDLE_OFFSET as int,
    }
}

/// The box that a paddle centred at `position` fills.
pub open spec fn paddle_bounds(position: Vector) -> Bounds {
    Bounds {
        x: position.x,
        y: position.y,
        width: PADDLE_SCALE_X as int,
        height: PADDLE_SCALE_Y as int,
    }
}

/// Brings a height into the range in which a paddle lies inside the field.
pub fn clamp_height(y: i64) -> (r: i64)
    ensures
        r == clamped(y as int),
        in_range(r as int),
        in_range(y as int) ==> r == y,
{
    if y <= -PADDLE_LIMIT {
        -PADDLE_LIMIT
    } else if y >= PADDLE_LIMIT {
        PADDLE_LIMIT
    } else {
        y
    }
}

/// A paddle: the position of its centre.
#[derive(Clone, Copy, Debug, PartialEq, Eq)]
pub struct Paddle {
    pub x: i64,
    pub y: i64,
}

impl View for Paddle {
    type V = Vector;

    open spec fn view(&self) -> Vector {
        Vector { x: self.x as int, y: self.y as int }
    }
}

impl Paddle {
    /// A paddle is well formed when it lies wholly inside the field.
    pub open spec fn wf(&self) -> bool {
        in_range(self@.y)
    }

    /// The paddle of `player`, at the middle of its side.
    pub fn new(player: Player) -> (r: Paddle)
        ensures
            r@ == (Vector { x: paddle_x(player), y: 0 }),
            r.wf(),
    {
        match player {
            Player::One => Paddle { x: -PADDLE_OFFSET, y: 0 },
            Player::Two => Paddle { x: PADDLE_OFFSET, y: 0 },
        }
    }

    /// Moves the paddle for one frame of `dt` time units, steered by
    /// `direction`, and keeps it inside the field whatever its height was
    /// and however long the frame.
    pub fn advance(&mut self, direction: i8, dt: u64)
        ensures
            final(self)@ == (Vector { x: old(self)@.x, y: paddle_step(old(self)@.y, direction as int, dt as int) }),
            final(self).wf(),
    {
        assert(-0x80_0000_0000_0000_0000 <= (direction as int) * (dt as int) <= 0x80_0000_0000_0000_0000)
            by (nonlinear_arith)
            requires
                -128 <= direction as int <= 127,
                0 <= dt as int <= 0xffff_ffff_ffff_ffff,
        ;
        let steps: i128 = (direction as i128) * (dt as i128);
        let rate: i128 = (PADDLE_SPEED as i128) * (DIR_ONE as i128);
        let travel: i128 = rate * steps;
        assert(travel == paddle_travel(direction as int, dt as int)) by (nonlinear_arith)
            requires
                travel == rate * steps,
                steps == (direction as int) * (dt as int),
                rate == PADDLE_SPEED * DIR_ONE,
                paddle_travel(direction as int, dt as int) == (direction as int) * (PADDLE_SPEED * DIR_ONE) * (dt as int),
        ;
        self.y = clamp_height(saturated((self.y as i128) + travel));
    }

    /// The box that the paddle fills.
    pub fn bounds(&self) -> (r: Rect)
        ensures
            r@ == paddle_bounds(self@),
    {
        Rect { x: self.x, y: self.y, width: PADDLE_SCALE_X, height: PADDLE_SCALE_Y }
    }
}

} // verus!
