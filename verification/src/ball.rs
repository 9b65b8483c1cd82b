//! The ball: straight motion at constant speed, turned by walls and paddles.

use vstd::prelude::*;
use crate::arena::{saturate, saturated, BALL_RADIUS, BALL_SPEED, WALL_LIMIT};
use crate::collision::{collide, contact, deflect, reflected, Bounds, Collision, Rect};
use crate::direction::{lemma_flip_keeps_norm, Direction, Vector};
use crate::paddle::{paddle_bounds, Paddle};

verus! {

/// What a `Ball` stands for: where it is and where it is going.
pub struct BallView {
    pub position: Vector,
    pub direction: Vector,
}

/// The ball.
#[derive(Clone, Copy, Debug, PartialEq, Eq)]
pub struct Ball {
    pub x: i64,
    pub y: i64,
    pub direction: Direction,
}

impl View for Ball {
    type V = BallView;

    open spec fn view(&self) -> BallView {
        BallView {
            position: Vector { x: self.x as int, y: self.y as int },
            direction: self.direction@,
        }
    }
}

/// The distance the ball covers in `dt` time units along an axis on which
/// its heading has the component `component`.
pub open spec fn ball_travel(component: int, dt: int) -> int {
    component * BALL_SPEED * dt
}

/// The ball after `dt` time units of straight motion. A coordinate that
/// would leave the range of positions stops at the end of that range.
pub open spec fn moved(b: BallView, dt: int) -> BallView {
    BallView {
        position: Vector {
            x: saturate(b.position.x + ball_travel(b.direction.x, dt)),
            y: saturate(b.position.y + ball_travel(b.direction.y, dt)),
        },
        direction: b.direction,
    }
}

/// Whether the ball is at or beyond the lower wall.
pub open spec fn at_lower_wall(b: BallView) -> bool {
    b.position.y <= -WALL_LIMIT
}

/// Whether the ball is at or beyond the upper wall.
pub open spec fn at_upper_wall(b: BallView) -> bool {
    b.position.y >= WALL_LIMIT
}

/// The ball after the walls have been looked at: its heading is mirrored
/// once for each wall that it is at or beyond.
pub open spec fn wall_bounced(b: BallView) -> BallView {
    let lower = if at_lower_wall(b) {
        b.direction.flip_y()
    } else {
        b.direction
    };
    let upper = if at_upper_wall(b) {
        lower.flip_y()
    } else {
        lower
    };
    BallView { position: b.position, direction: upper }
}

/// The box around a ball centred at `position`.
pub open spec fn ball_bounds(position: Vector) -> Bounds {
    Bounds {
        x: position.x,
        y: position.y,
        width: 2 * BALL_RADIUS,
        height: 2 * BALL_RADIUS,
    }
}

/// The side of the paddle at `paddle` that the ball at `position` has run
/// into, if any.
pub open spec fn paddle_contact(position: Vector, paddle: Vector) -> Option<Collision> {
    contact(ball_bounds(position), paddle_bounds(paddle))
}

/// The ball after the paddle at `paddle` has been looked at.
pub open spec fn paddle_bounced(b: BallView, paddle: Vector) -> BallView {
    BallView {
        position: b.position,
        direction: deflect(b.direction, paddle_contact(b.position, paddle)),
    }
}

impl Ball {
    /// A ball is well formed when its heading is.
    pub open spec fn wf(&self) -> bool {
        self.direction.wf()
    }

    /// A ball at the centre of the field, heading along `direction`.
    pub fn new(direction: Direction) -> (r: Ball)
        ensures
            r@ == (BallView { position: Vector { x: 0, y: 0 }, direction: direction@ }),
            r.direction == direction,
    {
        Ball { x: 0, y: 0, direction }
    }

    /// Moves the ball along its heading for `dt` time units.
    pub fn advance(&mut self, dt: u64)
        ensures
            final(self)@ == moved(old(self)@, dt as int),
            final(self).direction == old(self).direction,
    {
        self.x = shifted(self.x, self.direction.x(), dt);
        self.y = shifted(self.y, self.direction.y(), dt);
    }

    /// Turns the ball back at the upper and the lower wall.
    pub fn bounce_off_walls(&mut self)
        requires
            old(self).wf(),
        ensures
            final(self)@ == wall_bounced(old(self)@),
            final(self).wf(),
            final(self)@.direction.norm_sq() == old(self)@.direction.norm_sq(),
    {
        proof {
            lemma_flip_keeps_norm(self.direction@);
            lemma_flip_keeps_norm(self.direction@.flip_y());
        }
        if self.y <= -WALL_LIMIT {
            self.direction = self.direction.flipped_y();
        }
        if self.y >= WALL_LIMIT {
            self.direction = self.direction.flipped_y();
        }
    }

    /// Turns the ball back where it has run into `paddle` while moving
    /// towards it.
    pub fn bounce_off_paddle(&mut self, paddle: &Paddle)
        requires
            old(self).wf(),
        ensures
            final(self)@ == paddle_bounced(old(self)@, paddle@),
            final(self).wf(),
            final(self)@.direction.norm_sq() == old(self)@.direction.norm_sq(),
    {
        match collide(self.bounds(), paddle.bounds()) {
            Some(side) => {
                self.direction = reflected(self.direction, side);
            },
            None => {},
        }
    }

    /// The box around the ball.
    pub fn bounds(&self) -> (r: Rect)
        ensures
            r@ == ball_bounds(self@.position),
    {
        Rect { x: self.x, y: self.y, width: 2 * BALL_RADIUS, height: 2 * BALL_RADIUS }
    }
}

/// The coordinate `from` after `dt` time units of motion along an axis on
/// which the heading has the component `component`.
fn shifted(from: i64, component: i32, dt: u64) -> (r: i64)
    ensures
        r == saturate(from + ball_travel(component as int, dt as int)),
{
    assert(-0x8000_0000_0000_0000_0000_0000 <= (component as int) * (dt as int)
        <= 0x8000_0000_0000_0000_0000_0000) by (nonlinear_arith)
        requires
            -0x8000_0000 <= component as int <= 0x7fff_ffff,
            0 <= dt as int <= 0xffff_ffff_ffff_ffff,
    ;
    let steps: i128 = (component as i128) * (dt as i128);
    let travel: i128 = (BALL_SPEED as i128) * steps;
    assert(travel == ball_travel(component as int, dt as int)) by (nonlinear_arith)
        requires
            travel == BALL_SPEED * steps,
            steps == (component as int) * (dt as int),
            ball_travel(component as int, dt as int) == (component as int) * BALL_SPEED * (dt as int),
    ;
    saturated((from as i128) + travel)
}

} // verus!
