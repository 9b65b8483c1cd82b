//! The whole game: two paddles, a ball and two scores, advanced frame by
//! frame.

use vstd::prelude::*;
use crate::arena::GOAL_LIMIT;
use crate::ball::{moved, paddle_bounced, wall_bounced, Ball, BallView};
use crate::direction::{Direction, Vector};
use crate::paddle::{axis, paddle_direction, paddle_step, paddle_x, Paddle, Player};

verus! {

/// The keys held during a frame: up and down for each player.
#[derive(Clone, Copy, Debug, PartialEq, Eq)]
pub struct Input {
    pub up1: bool,
    pub down1: bool,
    pub up2: bool,
    pub down2: bool,
}

/// What a `World` stands for.
pub struct WorldView {
    pub paddle1: Vector,
    pub paddle2: Vector,
    pub ball: BallView,
    pub score1: nat,
    pub score2: nat,
}

/// The state of the game between two frames.
#[derive(Clone, Copy, Debug, PartialEq, Eq)]
pub struct World {
    pub paddle1: Paddle,
    pub paddle2: Paddle,
    pub ball: Ball,
    pub score1: u32,
    pub score2: u32,
}

impl View for World {
    type V = WorldView;

    open spec fn view(&self) -> WorldView {
        WorldView {
            paddle1: self.paddle1@,
            paddle2: self.paddle2@,
            ball: self.ball@,
            score1: self.score1 as nat,
            score2: self.score2 as nat,
        }
    }
}

/// A paddle after one frame: moved upright, never sideways.
pub open spec fn paddle_moved(paddle: Vector, up: bool, down: bool, dt: int) -> Vector {
    Vector { x: paddle.x, y: paddle_step(paddle.y, axis(up, down), dt) }
}

/// The first part of a frame: both paddles and the ball move.
pub open spec fn integrated(w: WorldView, input: Input, dt: int) -> WorldView {
    WorldView {
        paddle1: paddle_moved(w.paddle1, input.up1, input.down1, dt),
        paddle2: paddle_moved(w.paddle2, input.up2, input.down2, dt),
        ball: moved(w.ball, dt),
        ..w
    }
}

/// The second part of a frame: the ball is turned by the walls, then by the
/// first player's paddle, then by the second player's.
pub open spec fn collided(w: WorldView) -> WorldView {
    WorldView {
        ball: paddle_bounced(paddle_bounced(wall_bounced(w.ball), w.paddle1), w.paddle2),
        ..w
    }
}

/// Whether the ball has reached the goal on the right.
pub open spec fn at_right_goal(b: BallView) -> bool {
    b.position.x >= GOAL_LIMIT
}

/// Whether the ball has reached the goal on the left.
pub open spec fn at_left_goal(b: BallView) -> bool {
    b.position.x <= -GOAL_LIMIT
}

/// The ball put back at the centre of the field, its heading kept.
pub open spec fn centred(b: BallView) -> BallView {
    BallView { position: Vector { x: 0, y: 0 }, direction: b.direction }
}

/// The player who gains a point from the ball being where it is.
pub open spec fn scorer(b: BallView) -> Option<Player> {
    if at_right_goal(b) {
        Some(Player::One)
    } else if at_left_goal(b) {
        Some(Player::Two)
    } else {
        None
    }
}

/// The last part of a frame: a ball in a goal gives the player on the other
/// side a point and goes back to the centre.
pub open spec fn scored(w: WorldView) -> WorldView {
    match scorer(w.ball) {
        Some(Player::One) => WorldView { score1: w.score1 + 1, ball: centred(w.ball), ..w },
        Some(Player::Two) => WorldView { score2: w.score2 + 1, ball: centred(w.ball), ..w },
        None => w,
    }
}

/// The state one frame of `dt` time units after `w`, with the keys `input`
/// held.
pub open spec fn step(w: WorldView, input: Input, dt: int) -> WorldView {
    scored(collided(integrated(w, input, dt)))
}

/// Whether both scores of `w` can be held in a counter.
pub open spec fn scores_fit(w: WorldView) -> bool {
    w.score1 <= u32::MAX && w.score2 <= u32::MAX
}

impl World {
    /// A world is well formed when its paddles lie inside the field and the
    /// heading of its ball is a unit vector.
    pub open spec fn wf(&self) -> bool {
        &&& self.paddle1.wf()
        &&& self.paddle2.wf()
        &&& self.ball.wf()
    }

    /// The start of a game: both paddles at the middle of their sides, the
    /// ball at the centre heading along `direction`, no points scored.
    pub fn new(direction: Direction) -> (r: World)
        requires
            direction.wf(),
        ensures
            r@ == (WorldView {
                paddle1: Vector { x: paddle_x(Player::One), y: 0 },
                paddle2: Vector { x: paddle_x(Player::Two), y: 0 },
                ball: BallView { position: Vector { x: 0, y: 0 }, direction: direction@ },
                score1: 0,
                score2: 0,
            }),
            r.ball.direction == direction,
            r.wf(),
    {
        World {
            paddle1: Paddle::new(Player::One),
            paddle2: Paddle::new(Player::Two),
            ball: Ball::new(direction),
            score1: 0,
            score2: 0,
        }
    }

    /// The first two parts of a frame of `dt` time units with the keys
    /// `input` held: the paddles move, the ball moves, and the ball is
    /// turned by the walls and by each paddle in turn. No goal is counted.
    pub fn advance(&mut self, input: Input, dt: u64)
        requires
            old(self).ball.wf(),
        ensures
            final(self)@ == collided(integrated(old(self)@, input, dt as int)),
            final(self).wf(),
    {
        let steer1 = paddle_direction(input.up1, input.down1);
        let steer2 = paddle_direction(input.up2, input.down2);
        self.paddle1.advance(steer1, dt);
        self.paddle2.advance(steer2, dt);
        self.ball.advance(dt);
        self.ball.bounce_off_walls();
        self.ball.bounce_off_paddle(&self.paddle1);
        self.ball.bounce_off_paddle(&self.paddle2);
    }

    /// The player who gains a point from the ball being where it is.
    pub fn goal(&self) -> (r: Option<Player>)
        ensures
            r == scorer(self@.ball),
    {
        if self.ball.x >= GOAL_LIMIT {
            Some(Player::One)
        } else if self.ball.x <= -GOAL_LIMIT {
            Some(Player::Two)
        } else {
            None
        }
    }

    /// Gives a point for a ball that has reached a goal, and puts that ball
    /// back at the centre with its heading unchanged. Returns the player
    /// whose score has changed.
    pub fn score(&mut self) -> (r: Option<Player>)
        requires
            scores_fit(scored(old(self)@)),
        ensures
            final(self)@ == scored(old(self)@),
            r == scorer(old(self)@.ball),
            final(self).ball.direction == old(self).ball.direction,
    {
        let mut r: Option<Player> = None;
        if self.ball.x >= GOAL_LIMIT {
            self.score1 = self.score1 + 1;
            self.ball.x = 0;
            self.ball.y = 0;
            r = Some(Player::One);
        }
        if self.ball.x <= -GOAL_LIMIT {
            self.score2 = self.score2 + 1;
            self.ball.x = 0;
            self.ball.y = 0;
            r = Some(Player::Two);
        }
        r
    }

    /// Advances the game by one frame of `dt` time units with the keys
    /// `input` held: the paddles move, the ball moves, the ball is turned by
    /// walls and paddles, and a ball in a goal is scored. Returns the player
    /// whose score has changed.
    pub fn tick(&mut self, input: Input, dt: u64) -> (r: Option<Player>)
        requires
            old(self).ball.wf(),
            scores_fit(step(old(self)@, input, dt as int)),
        ensures
            final(self)@ == step(old(self)@, input, dt as int),
            r == scorer(collided(integrated(old(self)@, input, dt as int)).ball),
            final(self).wf(),
    {
        self.advance(input, dt);
        self.score()
    }
}

} // verus!
