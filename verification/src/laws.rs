//! What holds of the game however it is played.

use vstd::prelude::*;
use crate::arena::GOAL_LIMIT;
use crate::ball::{at_lower_wall, at_upper_wall, ball_bounds, paddle_bounced, paddle_contact, wall_bounced, BallView};
use crate::collision::{centre_inside, contact, crosses, depth, overlap, rank, reflect, shallowest, Bounds, Collision};
use crate::direction::{is_unit, lemma_flip_keeps_norm, Vector};
use crate::paddle::{clamped, in_range, paddle_bounds, paddle_step};
use crate::world::{at_left_goal, at_right_goal, centred, collided, integrated, scored, step, Input, WorldView};

verus! {

/// Clamping a height leaves it in range; a height in range is left as it
/// is; so clamping twice is clamping once.
pub proof fn lemma_clamp_idempotent(y: int)
    ensures
        in_range(clamped(y)),
        in_range(y) ==> clamped(y) == y,
        clamped(clamped(y)) == clamped(y),
{
}

/// After a frame a paddle lies inside the field, wherever it was before,
/// whichever way it was steered and however long the frame took.
pub proof fn lemma_paddle_stays_in_range(y: int, direction: int, dt: int)
    ensures
        in_range(paddle_step(y, direction, dt)),
{
}

/// When two boxes are in contact: exactly when they overlap.
pub proof fn lemma_contact_needs_overlap(a: Bounds, b: Bounds)
    ensures
        contact(a, b) is None <==> !overlap(a, b),
{
}

/// When a box counts as inside another: exactly when the two overlap and
/// its centre lies inside the other.
pub proof fn lemma_contact_inside(a: Bounds, b: Bounds)
    ensures
        contact(a, b) == Some(Collision::Inside) <==> overlap(a, b) && centre_inside(a, b),
{
}

/// Which side a box has run into when its centre lies outside the other:
/// a side that it reaches across, and among all the sides that it reaches
/// across the one that it has passed by the least depth. Of two sides passed
/// equally deeply the one earlier in the order left, right, bottom, top is
/// taken, so that an upright side wins against a level one.
pub proof fn lemma_contact_least_depth(a: Bounds, b: Bounds, side: Collision, other: Collision)
    requires
        contact(a, b) == Some(side),
        side != Collision::Inside,
    ensures
        overlap(a, b),
        !centre_inside(a, b),
        crosses(a, b, side),
        crosses(a, b, other) ==> depth(a, b, side) <= depth(a, b, other),
        crosses(a, b, other) && depth(a, b, side) == depth(a, b, other) ==> rank(side) <= rank(other),
{
}

/// A box that overlaps another with its centre outside reaches across one
/// of the other's sides at least, so a side is always found.
pub proof fn lemma_centre_outside_crosses(a: Bounds, b: Bounds)
    requires
        overlap(a, b),
        !centre_inside(a, b),
    ensures
        crosses(a, b, Collision::Left) || crosses(a, b, Collision::Right) || crosses(
            a,
            b,
            Collision::Bottom,
        ) || crosses(a, b, Collision::Top),
        contact(a, b) matches Some(side) && side != Collision::Inside && shallowest(a, b, side),
{
}

/// A ball whose centre lies inside a paddle passes through: its heading is
/// as it was.
pub proof fn lemma_centre_inside_passes(b: BallView, paddle: Vector)
    requires
        centre_inside(ball_bounds(b.position), paddle_bounds(paddle)),
    ensures
        paddle_bounced(b, paddle) == b,
{
}

/// Meeting a side of a box changes at most the signs of a heading's
/// components, and so keeps its length.
pub proof fn lemma_reflect_keeps_length(d: Vector, side: Collision)
    ensures
        reflect(d, side).norm_sq() == d.norm_sq(),
        is_unit(reflect(d, side)) == is_unit(d),
        reflect(d, side).x == d.x || reflect(d, side).x == -d.x,
        reflect(d, side).y == d.y || reflect(d, side).y == -d.y,
{
    lemma_flip_keeps_norm(d);
    lemma_flip_keeps_norm(d.flip_x());
}

/// The field is high enough that the ball is never at both walls at once: a
/// ball at or beyond a wall has its heading mirrored exactly once, any other
/// ball keeps its heading.
pub proof fn lemma_wall_turns_once(b: BallView)
    ensures
        !(at_lower_wall(b) && at_upper_wall(b)),
        at_lower_wall(b) || at_upper_wall(b) ==> wall_bounced(b).direction == b.direction.flip_y(),
        !at_lower_wall(b) && !at_upper_wall(b) ==> wall_bounced(b) == b,
{
}

/// The field is wide enough that the ball is never in both goals at once.
pub proof fn lemma_goals_exclude(b: BallView)
    ensures
        !(at_right_goal(b) && at_left_goal(b)),
{
}

/// The walls keep the length of the ball's heading.
pub proof fn lemma_walls_keep_length(b: BallView)
    ensures
        wall_bounced(b).direction.norm_sq() == b.direction.norm_sq(),
        wall_bounced(b).position == b.position,
{
    lemma_flip_keeps_norm(b.direction);
    lemma_flip_keeps_norm(b.direction.flip_y());
}

/// A paddle keeps the length of the ball's heading.
pub proof fn lemma_paddle_keeps_length(b: BallView, paddle: Vector)
    ensures
        paddle_bounced(b, paddle).direction.norm_sq() == b.direction.norm_sq(),
        paddle_bounced(b, paddle).position == b.position,
{
    match paddle_contact(b.position, paddle) {
        Some(side) => {
            lemma_reflect_keeps_length(b.direction, side);
        },
        None => {},
    }
}

/// A ball whose box overlaps neither paddle's box keeps its heading through
/// both tests for contact with a paddle.
pub proof fn lemma_clear_of_paddles(b: BallView, paddle1: Vector, paddle2: Vector)
    requires
        !overlap(ball_bounds(b.position), paddle_bounds(paddle1)),
        !overlap(ball_bounds(b.position), paddle_bounds(paddle2)),
    ensures
        paddle_bounced(paddle_bounced(b, paddle1), paddle2) == b,
{
}

/// A ball at or beyond the goal line on the right gives the first player
/// exactly one point and goes back to the centre, its heading kept,
/// whatever its height and its heading.
pub proof fn lemma_goal_on_the_right(w: WorldView)
    requires
        w.ball.position.x >= GOAL_LIMIT,
    ensures
        scored(w) == (WorldView { score1: w.score1 + 1, ball: centred(w.ball), ..w }),
        scored(w).ball.position == (Vector { x: 0, y: 0 }),
        scored(w).ball.direction == w.ball.direction,
{
}

/// A ball at or beyond the goal line on the left gives the second player
/// exactly one point and goes back to the centre, its heading kept,
/// whatever its height and its heading.
pub proof fn lemma_goal_on_the_left(w: WorldView)
    requires
        w.ball.position.x <= -GOAL_LIMIT,
    ensures
        scored(w) == (WorldView { score2: w.score2 + 1, ball: centred(w.ball), ..w }),
        scored(w).ball.position == (Vector { x: 0, y: 0 }),
        scored(w).ball.direction == w.ball.direction,
{
}

/// What one frame keeps and what it brings about, from any state: both
/// paddles end inside the field without having moved sideways, the ball's
/// heading keeps its length, the ball ends between the goal lines, and the
/// scores together grow by one or not at all.
pub proof fn lemma_step(w: WorldView, input: Input, dt: int)
    ensures
        in_range(step(w, input, dt).paddle1.y),
        in_range(step(w, input, dt).paddle2.y),
        step(w, input, dt).paddle1.x == w.paddle1.x,
        step(w, input, dt).paddle2.x == w.paddle2.x,
        step(w, input, dt).ball.direction.norm_sq() == w.ball.direction.norm_sq(),
        -GOAL_LIMIT < step(w, input, dt).ball.position.x < GOAL_LIMIT,
        step(w, input, dt).score1 >= w.score1,
        step(w, input, dt).score2 >= w.score2,
        step(w, input, dt).score1 + step(w, input, dt).score2 <= w.score1 + w.score2 + 1,
{
    let moved = integrated(w, input, dt);
    let walled = wall_bounced(moved.ball);
    let first = paddle_bounced(walled, moved.paddle1);
    lemma_walls_keep_length(moved.ball);
    lemma_paddle_keeps_length(walled, moved.paddle1);
    lemma_paddle_keeps_length(first, moved.paddle2);
    assert(collided(moved).ball == paddle_bounced(first, moved.paddle2));
}

/// The state after the frames `frames`, played in order from `w`. A frame
/// is the keys held during it and its length in time units.
pub open spec fn play(w: WorldView, frames: Seq<(Input, int)>) -> WorldView
    decreases frames.len(),
{
    if frames.len() == 0 {
        w
    } else {
        step(play(w, frames.drop_last()), frames.last().0, frames.last().1)
    }
}

/// Through any game the paddles stay inside the field: after any frames at
/// all, whatever keys were held and however long each frame took, both
/// paddles lie in range, provided they did at the start or at least one
/// frame was played.
pub proof fn lemma_paddles_stay_in_range(w: WorldView, frames: Seq<(Input, int)>)
    requires
        frames.len() > 0 || (in_range(w.paddle1.y) && in_range(w.paddle2.y)),
    ensures
        in_range(play(w, frames).paddle1.y),
        in_range(play(w, frames).paddle2.y),
{
    if frames.len() > 0 {
        lemma_step(play(w, frames.drop_last()), frames.last().0, frames.last().1);
    }
}

/// Through any game the ball's heading keeps its length: after any frames
/// at all, with whatever turns at walls and paddles, the heading is as long
/// as it was at the start, and a unit vector if it was one.
pub proof fn lemma_heading_keeps_length(w: WorldView, frames: Seq<(Input, int)>)
    ensures
        play(w, frames).ball.direction.norm_sq() == w.ball.direction.norm_sq(),
        is_unit(w.ball.direction) ==> is_unit(play(w, frames).ball.direction),
    decreases frames.len(),
{
    if frames.len() > 0 {
        lemma_heading_keeps_length(w, frames.drop_last());
        lemma_step(play(w, frames.drop_last()), frames.last().0, frames.last().1);
    }
}

/// Through any game no score ever goes down, and the two together grow by
/// no more than one point a frame.
pub proof fn lemma_scores_only_grow(w: WorldView, frames: Seq<(Input, int)>)
    ensures
        play(w, frames).score1 >= w.score1,
        play(w, frames).score2 >= w.score2,
        play(w, frames).score1 + play(w, frames).score2 <= w.score1 + w.score2 + frames.len(),
    decreases frames.len(),
{
    if frames.len() > 0 {
        lemma_scores_only_grow(w, frames.drop_last());
        lemma_step(play(w, frames.drop_last()), frames.last().0, frames.last().1);
    }
}

} // verus!
