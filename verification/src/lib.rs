//! A two-player bat-and-ball game, reduced to its simulation: two paddles and
//! a ball in a rectangular field, advanced one frame at a time.
//!
//! A frame takes the keys that are held and the time that has passed, moves
//! the paddles and the ball, turns the ball at walls and paddles, and counts
//! a goal. Whoever draws the game reads the positions and the scores from
//! the `World` between two frames.
//!
//! All quantities are whole numbers: lengths in a fixed small unit, time in
//! tenths of a microsecond, headings as pairs scaled by `DIR_ONE`. The units are chosen
//! so that straight motion is exact; see `arena`.

pub mod arena;
pub mod ball;
pub mod collision;
pub mod direction;
pub mod laws;
pub mod paddle;
pub mod world;
