use pong::collision::{collide, reflected, reflection, Collision, Rect};
use pong::direction::Direction;

fn square(x: i64, y: i64, side: i64) -> Rect {
    Rect { x, y, width: side, height: side }
}

#[test]
fn boxes_apart_do_not_collide() {
    let b = Rect { x: 0, y: 0, width: 20, height: 100 };
    assert_eq!(collide(square(-40, 0, 20), b), None);
    assert_eq!(collide(square(40, 0, 20), b), None);
    assert_eq!(collide(square(0, 100, 20), b), None);
    assert_eq!(collide(square(0, -100, 20), b), None);
}

#[test]
fn boxes_that_only_touch_do_not_collide() {
    let b = Rect { x: 0, y: 0, width: 20, height: 100 };
    assert_eq!(collide(square(-20, 0, 20), b), None);
    assert_eq!(collide(square(20, 0, 20), b), None);
    assert_eq!(collide(square(0, 60, 20), b), None);
    assert_eq!(collide(square(0, -60, 20), b), None);
}

#[test]
fn box_across_the_left_side() {
    let b = Rect { x: 0, y: 0, width: 20, height: 100 };
    assert_eq!(collide(square(-15, 0, 20), b), Some(Collision::Left));
    assert_eq!(collide(square(-19, 30, 20), b), Some(Collision::Left));
}

#[test]
fn box_across_the_right_side() {
    let b = Rect { x: 0, y: 0, width: 20, height: 100 };
    assert_eq!(collide(square(15, 0, 20), b), Some(Collision::Right));
    assert_eq!(collide(square(11, -30, 20), b), Some(Collision::Right));
    // the centre of the box lies inside the other
    assert_eq!(collide(square(1, -30, 20), b), Some(Collision::Inside));
}

#[test]
fn box_across_the_top_side() {
    let b = Rect { x: 0, y: 0, width: 20, height: 100 };
    assert_eq!(collide(square(0, 55, 20), b), Some(Collision::Top));
}

#[test]
fn box_across_the_bottom_side() {
    let b = Rect { x: 0, y: 0, width: 20, height: 100 };
    assert_eq!(collide(square(0, -55, 20), b), Some(Collision::Bottom));
}

#[test]
fn box_across_no_side_is_inside() {
    let b = Rect { x: 0, y: 0, width: 20, height: 100 };
    assert_eq!(collide(square(0, 0, 20), b), Some(Collision::Inside));
    assert_eq!(collide(square(0, 0, 10), b), Some(Collision::Inside));
    assert_eq!(collide(square(3, -20, 4), b), Some(Collision::Inside));
}

#[test]
fn shallower_side_wins_at_a_corner() {
    let b = Rect { x: 0, y: 0, width: 20, height: 100 };
    // 2 deep from the left, 8 deep from the top
    assert_eq!(collide(square(-18, 52, 20), b), Some(Collision::Left));
    // 8 deep from the left, 2 deep from the top
    assert_eq!(collide(square(-12, 58, 20), b), Some(Collision::Top));
    // 8 deep from the right, 2 deep from the bottom
    assert_eq!(collide(square(12, -58, 20), b), Some(Collision::Bottom));
    // 2 deep from the right, 8 deep from the bottom
    assert_eq!(collide(square(18, -52, 20), b), Some(Collision::Right));
}

#[test]
fn upright_side_wins_a_tie() {
    let b = Rect { x: 0, y: 0, width: 20, height: 100 };
    assert_eq!(collide(square(-15, 55, 20), b), Some(Collision::Left));
    assert_eq!(collide(square(15, -55, 20), b), Some(Collision::Right));
}

#[test]
fn box_with_its_centre_inside_is_inside_whatever_it_reaches_across() {
    // a box wider than the other, reaching across both of its upright sides
    let b = Rect { x: 0, y: 0, width: 20, height: 100 };
    let a = Rect { x: 1, y: 0, width: 40, height: 10 };
    assert_eq!(collide(a, b), Some(Collision::Inside));
    assert_eq!(collide(square(9, 49, 20), b), Some(Collision::Inside));
    assert_eq!(collide(square(-9, -49, 20), b), Some(Collision::Inside));
    assert_eq!(collide(square(-2, 0, 20), b), Some(Collision::Inside));
}

#[test]
fn box_with_its_centre_on_an_edge_is_not_inside() {
    let b = Rect { x: 0, y: 0, width: 20, height: 100 };
    assert_eq!(collide(square(-10, 0, 20), b), Some(Collision::Left));
    assert_eq!(collide(square(10, 0, 20), b), Some(Collision::Right));
    assert_eq!(collide(square(0, 50, 20), b), Some(Collision::Top));
    assert_eq!(collide(square(0, -50, 20), b), Some(Collision::Bottom));
}

#[test]
fn shallower_of_two_upright_sides_wins() {
    // boxes wider than the other, reaching across both of its upright sides
    let b = Rect { x: 0, y: 0, width: 20, height: 100 };
    // 99 deep from the left, 21 deep from the right
    assert_eq!(collide(Rect { x: 39, y: 0, width: 100, height: 10 }, b), Some(Collision::Right));
    // 21 deep from the left, 99 deep from the right
    assert_eq!(collide(Rect { x: -39, y: 0, width: 100, height: 10 }, b), Some(Collision::Left));
}

#[test]
fn shallower_of_two_level_sides_wins() {
    // boxes higher than the other, reaching across both of its level sides
    let b = Rect { x: 0, y: 0, width: 100, height: 20 };
    assert_eq!(collide(Rect { x: 0, y: 39, width: 10, height: 100 }, b), Some(Collision::Top));
    assert_eq!(collide(Rect { x: 0, y: -39, width: 10, height: 100 }, b), Some(Collision::Bottom));
}

#[test]
fn odd_sizes_need_no_rounding() {
    let b = Rect { x: 0, y: 0, width: 3, height: 3 };
    // the boxes reach to 1.5 and from 1.5: they touch and do not overlap
    assert_eq!(collide(Rect { x: 2, y: 0, width: 1, height: 1 }, b), None);
    // the boxes reach to 1.5 and from 1: they overlap by a half
    assert_eq!(collide(Rect { x: 2, y: 0, width: 2, height: 1 }, b), Some(Collision::Right));
}

#[test]
fn boxes_at_the_ends_of_the_range() {
    let a = Rect { x: i64::MAX, y: i64::MAX, width: i64::MAX, height: i64::MAX };
    let b = Rect { x: i64::MIN, y: i64::MIN, width: i64::MAX, height: i64::MAX };
    assert_eq!(collide(a, b), None);
    assert_eq!(collide(a, a), Some(Collision::Inside));
}

#[test]
fn left_side_turns_back_a_ball_moving_right_only() {
    let right = Direction::new(16_777_216, 0).unwrap();
    let left = Direction::new(-16_777_216, 0).unwrap();
    assert_eq!(reflection(Collision::Left, right), (true, false));
    assert_eq!(reflection(Collision::Left, left), (false, false));
    assert_eq!(reflected(right, Collision::Left), left);
    assert_eq!(reflected(left, Collision::Left), left);
}

#[test]
fn right_side_turns_back_a_ball_moving_left_only() {
    let right = Direction::new(16_777_216, 0).unwrap();
    let left = Direction::new(-16_777_216, 0).unwrap();
    assert_eq!(reflection(Collision::Right, left), (true, false));
    assert_eq!(reflection(Collision::Right, right), (false, false));
    assert_eq!(reflected(left, Collision::Right), right);
    assert_eq!(reflected(right, Collision::Right), right);
}

#[test]
fn top_side_turns_back_a_ball_moving_down_only() {
    let up = Direction::new(0, 16_777_216).unwrap();
    let down = Direction::new(0, -16_777_216).unwrap();
    assert_eq!(reflection(Collision::Top, down), (false, true));
    assert_eq!(reflection(Collision::Top, up), (false, false));
    assert_eq!(reflected(down, Collision::Top), up);
    assert_eq!(reflected(up, Collision::Top), up);
}

#[test]
fn bottom_side_turns_back_a_ball_moving_up_only() {
    let up = Direction::new(0, 16_777_216).unwrap();
    let down = Direction::new(0, -16_777_216).unwrap();
    assert_eq!(reflection(Collision::Bottom, up), (false, true));
    assert_eq!(reflection(Collision::Bottom, down), (false, false));
    assert_eq!(reflected(up, Collision::Bottom), down);
    assert_eq!(reflected(down, Collision::Bottom), down);
}

#[test]
fn inside_turns_nothing() {
    let d = Direction::diagonal();
    assert_eq!(reflection(Collision::Inside, d), (false, false));
    assert_eq!(reflected(d, Collision::Inside), d);
}

#[test]
fn a_side_turns_one_component_and_keeps_the_other() {
    let d = Direction::diagonal();
    let r = reflected(d, Collision::Left);
    assert_eq!((r.x(), r.y()), (-d.x(), d.y()));
    let s = reflected(d, Collision::Bottom);
    assert_eq!((s.x(), s.y()), (d.x(), -d.y()));
    let t = reflected(d, Collision::Right);
    assert_eq!(t, d);
}
