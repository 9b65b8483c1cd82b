use pong::arena::{DIR_ONE, PADDLE_LIMIT, PADDLE_OFFSET, PADDLE_SCALE_X, PADDLE_SCALE_Y, PADDLE_SPEED, PIXEL, SECOND, WH};
use pong::paddle::{clamp_height, paddle_direction, Paddle, Player};

#[test]
fn up_alone_steers_up() {
    assert_eq!(paddle_direction(true, false), 1);
}

#[test]
fn down_alone_steers_down() {
    assert_eq!(paddle_direction(false, true), -1);
}

#[test]
fn both_keys_cancel() {
    assert_eq!(paddle_direction(true, true), 0);
}

#[test]
fn no_key_stands_still() {
    assert_eq!(paddle_direction(false, false), 0);
}

#[test]
fn paddle_limit_is_half_height_less_half_paddle() {
    assert_eq!(PADDLE_LIMIT, WH / 2 - PADDLE_SCALE_Y / 2);
    assert_eq!(PADDLE_LIMIT, 310 * PIXEL);
}

#[test]
fn paddles_start_at_the_middle_of_their_sides() {
    assert_eq!(Paddle::new(Player::One), Paddle { x: -PADDLE_OFFSET, y: 0 });
    assert_eq!(Paddle::new(Player::Two), Paddle { x: PADDLE_OFFSET, y: 0 });
    assert_eq!(PADDLE_OFFSET, 610 * PIXEL);
}

#[test]
fn paddle_moves_by_speed_times_time() {
    let mut p = Paddle::new(Player::One);
    // a tenth of a second at 450 pixels per second
    p.advance(1, SECOND / 10);
    assert_eq!(p.y, 45 * PIXEL);
    assert_eq!(p.y, PADDLE_SPEED * DIR_ONE * 1_000_000);
    p.advance(-1, SECOND / 5);
    assert_eq!(p.y, -45 * PIXEL);
    p.advance(0, SECOND);
    assert_eq!(p.y, -45 * PIXEL);
    assert_eq!(p.x, -PADDLE_OFFSET);
}

#[test]
fn paddle_moves_in_one_unit_of_time() {
    let mut p = Paddle { x: 0, y: 7 };
    p.advance(1, 1);
    assert_eq!(p.y, 7 + 7_549_747_200);
}

#[test]
fn paddle_stops_at_the_top() {
    let mut p = Paddle::new(Player::Two);
    p.advance(1, SECOND);
    assert_eq!(p.y, PADDLE_LIMIT);
    p.advance(1, SECOND / 64);
    assert_eq!(p.y, PADDLE_LIMIT);
}

#[test]
fn paddle_stops_at_the_bottom() {
    let mut p = Paddle::new(Player::Two);
    p.advance(-1, SECOND);
    assert_eq!(p.y, -PADDLE_LIMIT);
}

#[test]
fn oversized_frame_cannot_push_a_paddle_out() {
    let mut p = Paddle::new(Player::One);
    p.advance(1, u64::MAX);
    assert_eq!(p.y, PADDLE_LIMIT);
    p.advance(-1, u64::MAX);
    assert_eq!(p.y, -PADDLE_LIMIT);
    p.advance(i8::MIN, u64::MAX);
    assert_eq!(p.y, -PADDLE_LIMIT);
    p.advance(i8::MAX, u64::MAX);
    assert_eq!(p.y, PADDLE_LIMIT);
}

#[test]
fn standing_paddle_outside_the_field_is_brought_back() {
    let mut p = Paddle { x: 0, y: i64::MAX };
    p.advance(0, 0);
    assert_eq!(p.y, PADDLE_LIMIT);
    let mut q = Paddle { x: 0, y: i64::MIN };
    q.advance(0, 0);
    assert_eq!(q.y, -PADDLE_LIMIT);
}

#[test]
fn clamp_leaves_heights_in_range_alone() {
    for y in [0, 1, -1, PADDLE_LIMIT, -PADDLE_LIMIT, PADDLE_LIMIT - 1, 17 * PIXEL] {
        assert_eq!(clamp_height(y), y);
    }
}

#[test]
fn clamp_brings_heights_to_the_nearer_end() {
    assert_eq!(clamp_height(PADDLE_LIMIT + 1), PADDLE_LIMIT);
    assert_eq!(clamp_height(-PADDLE_LIMIT - 1), -PADDLE_LIMIT);
    assert_eq!(clamp_height(i64::MAX), PADDLE_LIMIT);
    assert_eq!(clamp_height(i64::MIN), -PADDLE_LIMIT);
}

#[test]
fn clamping_twice_is_clamping_once() {
    for y in [i64::MIN, -PADDLE_LIMIT - 1, -PADDLE_LIMIT, -5, 0, 5, PADDLE_LIMIT, PADDLE_LIMIT + 1, i64::MAX] {
        let once = clamp_height(y);
        assert_eq!(clamp_height(once), once);
        assert!(-PADDLE_LIMIT <= once && once <= PADDLE_LIMIT);
    }
}

#[test]
fn paddle_box_has_the_paddle_size() {
    let p = Paddle { x: 3, y: -4 };
    let r = p.bounds();
    assert_eq!((r.x, r.y, r.width, r.height), (3, -4, PADDLE_SCALE_X, PADDLE_SCALE_Y));
}

#[test]
fn a_second_is_ten_million_units_of_time() {
    assert_eq!(SECOND, 10_000_000);
    assert_eq!(PIXEL, SECOND as i64 * DIR_ONE);
    assert_eq!(PIXEL, 167_772_160_000_000);
}

#[test]
fn paddle_moves_in_a_frame_of_a_128th_of_a_second() {
    let mut p = Paddle::new(Player::One);
    p.advance(1, SECOND / 128);
    assert_eq!(SECOND / 128, 78_125);
    // 450 / 128 pixels
    assert_eq!(p.y, 450 * PIXEL / 128);
    assert_eq!(p.y, 589_824_000_000_000);
}
