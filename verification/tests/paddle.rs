use pong::entity::Entity;
use pong::geometry::Vec2;
use pong::{PADDLE_SPEED, WINDOW_HEIGHT};

fn paddle(height: u32, y: i64) -> Entity {
    Entity::new(16, height, Vec2 { x: 32, y })
}

fn lowest(height: u32) -> i64 {
    2 * (WINDOW_HEIGHT - height as i64)
}

#[test]
fn up_key_moves_one_stride_up() {
    let mut p = paddle(96, 384);
    p.steer(true, false);
    assert_eq!(p.position(), Vec2 { x: 32, y: 384 - 2 * PADDLE_SPEED });
    assert_eq!(p.position().y, 368);
}

#[test]
fn down_key_moves_one_stride_down() {
    let mut p = paddle(96, 384);
    p.steer(false, true);
    assert_eq!(p.position(), Vec2 { x: 32, y: 400 });
}

#[test]
fn no_key_no_move() {
    let mut p = paddle(96, 384);
    p.steer(false, false);
    assert_eq!(p, paddle(96, 384));
}

#[test]
fn both_keys_inside_the_field_cancel_out() {
    let mut p = paddle(96, 384);
    p.steer(true, true);
    assert_eq!(p, paddle(96, 384));
}

#[test]
fn both_keys_at_the_top_move_down() {
    // At the top the upper key does nothing, and the lower key still acts.
    let mut p = paddle(96, 0);
    p.steer(true, true);
    assert_eq!(p.position().y, 16);
}

#[test]
fn both_keys_at_the_bottom_cancel_out() {
    // The upper key lifts the paddle off the bottom, the lower key puts it back.
    let mut p = paddle(96, lowest(96));
    p.steer(true, true);
    assert_eq!(p.position().y, 768);
}

#[test]
fn up_key_stops_at_the_top() {
    let mut p = paddle(96, 0);
    p.steer(true, false);
    assert_eq!(p.position().y, 0);
}

#[test]
fn down_key_stops_at_the_bottom() {
    let mut p = paddle(96, lowest(96));
    p.steer(false, true);
    assert_eq!(p.position().y, 768);
}

#[test]
fn up_key_acts_while_any_part_is_below_the_top() {
    // Half a pixel below the top is enough for a whole stride.
    let mut p = paddle(96, 1);
    p.steer(true, false);
    assert_eq!(p.position().y, -15);
}

#[test]
fn down_key_acts_while_any_part_is_above_the_bottom() {
    let mut p = paddle(96, 767);
    p.steer(false, true);
    assert_eq!(p.position().y, 783);
}

#[test]
fn steering_keeps_size_velocity_and_x() {
    let mut p = Entity::with_velocity(16, 96, Vec2 { x: 32, y: 384 }, Vec2 { x: 3, y: -4 });
    p.steer(true, false);
    assert_eq!(p.width(), 16);
    assert_eq!(p.height(), 96);
    assert_eq!(p.position().x, 32);
    assert_eq!(p.velocity(), Vec2 { x: 3, y: -4 });
}

#[test]
fn paddle_on_the_stride_never_leaves_the_field() {
    // 96 pixels tall: the start and the lowest place are whole strides.
    let mut p = paddle(96, WINDOW_HEIGHT - 96);
    for _ in 0..100 {
        p.steer(true, false);
        assert!(0 <= p.position().y && p.position().y <= lowest(96));
    }
    assert_eq!(p.position().y, 0);
    for _ in 0..200 {
        p.steer(false, true);
        assert!(0 <= p.position().y && p.position().y <= lowest(96));
    }
    assert_eq!(p.position().y, lowest(96));
    for frame in 0..200 {
        p.steer(frame % 3 != 0, frame % 5 != 0);
        assert!(0 <= p.position().y && p.position().y <= lowest(96));
    }
}

#[test]
fn paddle_off_the_stride_overshoots_by_less_than_a_stride() {
    // 100 pixels tall, centred: 190 pixels from the top, which is no whole
    // number of strides.
    let mut p = paddle(100, WINDOW_HEIGHT - 100);
    for _ in 0..23 {
        p.steer(true, false);
    }
    assert_eq!(p.position().y, 12);
    p.steer(true, false);
    assert_eq!(p.position().y, -4);
    for _ in 0..10 {
        p.steer(true, false);
        assert_eq!(p.position().y, -4);
    }
    for _ in 0..200 {
        p.steer(false, true);
        assert!(-16 < p.position().y && p.position().y < lowest(100) + 16);
    }
    assert_eq!(p.position().y, 764);
}

#[test]
fn paddle_taller_than_the_window_only_moves_up() {
    let mut p = paddle(500, 8);
    p.steer(false, true);
    assert_eq!(p.position().y, 8);
    p.steer(true, false);
    assert_eq!(p.position().y, -8);
    p.steer(true, true);
    assert_eq!(p.position().y, -8);
}
