use pong::entity::Entity;
use pong::geometry::{Rectangle, Vec2};

#[test]
fn new_entity_is_at_rest() {
    let e = Entity::new(16, 96, Vec2 { x: 32, y: 384 });
    assert_eq!(e.width(), 16);
    assert_eq!(e.height(), 96);
    assert_eq!(e.position(), Vec2 { x: 32, y: 384 });
    assert_eq!(e.velocity(), Vec2 { x: 0, y: 0 });
}

#[test]
fn with_velocity_keeps_what_it_is_given() {
    let e = Entity::with_velocity(7, 9, Vec2 { x: -3, y: 11 }, Vec2 { x: -10, y: 4 });
    assert_eq!(e.width(), 7);
    assert_eq!(e.height(), 9);
    assert_eq!(e.position(), Vec2 { x: -3, y: 11 });
    assert_eq!(e.velocity(), Vec2 { x: -10, y: 4 });
}

#[test]
fn new_equals_with_zero_velocity() {
    let at = Vec2 { x: 5, y: 6 };
    assert_eq!(Entity::new(1, 2, at), Entity::with_velocity(1, 2, at, Vec2 { x: 0, y: 0 }));
}

#[test]
fn bounds_start_at_the_position_and_span_the_size() {
    let e = Entity::new(16, 96, Vec2 { x: 32, y: 384 });
    assert_eq!(e.bounds(), Rectangle { x: 32, y: 384, width: 32, height: 192 });
}

#[test]
fn bounds_of_an_odd_sized_entity() {
    let e = Entity::new(15, 7, Vec2 { x: -1, y: 3 });
    assert_eq!(e.bounds(), Rectangle { x: -1, y: 3, width: 30, height: 14 });
}

#[test]
fn centre_is_position_plus_half_the_size() {
    let e = Entity::new(16, 96, Vec2 { x: 32, y: 384 });
    assert_eq!(e.centre(), Vec2 { x: 48, y: 480 });
}

#[test]
fn centre_of_an_odd_sized_entity_is_on_the_grid() {
    // 15 pixels wide at x = 10 pixels: the centre is at 17.5 pixels.
    let e = Entity::new(15, 1, Vec2 { x: 20, y: 0 });
    assert_eq!(e.centre(), Vec2 { x: 35, y: 1 });
}

#[test]
fn centre_of_an_empty_entity_is_its_position() {
    let e = Entity::new(0, 0, Vec2 { x: -8, y: 8 });
    assert_eq!(e.centre(), Vec2 { x: -8, y: 8 });
    assert_eq!(e.bounds(), Rectangle { x: -8, y: 8, width: 0, height: 0 });
}

#[test]
fn largest_sprite_at_the_origin() {
    let e = Entity::new(u32::MAX, u32::MAX, Vec2 { x: 0, y: 0 });
    assert_eq!(e.bounds().width, 8_589_934_590);
    assert_eq!(e.centre(), Vec2 { x: 4_294_967_295, y: 4_294_967_295 });
}

#[test]
fn entity_at_the_far_end_of_the_grid() {
    let e = Entity::new(1, 1, Vec2 { x: i64::MAX - 2, y: i64::MAX - 2 });
    assert_eq!(e.centre(), Vec2 { x: i64::MAX - 1, y: i64::MAX - 1 });
}
