//! Something on the field: a sprite of a fixed size at a position, with a
//! velocity.

use vstd::prelude::*;
use crate::geometry::{half_pixels, Rectangle, Vec2};
use crate::paddle::steered;
use crate::{PADDLE_SPEED, WINDOW_HEIGHT};

verus! {

/// A sprite of `width` by `height` pixels whose top-left corner is at
/// `position`, moving by `velocity` each frame. Position and velocity are in
/// half pixels.
///
/// The far corner of an entity's bounding rectangle is always a point that
/// `i64` coordinates can hold.
#[derive(Clone, Copy, Debug, PartialEq, Eq)]
pub struct Entity {
    width: u32,
    height: u32,
    position: Vec2,
    velocity: Vec2,
}

/// Whether a sprite of the given size, in pixels, can stand at `position`:
/// whether the far corner of its bounding rectangle is representable.
pub open spec fn fits(width: u32, height: u32, position: Vec2) -> bool {
    &&& position.x + half_pixels(width as int) <= i64::MAX
    &&& position.y + half_pixels(height as int) <= i64::MAX
}

impl Entity {
    #[verifier::type_invariant]
    spec fn inv(self) -> bool {
        fits(self.width, self.height, self.position)
    }

    /// Width of the sprite, in pixels.
    pub closed spec fn spec_width(&self) -> u32 {
        self.width
    }

    /// Height of the sprite, in pixels.
    pub closed spec fn spec_height(&self) -> u32 {
        self.height
    }

    /// Top-left corner, in half pixels.
    pub closed spec fn spec_position(&self) -> Vec2 {
        self.position
    }

    /// Displacement per frame, in half pixels.
    pub closed spec fn spec_velocity(&self) -> Vec2 {
        self.velocity
    }

    /// This entity is `before` after one frame as a paddle with the given
    /// keys held: moved up or down as `steered` says, and otherwise the same.
    pub open spec fn is_steered(&self, before: Entity, up: bool, down: bool) -> bool {
        &&& self.position().y == steered(
            before.position().y as int,
            before.height() as int,
            up,
            down,
        )
        &&& self.position().x == before.position().x
        &&& self.width() == before.width()
        &&& self.height() == before.height()
        &&& self.velocity() == before.velocity()
    }

    /// An entity at rest.
    pub fn new(width: u32, height: u32, position: Vec2) -> (e: Entity)
        requires
            fits(width, height, position),
        ensures
            e.spec_width() == width,
            e.spec_height() == height,
            e.spec_position() == position,
            e.spec_velocity() == (Vec2 { x: 0, y: 0 }),
    {
        Entity::with_velocity(width, height, position, Vec2 { x: 0, y: 0 })
    }

    /// An entity in motion.
    pub fn with_velocity(width: u32, height: u32, position: Vec2, velocity: Vec2) -> (e: Entity)
        requires
            fits(width, height, position),
        ensures
            e.spec_width() == width,
            e.spec_height() == height,
            e.spec_position() == position,
            e.spec_velocity() == velocity,
    {
        Entity { width, height, position, velocity }
    }

    #[verifier::when_used_as_spec(spec_width)]
    pub fn width(&self) -> (w: u32)
        ensures
            w == self.spec_width(),
    {
        self.width
    }

    #[verifier::when_used_as_spec(spec_height)]
    pub fn height(&self) -> (h: u32)
        ensures
            h == self.spec_height(),
    {
        self.height
    }

    #[verifier::when_used_as_spec(spec_position)]
    pub fn position(&self) -> (p: Vec2)
        ensures
            p == self.spec_position(),
    {
        self.position
    }

    #[verifier::when_used_as_spec(spec_velocity)]
    pub fn velocity(&self) -> (v: Vec2)
        ensures
            v == self.spec_velocity(),
    {
        self.velocity
    }

    /// The bounding rectangle: from the position, the sprite's width to the
    /// right and its height down.
    pub fn bounds(&self) -> (r: Rectangle)
        ensures
            r.x == self.position().x,
            r.y == self.position().y,
            r.width == half_pixels(self.width() as int),
            r.height == half_pixels(self.height() as int),
    {
        let w: i64 = self.width as i64;
        let h: i64 = self.height as i64;
        Rectangle { x: self.position.x, y: self.position.y, width: 2 * w, height: 2 * h }
    }

    /// The middle of the bounding rectangle: the position plus half the size.
    pub fn centre(&self) -> (c: Vec2)
        ensures
            c.x == self.position().x + self.width(),
            c.y == self.position().y + self.height(),
    {
        proof {
            use_type_invariant(self);
        }
        let w: i64 = self.width as i64;
        let h: i64 = self.height as i64;
        Vec2 { x: self.position.x + w, y: self.position.y + h }
    }

    /// Moves the entity as a paddle for one frame: up by one stride if `up`
    /// is held and its top edge is below the top of the window, then down by
    /// one stride if `down` is held and its bottom edge is above the bottom
    /// of the window. Nothing else about it changes.
    pub fn steer(&mut self, up: bool, down: bool)
        ensures
            final(self).is_steered(*old(self), up, down),
    {
        proof {
            use_type_invariant(&*self);
        }
        let height: i64 = self.height as i64;
        if up && self.position.y > 0 {
            self.position.y = self.position.y - 2 * PADDLE_SPEED;
        }
        if down && self.position.y < 2 * (WINDOW_HEIGHT - height) {
            self.position.y = self.position.y + 2 * PADDLE_SPEED;
        }
    }
}

} // verus!
