//! The rules of a two-paddle Pong game on whole numbers: where the paddles
//! and the ball are placed, how a paddle answers its keys, which paddle a
//! ball has struck, and how points are counted and shown.
//!
//! The flight of the ball is not part of this crate. A caller moves the ball
//! itself, tells this crate what it saw (which paddles the ball touches, on
//! which side it left the field) and gets back what the rules make of it.

use vstd::prelude::*;

pub mod entity;
pub mod game;
pub mod geometry;
pub mod paddle;
pub mod score;

verus! {

/// Width of the window, in pixels.
pub const WINDOW_WIDTH: i64 = 640;

/// Height of the window, in pixels.
pub const WINDOW_HEIGHT: i64 = 480;

/// How far a paddle moves in one frame while a key is held, in pixels.
pub const PADDLE_SPEED: i64 = 8;

/// Speed at which the ball is served, in pixels per frame.
pub const BALL_SPEED: i64 = 5;

/// Gap between a paddle and the side of the window behind it, in pixels.
pub const PADDLE_MARGIN: i64 = 16;

} // verus!
