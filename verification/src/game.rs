//! The state of a game and the rules that change it.

use vstd::prelude::*;
use crate::entity::Entity;
use crate::geometry::{centred, half_pixels, Vec2};
use crate::paddle::{in_field, lowest, on_stride, stride};
use crate::score::{label_text, Score};
use crate::{BALL_SPEED, PADDLE_MARGIN, PADDLE_SPEED, WINDOW_HEIGHT, WINDOW_WIDTH};

verus! {

/// Which of the four paddle keys are held down in a frame.
#[derive(Clone, Copy, Debug, PartialEq, Eq, Structural)]
pub struct Keys {
    pub player1_up: bool,
    pub player1_down: bool,
    pub player2_up: bool,
    pub player2_down: bool,
}

/// Where the ball is, across the field, at the end of a frame.
#[derive(Clone, Copy, Debug, PartialEq, Eq, Structural)]
pub enum Exit {
    /// The ball's position is past neither side of the window.
    InPlay,
    /// The ball's position is past the left side of the window: its `x` is
    /// below zero.
    Left,
    /// The ball's position is past the right side of the window: its `x` is
    /// above the window's width.
    Right,
}

/// The place of the left paddle, `height` pixels tall, at the start of a
/// game: one margin away from the left side, centred between top and bottom.
pub open spec fn player1_start(height: u32) -> Vec2 {
    Vec2 {
        x: half_pixels(PADDLE_MARGIN as int) as i64,
        y: centred(WINDOW_HEIGHT as int, height as int) as i64,
    }
}

/// The place of the right paddle, `width` by `height` pixels, at the start of
/// a game: one margin away from the right side, centred between top and
/// bottom.
pub open spec fn player2_start(width: u32, height: u32) -> Vec2 {
    Vec2 {
        x: half_pixels(WINDOW_WIDTH - width - PADDLE_MARGIN) as i64,
        y: centred(WINDOW_HEIGHT as int, height as int) as i64,
    }
}

/// `ball` is a ball of the given size as it is put into play: centred in the
/// window and flying straight to the left at `BALL_SPEED`.
pub open spec fn is_served(ball: Entity, width: u32, height: u32) -> bool {
    &&& ball.width() == width
    &&& ball.height() == height
    &&& ball.position().x == centred(WINDOW_WIDTH as int, width as int)
    &&& ball.position().y == centred(WINDOW_HEIGHT as int, height as int)
    &&& ball.velocity().x == -half_pixels(BALL_SPEED as int)
    &&& ball.velocity().y == 0
}

/// The two paddles and the two scores. Player 1 holds the left paddle,
/// player 2 the right one.
///
/// The ball in flight is not held here: whoever flies it keeps it, and takes
/// it from here each time that it is put into play.
#[derive(Debug, PartialEq, Eq)]
pub struct GameState {
    pub player1: Entity,
    pub player2: Entity,
    pub score1: Score,
    pub score2: Score,
}

impl GameState {
    /// The start of a game whose paddles are both `paddle_width` by
    /// `paddle_height` pixels and whose ball is `ball_width` by `ball_height`
    /// pixels: the paddles at rest in their starting places, no points on
    /// either side, and the ball as it is first put into play.
    pub fn new(paddle_width: u32, paddle_height: u32, ball_width: u32, ball_height: u32) -> (start: (GameState, Entity))
        ensures
            start.0.player1.width() == paddle_width,
            start.0.player1.height() == paddle_height,
            start.0.player1.position() == player1_start(paddle_height),
            start.0.player1.velocity() == (Vec2 { x: 0, y: 0 }),
            start.0.player2.width() == paddle_width,
            start.0.player2.height() == paddle_height,
            start.0.player2.position() == player2_start(paddle_width, paddle_height),
            start.0.player2.velocity() == (Vec2 { x: 0, y: 0 }),
            start.0.score1.value() == 0,
            start.0.score1.spec_label() == label_text(0),
            start.0.score2.value() == 0,
            start.0.score2.spec_label() == label_text(0),
            is_served(start.1, ball_width, ball_height),
    {
        let width: i64 = paddle_width as i64;
        let height: i64 = paddle_height as i64;
        let player1_position = Vec2 { x: 2 * PADDLE_MARGIN, y: WINDOW_HEIGHT - height };
        let player2_position = Vec2 {
            x: 2 * (WINDOW_WIDTH - width - PADDLE_MARGIN),
            y: WINDOW_HEIGHT - height,
        };
        let state = GameState {
            player1: Entity::new(paddle_width, paddle_height, player1_position),
            player2: Entity::new(paddle_width, paddle_height, player2_position),
            score1: Score::new(),
            score2: Score::new(),
        };
        (state, GameState::reset_ball(ball_width, ball_height))
    }

    /// A ball of `ball_width` by `ball_height` pixels as it is put into play
    /// after a point: centred in the window and flying straight to the left,
    /// whatever the ball before it did.
    pub fn reset_ball(ball_width: u32, ball_height: u32) -> (ball: Entity)
        ensures
            is_served(ball, ball_width, ball_height),
    {
        let width: i64 = ball_width as i64;
        let height: i64 = ball_height as i64;
        let position = Vec2 { x: WINDOW_WIDTH - width, y: WINDOW_HEIGHT - height };
        let velocity = Vec2 { x: -(2 * BALL_SPEED), y: 0 };
        Entity::with_velocity(ball_width, ball_height, position, velocity)
    }

    /// Moves both paddles for one frame, each by its own two keys. The scores
    /// stay as they are.
    pub fn move_paddles(&mut self, keys: Keys)
        ensures
            final(self).player1.is_steered(old(self).player1, keys.player1_up, keys.player1_down),
            final(self).player2.is_steered(old(self).player2, keys.player2_up, keys.player2_down),
            final(self).score1 == old(self).score1,
            final(self).score2 == old(self).score2,
    {
        self.player1.steer(keys.player1_up, keys.player1_down);
        self.player2.steer(keys.player2_up, keys.player2_down);
    }

    /// The paddle that the ball has struck, given for each paddle whether the
    /// ball's bounding rectangle overlaps the paddle's. At most one paddle is
    /// struck in a frame: player 1's if the ball overlaps it, else player 2's
    /// if the ball overlaps that.
    pub fn paddle_hit(&self, touches_player1: bool, touches_player2: bool) -> (hit: Option<&Entity>)
        ensures
            touches_player1 ==> hit == Some(&self.player1),
            !touches_player1 && touches_player2 ==> hit == Some(&self.player2),
            !touches_player1 && !touches_player2 ==> hit is None,
    {
        if touches_player1 {
            Some(&self.player1)
        } else if touches_player2 {
            Some(&self.player2)
        } else {
            None
        }
    }

    /// Counts the point, if the ball has left the field, and puts a ball of
    /// `ball_width` by `ball_height` pixels back into play.
    ///
    /// A ball past the left side is a point for player 2, one past the right
    /// side a point for player 1. The text of the score that changed is
    /// rewritten, and the new ball is returned. While the ball is in play
    /// nothing changes and nothing is returned. The paddles stay where they
    /// are in every case.
    pub fn award(&mut self, exit: Exit, ball_width: u32, ball_height: u32) -> (served: Option<Entity>)
        requires
            exit is Left ==> old(self).score2.value() < i32::MAX,
            exit is Right ==> old(self).score1.value() < i32::MAX,
        ensures
            final(self).player1 == old(self).player1,
            final(self).player2 == old(self).player2,
            exit is InPlay ==> {
                &&& served is None
                &&& final(self).score1 == old(self).score1
                &&& final(self).score2 == old(self).score2
            },
            exit is Left ==> {
                &&& served matches Some(ball) && is_served(ball, ball_width, ball_height)
                &&& final(self).score1 == old(self).score1
                &&& final(self).score2.value() == old(self).score2.value() + 1
                &&& final(self).score2.spec_label() == label_text((old(self).score2.value() + 1) as nat)
            },
            exit is Right ==> {
                &&& served matches Some(ball) && is_served(ball, ball_width, ball_height)
                &&& final(self).score2 == old(self).score2
                &&& final(self).score1.value() == old(self).score1.value() + 1
                &&& final(self).score1.spec_label() == label_text((old(self).score1.value() + 1) as nat)
            },
    {
        match exit {
            Exit::InPlay => None,
            Exit::Left => {
                self.score2.increment();
                Some(GameState::reset_ball(ball_width, ball_height))
            },
            Exit::Right => {
                self.score1.increment();
                Some(GameState::reset_ball(ball_width, ball_height))
            },
        }
    }
}

/// Paddles no taller than the window start inside it. They start on the
/// stride, and so never leave the window, exactly when their height in pixels
/// is a multiple of twice `PADDLE_SPEED`.
pub proof fn lemma_paddles_start_in_field(width: u32, height: u32)
    requires
        height <= WINDOW_HEIGHT,
    ensures
        in_field(player1_start(height).y as int, height as int),
        in_field(player2_start(width, height).y as int, height as int),
        on_stride(player1_start(height).y as int, height as int)
            <==> height as int % (2 * PADDLE_SPEED) == 0,
        on_stride(player2_start(width, height).y as int, height as int)
            <==> height as int % (2 * PADDLE_SPEED) == 0,
{
    let h = height as int;
    assert(stride() == 16);
    assert(player1_start(height).y == 480 - h);
    assert(player2_start(width, height).y == 480 - h);
    assert(lowest(h) == 960 - 2 * h);
    assert((480 - h) % 16 == 0 <==> h % 16 == 0);
    assert(h % 16 == 0 ==> (960 - 2 * h) % 16 == 0);
}

} // verus!
