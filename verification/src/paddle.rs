//! How a paddle answers its two keys, and how far it can stray.
//!
//! A paddle only moves up and down. Its place is the `y` coordinate of its top
//! edge in half pixels, zero being the top of the window.

use vstd::prelude::*;
use crate::geometry::half_pixels;
use crate::{PADDLE_SPEED, WINDOW_HEIGHT};

verus! {

/// The distance that a paddle moves in one frame, in half pixels.
pub open spec fn stride() -> int {
    half_pixels(PADDLE_SPEED as int)
}

/// The `y` at which the bottom edge of a paddle `height` pixels tall lies on
/// the bottom of the window.
pub open spec fn lowest(height: int) -> int {
    half_pixels(WINDOW_HEIGHT - height)
}

/// Where a paddle at `y` stands after one frame with the given keys held.
///
/// The two keys are looked at one after the other, the upper one first. Held
/// while the top edge is below the top of the window, the upper key moves the
/// paddle one stride up. Held while the bottom edge is then above the bottom
/// of the window, the lower key moves it one stride down.
pub open spec fn steered(y: int, height: int, up: bool, down: bool) -> int {
    let lifted = if up && y > 0 { y - stride() } else { y };
    if down && lifted < lowest(height) { lifted + stride() } else { lifted }
}

/// Where a paddle at `y` stands after one frame for each entry of `keys`,
/// which holds for each frame whether the upper and the lower key were held.
pub open spec fn steered_through(y: int, height: int, keys: Seq<(bool, bool)>) -> int
    decreases keys.len(),
{
    if keys.len() == 0 {
        y
    } else {
        steered(steered_through(y, height, keys.drop_last()), height, keys.last().0, keys.last().1)
    }
}

/// The paddle lies wholly inside the window.
pub open spec fn in_field(y: int, height: int) -> bool {
    0 <= y <= lowest(height)
}

/// The paddle sticks out of the window by less than one stride, if at all.
pub open spec fn near_field(y: int, height: int) -> bool {
    -stride() < y < lowest(height) + stride()
}

/// The paddle is a whole number of strides away from the top of the window,
/// and so is the lowest place that it may take.
pub open spec fn on_stride(y: int, height: int) -> bool {
    y % stride() == 0 && lowest(height) % stride() == 0
}

/// Holding both keys is no move, as long as the paddle's top edge is below
/// the top of the window and, one stride up, its bottom edge is above the
/// bottom of the window. Holding neither key is no move anywhere.
pub proof fn lemma_both_keys_cancel(y: int, height: int)
    ensures
        0 < y && y - stride() < lowest(height) ==> steered(y, height, true, true) == y,
        steered(y, height, false, false) == y,
{
}

/// A paddle that sticks out of the window by less than a stride never sticks
/// out by more, whatever keys are held.
pub proof fn lemma_steered_stays_near_field(y: int, height: int, up: bool, down: bool)
    requires
        near_field(y, height),
    ensures
        near_field(steered(y, height, up, down), height),
{
}

/// A paddle inside the window that is on the stride stays inside the window,
/// and on the stride, whatever keys are held.
pub proof fn lemma_steered_stays_in_field(y: int, height: int, up: bool, down: bool)
    requires
        in_field(y, height),
        on_stride(y, height),
    ensures
        in_field(steered(y, height, up, down), height),
        on_stride(steered(y, height, up, down), height),
{
    let lifted = if up && y > 0 { y - stride() } else { y };
    assert(stride() == 16);
    assert(lifted % 16 == 0 && 0 <= lifted <= lowest(height));
    assert(lifted < lowest(height) ==> (lifted + 16) % 16 == 0 && lifted + 16 <= lowest(height));
}

/// A paddle inside the window that is on the stride is inside the window after
/// any number of frames, whatever keys are held in each.
pub proof fn lemma_paddle_stays_in_field(y: int, height: int, keys: Seq<(bool, bool)>)
    requires
        in_field(y, height),
        on_stride(y, height),
    ensures
        in_field(steered_through(y, height, keys), height),
        on_stride(steered_through(y, height, keys), height),
    decreases keys.len(),
{
    if keys.len() > 0 {
        lemma_paddle_stays_in_field(y, height, keys.drop_last());
        lemma_steered_stays_in_field(
            steered_through(y, height, keys.drop_last()),
            height,
            keys.last().0,
            keys.last().1,
        );
    }
}

/// A paddle that starts inside the window sticks out of it by less than one
/// stride after any number of frames, whatever keys are held in each.
pub proof fn lemma_paddle_stays_near_field(y: int, height: int, keys: Seq<(bool, bool)>)
    requires
        near_field(y, height),
    ensures
        near_field(steered_through(y, height, keys), height),
    decreases keys.len(),
{
    if keys.len() > 0 {
        lemma_paddle_stays_near_field(y, height, keys.drop_last());
        lemma_steered_stays_near_field(
            steered_through(y, height, keys.drop_last()),
            height,
            keys.last().0,
            keys.last().1,
        );
    }
}

} // verus!
