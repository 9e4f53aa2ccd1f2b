use vstd::prelude::*;
use crate::entity::SCALE;

verus! {

/// Largest field dimension, speed, spin factor, acceleration and margin that a
/// configuration may hold.
pub const MAX_LENGTH: i64 = 0x100_0000;

/// The arena layout and the tuning of the game, in length units.
#[derive(Clone, Copy, Debug, PartialEq, Eq, Structural)]
pub struct Config {
    pub field_width: i64,
    pub field_height: i64,
    /// Vertical distance a paddle moves in one tick.
    pub paddle_speed: i64,
    /// Vertical speed given to the ball per whole paddle height of offset
    /// between the paddle's centre and the ball's.
    pub paddle_spin: i64,
    /// Horizontal speed of the ball at the start.
    pub ball_speed: i64,
    /// Horizontal speed the ball gains on each paddle hit.
    pub ball_acc: i64,
    /// Gap between a paddle and its side of the field.
    pub paddle_margin: i64,
}

impl Config {
    pub open spec fn valid(self) -> bool {
        &&& 0 < self.field_width <= MAX_LENGTH
        &&& 0 < self.field_height <= MAX_LENGTH
        &&& 0 <= self.paddle_speed <= MAX_LENGTH
        &&& 0 <= self.paddle_spin <= MAX_LENGTH
        &&& 0 < self.ball_speed <= MAX_LENGTH
        &&& 0 <= self.ball_acc <= MAX_LENGTH
        &&& 0 <= self.paddle_margin <= MAX_LENGTH
    }

    /// A 640 by 480 field; paddles move 8 pixels a tick and sit 16 pixels
    /// from the sides; the ball starts at 5 pixels a tick and gains 0.05 on
    /// each hit; a spin factor of 4.
    pub fn standard() -> (r: Config)
        ensures
            r.field_width == 640 * SCALE,
            r.field_height == 480 * SCALE,
            r.paddle_speed == 8 * SCALE,
            r.paddle_spin == 4 * SCALE,
            r.ball_speed == 5 * SCALE,
            r.ball_acc == 50,
            r.paddle_margin == 16 * SCALE,
            r.valid(),
    {
        Config {
            field_width: 640 * SCALE,
            field_height: 480 * SCALE,
            paddle_speed: 8 * SCALE,
            paddle_spin: 4 * SCALE,
            ball_speed: 5 * SCALE,
            ball_acc: 50,
            paddle_margin: 16 * SCALE,
        }
    }

    pub fn is_valid(&self) -> (r: bool)
        ensures
            r == self.valid(),
    {
        0 < self.field_width && self.field_width <= MAX_LENGTH && 0 < self.field_height
            && self.field_height <= MAX_LENGTH && 0 <= self.paddle_speed && self.paddle_speed
            <= MAX_LENGTH && 0 <= self.paddle_spin && self.paddle_spin <= MAX_LENGTH && 0
            < self.ball_speed && self.ball_speed <= MAX_LENGTH && 0 <= self.ball_acc
            && self.ball_acc <= MAX_LENGTH && 0 <= self.paddle_margin && self.paddle_margin
            <= MAX_LENGTH
    }
}

} // verus!
