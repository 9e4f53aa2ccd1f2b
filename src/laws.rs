use vstd::prelude::*;
use crate::entity::Size;
use crate::config::MAX_LENGTH;
use crate::game::{lemma_before_collision, lemma_collide, lemma_step_wf, direction, hit_velocity_x, touches_wall, Controls, GameView};

verus! {

/// Horizontal velocity after `n` paddle hits in a row, starting from `vx`.
pub open spec fn after_hits(vx: int, acc: int, n: nat) -> int
    decreases n,
{
    if n == 0 {
        vx
    } else {
        hit_velocity_x(after_hits(vx, acc, (n - 1) as nat), acc)
    }
}

pub open spec fn magnitude(v: int) -> int {
    if v < 0 {
        -v
    } else {
        v
    }
}

/// One tick of a well-formed game leaves it well-formed.
pub proof fn step_keeps_invariant(s: GameView, c: Controls)
    requires
        s.wf(),
        s.in_range(),
    ensures
        s.step(c).wf(),
{
    lemma_step_wf(s, c);
}

/// After any tick, each paddle is at most one paddle move above the top of
/// the field or below its bottom.
pub proof fn paddles_stay_near_field(s: GameView, c: Controls)
    requires
        s.wf(),
    ensures
        -s.config.paddle_speed <= s.step(c).player1.position.y <= s.config.field_height
            - s.player1.height + s.config.paddle_speed,
        -s.config.paddle_speed <= s.step(c).player2.position.y <= s.config.field_height
            - s.player2.height + s.config.paddle_speed,
{
}

/// Each of `n` hits in a row, from a moving ball, adds `acc` to the
/// horizontal speed and reverses its direction.
pub proof fn hits_escalate_speed(vx: int, acc: int, n: nat)
    requires
        vx != 0,
        acc >= 0,
    ensures
        magnitude(after_hits(vx, acc, n)) == magnitude(vx) + n * acc,
        direction(after_hits(vx, acc, n)) == (if n % 2 == 0 {
            direction(vx)
        } else {
            -direction(vx)
        }),
    decreases n,
{
    if n > 0 {
        hits_escalate_speed(vx, acc, (n - 1) as nat);
        assert((n - 1) * acc + acc == n * acc) by (nonlinear_arith);
    }
}

/// A paddle hit in a tick adds the configured acceleration to the ball's
/// horizontal speed and reverses its direction.
pub proof fn hit_speeds_up_and_reverses(s: GameView, c: Controls)
    requires
        s.wf(),
        s.in_range(),
        s.hit_in_step(c) is Some,
    ensures
        ({
            let before = s.before_collision(c).ball.velocity.x as int;
            let after = s.step(c).ball.velocity.x as int;
            &&& magnitude(after) == magnitude(before) + s.config.ball_acc
            &&& before < 0 ==> after > 0
            &&& before > 0 ==> after < 0
        }),
{
    lemma_before_collision(s, c);
    let b = s.before_collision(c);
    lemma_collide(b);
    let m = b.collide();
    assert(m.ball.velocity.x == hit_velocity_x(
        b.ball.velocity.x as int,
        s.config.ball_acc as int,
    ));
    assert(s.step(c) == m.bounce());
    assert(s.step(c).ball.velocity.x == m.ball.velocity.x);
}

/// A tick with no hit and no reset leaves the horizontal velocity as it was.
pub proof fn no_hit_keeps_horizontal_velocity(s: GameView, c: Controls)
    requires
        s.wf(),
        s.in_range(),
        s.hit_in_step(c) is None,
        !c.reset,
    ensures
        s.step(c).ball.velocity.x == s.ball.velocity.x,
{
}

/// When the ball touches the top or the bottom of the field, the tick ends
/// with its vertical velocity reversed; otherwise it is kept.
pub proof fn wall_contact_reflects(s: GameView, c: Controls)
    requires
        s.wf(),
        s.in_range(),
    ensures
        ({
            let m = s.before_collision(c).collide();
            let v = m.ball.velocity.y as int;
            if touches_wall(m.ball, s.config.field_height as int) {
                s.step(c).ball.velocity.y == -v
            } else {
                s.step(c).ball.velocity.y == v
            }
        }),
{
    lemma_before_collision(s, c);
    lemma_collide(s.before_collision(c));
}

/// Resetting twice is resetting once: every body is at its starting place,
/// as in a new game.
pub proof fn reset_is_idempotent(s: GameView)
    requires
        s.wf(),
    ensures
        s.reset().reset() == s.reset(),
        s.reset() == GameView::start(
            s.config,
            Size { width: s.player1.width, height: s.player1.height },
            Size { width: s.player2.width, height: s.player2.height },
            Size { width: s.ball.width, height: s.ball.height },
        ),
        s.reset().wf(),
{
}

/// A new game with paddles no taller than the field and a ball no wider than
/// it starts well-formed: paddles inside the field, the ball moving left and
/// nobody winning.
pub proof fn start_is_in_play(
    config: crate::config::Config,
    player1: Size,
    player2: Size,
    ball: Size,
)
    requires
        config.valid(),
        0 < player1.width <= MAX_LENGTH,
        0 < player1.height <= config.field_height,
        0 < player2.width <= MAX_LENGTH,
        0 < player2.height <= config.field_height,
        0 < ball.width <= config.field_width,
        0 < ball.height <= MAX_LENGTH,
    ensures
        ({
            let s = GameView::start(config, player1, player2, ball);
            &&& s.wf()
            &&& 0 <= s.player1.position.y <= config.field_height - player1.height
            &&& 0 <= s.player2.position.y <= config.field_height - player2.height
            &&& s.ball.velocity.x < 0
            &&& !s.player1_wins() && !s.player2_wins()
        }),
{
}

/// Two ticks in a row with the reset control held end in the same state, and
/// report the same hit, as the first alone.
pub proof fn reset_tick_is_idempotent(s: GameView, c1: Controls, c2: Controls)
    requires
        s.wf(),
        c1.reset,
        c2.reset,
    ensures
        s.step(c1).step(c2) == s.step(c1),
        s.step(c1).hit_in_step(c2) == s.hit_in_step(c1),
{
    assert(s.step(c1).apply_controls(c2) == s.apply_controls(c1));
}

/// The two players never win at once.
pub proof fn wins_are_exclusive(s: GameView)
    requires
        s.config.valid(),
    ensures
        !(s.player1_wins() && s.player2_wins()),
{
}

} // verus!
