use vstd::prelude::*;
use vstd::arithmetic::div_mod::lemma_div_nonincreasing;
use crate::config::{Config, MAX_LENGTH};
use crate::entity::{Entity, Size, Vec2};

verus! {

/// Largest magnitude of the ball's coordinates and velocity components for
/// which a tick is computed: well beyond anything reached in play, and small
/// enough that no arithmetic of a tick leaves `i64`.
pub const MAX_COORD: i64 = 0x100_0000_0000;

/// One of the two paddles, and the player who moves it.
#[derive(Clone, Copy, Debug, PartialEq, Eq, Structural)]
pub enum Player {
    /// The left paddle.
    One,
    /// The right paddle.
    Two,
}

impl Player {
    /// The message shown once this player has won.
    pub open spec fn message(self) -> Seq<char> {
        match self {
            Player::One => "Player 1 win ! \nPress enter to play again"@,
            Player::Two => "Player 2 win ! \nPress enter to play again"@,
        }
    }

    pub fn win_message(self) -> (r: &'static str)
        ensures
            r@ == self.message(),
    {
        match self {
            Player::One => "Player 1 win ! \nPress enter to play again",
            Player::Two => "Player 2 win ! \nPress enter to play again",
        }
    }
}

/// The controls held during one tick.
#[derive(Clone, Copy, Debug, PartialEq, Eq, Structural)]
pub struct Controls {
    pub player1_up: bool,
    pub player1_down: bool,
    pub player2_up: bool,
    pub player2_down: bool,
    pub reset: bool,
}

impl Controls {
    /// No control held.
    pub fn none() -> (r: Controls)
        ensures
            !r.player1_up && !r.player1_down && !r.player2_up && !r.player2_down && !r.reset,
    {
        Controls {
            player1_up: false,
            player1_down: false,
            player2_up: false,
            player2_down: false,
            reset: false,
        }
    }
}

/// The sign of a horizontal speed; zero counts as moving right.
pub open spec fn direction(v: int) -> int {
    if v < 0 {
        -1
    } else {
        1
    }
}

/// Horizontal velocity after a paddle hit: sped up by `acc` in the direction
/// of travel, then reversed.
pub open spec fn hit_velocity_x(vx: int, acc: int) -> int {
    if direction(vx) < 0 {
        -(vx - acc)
    } else {
        -(vx + acc)
    }
}

/// Division rounded toward zero, for a positive divisor.
pub open spec fn trunc_div(n: int, d: int) -> int {
    if n >= 0 {
        n / d
    } else {
        -((-n) / d)
    }
}

/// Vertical velocity that a hit adds: `spin` times the offset of the ball's
/// centre below the paddle's, measured in paddle heights, rounded toward zero.
pub open spec fn spin_change(paddle: Entity, ball: Entity, spin: int) -> int {
    trunc_div(spin * (ball.centre_y() - paddle.centre_y()), paddle.height as int)
}

/// A paddle's vertical position after one tick: up when `y > 0`, then down
/// when the position reached so far is above `lowest`. Each test is made
/// before its own move, so a paddle may pass a bound by less than `speed`.
pub open spec fn moved_paddle_y(y: int, up: bool, down: bool, speed: int, lowest: int) -> int {
    let y1 = if up && y > 0 {
        y - speed
    } else {
        y
    };
    if down && y1 < lowest {
        y1 + speed
    } else {
        y1
    }
}

/// The ball meets or crosses the top or the bottom of the field.
pub open spec fn touches_wall(ball: Entity, field_height: int) -> bool {
    ball.position.y <= 0 || ball.position.y + ball.height >= field_height
}

/// Lowest top position that keeps a body of the given height inside the field.
pub open spec fn lowest_y(config: Config, body: Entity) -> int {
    config.field_height - body.height
}

/// The whole state of a game, as a value.
pub struct GameView {
    pub config: Config,
    pub player1: Entity,
    pub player2: Entity,
    pub ball: Entity,
}

impl GameView {
    /// A paddle has a positive size, no taller than the field (its bounds
    /// on the field rest on that), and no wider than `MAX_LENGTH`.
    pub open spec fn paddle_fits(self, paddle: Entity) -> bool {
        &&& 0 < paddle.width <= MAX_LENGTH
        &&& 0 < paddle.height <= self.config.field_height
    }

    /// The ball has a positive size, up to `MAX_LENGTH` each way.
    pub open spec fn ball_fits(self, ball: Entity) -> bool {
        &&& 0 < ball.width <= MAX_LENGTH
        &&& 0 < ball.height <= MAX_LENGTH
    }

    /// Left edge of the left paddle.
    pub open spec fn player1_x(self) -> int {
        self.config.paddle_margin as int
    }

    /// Left edge of the right paddle.
    pub open spec fn player2_x(self) -> int {
        self.config.field_width - self.player2.width - self.config.paddle_margin
    }

    /// The paddle is at most one move beyond the top or the bottom.
    pub open spec fn paddle_near_field(self, paddle: Entity) -> bool {
        -self.config.paddle_speed <= paddle.position.y <= lowest_y(self.config, paddle)
            + self.config.paddle_speed
    }

    /// The invariant of a game: a valid layout, bodies of positive size,
    /// paddles no taller than the field, paddles at rest on their fixed columns and near the field, and a ball
    /// that moves sideways.
    pub open spec fn wf(self) -> bool {
        &&& self.config.valid()
        &&& self.paddle_fits(self.player1)
        &&& self.paddle_fits(self.player2)
        &&& self.ball_fits(self.ball)
        &&& self.player1.position.x == self.player1_x()
        &&& self.player2.position.x == self.player2_x()
        &&& self.player1.velocity == Vec2::zero_spec()
        &&& self.player2.velocity == Vec2::zero_spec()
        &&& self.paddle_near_field(self.player1)
        &&& self.paddle_near_field(self.player2)
        &&& self.ball.velocity.x != 0
    }

    /// The ball's coordinates and velocity are within `MAX_COORD`.
    pub open spec fn in_range(self) -> bool {
        &&& -MAX_COORD <= self.ball.position.x <= MAX_COORD
        &&& -MAX_COORD <= self.ball.position.y <= MAX_COORD
        &&& -MAX_COORD <= self.ball.velocity.x <= MAX_COORD
        &&& -MAX_COORD <= self.ball.velocity.y <= MAX_COORD
    }

    /// Paddles and ball back at their starting places, the ball moving left at
    /// the base speed.
    pub open spec fn reset(self) -> GameView {
        let c = self.config;
        GameView {
            player1: Entity {
                position: Vec2 {
                    x: c.paddle_margin,
                    y: ((c.field_height - self.player1.height) / 2) as i64,
                },
                ..self.player1
            },
            player2: Entity {
                position: Vec2 {
                    x: self.player2_x() as i64,
                    y: ((c.field_height - self.player2.height) / 2) as i64,
                },
                ..self.player2
            },
            ball: Entity {
                position: Vec2 {
                    x: (c.field_width / 2 - self.ball.width / 2) as i64,
                    y: (c.field_height / 2 - self.ball.height / 2) as i64,
                },
                velocity: Vec2 { x: (-c.ball_speed) as i64, y: 0 },
                ..self.ball
            },
            ..self
        }
    }

    /// A game at its start, with bodies of the given sizes.
    pub open spec fn start(config: Config, player1: Size, player2: Size, ball: Size) -> GameView {
        let rest = |s: Size|
            Entity {
                position: Vec2::zero_spec(),
                velocity: Vec2::zero_spec(),
                width: s.width,
                height: s.height,
            };
        GameView { config, player1: rest(player1), player2: rest(player2), ball: rest(ball) }.reset()
    }

    /// The paddles after one tick of the given controls.
    pub open spec fn move_paddles(self, c: Controls) -> GameView {
        let s = self.config.paddle_speed as int;
        GameView {
            player1: Entity {
                position: Vec2 {
                    y: moved_paddle_y(
                        self.player1.position.y as int,
                        c.player1_up,
                        c.player1_down,
                        s,
                        lowest_y(self.config, self.player1),
                    ) as i64,
                    ..self.player1.position
                },
                ..self.player1
            },
            player2: Entity {
                position: Vec2 {
                    y: moved_paddle_y(
                        self.player2.position.y as int,
                        c.player2_up,
                        c.player2_down,
                        s,
                        lowest_y(self.config, self.player2),
                    ) as i64,
                    ..self.player2.position
                },
                ..self.player2
            },
            ..self
        }
    }

    /// Paddles moved, then the game reset when the reset control is held.
    pub open spec fn apply_controls(self, c: Controls) -> GameView {
        let moved = self.move_paddles(c);
        if c.reset {
            moved.reset()
        } else {
            moved
        }
    }

    /// The ball advanced by its velocity.
    pub open spec fn integrate(self) -> GameView {
        GameView {
            ball: Entity {
                position: Vec2 {
                    x: (self.ball.position.x + self.ball.velocity.x) as i64,
                    y: (self.ball.position.y + self.ball.velocity.y) as i64,
                },
                ..self.ball
            },
            ..self
        }
    }

    /// The paddle that the ball overlaps, the left one first.
    pub open spec fn paddle_hit(self) -> Option<Player> {
        if self.ball.rect().overlaps(self.player1.rect()) {
            Some(Player::One)
        } else if self.ball.rect().overlaps(self.player2.rect()) {
            Some(Player::Two)
        } else {
            None
        }
    }

    pub open spec fn paddle(self, p: Player) -> Entity {
        match p {
            Player::One => self.player1,
            Player::Two => self.player2,
        }
    }

    /// The ball's velocity after it meets the paddle, if it meets one.
    pub open spec fn collide(self) -> GameView {
        match self.paddle_hit() {
            Some(p) => GameView {
                ball: Entity {
                    velocity: Vec2 {
                        x: hit_velocity_x(
                            self.ball.velocity.x as int,
                            self.config.ball_acc as int,
                        ) as i64,
                        y: (self.ball.velocity.y + spin_change(
                            self.paddle(p),
                            self.ball,
                            self.config.paddle_spin as int,
                        )) as i64,
                    },
                    ..self.ball
                },
                ..self
            },
            None => self,
        }
    }

    /// The ball's vertical velocity reversed when it touches a wall.
    pub open spec fn bounce(self) -> GameView {
        if touches_wall(self.ball, self.config.field_height as int) {
            GameView {
                ball: Entity {
                    velocity: Vec2 { y: (-self.ball.velocity.y) as i64, ..self.ball.velocity },
                    ..self.ball
                },
                ..self
            }
        } else {
            self
        }
    }

    /// The ball as it stands when collisions are tested in a tick.
    pub open spec fn before_collision(self, c: Controls) -> GameView {
        self.apply_controls(c).integrate()
    }

    /// The game after one tick of the given controls.
    pub open spec fn step(self, c: Controls) -> GameView {
        self.before_collision(c).collide().bounce()
    }

    /// The paddle hit during one tick of the given controls, if any.
    pub open spec fn hit_in_step(self, c: Controls) -> Option<Player> {
        self.before_collision(c).paddle_hit()
    }

    /// The ball has left the field on the left.
    pub open spec fn player2_wins(self) -> bool {
        self.ball.position.x < 0
    }

    /// The ball has left the field on the right.
    pub open spec fn player1_wins(self) -> bool {
        self.ball.position.x > self.config.field_width
    }
}

/// A running game. Only `update` and `reset` change it.
pub struct GameState {
    config: Config,
    player1: Entity,
    player2: Entity,
    ball: Entity,
}

impl View for GameState {
    type V = GameView;

    closed spec fn view(&self) -> GameView {
        GameView {
            config: self.config,
            player1: self.player1,
            player2: self.player2,
            ball: self.ball,
        }
    }
}

fn paddle_fits(config: &Config, size: Size) -> (r: bool)
    ensures
        r == (0 < size.width <= MAX_LENGTH && 0 < size.height <= config.field_height),
{
    0 < size.width && size.width <= MAX_LENGTH && 0 < size.height && size.height
        <= config.field_height
}

fn ball_fits(size: Size) -> (r: bool)
    ensures
        r == (0 < size.width <= MAX_LENGTH && 0 < size.height <= MAX_LENGTH),
{
    0 < size.width && size.width <= MAX_LENGTH && 0 < size.height && size.height <= MAX_LENGTH
}

fn size_of(body: &Entity) -> (r: Size)
    ensures
        r.width == body.width,
        r.height == body.height,
{
    Size { width: body.width, height: body.height }
}

fn moved_paddle(y: i64, up: bool, down: bool, speed: i64, lowest: i64) -> (r: i64)
    requires
        0 <= speed <= MAX_LENGTH,
        -MAX_LENGTH <= lowest <= MAX_LENGTH,
        -speed <= y <= lowest + speed,
    ensures
        r == moved_paddle_y(y as int, up, down, speed as int, lowest as int),
{
    let mut r: i64 = y;
    if up && r > 0 {
        r = r - speed;
    }
    if down && r < lowest {
        r = r + speed;
    }
    r
}

fn hit_velocity(vx: i64, acc: i64) -> (r: i64)
    requires
        -MAX_COORD <= vx <= MAX_COORD,
        0 <= acc <= MAX_LENGTH,
    ensures
        r == hit_velocity_x(vx as int, acc as int),
{
    if vx < 0 {
        -(vx - acc)
    } else {
        -(vx + acc)
    }
}

/// The velocity that a hit adds is bounded, since the ball overlaps the paddle.
pub proof fn spin_change_bounded(paddle: Entity, ball: Entity, factor: int)
    requires
        0 < paddle.height <= MAX_LENGTH,
        0 < ball.height <= MAX_LENGTH,
        0 <= factor <= MAX_LENGTH,
        ball.rect().overlaps(paddle.rect()),
    ensures
        -4 * MAX_LENGTH * MAX_LENGTH <= spin_change(paddle, ball, factor) <= 4 * MAX_LENGTH
            * MAX_LENGTH,
{
    let d = ball.centre_y() - paddle.centre_y();
    assert(-2 * MAX_LENGTH <= d <= 2 * MAX_LENGTH);
    let n = factor * d;
    assert(-4 * MAX_LENGTH * MAX_LENGTH <= n <= 4 * MAX_LENGTH * MAX_LENGTH) by (nonlinear_arith)
        requires
            0 <= factor <= MAX_LENGTH,
            -2 * MAX_LENGTH <= d <= 2 * MAX_LENGTH,
            n == factor * d,
    ;
    let h = paddle.height as int;
    if n >= 0 {
        lemma_div_nonincreasing(n, h);
        assert(n / h >= 0) by (nonlinear_arith)
            requires
                n >= 0,
                h > 0,
        ;
    } else {
        lemma_div_nonincreasing(-n, h);
        assert((-n) / h >= 0) by (nonlinear_arith)
            requires
                -n >= 0,
                h > 0,
        ;
    }
}

/// Before collisions are tested, a tick keeps the game well-formed and the
/// ball's velocity within `MAX_COORD`.
pub proof fn lemma_before_collision(s: GameView, c: Controls)
    requires
        s.wf(),
        s.in_range(),
    ensures
        s.before_collision(c).wf(),
        -MAX_COORD <= s.before_collision(c).ball.velocity.x <= MAX_COORD,
        -MAX_COORD <= s.before_collision(c).ball.velocity.y <= MAX_COORD,
        s.before_collision(c).ball.velocity == s.apply_controls(c).ball.velocity,
{
    let m = s.move_paddles(c);
    assert(m.wf());
    let a = s.apply_controls(c);
    assert(a.wf());
}

/// What a collision does to the ball's velocity, without wrap-around.
pub proof fn lemma_collide(b: GameView)
    requires
        b.wf(),
        -MAX_COORD <= b.ball.velocity.x <= MAX_COORD,
        -MAX_COORD <= b.ball.velocity.y <= MAX_COORD,
    ensures
        b.collide().wf(),
        b.paddle_hit() matches Some(p) ==> {
            &&& b.collide().ball.velocity.x == hit_velocity_x(
                b.ball.velocity.x as int,
                b.config.ball_acc as int,
            )
            &&& b.collide().ball.velocity.y == b.ball.velocity.y + spin_change(
                b.paddle(p),
                b.ball,
                b.config.paddle_spin as int,
            )
        },
        -MAX_COORD - 4 * MAX_LENGTH * MAX_LENGTH <= b.collide().ball.velocity.y <= MAX_COORD + 4
            * MAX_LENGTH * MAX_LENGTH,
{
    if let Some(p) = b.paddle_hit() {
        spin_change_bounded(b.paddle(p), b.ball, b.config.paddle_spin as int);
        let vx = b.ball.velocity.x as int;
        let acc = b.config.ball_acc as int;
        assert(-MAX_COORD - MAX_LENGTH <= hit_velocity_x(vx, acc) <= MAX_COORD + MAX_LENGTH);
        assert(hit_velocity_x(vx, acc) != 0);
    }
}

/// Each part of a tick keeps a game well-formed.
pub proof fn lemma_step_wf(s: GameView, c: Controls)
    requires
        s.wf(),
        s.in_range(),
    ensures
        s.step(c).wf(),
{
    lemma_before_collision(s, c);
    lemma_collide(s.before_collision(c));
}

fn spin(paddle: &Entity, ball: &Entity, factor: i64) -> (r: i64)
    requires
        0 < paddle.height <= MAX_LENGTH,
        0 < ball.height <= MAX_LENGTH,
        paddle.fits(),
        ball.fits(),
        0 <= factor <= MAX_LENGTH,
        ball.rect().overlaps(paddle.rect()),
    ensures
        r == spin_change(*paddle, *ball, factor as int),
        -4 * MAX_LENGTH * MAX_LENGTH <= r <= 4 * MAX_LENGTH * MAX_LENGTH,
{
    proof {
        spin_change_bounded(*paddle, *ball, factor as int);
    }
    let d = ball.centre().y - paddle.centre().y;
    assert(-4 * MAX_LENGTH * MAX_LENGTH <= factor * d <= 4 * MAX_LENGTH * MAX_LENGTH) by (nonlinear_arith)
        requires
            0 <= factor <= MAX_LENGTH,
            -2 * MAX_LENGTH <= d <= 2 * MAX_LENGTH,
    ;
    let n = factor * d;
    if n >= 0 {
        n / paddle.height
    } else {
        -((-n) / paddle.height)
    }
}

impl GameState {
    /// A game at its start, laid out for bodies of any positive size. `None`
    /// when the layout is not valid, when a paddle is taller than the field
    /// (no paddle bound could then hold), or when a size is beyond
    /// `MAX_LENGTH`.
    pub fn new(config: Config, player1: Size, player2: Size, ball: Size) -> (r: Option<GameState>)
        ensures
            r.is_some() <==> (config.valid() && 0 < player1.width <= MAX_LENGTH && 0
                < player1.height <= config.field_height && 0 < player2.width <= MAX_LENGTH && 0
                < player2.height <= config.field_height && 0 < ball.width <= MAX_LENGTH && 0
                < ball.height <= MAX_LENGTH),
            r matches Some(g) ==> g@ == GameView::start(config, player1, player2, ball) && g@.wf(),
    {
        if !(config.is_valid() && paddle_fits(&config, player1) && paddle_fits(&config, player2)
            && ball_fits(ball)) {
            return None;
        }
        let mut g = GameState {
            config,
            player1: Entity::new(player1.width, player1.height, Vec2::zero()),
            player2: Entity::new(player2.width, player2.height, Vec2::zero()),
            ball: Entity::new(ball.width, ball.height, Vec2::zero()),
        };
        g.place_at_start();
        Some(g)
    }

    /// The game made of the given bodies, or `None` when they do not form a
    /// well-formed game.
    pub fn from_entities(config: Config, player1: Entity, player2: Entity, ball: Entity) -> (r:
        Option<GameState>)
        ensures
            r.is_some() <==> (GameView { config, player1, player2, ball }).wf(),
            r matches Some(g) ==> g@ == (GameView { config, player1, player2, ball }),
    {
        let g = GameState { config, player1, player2, ball };
        if !(config.is_valid() && paddle_fits(&config, size_of(&player1)) && paddle_fits(
            &config,
            size_of(&player2),
        ) && ball_fits(size_of(&ball))) {
            return None;
        }
        let p2x = config.field_width - player2.width - config.paddle_margin;
        let lowest1 = config.field_height - player1.height;
        let lowest2 = config.field_height - player2.height;
        let s = config.paddle_speed;
        if player1.position.x == config.paddle_margin && player2.position.x == p2x
            && player1.velocity == Vec2::zero() && player2.velocity == Vec2::zero() && -s
            <= player1.position.y && player1.position.y <= lowest1 + s && -s
            <= player2.position.y && player2.position.y <= lowest2 + s && ball.velocity.x
            != 0 {
            Some(g)
        } else {
            None
        }
    }

    /// Puts every body at its starting place, keeping sizes and the paddles'
    /// velocities.
    fn place_at_start(&mut self)
        requires
            old(self).config.valid(),
            old(self)@.paddle_fits(old(self).player1),
            old(self)@.paddle_fits(old(self).player2),
            old(self)@.ball_fits(old(self).ball),
        ensures
            final(self)@ == old(self)@.reset(),
    {
        let c = self.config;
        self.player1.position = Vec2::new(c.paddle_margin, (c.field_height - self.player1.height) / 2);
        self.player2.position = Vec2::new(
            c.field_width - self.player2.width - c.paddle_margin,
            (c.field_height - self.player2.height) / 2,
        );
        self.ball.position = Vec2::new(
            c.field_width / 2 - self.ball.width / 2,
            c.field_height / 2 - self.ball.height / 2,
        );
        self.ball.velocity = Vec2::new(-c.ball_speed, 0);
    }

    /// Puts paddles and ball back at their starting places.
    pub fn reset(&mut self)
        requires
            old(self)@.wf(),
        ensures
            final(self)@ == old(self)@.reset(),
            final(self)@.wf(),
    {
        self.place_at_start();
    }

    /// Whether the ball is within the range for which `update` is computed.
    pub fn in_range(&self) -> (r: bool)
        ensures
            r == self@.in_range(),
    {
        -MAX_COORD <= self.ball.position.x && self.ball.position.x <= MAX_COORD && -MAX_COORD
            <= self.ball.position.y && self.ball.position.y <= MAX_COORD && -MAX_COORD
            <= self.ball.velocity.x && self.ball.velocity.x <= MAX_COORD && -MAX_COORD
            <= self.ball.velocity.y && self.ball.velocity.y <= MAX_COORD
    }

    /// Advances the game by one tick: paddles move under the controls, the
    /// game resets when asked, the ball moves, meets at most one paddle and
    /// bounces off the walls. Returns the paddle that was hit, if any.
    pub fn update(&mut self, controls: Controls) -> (r: Option<Player>)
        requires
            old(self)@.wf(),
            old(self)@.in_range(),
        ensures
            final(self)@ == old(self)@.step(controls),
            r == old(self)@.hit_in_step(controls),
            final(self)@.wf(),
    {
        let c = self.config;
        self.player1.position.y = moved_paddle(
            self.player1.position.y,
            controls.player1_up,
            controls.player1_down,
            c.paddle_speed,
            c.field_height - self.player1.height,
        );
        self.player2.position.y = moved_paddle(
            self.player2.position.y,
            controls.player2_up,
            controls.player2_down,
            c.paddle_speed,
            c.field_height - self.player2.height,
        );
        assert(self@ == old(self)@.move_paddles(controls));
        if controls.reset {
            self.place_at_start();
        }
        assert(self@ == old(self)@.apply_controls(controls));
        self.ball.position = Vec2::new(
            self.ball.position.x + self.ball.velocity.x,
            self.ball.position.y + self.ball.velocity.y,
        );
        assert(self@ == old(self)@.before_collision(controls));
        let ball_bounds = self.ball.bounds();
        let hit = if ball_bounds.intersects(&self.player1.bounds()) {
            Some(Player::One)
        } else if ball_bounds.intersects(&self.player2.bounds()) {
            Some(Player::Two)
        } else {
            None
        };
        let ghost before = self@;
        match hit {
            Some(p) => {
                let paddle = match p {
                    Player::One => self.player1,
                    Player::Two => self.player2,
                };
                let vx = hit_velocity(self.ball.velocity.x, c.ball_acc);
                let vy = self.ball.velocity.y + spin(&paddle, &self.ball, c.paddle_spin);
                self.ball.velocity = Vec2::new(vx, vy);
            },
            None => {},
        }
        assert(self@ == before.collide());
        if self.ball.position.y <= 0 || self.ball.position.y + self.ball.height >= c.field_height {
            self.ball.velocity.y = -self.ball.velocity.y;
        }
        proof {
            lemma_step_wf(old(self)@, controls);
        }
        hit
    }

    /// Whether the ball has left the field on the right.
    pub fn player1_wins(&self) -> (r: bool)
        ensures
            r == self@.player1_wins(),
    {
        self.ball.position.x > self.config.field_width
    }

    /// Whether the ball has left the field on the left.
    pub fn player2_wins(&self) -> (r: bool)
        ensures
            r == self@.player2_wins(),
    {
        self.ball.position.x < 0
    }

    /// The player who has won, if the ball has left the field.
    pub fn winner(&self) -> (r: Option<Player>)
        requires
            self@.config.valid(),
        ensures
            r == Some(Player::One) <==> self@.player1_wins(),
            r == Some(Player::Two) <==> self@.player2_wins(),
    {
        if self.player2_wins() {
            Some(Player::Two)
        } else if self.player1_wins() {
            Some(Player::One)
        } else {
            None
        }
    }

    /// The message to show: the winner's, while the ball is out of the field.
    pub fn win_message(&self) -> (r: Option<&'static str>)
        requires
            self@.config.valid(),
        ensures
            r is None <==> !self@.player1_wins() && !self@.player2_wins(),
            self@.player1_wins() ==> (r matches Some(m) && m@ == Player::One.message()),
            self@.player2_wins() ==> (r matches Some(m) && m@ == Player::Two.message()),
    {
        match self.winner() {
            Some(p) => Some(p.win_message()),
            None => None,
        }
    }

    pub fn config(&self) -> (r: Config)
        ensures
            r == self@.config,
    {
        self.config
    }

    pub fn player1(&self) -> (r: Entity)
        ensures
            r == self@.player1,
    {
        self.player1
    }

    pub fn player2(&self) -> (r: Entity)
        ensures
            r == self@.player2,
    {
        self.player2
    }

    pub fn ball(&self) -> (r: Entity)
        ensures
            r == self@.ball,
    {
        self.ball
    }
}

} // verus!
