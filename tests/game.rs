use pong::config::Config;
use pong::entity::{Entity, Size, Vec2, SCALE};
use pong::game::{Controls, GameState, Player};

fn paddle_size() -> Size {
    Size::from_pixels(16, 64)
}

fn ball_size() -> Size {
    Size::from_pixels(16, 16)
}

fn fresh() -> GameState {
    GameState::new(Config::standard(), paddle_size(), paddle_size(), ball_size()).unwrap()
}

fn paddle(x: i64, y: i64) -> Entity {
    Entity::new(16 * SCALE, 64 * SCALE, Vec2::new(x, y))
}

/// A standard game whose ball has the given position and velocity.
fn with_ball(x: i64, y: i64, vx: i64, vy: i64) -> GameState {
    let g = fresh();
    let ball = Entity::with_velocity(16 * SCALE, 16 * SCALE, Vec2::new(x, y), Vec2::new(vx, vy));
    GameState::from_entities(Config::standard(), g.player1(), g.player2(), ball).unwrap()
}

fn controls(player1_up: bool, player1_down: bool, player2_up: bool, player2_down: bool) -> Controls {
    Controls { player1_up, player1_down, player2_up, player2_down, reset: false }
}

#[test]
fn standard_config_values() {
    let c = Config::standard();
    assert_eq!(c.field_width, 640_000);
    assert_eq!(c.field_height, 480_000);
    assert_eq!(c.paddle_speed, 8_000);
    assert_eq!(c.paddle_spin, 4_000);
    assert_eq!(c.ball_speed, 5_000);
    assert_eq!(c.ball_acc, 50);
    assert_eq!(c.paddle_margin, 16_000);
    assert!(c.is_valid());
}

#[test]
fn size_from_pixels_scales() {
    let s = Size::from_pixels(16, 64);
    assert_eq!(s.width, 16_000);
    assert_eq!(s.height, 64_000);
}

#[test]
fn entity_centre_and_bounds() {
    let e = Entity::new(16_000, 64_000, Vec2::new(100, 200));
    assert_eq!(e.centre(), Vec2::new(8_100, 32_200));
    let b = e.bounds();
    assert_eq!((b.x, b.y, b.width, b.height), (100, 200, 16_000, 64_000));
    assert_eq!(e.velocity, Vec2::zero());
    assert_eq!(e.width(), 16_000);
    assert_eq!(e.height(), 64_000);
}

#[test]
fn rectangles_touching_do_not_intersect() {
    let a = Entity::new(10, 10, Vec2::new(0, 0)).bounds();
    let b = Entity::new(10, 10, Vec2::new(10, 0)).bounds();
    let c = Entity::new(10, 10, Vec2::new(9, 9)).bounds();
    assert!(!a.intersects(&b));
    assert!(a.intersects(&c));
    assert!(c.intersects(&a));
}

#[test]
fn new_game_layout() {
    let g = fresh();
    assert_eq!(g.player1().position, Vec2::new(16_000, 208_000));
    assert_eq!(g.player2().position, Vec2::new(608_000, 208_000));
    assert_eq!(g.ball().position, Vec2::new(312_000, 232_000));
    assert_eq!(g.ball().velocity, Vec2::new(-5_000, 0));
    assert_eq!(g.config(), Config::standard());
    assert!(g.in_range());
    assert_eq!(g.winner(), None);
    assert_eq!(g.win_message(), None);
}

#[test]
fn new_rejects_invalid_sizes() {
    assert!(GameState::new(Config::standard(), Size::new(16_000, 480_001), paddle_size(), ball_size()).is_none());
    assert!(GameState::new(Config::standard(), paddle_size(), paddle_size(), Size::new(0, 16_000)).is_none());
    assert!(GameState::new(Config::standard(), Size::new(16_777_217, 64_000), paddle_size(), ball_size()).is_none());
    let mut bad = Config::standard();
    bad.ball_speed = 0;
    assert!(GameState::new(bad, paddle_size(), paddle_size(), ball_size()).is_none());
    assert!(GameState::new(Config::standard(), paddle_size(), Size::new(16_000, 480_000), ball_size()).is_some());
}

#[test]
fn new_lays_out_bodies_larger_than_field() {
    let g = GameState::new(Config::standard(), paddle_size(), paddle_size(), Size::from_pixels(700, 16)).unwrap();
    assert_eq!(g.ball().position, Vec2::new(-30_000, 232_000));
    assert_eq!(g.ball().velocity, Vec2::new(-5_000, 0));
    let g = GameState::new(Config::standard(), paddle_size(), paddle_size(), Size::from_pixels(16, 500)).unwrap();
    assert_eq!(g.ball().position, Vec2::new(312_000, -10_000));
    let g = GameState::new(Config::standard(), paddle_size(), paddle_size(), Size::from_pixels(641, 16)).unwrap();
    assert_eq!(g.ball().position, Vec2::new(-500, 232_000));
    let g = GameState::new(Config::standard(), paddle_size(), Size::from_pixels(700, 64), ball_size()).unwrap();
    assert_eq!(g.player2().position, Vec2::new(-76_000, 208_000));
}

#[test]
fn two_reset_ticks_equal_one() {
    let mut g = with_ball(-40_000, 100_000, -7_000, 900);
    let c = Controls { player1_up: true, player1_down: false, player2_up: false, player2_down: true, reset: true };
    let first_hit = g.update(c);
    let once = (g.player1(), g.player2(), g.ball());
    let c = Controls { player1_up: false, player1_down: true, player2_up: true, player2_down: false, reset: true };
    assert_eq!(g.update(c), first_hit);
    assert_eq!((g.player1(), g.player2(), g.ball()), once);
}

#[test]
fn from_entities_rejects_ill_formed_games() {
    let g = fresh();
    let still = Entity::with_velocity(16_000, 16_000, Vec2::new(0, 0), Vec2::new(0, 3));
    assert!(GameState::from_entities(Config::standard(), g.player1(), g.player2(), still).is_none());
    let moved = paddle(20_000, 208_000);
    assert!(GameState::from_entities(Config::standard(), moved, g.player2(), g.ball()).is_none());
    let far = paddle(16_000, -8_001);
    assert!(GameState::from_entities(Config::standard(), far, g.player2(), g.ball()).is_none());
    let near = paddle(16_000, -8_000);
    assert!(GameState::from_entities(Config::standard(), near, g.player2(), g.ball()).is_some());
}

#[test]
fn fresh_update_moves_only_the_ball() {
    let mut g = fresh();
    let before = (g.player1(), g.player2(), g.ball());
    let hit = g.update(Controls::none());
    assert_eq!(hit, None);
    assert_eq!(g.ball().position.x, before.2.position.x - 5_000);
    assert_eq!(g.ball().position.y, before.2.position.y);
    assert_eq!(g.player1().position, before.0.position);
    assert_eq!(g.player2().position, before.1.position);
}

#[test]
fn ball_left_of_field_player2_wins() {
    let g = with_ball(-5_000, 232_000, -5_000, 0);
    assert!(g.player2_wins());
    assert!(!g.player1_wins());
    assert_eq!(g.winner(), Some(Player::Two));
    assert_eq!(g.win_message(), Some("Player 2 win ! \nPress enter to play again"));
}

#[test]
fn ball_right_of_field_player1_wins() {
    let g = with_ball(640_001, 232_000, 5_000, 0);
    assert!(g.player1_wins());
    assert!(!g.player2_wins());
    assert_eq!(g.winner(), Some(Player::One));
    assert_eq!(g.win_message(), Some("Player 1 win ! \nPress enter to play again"));
}

#[test]
fn wins_never_both_hold() {
    for x in [-1_000_000, -1, 0, 1, 320_000, 640_000, 640_001, 2_000_000] {
        let g = with_ball(x, 232_000, -5_000, 0);
        assert!(!(g.player1_wins() && g.player2_wins()));
        assert_eq!(g.player2_wins(), x < 0);
        assert_eq!(g.player1_wins(), x > 640_000);
    }
}

#[test]
fn player_messages() {
    assert_eq!(Player::One.win_message(), "Player 1 win ! \nPress enter to play again");
    assert_eq!(Player::Two.win_message(), "Player 2 win ! \nPress enter to play again");
}

#[test]
fn hit_on_player1_reverses_speeds_up_and_spins() {
    // After the move the ball's centre is 0.3 paddle heights above the paddle's.
    let mut g = with_ball(35_000, 212_800, -5_000, 0);
    let hit = g.update(Controls::none());
    assert_eq!(hit, Some(Player::One));
    assert_eq!(g.ball().position, Vec2::new(30_000, 212_800));
    assert_eq!(g.ball().velocity, Vec2::new(5_050, -1_200));
}

#[test]
fn hit_on_player2_reverses() {
    // Centres level: no spin.
    let mut g = with_ball(590_000, 232_000, 5_000, 0);
    let hit = g.update(Controls::none());
    assert_eq!(hit, Some(Player::Two));
    assert_eq!(g.ball().velocity, Vec2::new(-5_050, 0));
}

#[test]
fn spin_rounds_toward_zero() {
    // Centre offset -12000 of a 64000 paddle, times 4000: -750 exactly; then
    // -12750 gives -796.875, kept as -796.
    let mut g = with_ball(20_050, 220_000, -50, 0);
    assert_eq!(g.update(Controls::none()), Some(Player::One));
    assert_eq!(g.ball().velocity.y, -750);
    assert_eq!(g.update(Controls::none()), Some(Player::One));
    assert_eq!(g.ball().velocity.y, -750 - 796);
}

#[test]
fn consecutive_hits_escalate_speed() {
    let mut g = with_ball(20_050, 220_000, -50, 0);
    for n in 1..=5i64 {
        let before = g.ball().velocity.x;
        assert_eq!(g.update(Controls::none()), Some(Player::One));
        let after = g.ball().velocity.x;
        assert_eq!(after.abs(), 50 + n * 50);
        assert_eq!(after.signum(), -before.signum());
    }
}

#[test]
fn wall_bounce_reflects_vertical_velocity() {
    let mut g = with_ball(300_000, 1_000, -5_000, -3_000);
    g.update(Controls::none());
    assert_eq!(g.ball().position.y, -2_000);
    assert_eq!(g.ball().velocity.y, 3_000);
    g.update(Controls::none());
    assert_eq!(g.ball().position.y, 1_000);
    assert_eq!(g.ball().velocity.y, 3_000);
}

#[test]
fn bottom_wall_bounce() {
    let mut g = with_ball(300_000, 462_000, -5_000, 2_000);
    g.update(Controls::none());
    assert_eq!(g.ball().position.y, 464_000);
    assert_eq!(g.ball().velocity.y, -2_000);
}

#[test]
fn ball_beyond_wall_flips_every_tick() {
    let mut g = with_ball(300_000, -10_000, -5_000, 3_000);
    g.update(Controls::none());
    assert_eq!(g.ball().position.y, -7_000);
    assert_eq!(g.ball().velocity.y, -3_000);
    g.update(Controls::none());
    assert_eq!(g.ball().position.y, -10_000);
    assert_eq!(g.ball().velocity.y, 3_000);
}

#[test]
fn paddles_stop_at_top() {
    let mut g = fresh();
    for _ in 0..100 {
        g.update(controls(true, false, true, false));
        assert!(g.player1().position.y >= -8_000);
        assert!(g.player2().position.y >= -8_000);
    }
    assert_eq!(g.player1().position.y, 0);
    assert_eq!(g.player2().position.y, 0);
    assert_eq!(g.player1().position.x, 16_000);
}

#[test]
fn paddle_may_pass_bottom_by_less_than_one_move() {
    let mut g = GameState::new(Config::standard(), Size::from_pixels(16, 60), paddle_size(), ball_size()).unwrap();
    assert_eq!(g.player1().position.y, 210_000);
    for _ in 0..100 {
        g.update(controls(false, true, false, true));
        assert!(g.player1().position.y <= 420_000 + 8_000);
        assert!(g.player2().position.y <= 416_000 + 8_000);
    }
    assert_eq!(g.player1().position.y, 426_000);
    assert_eq!(g.player2().position.y, 416_000);
}

#[test]
fn up_then_down_in_one_tick_cancel() {
    let mut g = fresh();
    g.update(controls(true, true, false, false));
    assert_eq!(g.player1().position.y, 208_000);
    let top = GameState::from_entities(Config::standard(), paddle(16_000, 0), g.player2(), g.ball());
    let mut top = top.unwrap();
    top.update(controls(true, true, false, false));
    assert_eq!(top.player1().position.y, 8_000);
}

#[test]
fn reset_twice_equals_reset_once() {
    let mut g = fresh();
    for _ in 0..30 {
        g.update(controls(true, false, false, true));
    }
    g.reset();
    let once = (g.player1(), g.player2(), g.ball());
    g.reset();
    let twice = (g.player1(), g.player2(), g.ball());
    assert_eq!(once, twice);
    let f = fresh();
    assert_eq!(once, (f.player1(), f.player2(), f.ball()));
}

#[test]
fn reset_control_then_ball_moves_one_step() {
    let mut g = with_ball(-40_000, 100_000, -7_000, 900);
    let c = Controls { player1_up: false, player1_down: true, player2_up: false, player2_down: false, reset: true };
    assert_eq!(g.update(c), None);
    assert_eq!(g.player1().position, Vec2::new(16_000, 208_000));
    assert_eq!(g.ball().position, Vec2::new(307_000, 232_000));
    assert_eq!(g.ball().velocity, Vec2::new(-5_000, 0));
    assert_eq!(g.winner(), None);
}

#[test]
fn out_of_range_ball_is_reported() {
    let g = with_ball(0x100_0000_0001, 232_000, 5_000, 0);
    assert!(!g.in_range());
    let g = with_ball(0x100_0000_0000, 232_000, 5_000, 0);
    assert!(g.in_range());
}
