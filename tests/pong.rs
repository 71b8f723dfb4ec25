use pong::{
    step_delta_ms, step_due, Config, Game, GameTitle, InputEvent, Key, MyError, Opt,
    PaddleDirection, Rect, Vector2,
};

fn default_game() -> Game {
    Game::init(Config { width: 1024, height: 768 })
}

#[test]
fn init_places_paddle_and_ball() {
    let g = default_game();
    assert_eq!(g.ticks_count, 0);
    assert!(g.is_running());
    assert_eq!(g.dir_paddle, PaddleDirection::Stop);
    assert_eq!(g.pos_paddle, Vector2::new(10_000, 384_000));
    assert_eq!(g.pos_ball, Vector2::new(512_000, 384_000));
    assert_eq!(g.vel_ball, Vector2::new(-200, 235));
    assert!(g.is_movable());
}

#[test]
fn paddle_moves_down_by_speed_times_step() {
    let mut g = default_game();
    g.dir_paddle = PaddleDirection::Down;
    g.advance(16);
    assert_eq!(g.pos_paddle.y, 384_000 + 300 * 16);
}

#[test]
fn paddle_moves_up_by_speed_times_step() {
    let mut g = default_game();
    g.dir_paddle = PaddleDirection::Up;
    g.advance(50);
    assert_eq!(g.pos_paddle.y, 384_000 - 300 * 50);
}

#[test]
fn paddle_overshoot_stops_on_bounds() {
    let mut g = default_game();
    g.pos_paddle.y = 702_000;
    g.dir_paddle = PaddleDirection::Down;
    g.advance(50);
    assert_eq!(g.pos_paddle.y, 768_000 - 65_000);

    let mut g = default_game();
    g.pos_paddle.y = 66_000;
    g.dir_paddle = PaddleDirection::Up;
    g.advance(50);
    assert_eq!(g.pos_paddle.y, 65_000);
}

#[test]
fn paddle_lower_bound_wins_when_bounds_cross() {
    let mut g = Game::init(Config { width: 100, height: 100 });
    g.dir_paddle = PaddleDirection::Down;
    g.advance(16);
    assert_eq!(g.pos_paddle.y, 65_000);
}

#[test]
fn stopped_paddle_never_moves() {
    let mut g = default_game();
    g.pos_paddle.y = 123_456;
    for now in [16u32, 40, 100, 1000] {
        assert!(g.update(now));
        assert_eq!(g.pos_paddle, Vector2::new(10_000, 123_456));
    }
}

#[test]
fn ball_bounces_off_paddle_in_band() {
    let mut g = default_game();
    g.vel_ball = Vector2::new(-200, 0);
    g.pos_ball = Vector2::new(22_000, 384_000);
    g.advance(10);
    assert_eq!(g.pos_ball.x, 20_000);
    assert_eq!(g.vel_ball.x, 200);
}

#[test]
fn ball_outside_band_is_not_bounced() {
    let mut g = default_game();
    g.vel_ball = Vector2::new(-200, 0);
    g.pos_ball = Vector2::new(26_000, 384_000);
    g.advance(1);
    assert_eq!(g.pos_ball.x, 25_800);
    assert_eq!(g.vel_ball.x, -200);
}

#[test]
fn ball_far_from_paddle_is_not_bounced() {
    let mut g = default_game();
    g.vel_ball = Vector2::new(-200, 0);
    g.pos_ball = Vector2::new(22_000, 384_000 + 50_001);
    g.advance(10);
    assert_eq!(g.vel_ball.x, -200);
}

#[test]
fn ball_at_left_edge_ends_session_for_good() {
    let mut g = default_game();
    g.pos_ball.x = 0;
    g.advance(16);
    assert!(!g.is_running());
    assert!(g.pos_ball.x < 0);
    for now in [32u32, 48, 64] {
        g.start_frame();
        g.process_input(&vec![InputEvent::KeyDown(Key::W)]);
        g.update(now);
        assert!(!g.is_running());
    }
}

#[test]
fn ball_resting_on_left_edge_ends_session() {
    let mut g = default_game();
    g.pos_ball.x = 0;
    g.vel_ball.x = 0;
    g.advance(16);
    assert!(!g.is_running());
}

#[test]
fn top_and_bottom_walls_reflect() {
    let mut g = default_game();
    g.pos_ball = Vector2::new(512_000, 15_000);
    g.vel_ball = Vector2::new(-200, -50);
    g.advance(16);
    assert_eq!(g.vel_ball.y, 50);

    let mut g = default_game();
    g.pos_ball = Vector2::new(512_000, 753_000);
    g.vel_ball = Vector2::new(-200, 50);
    g.advance(16);
    assert_eq!(g.vel_ball.y, -50);
}

#[test]
fn walls_do_not_reflect_a_ball_moving_away() {
    let mut g = default_game();
    g.pos_ball = Vector2::new(512_000, 15_000);
    g.vel_ball = Vector2::new(-200, 50);
    g.advance(16);
    assert_eq!(g.vel_ball.y, 50);

    let mut g = default_game();
    g.pos_ball = Vector2::new(512_000, 753_000);
    g.vel_ball = Vector2::new(-200, -50);
    g.advance(16);
    assert_eq!(g.vel_ball.y, -50);
}

#[test]
fn right_wall_reflects() {
    let mut g = default_game();
    g.pos_ball = Vector2::new(1_008_000, 384_000);
    g.vel_ball = Vector2::new(200, 0);
    g.advance(16);
    assert_eq!(g.pos_ball.x, 1_011_200);
    assert_eq!(g.vel_ball.x, -200);
}

#[test]
fn rally_bounces_once_off_a_tracking_paddle() {
    let mut g = default_game();
    let mut flips: u32 = 0;
    let mut now: u32 = 0;
    while g.pos_ball.x > 25_000 {
        now += 16;
        g.start_frame();
        g.pos_paddle.y = g.pos_ball.y;
        let was = g.vel_ball.x;
        assert!(g.update(now));
        if (was < 0) != (g.vel_ball.x < 0) {
            flips += 1;
        }
    }
    assert_eq!(flips, 1);
    assert!(g.vel_ball.x > 0);
    assert!(g.is_running());
    let mut last_x = g.pos_ball.x;
    while g.pos_ball.x < 1_009_000 - 3_200 {
        now += 16;
        g.start_frame();
        assert!(g.update(now));
        assert!(g.pos_ball.x > last_x);
        assert!(g.vel_ball.x > 0);
        last_x = g.pos_ball.x;
    }
    assert!(g.is_running());
}

#[test]
fn update_waits_for_the_frame_gate() {
    let mut g = default_game();
    assert!(!g.update(0));
    assert!(!g.update(15));
    assert_eq!(g.pos_ball, Vector2::new(512_000, 384_000));
    assert!(g.update(16));
    assert_eq!(g.ticks_count, 16);
    assert_eq!(g.pos_ball, Vector2::new(512_000 - 3_200, 384_000 + 3_760));
    assert!(!g.update(16));
    assert!(!g.update(31));
    assert!(g.update(1_000));
    assert_eq!(g.ticks_count, 1_000);
    assert_eq!(g.pos_ball, Vector2::new(512_000 - 3_200 - 10_000, 384_000 + 3_760 + 11_750));
}

#[test]
fn clock_gate_never_underflows() {
    assert!(!step_due(0, 0));
    assert!(!step_due(100, 100));
    assert!(!step_due(100, 115));
    assert!(step_due(100, 116));
    assert!(!step_due(u32::MAX - 5, 3));
    assert!(!step_due(u32::MAX - 10, u32::MAX));
    assert!(step_due(u32::MAX - 16, u32::MAX));
    assert_eq!(step_delta_ms(100, 116), 16);
    assert_eq!(step_delta_ms(100, 149), 49);
    assert_eq!(step_delta_ms(100, 5_000), 50);
}

#[test]
fn input_steers_last_key_wins() {
    let mut g = default_game();
    g.process_input(&vec![
        InputEvent::KeyDown(Key::W),
        InputEvent::Other,
        InputEvent::KeyDown(Key::S),
        InputEvent::KeyDown(Key::Other),
    ]);
    assert_eq!(g.dir_paddle, PaddleDirection::Down);
    assert!(g.is_running());
    g.process_input(&vec![InputEvent::KeyDown(Key::W)]);
    assert_eq!(g.dir_paddle, PaddleDirection::Up);
    g.start_frame();
    assert_eq!(g.dir_paddle, PaddleDirection::Stop);
    g.process_input(&vec![]);
    assert_eq!(g.dir_paddle, PaddleDirection::Stop);
}

#[test]
fn quit_and_escape_end_session() {
    let mut g = default_game();
    g.process_input(&vec![InputEvent::Quit, InputEvent::KeyDown(Key::S)]);
    assert!(!g.is_running());
    assert_eq!(g.dir_paddle, PaddleDirection::Down);

    let mut g = default_game();
    g.process_input(&vec![InputEvent::KeyDown(Key::Escape)]);
    assert!(!g.is_running());
}

#[test]
fn frame_rectangles() {
    let g = default_game();
    let f = g.generate_output().unwrap();
    assert_eq!(f.top_wall, Rect { x: 0, y: 0, width: 1024, height: 15 });
    assert_eq!(f.bottom_wall, Rect { x: 0, y: 753, width: 1024, height: 15 });
    assert_eq!(f.right_wall, Rect { x: 1009, y: 0, width: 15, height: 768 });
    assert_eq!(f.paddle, Rect { x: 2, y: 334, width: 15, height: 100 });
    assert_eq!(f.ball, Rect { x: 504, y: 376, width: 15, height: 15 });
}

#[test]
fn frame_truncates_toward_zero() {
    let mut g = default_game();
    g.pos_ball = Vector2::new(3_000, 2_999);
    let f = g.generate_output().unwrap();
    assert_eq!(f.ball.x, -4);
    assert_eq!(f.ball.y, -4);
    g.pos_ball = Vector2::new(i64::MAX, i64::MIN);
    let f = g.generate_output().unwrap();
    assert_eq!(f.ball.x, i32::MAX);
    assert_eq!(f.ball.y, i32::MIN);
}

#[test]
fn frame_rejects_dimensions_below_wall_thickness() {
    let g = Game::init(Config { width: 10, height: 768 });
    assert!(matches!(g.generate_output(), Err(MyError::NumTryFromIntError)));
    let g = Game::init(Config { width: 1024, height: 14 });
    assert!(matches!(g.generate_output(), Err(MyError::NumTryFromIntError)));
    let g = Game::init(Config { width: u32::MAX, height: 768 });
    assert!(matches!(g.generate_output(), Err(MyError::NumTryFromIntError)));
    let g = Game::init(Config { width: 15, height: 15 });
    assert!(g.generate_output().is_ok());
}

#[test]
fn game_title_names() {
    assert_eq!(GameTitle::from_name("pong"), Some(GameTitle::Pong));
    assert_eq!(GameTitle::from_name("PONG"), Some(GameTitle::Pong));
    assert_eq!(GameTitle::from_name("pOnG"), Some(GameTitle::Pong));
    assert_eq!(GameTitle::from_name("pon"), None);
    assert_eq!(GameTitle::from_name("pongs"), None);
    assert_eq!(GameTitle::from_name("tennis"), None);
    assert_eq!(GameTitle::from_name(""), None);
    assert_eq!(Opt::new().title, GameTitle::Pong);
}
