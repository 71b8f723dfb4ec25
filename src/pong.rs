use vstd::prelude::*;

use crate::clock::{delta_of, due, step_delta_ms, step_due, MAX_STEP_MS};
use crate::input::{steer_all, still_running, InputEvent, Key};
use crate::vector::Vector2;

verus! {

/// Thousandths of a pixel in one pixel.
pub const MILLI: i64 = 1000;

/// Thickness of the walls, the paddle and the ball, in pixels.
pub const THICKNESS: u32 = 15;

/// Height of the paddle, in pixels.
pub const PADDLE_HEIGHT: u32 = 100;

/// Speed of the paddle, in pixels per second.
pub const PADDLE_SPEED: i64 = 300;

/// Horizontal position of the paddle's centre, in pixels.
pub const PADDLE_X: i64 = 10;

/// The ball bounces off the paddle while its centre lies in this band of
/// x positions, in pixels.
pub const PADDLE_BAND_MIN: i64 = 20;
pub const PADDLE_BAND_MAX: i64 = 25;

/// The ball's velocity at the start, in pixels per second.
pub const START_VEL_X: i64 = -200;
pub const START_VEL_Y: i64 = 235;

/// Bounds that keep one step of motion inside `i64`: positions, in
/// thousandths of a pixel, and velocities, in pixels per second.
pub const POS_LIMIT: i64 = 0x2000_0000_0000_0000;
pub const VEL_LIMIT: i64 = 0x100_0000_0000;

/// The playfield's size in pixels.
#[derive(Clone, Copy, PartialEq, Eq, Structural, Debug)]
pub struct Config {
    pub width: u32,
    pub height: u32,
}

/// Which way the player steers the paddle during the current frame.
#[derive(Clone, Copy, PartialEq, Eq, Structural, Debug)]
pub enum PaddleDirection {
    Stop,
    Up,
    Down,
}

impl PaddleDirection {
    /// The sign of the paddle's vertical motion: screen y grows downwards.
    pub open spec fn sign(self) -> int {
        match self {
            PaddleDirection::Stop => 0,
            PaddleDirection::Up => -1,
            PaddleDirection::Down => 1,
        }
    }
}

/// The state of a session, with positions in thousandths of a pixel and
/// velocities in pixels per second.
pub struct Game {
    /// The clock reading of the last physics step, in milliseconds.
    pub ticks_count: u32,
    pub is_running: bool,
    pub window_width: u32,
    pub window_height: u32,
    pub dir_paddle: PaddleDirection,
    pub pos_paddle: Vector2,
    pub pos_ball: Vector2,
    pub vel_ball: Vector2,
}

/// The mathematical state of a session.
pub ghost struct GameModel {
    pub ticks: int,
    pub running: bool,
    pub width: int,
    pub height: int,
    pub dir: PaddleDirection,
    pub paddle_x: int,
    pub paddle_y: int,
    pub ball_x: int,
    pub ball_y: int,
    pub vel_x: int,
    pub vel_y: int,
}

/// `v` limited to `[lo, hi]` by taking the minimum with `hi` first and the
/// maximum with `lo` after, so that `lo` wins when the bounds cross.
pub open spec fn clamp(v: int, lo: int, hi: int) -> int {
    let m = if v < hi { v } else { hi };
    if m > lo { m } else { lo }
}

/// The absolute value of `v`.
pub open spec fn abs(v: int) -> int {
    if v < 0 { -v } else { v }
}

impl GameModel {
    /// The lowest y the paddle's centre may take.
    pub open spec fn paddle_lower(self) -> int {
        (PADDLE_HEIGHT / 2 + THICKNESS) * MILLI
    }

    /// The highest y the paddle's centre may take.
    pub open spec fn paddle_upper(self) -> int {
        self.height * MILLI - (PADDLE_HEIGHT / 2 + THICKNESS) * MILLI
    }

    /// The paddle's y after `dt` milliseconds.
    pub open spec fn next_paddle_y(self, dt: int) -> int {
        if self.dir == PaddleDirection::Stop {
            self.paddle_y
        } else {
            clamp(
                self.paddle_y + self.dir.sign() * PADDLE_SPEED * dt,
                self.paddle_lower(),
                self.paddle_upper(),
            )
        }
    }

    pub open spec fn next_ball_x(self, dt: int) -> int {
        self.ball_x + self.vel_x * dt
    }

    pub open spec fn next_ball_y(self, dt: int) -> int {
        self.ball_y + self.vel_y * dt
    }

    /// Whether the moved ball meets the paddle: level with it, in the
    /// collision band, and moving left.
    pub open spec fn hits_paddle(self, dt: int) -> bool {
        &&& abs(self.next_paddle_y(dt) - self.next_ball_y(dt)) <= PADDLE_HEIGHT / 2 * MILLI
        &&& PADDLE_BAND_MIN * MILLI <= self.next_ball_x(dt) <= PADDLE_BAND_MAX * MILLI
        &&& self.vel_x < 0
    }

    /// The x velocity after the paddle bounce.
    pub open spec fn vel_x_after_paddle(self, dt: int) -> int {
        if self.hits_paddle(dt) { -self.vel_x } else { self.vel_x }
    }

    /// The x velocity after the paddle and right-wall bounces.
    pub open spec fn next_vel_x(self, dt: int) -> int {
        let vx = self.vel_x_after_paddle(dt);
        if self.next_ball_x(dt) >= (self.width - THICKNESS) * MILLI && vx > 0 {
            -vx
        } else {
            vx
        }
    }

    /// The y velocity after the top-wall bounce.
    pub open spec fn vel_y_after_top(self, dt: int) -> int {
        if self.next_ball_y(dt) <= THICKNESS * MILLI && self.vel_y < 0 {
            -self.vel_y
        } else {
            self.vel_y
        }
    }

    /// The y velocity after the top- and bottom-wall bounces.
    pub open spec fn next_vel_y(self, dt: int) -> int {
        let vy = self.vel_y_after_top(dt);
        if self.next_ball_y(dt) >= (self.height - THICKNESS) * MILLI && vy > 0 {
            -vy
        } else {
            vy
        }
    }

    /// One physics step of `dt` milliseconds: move the paddle, move the ball,
    /// end the session if the ball reached the left edge, then bounce.
    pub open spec fn step(self, dt: int) -> GameModel {
        GameModel {
            running: self.running && !(self.next_ball_x(dt) <= 0),
            paddle_y: self.next_paddle_y(dt),
            ball_x: self.next_ball_x(dt),
            ball_y: self.next_ball_y(dt),
            vel_x: self.next_vel_x(dt),
            vel_y: self.next_vel_y(dt),
            ..self
        }
    }

    /// The clock-gated update at reading `now`: nothing until a step is due,
    /// then a step of the capped elapsed time, recorded at `now`.
    pub open spec fn tick(self, now: int) -> GameModel {
        if due(self.ticks, now) {
            GameModel { ticks: now, ..self.step(delta_of(self.ticks, now)) }
        } else {
            self
        }
    }

    /// The state after the frame's events, in order.
    pub open spec fn after_input(self, events: Seq<InputEvent>) -> GameModel {
        GameModel {
            running: still_running(self.running, events),
            dir: steer_all(self.dir, events),
            ..self
        }
    }

    /// The state at the start of a frame: no steering yet.
    pub open spec fn fresh_frame(self) -> GameModel {
        GameModel { dir: PaddleDirection::Stop, ..self }
    }

    /// Positions and velocities small enough that a step cannot overflow.
    pub open spec fn movable(self) -> bool {
        &&& abs(self.paddle_y) <= POS_LIMIT
        &&& abs(self.ball_x) <= POS_LIMIT
        &&& abs(self.ball_y) <= POS_LIMIT
        &&& abs(self.vel_x) <= VEL_LIMIT
        &&& abs(self.vel_y) <= VEL_LIMIT
    }
}

impl View for Game {
    type V = GameModel;

    open spec fn view(&self) -> GameModel {
        GameModel {
            ticks: self.ticks_count as int,
            running: self.is_running,
            width: self.window_width as int,
            height: self.window_height as int,
            dir: self.dir_paddle,
            paddle_x: self.pos_paddle.x as int,
            paddle_y: self.pos_paddle.y as int,
            ball_x: self.pos_ball.x as int,
            ball_y: self.pos_ball.y as int,
            vel_x: self.vel_ball.x as int,
            vel_y: self.vel_ball.y as int,
        }
    }
}

impl Game {
    /// A fresh session on a playfield of the given size: the paddle at the
    /// left, centred vertically; the ball in the middle, heading left and down.
    pub fn init(config: Config) -> (r: Game)
        ensures
            r@.ticks == 0,
            r@.running,
            r@.width == config.width,
            r@.height == config.height,
            r@.dir == PaddleDirection::Stop,
            r@.paddle_x == PADDLE_X * MILLI,
            r@.paddle_y == config.height * MILLI / 2,
            r@.ball_x == config.width * MILLI / 2,
            r@.ball_y == config.height * MILLI / 2,
            r@.vel_x == START_VEL_X,
            r@.vel_y == START_VEL_Y,
            r@.movable(),
    {
        let half_height = config.height as i64 * MILLI / 2;
        let half_width = config.width as i64 * MILLI / 2;
        Game {
            ticks_count: 0,
            is_running: true,
            window_width: config.width,
            window_height: config.height,
            dir_paddle: PaddleDirection::Stop,
            pos_paddle: Vector2 { x: PADDLE_X * MILLI, y: half_height },
            pos_ball: Vector2 { x: half_width, y: half_height },
            vel_ball: Vector2 { x: START_VEL_X, y: START_VEL_Y },
        }
    }

    pub fn is_running(&self) -> (r: bool)
        ensures
            r == self@.running,
    {
        self.is_running
    }

    /// Whether the state is within the bounds that `advance` and `update`
    /// need.
    pub fn is_movable(&self) -> (r: bool)
        ensures
            r == self@.movable(),
    {
        -POS_LIMIT <= self.pos_paddle.y && self.pos_paddle.y <= POS_LIMIT
            && -POS_LIMIT <= self.pos_ball.x && self.pos_ball.x <= POS_LIMIT
            && -POS_LIMIT <= self.pos_ball.y && self.pos_ball.y <= POS_LIMIT
            && -VEL_LIMIT <= self.vel_ball.x && self.vel_ball.x <= VEL_LIMIT
            && -VEL_LIMIT <= self.vel_ball.y && self.vel_ball.y <= VEL_LIMIT
    }

    /// Clears the paddle intent at the start of a frame.
    pub fn start_frame(&mut self)
        ensures
            final(self)@ == old(self)@.fresh_frame(),
    {
        self.dir_paddle = PaddleDirection::Stop;
    }

    /// Applies the frame's events in order: a close or Escape ends the
    /// session, W and S steer the paddle, the last of them winning.
    pub fn process_input(&mut self, events: &Vec<InputEvent>)
        ensures
            final(self)@ == old(self)@.after_input(events@),
    {
        let mut i: usize = 0;
        while i < events.len()
            invariant
                0 <= i <= events.len(),
                self@ == old(self)@.after_input(events@.subrange(0, i as int)),
            decreases events.len() - i,
        {
            let ghost done = events@.subrange(0, i as int);
            let ghost next = events@.subrange(0, i + 1);
            assert(next.drop_last() =~= done);
            assert(next.last() == events@[i as int]);
            match events[i] {
                InputEvent::Quit | InputEvent::KeyDown(Key::Escape) => {
                    self.is_running = false;
                },
                InputEvent::KeyDown(Key::W) => {
                    self.dir_paddle = PaddleDirection::Up;
                },
                InputEvent::KeyDown(Key::S) => {
                    self.dir_paddle = PaddleDirection::Down;
                },
                _ => {},
            }
            i = i + 1;
        }
        assert(events@.subrange(0, events.len() as int) =~= events@);
    }

    /// One physics step of `delta_ms` milliseconds.
    pub fn advance(&mut self, delta_ms: u32)
        requires
            delta_ms <= MAX_STEP_MS,
            old(self)@.movable(),
        ensures
            final(self)@ == old(self)@.step(delta_ms as int),
    {
        let ghost before = self@;
        let dt = delta_ms as i64;
        let lower = (PADDLE_HEIGHT / 2 + THICKNESS) as i64 * MILLI;
        let upper = self.window_height as i64 * MILLI - lower;
        match self.dir_paddle {
            PaddleDirection::Stop => {},
            PaddleDirection::Up => {
                let moved = self.pos_paddle.y - PADDLE_SPEED * dt;
                assert(before.dir.sign() * PADDLE_SPEED * dt == -(PADDLE_SPEED * dt)) by (nonlinear_arith)
                    requires
                        before.dir.sign() == -1,
                ;
                let m = if moved < upper { moved } else { upper };
                self.pos_paddle.y = if m > lower { m } else { lower };
            },
            PaddleDirection::Down => {
                let moved = self.pos_paddle.y + PADDLE_SPEED * dt;
                assert(moved == before.paddle_y + before.dir.sign() * PADDLE_SPEED * dt);
                let m = if moved < upper { moved } else { upper };
                self.pos_paddle.y = if m > lower { m } else { lower };
            },
        }
        assert(lower == before.paddle_lower() && upper == before.paddle_upper());
        assert(self.pos_paddle.y == before.next_paddle_y(dt as int));

        let vx = self.vel_ball.x;
        let vy = self.vel_ball.y;
        assert(-VEL_LIMIT * 50 <= vx * dt <= VEL_LIMIT * 50) by (nonlinear_arith)
            requires
                -VEL_LIMIT <= vx <= VEL_LIMIT,
                0 <= dt <= 50,
        ;
        assert(-VEL_LIMIT * 50 <= vy * dt <= VEL_LIMIT * 50) by (nonlinear_arith)
            requires
                -VEL_LIMIT <= vy <= VEL_LIMIT,
                0 <= dt <= 50,
        ;
        self.pos_ball.x = self.pos_ball.x + vx * dt;
        self.pos_ball.y = self.pos_ball.y + vy * dt;

        if self.pos_ball.x <= 0 {
            self.is_running = false;
        }

        let diff = self.pos_paddle.y - self.pos_ball.y;
        let close_enough = -(PADDLE_HEIGHT as i64 / 2 * MILLI) <= diff
            && diff <= PADDLE_HEIGHT as i64 / 2 * MILLI;
        let in_band = PADDLE_BAND_MIN * MILLI <= self.pos_ball.x
            && self.pos_ball.x <= PADDLE_BAND_MAX * MILLI;
        if close_enough && in_band && self.vel_ball.x < 0 {
            self.vel_ball.x = -self.vel_ball.x;
        }

        let right_wall = self.window_width as i64 * MILLI - THICKNESS as i64 * MILLI;
        if self.pos_ball.x >= right_wall && self.vel_ball.x > 0 {
            self.vel_ball.x = -self.vel_ball.x;
        }

        if self.pos_ball.y <= THICKNESS as i64 * MILLI && self.vel_ball.y < 0 {
            self.vel_ball.y = -self.vel_ball.y;
        }

        let bottom_wall = self.window_height as i64 * MILLI - THICKNESS as i64 * MILLI;
        if self.pos_ball.y >= bottom_wall && self.vel_ball.y > 0 {
            self.vel_ball.y = -self.vel_ball.y;
        }
    }

    /// The clock-gated physics update at clock reading `now`. Until at least
    /// `MIN_STEP_MS` have passed since the last recorded tick it changes
    /// nothing and returns `false`, and the caller waits and asks again; then
    /// it steps by the elapsed time, capped at `MAX_STEP_MS`, records `now`
    /// and returns `true`.
    pub fn update(&mut self, now: u32) -> (stepped: bool)
        requires
            old(self)@.movable(),
        ensures
            stepped == due(old(self)@.ticks, now as int),
            final(self)@ == old(self)@.tick(now as int),
    {
        if !step_due(self.ticks_count, now) {
            return false;
        }
        let delta_ms = step_delta_ms(self.ticks_count, now);
        self.advance(delta_ms);
        self.ticks_count = now;
        true
    }
}

} // verus!
