use vstd::prelude::*;

use crate::clock::{due, MAX_STEP_MS, MIN_STEP_MS};
use crate::input::{still_running, InputEvent};
use crate::pong::{abs, clamp, GameModel, PaddleDirection, PADDLE_SPEED, THICKNESS, MILLI};

verus! {

/// A steered paddle moves by at most its speed times the step, and never
/// leaves the allowed band; when the motion would overshoot a bound, it
/// stops exactly on that bound.
pub proof fn lemma_paddle_step(s: GameModel, dt: int)
    requires
        0 < dt <= MAX_STEP_MS,
        s.dir != PaddleDirection::Stop,
        s.paddle_lower() <= s.paddle_upper(),
    ensures
        s.step(dt).paddle_y == clamp(
            s.paddle_y + s.dir.sign() * PADDLE_SPEED * dt,
            s.paddle_lower(),
            s.paddle_upper(),
        ),
        s.paddle_lower() <= s.step(dt).paddle_y <= s.paddle_upper(),
        s.paddle_lower() <= s.paddle_y <= s.paddle_upper() ==> abs(s.step(dt).paddle_y - s.paddle_y)
            <= PADDLE_SPEED * dt,
        s.paddle_y + s.dir.sign() * PADDLE_SPEED * dt >= s.paddle_upper() ==> s.step(dt).paddle_y
            == s.paddle_upper(),
        s.paddle_y + s.dir.sign() * PADDLE_SPEED * dt <= s.paddle_lower() ==> s.step(dt).paddle_y
            == s.paddle_lower(),
{
    assert(s.dir.sign() == 1 || s.dir.sign() == -1);
    assert(s.dir.sign() * PADDLE_SPEED * dt == PADDLE_SPEED * dt || s.dir.sign() * PADDLE_SPEED
        * dt == -(PADDLE_SPEED * dt)) by (nonlinear_arith)
        requires
            s.dir.sign() == 1 || s.dir.sign() == -1,
    ;
}

/// A paddle inside its band stays inside it through any step.
pub proof fn lemma_paddle_stays_in_band(s: GameModel, dt: int)
    requires
        0 <= dt <= MAX_STEP_MS,
        s.paddle_lower() <= s.paddle_y <= s.paddle_upper(),
    ensures
        s.step(dt).paddle_lower() <= s.step(dt).paddle_y <= s.step(dt).paddle_upper(),
{
}

/// An update while nobody steers leaves the paddle where it is.
pub proof fn lemma_stop_keeps_paddle(s: GameModel, now: int)
    requires
        s.dir == PaddleDirection::Stop,
    ensures
        s.tick(now).paddle_x == s.paddle_x,
        s.tick(now).paddle_y == s.paddle_y,
{
}

/// A ball at or past the left edge that is not moving right ends the session.
pub proof fn lemma_ball_at_left_edge_ends(s: GameModel, dt: int)
    requires
        0 <= dt,
        s.ball_x <= 0,
        s.vel_x <= 0,
    ensures
        !s.step(dt).running,
{
    assert(s.vel_x * dt <= 0) by (nonlinear_arith)
        requires
            s.vel_x <= 0,
            0 <= dt,
    ;
}

proof fn lemma_stopped_stays_stopped_on_input(running: bool, events: Seq<InputEvent>)
    requires
        !running,
    ensures
        !still_running(running, events),
    decreases events.len(),
{
    if events.len() > 0 {
        lemma_stopped_stays_stopped_on_input(running, events.drop_last());
    }
}

/// Once the session has stopped, nothing in a frame starts it again: not
/// the frame reset, not input, not a physics update.
pub proof fn lemma_stopped_stays_stopped(
    s: GameModel,
    events: Seq<InputEvent>,
    dt: int,
    now: int,
)
    requires
        !s.running,
    ensures
        !s.fresh_frame().running,
        !s.after_input(events).running,
        !s.step(dt).running,
        !s.tick(now).running,
{
    lemma_stopped_stays_stopped_on_input(s.running, events);
}

/// A ball that reaches the top wall while moving up turns down, and one that
/// reaches the bottom wall while moving down turns up, on a playfield taller
/// than two walls.
pub proof fn lemma_wall_bounce(s: GameModel, dt: int)
    requires
        s.height > 2 * THICKNESS,
    ensures
        s.next_ball_y(dt) <= THICKNESS * MILLI && s.vel_y < 0 ==> s.step(dt).vel_y == -s.vel_y,
        s.next_ball_y(dt) >= (s.height - THICKNESS) * MILLI && s.vel_y > 0 ==> s.step(dt).vel_y
            == -s.vel_y,
{
}

/// A ball already moving away from a wall is not turned back by it: the
/// vertical velocity only changes at the wall the ball moves toward.
pub proof fn lemma_no_bounce_away_from_wall(s: GameModel, dt: int)
    ensures
        s.vel_y > 0 && s.next_ball_y(dt) < (s.height - THICKNESS) * MILLI ==> s.step(dt).vel_y
            == s.vel_y,
        s.vel_y < 0 && s.next_ball_y(dt) > THICKNESS * MILLI ==> s.step(dt).vel_y == s.vel_y,
        s.vel_y == 0 ==> s.step(dt).vel_y == 0,
{
}

/// The physics update never steps before `MIN_STEP_MS` have passed since
/// the recorded tick, so a reading equal to it changes nothing; when it
/// steps, it records the reading.
pub proof fn lemma_frame_gate(s: GameModel, now: int)
    ensures
        now < s.ticks + MIN_STEP_MS ==> s.tick(now) == s,
        s.tick(s.ticks) == s,
        due(s.ticks, now) ==> s.tick(now).ticks == now && now - s.ticks >= MIN_STEP_MS,
{
}

} // verus!
