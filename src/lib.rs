//! A single-paddle Pong simulation: per-frame input intent, a fixed-step
//! physics update in exact integer units, and the rectangles a frame shows.
//! Windowing, the clock and drawing belong to the program that runs it.
mod clock;
mod error;
mod input;
mod laws;
mod opt;
mod pong;
mod render;
mod vector;

pub use clock::{delta_of, due, step_delta_ms, step_due, MAX_STEP_MS, MIN_STEP_MS};
pub use error::MyError;
pub use input::{steer_all, still_running, InputEvent, Key};
pub use laws::{
    lemma_ball_at_left_edge_ends, lemma_frame_gate, lemma_no_bounce_away_from_wall,
    lemma_paddle_stays_in_band, lemma_paddle_step, lemma_stop_keeps_paddle,
    lemma_stopped_stays_stopped, lemma_wall_bounce,
};
pub use opt::{letter_matches, names_pong, pong_name, GameTitle, Opt};
pub use pong::{
    abs, clamp, Config, Game, GameModel, PaddleDirection, MILLI, PADDLE_HEIGHT, PADDLE_SPEED,
    PADDLE_X, THICKNESS,
};
pub use render::{fits_wall, frame_of, pixel, rect_is, saturate_i32, trunc_div, Frame, Rect};
pub use vector::Vector2;
