use vstd::prelude::*;

use crate::error::MyError;
use crate::pong::{Game, GameModel, MILLI, PADDLE_HEIGHT, THICKNESS};

verus! {

/// An axis-aligned rectangle in whole pixels.
#[derive(Clone, Copy, PartialEq, Eq, Structural, Debug)]
pub struct Rect {
    pub x: i32,
    pub y: i32,
    pub width: u32,
    pub height: u32,
}

/// The rectangles one frame shows: three walls (no left one: the left edge
/// is where the ball is lost), the paddle and the ball.
#[derive(Clone, Copy, PartialEq, Eq, Structural, Debug)]
pub struct Frame {
    pub top_wall: Rect,
    pub bottom_wall: Rect,
    pub right_wall: Rect,
    pub paddle: Rect,
    pub ball: Rect,
}

/// `a / d` rounded toward zero.
pub open spec fn trunc_div(a: int, d: int) -> int {
    if a >= 0 {
        a / d
    } else {
        -((-a) / d)
    }
}

/// `v` limited to the range of `i32`.
pub open spec fn saturate_i32(v: int) -> int {
    if v > i32::MAX {
        i32::MAX as int
    } else if v < i32::MIN {
        i32::MIN as int
    } else {
        v
    }
}

/// The pixel coordinate of a length in thousandths of a pixel: truncated
/// toward zero, then saturated.
pub open spec fn pixel(v: int) -> int {
    saturate_i32(trunc_div(v, MILLI as int))
}

pub open spec fn rect_is(r: Rect, x: int, y: int, width: int, height: int) -> bool {
    r.x == x && r.y == y && r.width == width && r.height == height
}

/// Whether `n - THICKNESS` is a valid `i32` coordinate.
pub open spec fn fits_wall(n: int) -> bool {
    THICKNESS <= n && n - THICKNESS <= i32::MAX
}

/// The frame for a state, when both dimensions fit.
pub open spec fn frame_of(s: GameModel, f: Frame) -> bool {
    let half = THICKNESS * MILLI / 2;
    &&& rect_is(f.top_wall, 0, 0, s.width, THICKNESS as int)
    &&& rect_is(f.bottom_wall, 0, s.height - THICKNESS, s.width, THICKNESS as int)
    &&& rect_is(f.right_wall, s.width - THICKNESS, 0, THICKNESS as int, s.height)
    &&& rect_is(
        f.paddle,
        pixel(s.paddle_x - half),
        pixel(s.paddle_y - PADDLE_HEIGHT * MILLI / 2),
        THICKNESS as int,
        PADDLE_HEIGHT as int,
    )
    &&& rect_is(
        f.ball,
        pixel(s.ball_x - half),
        pixel(s.ball_y - half),
        THICKNESS as int,
        THICKNESS as int,
    )
}

/// The pixel coordinate of `v - offset`, both in thousandths of a pixel.
fn to_pixel(v: i64, offset: i64) -> (r: i32)
    ensures
        r == pixel(v - offset),
{
    let w: i128 = v as i128 - offset as i128;
    let q: i128 = if w >= 0 {
        (w as u128 / 1000) as i128
    } else {
        -(((-w) as u128 / 1000) as i128)
    };
    if q > i32::MAX as i128 {
        i32::MAX
    } else if q < i32::MIN as i128 {
        i32::MIN
    } else {
        q as i32
    }
}

/// `n - THICKNESS` as a coordinate, or the conversion error where it is
/// negative or beyond `i32`.
fn wall_offset(n: u32) -> (r: Result<i32, MyError>)
    ensures
        r is Ok <==> fits_wall(n as int),
        r is Ok ==> r->Ok_0 == n - THICKNESS,
        r is Err ==> r->Err_0.is_conversion(),
{
    if n < THICKNESS || n - THICKNESS > i32::MAX as u32 {
        Err(MyError::NumTryFromIntError)
    } else {
        Ok((n - THICKNESS) as i32)
    }
}

impl Game {
    /// The rectangles to draw for the current state. Fails with the
    /// conversion error when a dimension is smaller than the wall thickness,
    /// or the wall's coordinate does not fit in `i32`.
    pub fn generate_output(&self) -> (r: Result<Frame, MyError>)
        ensures
            r is Ok <==> fits_wall(self@.width) && fits_wall(self@.height),
            r is Ok ==> frame_of(self@, r->Ok_0),
            r is Err ==> r->Err_0.is_conversion(),
    {
        let bottom_wall_y = match wall_offset(self.window_height) {
            Ok(y) => y,
            Err(e) => return Err(e),
        };
        let right_wall_x = match wall_offset(self.window_width) {
            Ok(x) => x,
            Err(e) => return Err(e),
        };
        let half = THICKNESS as i64 * MILLI / 2;
        let paddle_half = PADDLE_HEIGHT as i64 * MILLI / 2;
        Ok(Frame {
            top_wall: Rect { x: 0, y: 0, width: self.window_width, height: THICKNESS },
            bottom_wall: Rect {
                x: 0,
                y: bottom_wall_y,
                width: self.window_width,
                height: THICKNESS,
            },
            right_wall: Rect {
                x: right_wall_x,
                y: 0,
                width: THICKNESS,
                height: self.window_height,
            },
            paddle: Rect {
                x: to_pixel(self.pos_paddle.x, half),
                y: to_pixel(self.pos_paddle.y, paddle_half),
                width: THICKNESS,
                height: PADDLE_HEIGHT,
            },
            ball: Rect {
                x: to_pixel(self.pos_ball.x, half),
                y: to_pixel(self.pos_ball.y, half),
                width: THICKNESS,
                height: THICKNESS,
            },
        })
    }
}

} // verus!
