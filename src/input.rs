use vstd::prelude::*;

use crate::pong::PaddleDirection;

verus! {

/// The keys the game reacts to.
#[derive(Clone, Copy, PartialEq, Eq, Structural, Debug)]
pub enum Key {
    Escape,
    W,
    S,
    Other,
}

/// One discrete input event, as the platform layer reports it.
#[derive(Clone, Copy, PartialEq, Eq, Structural, Debug)]
pub enum InputEvent {
    /// The window was asked to close.
    Quit,
    KeyDown(Key),
    Other,
}

impl InputEvent {
    /// A window close or Escape ends the session.
    pub open spec fn ends_session(self) -> bool {
        match self {
            InputEvent::Quit => true,
            InputEvent::KeyDown(Key::Escape) => true,
            _ => false,
        }
    }

    /// The paddle intent after this event: W asks for up, S for down,
    /// anything else leaves it as it was.
    pub open spec fn steer(self, d: PaddleDirection) -> PaddleDirection {
        match self {
            InputEvent::KeyDown(Key::W) => PaddleDirection::Up,
            InputEvent::KeyDown(Key::S) => PaddleDirection::Down,
            _ => d,
        }
    }
}

/// The paddle intent after the events in order: the last W or S wins.
pub open spec fn steer_all(d: PaddleDirection, events: Seq<InputEvent>) -> PaddleDirection
    decreases events.len(),
{
    if events.len() == 0 {
        d
    } else {
        events.last().steer(steer_all(d, events.drop_last()))
    }
}

/// Whether the session still runs after the events: it stops at the first
/// close or Escape and never starts again.
pub open spec fn still_running(running: bool, events: Seq<InputEvent>) -> bool
    decreases events.len(),
{
    if events.len() == 0 {
        running
    } else {
        still_running(running, events.drop_last()) && !events.last().ends_session()
    }
}

} // verus!
