//! Turns held movement keys into unit movement vectors.
//!
//! Mapping physical key codes to the four movement actions is the
//! surrounding program's concern; this module owns the held-key state and
//! the combination rules, diagonals included.
use vstd::prelude::*;

use crate::layout::{Coordinate, SUBCELL};

verus! {

/// The movement actions a player can hold down.
#[derive(Clone, Copy, Debug, PartialEq, Eq, Structural)]
pub enum GameInput {
    PlayerMoveUp,
    PlayerMoveLeft,
    PlayerMoveRight,
    PlayerMoveDown,
}

/// Tracks which movement actions are currently held.
#[derive(Clone, Copy, Debug, PartialEq, Eq, Structural)]
pub struct GameInputHandler {
    pub up: bool,
    pub down: bool,
    pub left: bool,
    pub right: bool,
}

/// The tracker after a press or release of one action.
pub open spec fn held_after(t: GameInputHandler, key: GameInput, pressed: bool) -> GameInputHandler {
    match key {
        GameInput::PlayerMoveUp => GameInputHandler { up: pressed, ..t },
        GameInput::PlayerMoveDown => GameInputHandler { down: pressed, ..t },
        GameInput::PlayerMoveLeft => GameInputHandler { left: pressed, ..t },
        GameInput::PlayerMoveRight => GameInputHandler { right: pressed, ..t },
    }
}

/// The movement vector the held actions combine into: diagonals first,
/// then single axes; nothing when no movement action is held. Each
/// component is one cell long.
pub open spec fn held_vector(t: GameInputHandler) -> Option<Coordinate> {
    if t.up && t.left {
        Some(Coordinate { x: (-SUBCELL) as i64, y: (-SUBCELL) as i64 })
    } else if t.down && t.left {
        Some(Coordinate { x: (-SUBCELL) as i64, y: SUBCELL })
    } else if t.down && t.right {
        Some(Coordinate { x: SUBCELL, y: SUBCELL })
    } else if t.up && t.right {
        Some(Coordinate { x: SUBCELL, y: (-SUBCELL) as i64 })
    } else if t.left {
        Some(Coordinate { x: (-SUBCELL) as i64, y: 0 })
    } else if t.right {
        Some(Coordinate { x: SUBCELL, y: 0 })
    } else if t.up {
        Some(Coordinate { x: 0, y: (-SUBCELL) as i64 })
    } else if t.down {
        Some(Coordinate { x: 0, y: SUBCELL })
    } else {
        None
    }
}

impl GameInputHandler {
    /// Whether the given movement action is currently held.
    pub fn is_held(&self, input: GameInput) -> (b: bool)
        ensures
            b == match input {
                GameInput::PlayerMoveUp => self.up,
                GameInput::PlayerMoveDown => self.down,
                GameInput::PlayerMoveLeft => self.left,
                GameInput::PlayerMoveRight => self.right,
            },
    {
        match input {
            GameInput::PlayerMoveUp => self.up,
            GameInput::PlayerMoveDown => self.down,
            GameInput::PlayerMoveLeft => self.left,
            GameInput::PlayerMoveRight => self.right,
        }
    }

    /// Records a press or release of a movement action and converts the
    /// held set into a movement vector: a release yields nothing, a press
    /// yields the combination of everything now held.
    pub fn to_coordinate(&mut self, key: GameInput, pressed: bool) -> (r: Option<Coordinate>)
        ensures
            *final(self) == held_after(*old(self), key, pressed),
            r == if pressed {
                held_vector(*final(self))
            } else {
                None::<Coordinate>
            },
    {
        match key {
            GameInput::PlayerMoveUp => {
                self.up = pressed;
            },
            GameInput::PlayerMoveDown => {
                self.down = pressed;
            },
            GameInput::PlayerMoveLeft => {
                self.left = pressed;
            },
            GameInput::PlayerMoveRight => {
                self.right = pressed;
            },
        }
        if !pressed {
            return None;
        }
        if self.up && self.left {
            Some(Coordinate { x: -SUBCELL, y: -SUBCELL })
        } else if self.down && self.left {
            Some(Coordinate { x: -SUBCELL, y: SUBCELL })
        } else if self.down && self.right {
            Some(Coordinate { x: SUBCELL, y: SUBCELL })
        } else if self.up && self.right {
            Some(Coordinate { x: SUBCELL, y: -SUBCELL })
        } else if self.left {
            Some(Coordinate { x: -SUBCELL, y: 0 })
        } else if self.right {
            Some(Coordinate { x: SUBCELL, y: 0 })
        } else if self.up {
            Some(Coordinate { x: 0, y: -SUBCELL })
        } else if self.down {
            Some(Coordinate { x: 0, y: SUBCELL })
        } else {
            None
        }
    }
}

impl Default for GameInputHandler {
    /// A tracker with no movement action held.
    fn default() -> (t: GameInputHandler)
        ensures
            !t.up && !t.down && !t.left && !t.right,
    {
        GameInputHandler { up: false, down: false, left: false, right: false }
    }
}

/// Every vector the input handler produces is a unit axis or diagonal
/// step, which is exactly what the game's movement law expects of the
/// input boundary.
pub proof fn lemma_held_vector_is_unit(t: GameInputHandler)
    ensures
        crate::game::unit_input(held_vector(t)),
{
}

} // verus!
