//! The per-tick game logic: input-driven movement, animation selection and
//! playback. Polling the input channel, pacing the tick and measuring the
//! wall clock are the surrounding program's concern; this module decides
//! and draws.
use vstd::prelude::*;

use crate::layout::{Coordinate, MirrorDirection, SUBCELL};
use crate::renderer::{offset_in_range, OFFSET_LIMIT};
use crate::screen::Screen;
use crate::sprite::{current_frame, rendered, sprite_advanced, Sprite, MICROS_PER_SECOND};

verus! {

/// Errors of the game loop.
#[derive(Clone, Copy, Debug, PartialEq, Eq, Structural)]
pub enum GameStateError {
    /// The loop was started without an input channel subscription.
    NoInputHandlerError,
}

/// Which of the character's animations one tick plays.
#[derive(Clone, Copy, Debug, PartialEq, Eq, Structural)]
pub enum AnimationChoice {
    /// No new input, or a vector matching no exact case.
    Idle,
    /// Exact left input: the side walk, flipped across the vertical axis.
    SideMirrored,
    /// Exact right input: the side walk as stored.
    Side,
    /// Exact downward input: the walk toward the camera.
    Front,
    /// Exact upward input: the walk away from the camera.
    Back,
}

/// A playable character: one sprite per animation it can perform.
pub struct Character {
    /// Played when no movement input arrives.
    pub idle: Sprite,
    /// Played for sideways movement; stored facing right, mirrored for left.
    pub side_walk: Sprite,
    /// Played when walking toward the camera (downward).
    pub front_walk: Sprite,
    /// Played when walking away from the camera (upward).
    pub back_walk: Sprite,
}

impl Character {
    /// All four sprites are playable.
    pub open spec fn wf(self) -> bool {
        &&& self.idle.wf()
        &&& self.side_walk.wf()
        &&& self.front_walk.wf()
        &&& self.back_walk.wf()
    }

    /// Assembles a character from its four animation sprites.
    pub fn new(idle: Sprite, side_walk: Sprite, front_walk: Sprite, back_walk: Sprite) -> (c:
        Character)
        ensures
            c.idle == idle,
            c.side_walk == side_walk,
            c.front_walk == front_walk,
            c.back_walk == back_walk,
    {
        Character { idle, side_walk, front_walk, back_walk }
    }
}

/// A movement-vector component is a unit step: one cell left/up, none, or
/// one cell right/down.
pub open spec fn unit_axis(v: int) -> bool {
    v == -SUBCELL || v == 0 || v == SUBCELL
}

/// Input vectors are unit-length axis or diagonal steps, the contract of
/// the input boundary.
pub open spec fn unit_input(input: Option<Coordinate>) -> bool {
    match input {
        Some(v) => unit_axis(v.x as int) && unit_axis(v.y as int),
        None => true,
    }
}

/// The sign of a unit movement component.
pub open spec fn axis_sign(v: int) -> int {
    if v == SUBCELL {
        1
    } else if v == -SUBCELL {
        -1
    } else {
        0
    }
}

/// Animation selection: exhaustive and exclusive over the input vector.
/// Exactly left plays the mirrored side walk, exactly right the plain side
/// walk, exactly down the front walk, exactly up the back walk; no input
/// or any other vector (diagonals included) plays the idle animation.
pub open spec fn select_animation(input: Option<Coordinate>) -> AnimationChoice {
    match input {
        None => AnimationChoice::Idle,
        Some(v) => if v.x == -SUBCELL && v.y == 0 {
            AnimationChoice::SideMirrored
        } else if v.x == SUBCELL && v.y == 0 {
            AnimationChoice::Side
        } else if v.x == 0 && v.y == SUBCELL {
            AnimationChoice::Front
        } else if v.x == 0 && v.y == -SUBCELL {
            AnimationChoice::Back
        } else {
            AnimationChoice::Idle
        },
    }
}

/// Animation selection is exhaustive and exclusive: every input selects
/// exactly one animation, each walk comes from exactly one input vector,
/// and everything else — no input, or any vector that is not an exact unit
/// axis step, diagonals included — is idle.
pub proof fn lemma_selection_exhaustive_exclusive(input: Option<Coordinate>)
    ensures
        select_animation(input) == AnimationChoice::SideMirrored <==> (input matches Some(v)
            && v.x == -SUBCELL && v.y == 0),
        select_animation(input) == AnimationChoice::Side <==> (input matches Some(v) && v.x
            == SUBCELL && v.y == 0),
        select_animation(input) == AnimationChoice::Front <==> (input matches Some(v) && v.x == 0
            && v.y == SUBCELL),
        select_animation(input) == AnimationChoice::Back <==> (input matches Some(v) && v.x == 0
            && v.y == -SUBCELL),
        select_animation(input) == AnimationChoice::Idle <==> (input is None || (input matches Some(
            v,
        ) && !(v.x == -SUBCELL && v.y == 0) && !(v.x == SUBCELL && v.y == 0) && !(v.x == 0 && v.y
            == SUBCELL) && !(v.x == 0 && v.y == -SUBCELL))),
{
}

/// The sprite a choice plays.
pub open spec fn chosen_sprite(c: Character, choice: AnimationChoice) -> Sprite {
    match choice {
        AnimationChoice::Idle => c.idle,
        AnimationChoice::SideMirrored => c.side_walk,
        AnimationChoice::Side => c.side_walk,
        AnimationChoice::Front => c.front_walk,
        AnimationChoice::Back => c.back_walk,
    }
}

/// The mirroring a choice is drawn with: only the leftward side walk is
/// flipped.
pub open spec fn choice_mirror(choice: AnimationChoice) -> MirrorDirection {
    match choice {
        AnimationChoice::SideMirrored => MirrorDirection::FlipVertical,
        _ => MirrorDirection::NoMirror,
    }
}

proof fn lemma_sign_mul(s: int, a: int, b: int) by (nonlinear_arith)
    requires
        s == 1 || s == 0 || s == -1,
    ensures
        s == 1 ==> s * a * b == a * b,
        s == 0 ==> s * a * b == 0,
        s == -1 ==> s * a * b == -(a * b),
{
}

/// Bound on one tick's movement step, in subunits; keeps the position
/// update inside `i64` and the new position inside the compositor's
/// offset range.
pub const STEP_LIMIT: i64 = 0x1000_0000_0000_0000;

/// The per-tick orchestration state: the player, its world position and
/// speed, the time step measured for this tick, and the frame budget the
/// loop is throttled to.
pub struct GameState {
    /// The player character's animation sprites.
    pub player: Character,
    /// World position, in subunits.
    pub player_pos: Coordinate,
    /// Movement speed, in cells per second.
    pub player_speed: u32,
    /// Wall-clock duration of the previous tick, in microseconds.
    pub delta: u64,
    /// The minimum duration of one tick, in microseconds.
    pub fps_budget: u64,
}

impl GameState {
    /// The arithmetic of one tick stays in range: the movement step is
    /// bounded and the position stays far enough from the offset limit.
    pub open spec fn update_fits(self) -> bool {
        &&& self.delta <= STEP_LIMIT
        &&& self.player_speed * self.delta <= STEP_LIMIT
        &&& -(OFFSET_LIMIT - STEP_LIMIT) <= self.player_pos.x <= OFFSET_LIMIT - STEP_LIMIT
        &&& -(OFFSET_LIMIT - STEP_LIMIT) <= self.player_pos.y <= OFFSET_LIMIT - STEP_LIMIT
    }

    /// Every sprite's timer can absorb this tick's delta.
    pub open spec fn timers_fit(self) -> bool {
        &&& self.player.idle.timer + self.delta <= u64::MAX
        &&& self.player.side_walk.timer + self.delta <= u64::MAX
        &&& self.player.front_walk.timer + self.delta <= u64::MAX
        &&& self.player.back_walk.timer + self.delta <= u64::MAX
    }

    /// Creates the game state for a fresh run: the frame budget is an even
    /// split of one second over the requested frames per second, and the
    /// first tick's delta is zero.
    pub fn new(fps: u64, player_speed: u32, player_pos: Coordinate, player: Character) -> (g:
        GameState)
        requires
            fps >= 1,
        ensures
            g.player == player,
            g.player_pos == player_pos,
            g.player_speed == player_speed,
            g.delta == 0,
            g.fps_budget as int == (MICROS_PER_SECOND as int) / (fps as int),
    {
        GameState {
            player,
            player_pos,
            player_speed,
            delta: 0,
            fps_budget: MICROS_PER_SECOND / fps,
        }
    }

    /// Records the measured wall-clock duration of the tick that just
    /// finished; it becomes the time step of the next tick, decoupling
    /// animation speed from raw tick rate. Measuring the clock is the
    /// caller's concern.
    pub fn set_delta(&mut self, delta: u64)
        ensures
            final(self).delta == delta,
            final(self).player == old(self).player,
            final(self).player_pos == old(self).player_pos,
            final(self).player_speed == old(self).player_speed,
            final(self).fps_budget == old(self).fps_budget,
    {
        self.delta = delta;
    }

    /// How much of the frame budget is left after a tick that took
    /// `elapsed` microseconds: the remainder to sleep out, or nothing when
    /// the tick already ran over. Sleeping the remainder throttles the
    /// loop to the budget but never speeds up a slow tick.
    pub fn remaining_budget(&self, elapsed: u64) -> (r: u64)
        ensures
            elapsed < self.fps_budget ==> r == self.fps_budget - elapsed,
            elapsed >= self.fps_budget ==> r == 0,
    {
        if elapsed < self.fps_budget {
            self.fps_budget - elapsed
        } else {
            0
        }
    }

    /// Runs the decisions of one tick: applies the movement law
    /// `position += input * speed * delta` for a freshly polled input
    /// vector (nothing moves when none arrived), selects the animation
    /// from the exact input vector, and plays it — advancing its cursor by
    /// this tick's delta and redrawing the screen at the new position.
    pub fn update(&mut self, input: Option<Coordinate>, screen: &mut Screen) -> (choice:
        AnimationChoice)
        requires
            old(self).player.wf(),
            old(self).update_fits(),
            old(self).timers_fit(),
            unit_input(input),
            old(screen).wf(),
        ensures
            choice == select_animation(input),
            input is None ==> final(self).player_pos == old(self).player_pos,
            input matches Some(v) ==> {
                &&& final(self).player_pos.x == old(self).player_pos.x + axis_sign(v.x as int)
                    * old(self).player_speed * old(self).delta
                &&& final(self).player_pos.y == old(self).player_pos.y + axis_sign(v.y as int)
                    * old(self).player_speed * old(self).delta
            },
            sprite_advanced(
                chosen_sprite(old(self).player, choice),
                chosen_sprite(final(self).player, choice),
                old(self).delta,
            ),
            choice != AnimationChoice::Idle ==> final(self).player.idle == old(self).player.idle,
            choice != AnimationChoice::Side && choice != AnimationChoice::SideMirrored
                ==> final(self).player.side_walk == old(self).player.side_walk,
            choice != AnimationChoice::Front
                ==> final(self).player.front_walk == old(self).player.front_walk,
            choice != AnimationChoice::Back
                ==> final(self).player.back_walk == old(self).player.back_walk,
            final(self).player.wf(),
            final(self).player_speed == old(self).player_speed,
            final(self).delta == old(self).delta,
            final(self).fps_budget == old(self).fps_budget,
            final(screen).wf(),
            final(screen).width == old(screen).width,
            final(screen).height == old(screen).height,
            final(screen).buffer@ == rendered(
                old(screen).buffer@,
                current_frame(chosen_sprite(final(self).player, choice)),
                choice_mirror(choice),
                final(self).player_pos,
                old(screen).width,
                old(screen).height,
            ),
    {
        if let Some(v) = input {
            proof {
                vstd::arithmetic::mul::lemma_mul_nonnegative(
                    self.player_speed as int,
                    self.delta as int,
                );
            }
            let step: i64 = (self.player_speed as i64) * (self.delta as i64);
            let dx: i64 = if v.x == SUBCELL {
                step
            } else if v.x == -SUBCELL {
                -step
            } else {
                0
            };
            let dy: i64 = if v.y == SUBCELL {
                step
            } else if v.y == -SUBCELL {
                -step
            } else {
                0
            };
            self.player_pos = Coordinate { x: self.player_pos.x + dx, y: self.player_pos.y + dy };
            proof {
                lemma_sign_mul(
                    axis_sign(v.x as int),
                    old(self).player_speed as int,
                    old(self).delta as int,
                );
                lemma_sign_mul(
                    axis_sign(v.y as int),
                    old(self).player_speed as int,
                    old(self).delta as int,
                );
            }
        }
        let choice: AnimationChoice = match input {
            Some(v) => {
                if v.x == -SUBCELL && v.y == 0 {
                    AnimationChoice::SideMirrored
                } else if v.x == SUBCELL && v.y == 0 {
                    AnimationChoice::Side
                } else if v.x == 0 && v.y == SUBCELL {
                    AnimationChoice::Front
                } else if v.x == 0 && v.y == -SUBCELL {
                    AnimationChoice::Back
                } else {
                    AnimationChoice::Idle
                }
            },
            None => AnimationChoice::Idle,
        };
        proof {
            assert(offset_in_range(self.player_pos));
        }
        match choice {
            AnimationChoice::Idle => {
                self.player.idle.play(
                    self.delta,
                    MirrorDirection::NoMirror,
                    self.player_pos,
                    screen,
                );
            },
            AnimationChoice::SideMirrored => {
                self.player.side_walk.play(
                    self.delta,
                    MirrorDirection::FlipVertical,
                    self.player_pos,
                    screen,
                );
            },
            AnimationChoice::Side => {
                self.player.side_walk.play(
                    self.delta,
                    MirrorDirection::NoMirror,
                    self.player_pos,
                    screen,
                );
            },
            AnimationChoice::Front => {
                self.player.front_walk.play(
                    self.delta,
                    MirrorDirection::NoMirror,
                    self.player_pos,
                    screen,
                );
            },
            AnimationChoice::Back => {
                self.player.back_walk.play(
                    self.delta,
                    MirrorDirection::NoMirror,
                    self.player_pos,
                    screen,
                );
            },
        }
        choice
    }
}

} // verus!
