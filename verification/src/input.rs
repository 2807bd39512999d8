//! Steering: from a key press to the direction that the next tick commits.

use vstd::prelude::*;
use crate::grid::{Cell, is_reverse};
use crate::model::{cell_of, Game, GameView, SnakeView};

verus! {

/// A key as the game tells keys apart: the four arrows, the four letters that
/// double them, and everything else.
#[derive(Clone, Copy, Debug, PartialEq, Eq, Structural)]
pub enum Key {
    W,
    A,
    S,
    D,
    Up,
    Left,
    Down,
    Right,
    Other,
}

impl Key {
    /// The direction that a key asks for: up is `(0, -1)`, left `(-1, 0)`, down
    /// `(0, 1)`, right `(1, 0)`; any other key asks for none.
    pub open spec fn direction(self) -> Option<Cell> {
        match self {
            Key::W | Key::Up => Some((0, -1)),
            Key::A | Key::Left => Some((-1, 0)),
            Key::S | Key::Down => Some((0, 1)),
            Key::D | Key::Right => Some((1, 0)),
            Key::Other => None,
        }
    }

    /// The direction that this key asks for, if it is a steering key.
    pub fn target_direction(self) -> (target: Option<(i32, i32)>)
        ensures
            match target {
                Some(d) => self.direction() == Some(cell_of(d)),
                None => self.direction() is None,
            },
    {
        match self {
            Key::W | Key::Up => Some((0, -1)),
            Key::A | Key::Left => Some((-1, 0)),
            Key::S | Key::Down => Some((0, 1)),
            Key::D | Key::Right => Some((1, 0)),
            Key::Other => None,
        }
    }
}

impl GameView {
    /// The state after the key event of one frame. A steering key becomes the
    /// pending direction unless it asks for the exact reverse of the direction
    /// in effect; what was pending before plays no part in that test. Nothing
    /// else changes, and no key or another key changes nothing.
    pub open spec fn steer(self, key: Option<Key>) -> GameView {
        match key {
            Some(k) => match k.direction() {
                Some(d) if !is_reverse(self.snake.direction, d) => GameView {
                    snake: SnakeView { pending: Some(d), ..self.snake },
                    ..self
                },
                _ => self,
            },
            None => self,
        }
    }
}

/// Takes in the key press of one frame, if there was one.
pub fn handle_input(game: &mut Game, key: Option<Key>)
    ensures
        final(game)@ == old(game)@.steer(key),
        // a request for the exact reverse of the direction in effect is dropped
        key matches Some(k) && k.direction() matches Some(d) && is_reverse(old(game)@.snake.direction, d)
            ==> final(game)@.snake.pending == old(game)@.snake.pending,
        // only the pending direction can change
        final(game)@ == (GameView {
            snake: SnakeView { pending: final(game)@.snake.pending, ..old(game)@.snake },
            ..old(game)@
        }),
        old(game).wf() ==> final(game).wf(),
{
    if let Some(key) = key {
        if let Some(target_direction) = key.target_direction() {
            let current_direction = game.snake.direction;

            // Prevent moving in the opposite direction
            if current_direction.1 != -target_direction.1 || current_direction.0 != -target_direction.0 {
                game.snake.input_direction = Some(target_direction);
            }
        }
    }
}

} // verus!
