//! A snake game on a fixed grid: the snake advances one cell per tick, grows when
//! it eats the apple, and the game is over once it runs into itself or a wall.
//!
//! The crate holds the rules of the game. Every function states its effect on the
//! abstract state of the game ([`model::GameView`]); windowing, key polling and
//! the frame timer belong to the program that drives it.

pub mod grid;
pub mod model;
pub mod input;
pub mod step;
pub mod render;

pub use grid::{ROOM_SIZE_X, ROOM_SIZE_Y, TILE_SIZE, WINDOW_HEIGHT, WINDOW_WIDTH};
pub use input::{handle_input, Key};
pub use model::{Apple, Game, Snake, Tail};
pub use render::{draw_game, DrawCommand, Paint};
pub use step::{advance, update_game};
