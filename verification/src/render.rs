//! Rendering: the drawing commands of one frame, in the order in which they are
//! to be carried out.

use vstd::prelude::*;
use crate::grid::{Cell, in_room, TILE_SIZE, WINDOW_HEIGHT, WINDOW_WIDTH};
use crate::model::{Game, GameView};

verus! {

/// The colors that the game draws with.
#[derive(Clone, Copy, Debug, PartialEq, Eq, Structural)]
pub enum Paint {
    Black,
    White,
    Green,
    DarkGreen,
    Red,
}

/// The color of the background.
pub const BACKGROUND_COLOR: Paint = Paint::Black;

/// The color of the game-over message.
pub const TEXT_COLOR: Paint = Paint::White;

/// The color of the snake's head.
pub const SNAKE_COLOR: Paint = Paint::Green;

/// The color of the snake's tail.
pub const TAIL_COLOR: Paint = Paint::DarkGreen;

/// The color of the apple.
pub const APPLE_COLOR: Paint = Paint::Red;

/// Font size of the game-over message, in pixels.
pub const GAME_OVER_FONT_SIZE: i32 = 32;

/// The message shown once the game is over.
pub const GAME_OVER_MESSAGE: &'static str = "Game over!";

/// One drawing primitive with its arguments, in pixels.
#[derive(Clone, Copy, Debug, PartialEq, Eq)]
pub enum DrawCommand {
    /// Fill the whole window.
    ClearBackground { color: Paint },
    /// Write `text` with its top-left corner at `(x, y)`.
    Text { text: &'static str, x: i32, y: i32, font_size: i32, color: Paint },
    /// Fill the axis-aligned rectangle with its top-left corner at `(x, y)`.
    Rectangle { x: i32, y: i32, width: i32, height: i32, color: Paint },
}

/// The square of one grid cell: cell `(x, y)` covers the pixels from
/// `(x * TILE_SIZE, y * TILE_SIZE)`, one tile wide and high.
pub open spec fn tile(c: Cell, color: Paint) -> DrawCommand {
    DrawCommand::Rectangle {
        x: (c.0 * TILE_SIZE) as i32,
        y: (c.1 * TILE_SIZE) as i32,
        width: TILE_SIZE,
        height: TILE_SIZE,
        color,
    }
}

/// The pixel coordinates of the cell's square can be held in machine integers.
pub open spec fn tile_fits(c: Cell) -> bool {
    &&& i32::MIN <= c.0 * TILE_SIZE <= i32::MAX
    &&& i32::MIN <= c.1 * TILE_SIZE <= i32::MAX
}

impl GameView {
    /// Every square that a frame of this state shows can be drawn. Once the
    /// game is over no square is shown.
    pub open spec fn drawable(self) -> bool {
        !self.game_over ==> {
            &&& tile_fits(self.snake.head)
            &&& forall|i: int| 0 <= i < self.snake.tail.len() ==> tile_fits(#[trigger] self.snake.tail[i])
            &&& tile_fits(self.apple)
        }
    }

    /// The frame of this state. Once the game is over: the cleared background
    /// and the message, and none of the entities. Before that: the cleared
    /// background, the head, the tail segments from the one nearest the head to
    /// the oldest, and the apple.
    pub open spec fn frame(self) -> Seq<DrawCommand> {
        if self.game_over {
            seq![
                DrawCommand::ClearBackground { color: BACKGROUND_COLOR },
                DrawCommand::Text {
                    text: GAME_OVER_MESSAGE,
                    x: (WINDOW_WIDTH / 2 - 80) as i32,
                    y: (WINDOW_HEIGHT / 2) as i32,
                    font_size: GAME_OVER_FONT_SIZE,
                    color: TEXT_COLOR,
                },
            ]
        } else {
            seq![
                DrawCommand::ClearBackground { color: BACKGROUND_COLOR },
                tile(self.snake.head, SNAKE_COLOR),
            ] + self.snake.tail.map_values(|c: Cell| tile(c, TAIL_COLOR)) + seq![
                tile(self.apple, APPLE_COLOR),
            ]
        }
    }
}

impl Game {
    /// Whether a frame of this state can be drawn.
    pub fn can_draw(&self) -> (fits: bool)
        ensures
            fits == self@.drawable(),
    {
        if self.game_over {
            return true;
        }
        if !pixels_fit(self.snake.x, self.snake.y) || !pixels_fit(self.apple.x, self.apple.y) {
            return false;
        }
        let mut i: usize = 0;
        while i < self.snake.tail.len()
            invariant
                i <= self.snake.tail.len(),
                !self.game_over,
                tile_fits(self@.snake.head),
                tile_fits(self@.apple),
                forall|j: int| 0 <= j < i ==> tile_fits(#[trigger] self@.snake.tail[j]),
            decreases self.snake.tail.len() - i,
        {
            let segment = self.snake.tail[i];
            assert(self@.snake.tail[i as int] == segment@);
            if !pixels_fit(segment.x, segment.y) {
                assert(!tile_fits(self@.snake.tail[i as int]));
                return false;
            }
            i += 1;
        }
        true
    }
}

/// Whether the square of cell `(x, y)` has pixel coordinates that fit.
fn pixels_fit(x: i32, y: i32) -> (fits: bool)
    ensures
        fits == tile_fits((x as int, y as int)),
{
    x.checked_mul(TILE_SIZE).is_some() && y.checked_mul(TILE_SIZE).is_some()
}

/// The square of cell `(x, y)` in the given color.
fn draw_tile(x: i32, y: i32, color: Paint) -> (command: DrawCommand)
    requires
        tile_fits((x as int, y as int)),
    ensures
        command == tile((x as int, y as int), color),
{
    DrawCommand::Rectangle {
        x: x * TILE_SIZE,
        y: y * TILE_SIZE,
        width: TILE_SIZE,
        height: TILE_SIZE,
        color,
    }
}

/// The drawing commands of one frame. The game is only read.
pub fn draw_game(game: &Game) -> (commands: Vec<DrawCommand>)
    requires
        game@.drawable(),
    ensures
        commands@ == game@.frame(),
        game.game_over ==> commands@.len() == 2,
        !game.game_over ==> commands@.len() == game@.snake.tail.len() + 3,
{
    let mut commands: Vec<DrawCommand> = Vec::new();
    commands.push(DrawCommand::ClearBackground { color: BACKGROUND_COLOR });

    // Draw game over text
    if game.game_over {
        commands.push(
            DrawCommand::Text {
                text: GAME_OVER_MESSAGE,
                x: WINDOW_WIDTH / 2 - 80,
                y: WINDOW_HEIGHT / 2,
                font_size: GAME_OVER_FONT_SIZE,
                color: TEXT_COLOR,
            },
        );
        assert(commands@ =~= game@.frame());
        return commands;
    }

    // Draw snake
    commands.push(draw_tile(game.snake.x, game.snake.y, SNAKE_COLOR));

    // Draw tail
    let ghost squares = game@.snake.tail.map_values(|c: Cell| tile(c, TAIL_COLOR));
    let mut i: usize = 0;
    while i < game.snake.tail.len()
        invariant
            i <= game.snake.tail.len(),
            game@.drawable(),
            !game.game_over,
            squares == game@.snake.tail.map_values(|c: Cell| tile(c, TAIL_COLOR)),
            commands@ == seq![
                DrawCommand::ClearBackground { color: BACKGROUND_COLOR },
                tile(game@.snake.head, SNAKE_COLOR),
            ] + squares.take(i as int),
        decreases game.snake.tail.len() - i,
    {
        let segment = game.snake.tail[i];
        assert(game@.snake.tail[i as int] == segment@);
        commands.push(draw_tile(segment.x, segment.y, TAIL_COLOR));
        assert(squares.take(i + 1) =~= squares.take(i as int).push(squares[i as int]));
        i += 1;
    }
    assert(squares.take(i as int) =~= squares);

    // Draw apple
    commands.push(draw_tile(game.apple.x, game.apple.y, APPLE_COLOR));
    assert(commands@ =~= game@.frame());
    commands
}

/// Rendering is repeatable: a frame depends on nothing but the state of the
/// game, so two games in the same state, or one game drawn twice, give the
/// same commands.
pub proof fn lemma_frame_repeatable(first: Game, second: Game)
    requires
        first@ == second@,
    ensures
        first@.frame() == second@.frame(),
{
}

/// Every state that play can reach can be drawn.
pub proof fn lemma_wf_drawable(game: GameView)
    requires
        game.wf(),
    ensures
        game.drawable(),
{
    if !game.game_over {
        assert forall|i: int| 0 <= i < game.snake.tail.len() implies tile_fits(
            #[trigger] game.snake.tail[i],
        ) by {
            assert(in_room(game.snake.tail[i]));
        }
    }
}

} // verus!
