//! The entities of the game and their mathematical models.

use vstd::prelude::*;
use std::collections::VecDeque;
use crate::grid::{Cell, in_room, is_unit};

verus! {

/// One segment of the snake's body behind the head.
#[derive(Clone, Copy, Debug, PartialEq, Eq)]
pub struct Tail {
    pub x: i32,
    pub y: i32,
}

/// The food.
#[derive(Clone, Copy, Debug, PartialEq, Eq)]
pub struct Apple {
    pub x: i32,
    pub y: i32,
}

/// The snake: its head, the body behind it from the segment nearest the head to
/// the oldest one, the direction in effect, and the direction that input has
/// asked for and that the next tick will commit.
#[derive(Debug)]
pub struct Snake {
    pub x: i32,
    pub y: i32,
    pub tail: VecDeque<Tail>,
    pub input_direction: Option<(i32, i32)>,
    pub direction: (i32, i32),
}

/// The whole state of one game.
#[derive(Debug)]
pub struct Game {
    pub apple: Apple,
    pub snake: Snake,
    pub game_over: bool,
}

/// What a [`Snake`] stands for.
pub struct SnakeView {
    pub head: Cell,
    pub tail: Seq<Cell>,
    pub direction: Cell,
    pub pending: Option<Cell>,
}

/// What a [`Game`] stands for.
pub struct GameView {
    pub snake: SnakeView,
    pub apple: Cell,
    pub game_over: bool,
}

impl View for Tail {
    type V = Cell;

    open spec fn view(&self) -> Cell {
        (self.x as int, self.y as int)
    }
}

impl View for Apple {
    type V = Cell;

    open spec fn view(&self) -> Cell {
        (self.x as int, self.y as int)
    }
}

/// A pair of machine integers as a cell.
pub open spec fn cell_of(p: (i32, i32)) -> Cell {
    (p.0 as int, p.1 as int)
}

impl View for Snake {
    type V = SnakeView;

    open spec fn view(&self) -> SnakeView {
        SnakeView {
            head: (self.x as int, self.y as int),
            tail: self.tail@.map_values(|t: Tail| t@),
            direction: cell_of(self.direction),
            pending: match self.input_direction {
                Some(d) => Some(cell_of(d)),
                None => None,
            },
        }
    }
}

impl View for Game {
    type V = GameView;

    open spec fn view(&self) -> GameView {
        GameView { snake: self.snake@, apple: self.apple@, game_over: self.game_over }
    }
}

impl SnakeView {
    /// The direction in effect is a unit step, and so is a pending one.
    pub open spec fn wf(self) -> bool {
        &&& is_unit(self.direction)
        &&& self.pending matches Some(d) ==> is_unit(d)
    }
}

impl GameView {
    /// The state is one that play can reach: the snake is well-formed, the apple
    /// lies on the grid, and as long as the game is running so do the head and
    /// every tail segment.
    pub open spec fn wf(self) -> bool {
        &&& self.snake.wf()
        &&& in_room(self.apple)
        &&& !self.game_over ==> {
            &&& in_room(self.snake.head)
            &&& forall|i: int| 0 <= i < self.snake.tail.len() ==> in_room(#[trigger] self.snake.tail[i])
        }
    }
}

impl Tail {
    /// A segment at `(x, y)`.
    pub fn new(x: i32, y: i32) -> (tail: Tail)
        ensures
            tail@ == (x as int, y as int),
    {
        Tail { x, y }
    }
}

impl Apple {
    /// An apple at `(x, y)`.
    pub fn new(x: i32, y: i32) -> (apple: Apple)
        ensures
            apple@ == (x as int, y as int),
    {
        Apple { x, y }
    }
}

impl Snake {
    /// A snake with its head at `(x, y)`, heading down, with one tail segment in
    /// the cell above the head and no pending direction.
    pub fn new(x: i32, y: i32) -> (snake: Snake)
        requires
            y > i32::MIN,
        ensures
            snake@ == (SnakeView {
                head: (x as int, y as int),
                tail: seq![(x as int, y - 1)],
                direction: (0, 1),
                pending: None,
            }),
            snake@.wf(),
    {
        let mut tail: VecDeque<Tail> = VecDeque::new();
        tail.push_back(Tail::new(x, y - 1));
        let snake = Snake { x, y, tail, input_direction: None, direction: (0, 1) };
        assert(snake@.tail =~= seq![(x as int, y - 1)]);
        snake
    }

    /// The state is well-formed.
    pub open spec fn wf(&self) -> bool {
        self@.wf()
    }
}

impl Game {
    /// The state is well-formed.
    pub open spec fn wf(&self) -> bool {
        self@.wf()
    }
}

impl Default for Game {
    /// The opening position: the snake's head at `(4, 4)`, the apple at `(1, 2)`,
    /// the game running.
    fn default() -> (game: Game)
        ensures
            game@ == (GameView {
                snake: SnakeView {
                    head: (4, 4),
                    tail: seq![(4, 3)],
                    direction: (0, 1),
                    pending: None,
                },
                apple: (1, 2),
                game_over: false,
            }),
            game.wf(),
    {
        Game { game_over: false, apple: Apple::new(1, 2), snake: Snake::new(4, 4) }
    }
}

} // verus!
