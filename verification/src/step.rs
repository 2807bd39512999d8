//! One tick of the simulation.
//!
//! [`GameView::step`] is the rule itself; [`advance`] carries it out with the
//! apple's next cell supplied by the caller, and [`update_game`] draws that cell
//! at random.

use vstd::prelude::*;
use rand::Rng;
use crate::grid::{Cell, in_room, is_in_room, manhattan, offset, ROOM_SIZE_X, ROOM_SIZE_Y};
use crate::model::{Apple, Game, GameView, SnakeView, Tail};

verus! {

impl SnakeView {
    /// The direction that the next tick moves in: the pending one if there is
    /// one, else the direction in effect.
    pub open spec fn heading(self) -> Cell {
        match self.pending {
            Some(d) => d,
            None => self.direction,
        }
    }

    /// The cell that the head enters on the next tick.
    pub open spec fn next_head(self) -> Cell {
        offset(self.head, self.heading())
    }

    /// The tail after a tick. Growing puts the cell that the head leaves in
    /// front of the tail; otherwise that cell replaces the back-most segment, so
    /// that each segment takes the place of the one before it.
    pub open spec fn next_tail(self, grow: bool) -> Seq<Cell> {
        if grow {
            seq![self.head] + self.tail
        } else if self.tail.len() > 0 {
            seq![self.head] + self.tail.drop_last()
        } else {
            self.tail
        }
    }
}

impl GameView {
    /// The head's next cell is held by a segment of the tail as it is before the
    /// move, the segment about to be vacated included.
    pub open spec fn hits_tail(self) -> bool {
        self.snake.tail.contains(self.snake.next_head())
    }

    /// The head's next cell is off the grid.
    pub open spec fn hits_wall(self) -> bool {
        !in_room(self.snake.next_head())
    }

    /// The head's next cell holds the apple.
    pub open spec fn eats(self) -> bool {
        self.snake.next_head() == self.apple
    }

    /// The head's next cell can be held in machine integers.
    pub open spec fn step_fits(self) -> bool {
        let next = self.snake.next_head();
        i32::MIN <= next.0 <= i32::MAX && i32::MIN <= next.1 <= i32::MAX
    }

    /// The state after one tick, where `fresh` is the cell that the apple moves
    /// to if it is eaten on this tick. The move is made in full even on the tick
    /// on which the game ends.
    pub open spec fn step(self, fresh: Cell) -> GameView {
        GameView {
            snake: SnakeView {
                head: self.snake.next_head(),
                tail: self.snake.next_tail(self.eats()),
                direction: self.snake.heading(),
                pending: None,
            },
            apple: if self.eats() { fresh } else { self.apple },
            game_over: self.game_over || self.hits_tail() || self.hits_wall(),
        }
    }
}

impl Game {
    /// Whether the next tick can be computed without leaving the range of the
    /// coordinates.
    pub fn can_update(&self) -> (fits: bool)
        ensures
            fits == self@.step_fits(),
    {
        let direction = match self.snake.input_direction {
            Some(d) => d,
            None => self.snake.direction,
        };
        self.snake.x.checked_add(direction.0).is_some()
            && self.snake.y.checked_add(direction.1).is_some()
    }

    /// Whether the next tick takes the head onto the apple.
    pub fn will_eat(&self) -> (eats: bool)
        requires
            self@.step_fits(),
        ensures
            eats == self@.eats(),
    {
        let direction = match self.snake.input_direction {
            Some(d) => d,
            None => self.snake.direction,
        };
        self.snake.x + direction.0 == self.apple.x && self.snake.y + direction.1 == self.apple.y
    }
}

/// While the game is running the next tick can always be computed: the head is
/// on the grid and moves by one cell.
pub proof fn lemma_running_step_fits(game: GameView)
    requires
        game.wf(),
        !game.game_over,
    ensures
        game.step_fits(),
{
}

/// Calls `rand::thread_rng().gen_range(low..high)`. The generator is seeded by
/// the system, so nothing is said of which value comes back but what holds of
/// every one: it lies in `low..high`. `gen_range` panics on an empty range,
/// which `requires` leaves out; `thread_rng` fails only where the system has
/// no source of randomness to seed it from.
#[verifier::external_body]
fn random_in_range(low: i32, high: i32) -> (value: i32)
    requires
        low < high,
    ensures
        low <= value < high,
{
    rand::thread_rng().gen_range(low..high)
}

/// Advances the game by one tick, with `fresh` as the apple's next cell should
/// the apple be eaten.
pub fn advance(game: &mut Game, fresh: Apple)
    requires
        old(game)@.step_fits(),
    ensures
        final(game)@ == old(game)@.step(fresh@),
        // the head moves by the committed direction, one cell along one axis
        final(game)@.snake.head == offset(old(game)@.snake.head, final(game)@.snake.direction),
        old(game)@.snake.wf() ==> manhattan(final(game)@.snake.head, old(game)@.snake.head) == 1,
        // collisions end the game, and a game that is over stays so
        old(game)@.hits_tail() ==> final(game).game_over,
        old(game)@.hits_wall() ==> final(game).game_over,
        old(game).game_over ==> final(game).game_over,
        // the tail never shrinks
        final(game)@.snake.tail.len() >= old(game)@.snake.tail.len(),
        // eating grows the tail by one segment, the cell that the head left
        old(game)@.eats() ==> {
            &&& final(game)@.snake.tail.len() == old(game)@.snake.tail.len() + 1
            &&& final(game)@.snake.tail == seq![old(game)@.snake.head] + old(game)@.snake.tail
            &&& final(game)@.apple == fresh@
        },
        // otherwise the tail keeps its length and each segment follows the one before it
        !old(game)@.eats() ==> {
            &&& final(game)@.snake.tail.len() == old(game)@.snake.tail.len()
            &&& final(game)@.snake.tail.len() > 0 ==> final(game)@.snake.tail[0] == old(game)@.snake.head
            &&& forall|i: int|
                1 <= i < final(game)@.snake.tail.len() ==> #[trigger] final(game)@.snake.tail[i]
                    == old(game)@.snake.tail[i - 1]
            &&& final(game)@.apple == old(game)@.apple
        },
        old(game).wf() && in_room(fresh@) ==> final(game).wf(),
{
    let snake_location = (game.snake.x, game.snake.y);
    let snake_next_location: (i32, i32);

    // Commit the pending direction, if there is one
    if let Some(direction) = game.snake.input_direction {
        snake_next_location = (snake_location.0 + direction.0, snake_location.1 + direction.1);
        game.snake.direction = direction;
        game.snake.input_direction = None;
    } else {
        snake_next_location = (
            snake_location.0 + game.snake.direction.0,
            snake_location.1 + game.snake.direction.1,
        );
    }

    // Check if the snake collides with its tail
    let ghost before = old(game)@;
    let ghost next = before.snake.next_head();
    let mut i: usize = 0;
    while i < game.snake.tail.len()
        invariant
            i <= game.snake.tail.len(),
            before == old(game)@,
            game.snake.tail == old(game).snake.tail,
            game.snake.x == old(game).snake.x,
            game.snake.y == old(game).snake.y,
            game.snake@.direction == before.snake.heading(),
            game.snake.input_direction is None,
            game.apple == old(game).apple,
            next == (snake_next_location.0 as int, snake_next_location.1 as int),
            game.game_over == (old(game).game_over || exists|j: int|
                0 <= j < i && #[trigger] before.snake.tail[j] == next),
        decreases game.snake.tail.len() - i,
    {
        let segment = game.snake.tail[i];
        if segment.x == snake_next_location.0 && segment.y == snake_next_location.1 {
            game.game_over = true;
        }
        assert(before.snake.tail[i as int] == segment@);
        i += 1;
    }
    assert(game.game_over == (before.game_over || before.hits_tail()));

    // Check if the snake is out of bounds
    if !is_in_room(snake_next_location.0, snake_next_location.1) {
        game.game_over = true;
    }

    if snake_next_location.0 == game.apple.x && snake_next_location.1 == game.apple.y {
        // Grow the snake and move the apple
        game.snake.tail.push_front(Tail::new(snake_location.0, snake_location.1));
        game.apple = fresh;
        assert(game.snake@.tail =~= before.snake.next_tail(true));
    } else {
        // Move the back-most segment to where the head was
        let end = game.snake.tail.pop_back();
        if let Some(mut tail_end) = end {
            tail_end.x = snake_location.0;
            tail_end.y = snake_location.1;
            game.snake.tail.push_front(tail_end);
        }
        assert(game.snake@.tail =~= before.snake.next_tail(false));
    }

    // Move the head
    game.snake.x = snake_next_location.0;
    game.snake.y = snake_next_location.1;
}

/// Advances the game by one tick. If the apple is eaten, its next cell is drawn
/// at random over the whole grid, each coordinate on its own, whether or not
/// the snake holds that cell.
pub fn update_game(game: &mut Game)
    requires
        old(game)@.step_fits(),
    ensures
        final(game)@ == old(game)@.step(final(game)@.apple),
        old(game)@.eats() ==> in_room(final(game)@.apple),
        // the head moves by the committed direction, one cell along one axis
        final(game)@.snake.head == offset(old(game)@.snake.head, final(game)@.snake.direction),
        old(game)@.snake.wf() ==> manhattan(final(game)@.snake.head, old(game)@.snake.head) == 1,
        // collisions end the game, and a game that is over stays so
        old(game)@.hits_tail() ==> final(game).game_over,
        old(game)@.hits_wall() ==> final(game).game_over,
        old(game).game_over ==> final(game).game_over,
        // the tail never shrinks
        final(game)@.snake.tail.len() >= old(game)@.snake.tail.len(),
        // eating grows the tail by one segment, the cell that the head left
        old(game)@.eats() ==> {
            &&& final(game)@.snake.tail.len() == old(game)@.snake.tail.len() + 1
            &&& final(game)@.snake.tail == seq![old(game)@.snake.head] + old(game)@.snake.tail
        },
        // otherwise the tail keeps its length and each segment follows the one before it
        !old(game)@.eats() ==> {
            &&& final(game)@.snake.tail.len() == old(game)@.snake.tail.len()
            &&& final(game)@.snake.tail.len() > 0 ==> final(game)@.snake.tail[0] == old(game)@.snake.head
            &&& forall|i: int|
                1 <= i < final(game)@.snake.tail.len() ==> #[trigger] final(game)@.snake.tail[i]
                    == old(game)@.snake.tail[i - 1]
            &&& final(game)@.apple == old(game)@.apple
        },
        old(game).wf() ==> final(game).wf(),
{
    let fresh = if game.will_eat() {
        let x = random_in_range(0, ROOM_SIZE_X);
        let y = random_in_range(0, ROOM_SIZE_Y);
        Apple::new(x, y)
    } else {
        game.apple
    };
    advance(game, fresh);
}

} // verus!
