//! The game: one grid, one snake, and the rule that advances them by a
//! tick.

use crate::cell::Cell;
use crate::coord::{in_bounds, Vec3};
use crate::direction::{moved, Direction};
use crate::draw::Draw;
use crate::grid::{lemma_write_then_read, Grid, GridView};
use crate::snake::{body_after_move, has_repeat, lemma_tail_leaves_its_voxel, Snake, SnakeView};
use ruscii::spatial::Vec2;
use vstd::prelude::*;

verus! {

/// Why a tick ended the game. Each variant holds the head before the move
/// and the voxel that the head was to move to.
#[derive(Debug, Clone, Copy, PartialEq, Eq)]
pub enum GameError {
    /// The target lies outside the level or is solid.
    SnakeCollision { head: Vec3, attempted_move: Vec3 },
    /// After the move the body occupies some voxel twice.
    SnakeCannibalism { head: Vec3, attempted_move: Vec3 },
    /// Nothing lies beneath the target.
    SnakeFell { head: Vec3, attempted_move: Vec3 },
}

/// Whether a step from `coord` stays within `isize` whatever the direction.
pub open spec fn can_step_anywhere(coord: Vec3) -> bool {
    &&& isize::MIN < coord.0 < isize::MAX
    &&& isize::MIN < coord.1 < isize::MAX
    &&& isize::MIN < coord.2 < isize::MAX
}

/// What a game is, mathematically: the views of its grid and of its snake.
pub struct GameView {
    pub grid: GridView,
    pub snake: SnakeView,
}

impl GameView {
    /// Grid and snake are well formed, and the head can take a step in any
    /// direction.
    pub open spec fn wf(self) -> bool {
        &&& self.grid.wf()
        &&& self.snake.wf()
        &&& can_step_anywhere(self.snake.head())
    }

    /// Whether grid and snake can both be drawn.
    pub open spec fn drawable(self) -> bool {
        self.grid.drawable() && self.snake.drawable()
    }

    /// The grid's characters, then the snake's, which so lie on top.
    pub open spec fn glyphs(self) -> Seq<(char, Vec2)> {
        self.grid.glyphs() + self.snake.glyphs()
    }

    /// The heading of a tick: the input, or the snake's own heading where
    /// the input is `Unset`.
    pub open spec fn heading(self, input: Direction) -> Direction {
        if input == Direction::Unset {
            self.snake.direction
        } else {
            input
        }
    }

    /// The voxel that the head is to move to.
    pub open spec fn target(self, input: Direction) -> Vec3 {
        moved(self.snake.head(), self.heading(input))
    }

    /// This game with the heading of the tick taken, and nothing else
    /// changed.
    pub open spec fn turned(self, input: Direction) -> GameView {
        GameView {
            grid: self.grid,
            snake: SnakeView { direction: self.heading(input), body: self.snake.body },
        }
    }

    /// The cell that decides the move, for a target that holds `cell` and has
    /// `under` beneath it: the target's own cell where the snake stands on
    /// a `Block`, else the cell beneath.
    pub open spec fn resolved(cell: Cell, under: Cell) -> Cell {
        if under == Cell::Block {
            cell
        } else {
            under
        }
    }

    /// This game after the head went to the target, growing or not. A
    /// growing move leaves the target `Empty`.
    pub open spec fn advanced(self, input: Direction, growing: bool) -> GameView {
        GameView {
            grid: if growing {
                self.grid.set(self.target(input), Cell::Empty)
            } else {
                self.grid
            },
            snake: SnakeView {
                direction: self.heading(input),
                body: body_after_move(self.snake.body, self.target(input), growing),
            },
        }
    }

    /// One tick: the game after it, and how it ended.
    ///
    /// A target that reads as nothing or as `Block` is a collision. Else the
    /// voxel beneath the target decides: nothing there is a fall; a `Block`
    /// lets the target's own cell decide the move; any other cell decides
    /// the move itself. `Food` makes the move a growing one. A collision and
    /// a fall leave all but the heading as it was; a move is made even where
    /// it ends in the snake overlapping itself.
    pub open spec fn step(self, input: Direction) -> (GameView, Result<(), GameError>) {
        let head = self.snake.head();
        let attempted_move = self.target(input);
        match self.grid.get(attempted_move) {
            Some(cell) if cell != Cell::Block => match self.grid.get(
                moved(attempted_move, Direction::Down),
            ) {
                Some(under) => {
                    let after = self.advanced(input, Self::resolved(cell, under) == Cell::Food);
                    if has_repeat(after.snake.body) {
                        (after, Err(GameError::SnakeCannibalism { head, attempted_move }))
                    } else {
                        (after, Ok(()))
                    }
                },
                None => (self.turned(input), Err(GameError::SnakeFell { head, attempted_move })),
            },
            _ => (self.turned(input), Err(GameError::SnakeCollision { head, attempted_move })),
        }
    }
}

/// A tick keeps a well-formed game well formed, however it ends.
pub proof fn lemma_step_keeps_wf(game: GameView, input: Direction)
    requires
        game.wf(),
    ensures
        game.step(input).0.wf(),
{
    let target = game.target(input);
    if in_bounds(target, game.grid.dimensions) {
        lemma_write_then_read(game.grid, target, Cell::Empty, target);
    }
}

/// How a tick ended tells what it did: after a collision or a fall all but
/// the heading is as it was; otherwise the head went to the target, and the
/// body occupies some voxel twice exactly if the tick ended in cannibalism.
/// Every error holds the head before the tick and the target.
pub proof fn lemma_outcome_tells_what_was_done(game: GameView, input: Direction)
    requires
        game.wf(),
    ensures
        match game.step(input).1 {
            Ok(()) => {
                &&& game.step(input).0.snake.head() == game.target(input)
                &&& !has_repeat(game.step(input).0.snake.body)
            },
            Err(GameError::SnakeCannibalism { head, attempted_move }) => {
                &&& head == game.snake.head()
                &&& attempted_move == game.target(input)
                &&& game.step(input).0.snake.head() == game.target(input)
                &&& has_repeat(game.step(input).0.snake.body)
            },
            Err(GameError::SnakeCollision { head, attempted_move }) => {
                &&& head == game.snake.head()
                &&& attempted_move == game.target(input)
                &&& game.step(input).0 == game.turned(input)
            },
            Err(GameError::SnakeFell { head, attempted_move }) => {
                &&& head == game.snake.head()
                &&& attempted_move == game.target(input)
                &&& game.step(input).0 == game.turned(input)
            },
        },
{
}

/// A target that reads as nothing or as `Block` is a collision: the grid
/// and the body stay as they were and the heading of the tick is taken.
/// Where the input is `Unset` or the heading that the snake has, nothing at
/// all changes.
pub proof fn lemma_collision_moves_nothing(game: GameView, input: Direction)
    requires
        game.wf(),
        game.grid.get(game.target(input)) == None::<Cell> || game.grid.get(game.target(input))
            == Some(Cell::Block),
    ensures
        game.step(input).1 == Err::<(), GameError>(
            GameError::SnakeCollision {
                head: game.snake.head(),
                attempted_move: game.target(input),
            },
        ),
        game.step(input).0.grid == game.grid,
        game.step(input).0.snake.body == game.snake.body,
        game.step(input).0.snake.direction == game.heading(input),
        input == Direction::Unset || input == game.snake.direction ==> game.step(input).0 == game,
{
}

/// A passable target with nothing beneath it is a fall: the grid and the
/// body stay as they were.
pub proof fn lemma_nothing_beneath_is_a_fall(game: GameView, input: Direction, cell: Cell)
    requires
        game.wf(),
        game.grid.get(game.target(input)) == Some(cell),
        cell != Cell::Block,
        game.grid.get(moved(game.target(input), Direction::Down)) == None::<Cell>,
    ensures
        game.step(input) == (
            game.turned(input),
            Err::<(), GameError>(
                GameError::SnakeFell {
                    head: game.snake.head(),
                    attempted_move: game.target(input),
                },
            ),
        ),
{
}

/// A snake that a `Block` carries moves by the target's own cell: it grows
/// exactly if the target holds `Food`.
pub proof fn lemma_carried_move_goes_by_target(
    game: GameView,
    input: Direction,
    cell: Cell,
)
    requires
        game.wf(),
        game.grid.get(game.target(input)) == Some(cell),
        cell != Cell::Block,
        game.grid.get(moved(game.target(input), Direction::Down)) == Some(Cell::Block),
    ensures
        game.step(input).0 == game.advanced(input, cell == Cell::Food),
{
}

/// A snake that no `Block` carries moves by the cell beneath the target: it
/// grows exactly if that cell is `Food`, whatever the target holds, and its
/// head still goes to the target.
pub proof fn lemma_unsupported_move_goes_by_cell_beneath(
    game: GameView,
    input: Direction,
    cell: Cell,
    under: Cell,
)
    requires
        game.wf(),
        game.grid.get(game.target(input)) == Some(cell),
        cell != Cell::Block,
        game.grid.get(moved(game.target(input), Direction::Down)) == Some(under),
        under != Cell::Block,
    ensures
        game.step(input).0 == game.advanced(input, under == Cell::Food),
        game.step(input).0.snake.head() == game.target(input),
{
}

/// A tick that eats, that is, one whose deciding cell is `Food`, makes the
/// body longer by exactly one voxel and leaves the target reading as
/// `Empty`, with the rest of the grid as it was. For a snake that a `Block`
/// carries the food was at the target and is gone; for one that nothing
/// carries the food lay beneath the target and stays there. All this holds
/// also where the tick ends in the snake overlapping itself.
pub proof fn lemma_eating_grows(
    game: GameView,
    input: Direction,
    cell: Cell,
    under: Cell,
    other: Vec3,
)
    requires
        game.wf(),
        game.grid.get(game.target(input)) == Some(cell),
        cell != Cell::Block,
        game.grid.get(moved(game.target(input), Direction::Down)) == Some(under),
        GameView::resolved(cell, under) == Cell::Food,
    ensures
        game.step(input).0.snake.body.len() == game.snake.body.len() + 1,
        game.step(input).0.snake.body == seq![game.target(input)] + game.snake.body,
        game.step(input).0.grid.get(game.target(input)) == Some(Cell::Empty),
        other != game.target(input) ==> game.step(input).0.grid.get(other) == game.grid.get(
            other,
        ),
        under == Cell::Block ==> cell == Cell::Food,
        under != Cell::Block ==> game.step(input).0.grid.get(
            moved(game.target(input), Direction::Down),
        ) == Some(Cell::Food),
{
    lemma_write_then_read(game.grid, game.target(input), Cell::Empty, other);
    lemma_write_then_read(
        game.grid,
        game.target(input),
        Cell::Empty,
        moved(game.target(input), Direction::Down),
    );
}

/// A tick that moves without eating keeps the length of the body: the head
/// goes to the target, the last voxel of the body leaves, and the grid is as
/// it was. The voxel that the tail left is no longer part of the body,
/// unless the head moved there or another part of the body lay there.
pub proof fn lemma_plain_move_keeps_length(
    game: GameView,
    input: Direction,
    cell: Cell,
    under: Cell,
)
    requires
        game.wf(),
        game.grid.get(game.target(input)) == Some(cell),
        cell != Cell::Block,
        game.grid.get(moved(game.target(input), Direction::Down)) == Some(under),
        GameView::resolved(cell, under) != Cell::Food,
    ensures
        game.step(input).0.snake.body.len() == game.snake.body.len(),
        game.step(input).0.snake.body == seq![game.target(input)]
            + game.snake.body.drop_last(),
        game.step(input).0.grid == game.grid,
        game.target(input) != game.snake.body.last() && !game.snake.body.drop_last().contains(
            game.snake.body.last(),
        ) ==> !game.step(input).0.snake.body.contains(game.snake.body.last()),
{
    if game.target(input) != game.snake.body.last() && !game.snake.body.drop_last().contains(
        game.snake.body.last(),
    ) {
        lemma_tail_leaves_its_voxel(game.snake.body, game.target(input));
    }
}

/// The state of one game session.
#[derive(Debug)]
pub struct GameState {
    grid: Grid,
    snake: Snake,
}

impl View for GameState {
    type V = GameView;

    closed spec fn view(&self) -> GameView {
        GameView { grid: self.grid@, snake: self.snake@ }
    }
}

impl GameState {
    /// Whether the game is well formed: see [`GameView::wf`]. Every game
    /// that this module hands out is.
    pub open spec fn wf(&self) -> bool {
        self@.wf()
    }

    /// A game on `level` with a snake of one voxel at `starting_pos`.
    pub fn new(starting_pos: Vec3, level: Grid) -> (game: GameState)
        requires
            can_step_anywhere(starting_pos),
        ensures
            game.wf(),
            game@.grid == level@,
            game@.snake == (SnakeView { direction: Direction::Unset, body: seq![starting_pos] }),
    {
        proof {
            use_type_invariant(&level);
        }
        GameState { grid: level, snake: Snake::new(starting_pos) }
    }

    /// The grid as it stands.
    pub fn grid(&self) -> (grid: &Grid)
        ensures
            grid@ == self@.grid,
    {
        &self.grid
    }

    /// The snake as it stands.
    pub fn snake(&self) -> (snake: &Snake)
        ensures
            snake@ == self@.snake,
    {
        &self.snake
    }

    /// Advances the game by one tick under the input `dir_held_player`.
    pub fn update(&mut self, dir_held_player: Direction) -> (outcome: Result<(), GameError>)
        requires
            old(self).wf(),
        ensures
            final(self).wf(),
            (final(self)@, outcome) == old(self)@.step(dir_held_player),
    {
        proof {
            use_type_invariant(&self.grid);
        }
        let dir = if dir_held_player == Direction::Unset {
            self.snake.direction()
        } else {
            dir_held_player
        };
        self.snake.turn(dir);

        let head = *self.snake.head();
        let next_head = head + dir;
        let at_target = self.grid.get(next_head);
        let cell = match at_target {
            Some(cell) => cell,
            None => {
                return Err(GameError::SnakeCollision { head, attempted_move: next_head });
            },
        };
        if cell == Cell::Block {
            return Err(GameError::SnakeCollision { head, attempted_move: next_head });
        }
        // A snake that is not carried by a block falls, if there is
        // anything to fall to.
        let cell = match self.grid.get(next_head + Direction::Down) {
            Some(Cell::Block) => cell,
            Some(under) => under,
            None => {
                return Err(GameError::SnakeFell { head, attempted_move: next_head });
            },
        };
        match cell {
            Cell::Empty => {
                self.snake.move_to(next_head, false);
            },
            Cell::Food => {
                self.snake.move_to(next_head, true);
                // The target lies in the grid, so the write cannot fail.
                match self.grid.set(next_head, Cell::Empty) {
                    Ok(()) => {},
                    Err(_) => unreached(),
                }
            },
            // A target that is void or solid was turned down above.
            _ => unreached(),
        }
        proof {
            use_type_invariant(&self.grid);
            assert(self.snake@.body[0] == next_head);
            assert(in_bounds(next_head, self.grid@.dimensions));
        }
        if self.snake.is_superlapping() {
            return Err(GameError::SnakeCannibalism { head, attempted_move: next_head });
        }
        Ok(())
    }
}

impl Draw for GameState {
    open spec fn drawable(&self) -> bool {
        self@.drawable()
    }

    open spec fn glyphs(&self) -> Seq<(char, Vec2)> {
        self@.glyphs()
    }

    fn can_draw(&self) -> (ok: bool) {
        self.grid.can_draw() && self.snake.can_draw()
    }

    fn draw(&self) -> (out: Vec<(char, Vec2)>) {
        let mut out = self.grid.draw();
        let mut on_top = self.snake.draw();
        out.append(&mut on_top);
        out
    }
}

} // verus!
