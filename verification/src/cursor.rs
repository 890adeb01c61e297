//! What a player's browsing leaves behind: the highlighted cell and the
//! record of the cells already revealed.

use crate::board::{BOARD_COLUMNS, BOARD_ROWS};
use vstd::prelude::*;

verus! {

/// A step of the cursor.
#[derive(Clone, Copy, Debug, PartialEq, Eq, Structural)]
pub enum Direction {
    Up,
    Down,
    Left,
    Right,
}

/// A position on the board: column `x`, row `y`.
#[derive(Clone, Copy, Debug, PartialEq, Eq, Structural)]
pub struct Coords {
    pub x: usize,
    pub y: usize,
}

/// The position lies on the board.
pub open spec fn on_board(x: int, y: int) -> bool {
    0 <= x < BOARD_COLUMNS && 0 <= y < BOARD_ROWS
}

/// Where a cursor at `(x, y)` stands after one step: one cell further in
/// the direction, or where it was if that cell would be off the board.
pub open spec fn moved(at: (int, int), direction: Direction) -> (int, int) {
    let (x, y) = at;
    match direction {
        Direction::Up => if y > 0 {
            (x, y - 1)
        } else {
            (x, y)
        },
        Direction::Down => if y < BOARD_ROWS - 1 {
            (x, y + 1)
        } else {
            (x, y)
        },
        Direction::Left => if x > 0 {
            (x - 1, y)
        } else {
            (x, y)
        },
        Direction::Right => if x < BOARD_COLUMNS - 1 {
            (x + 1, y)
        } else {
            (x, y)
        },
    }
}

/// Where a cursor stands after the steps of `path`, taken in order.
pub open spec fn moved_along(at: (int, int), path: Seq<Direction>) -> (int, int)
    decreases path.len(),
{
    if path.len() == 0 {
        at
    } else {
        moved(moved_along(at, path.drop_last()), path.last())
    }
}

/// A cursor on the board stays on the board, whatever steps it takes.
pub proof fn lemma_cursor_stays_on_board(at: (int, int), path: Seq<Direction>)
    requires
        on_board(at.0, at.1),
    ensures
        on_board(moved_along(at, path).0, moved_along(at, path).1),
    decreases path.len(),
{
    if path.len() > 0 {
        lemma_cursor_stays_on_board(at, path.drop_last());
    }
}

/// A cursor in the top left corner stays there under steps up and to the
/// left.
pub proof fn lemma_cursor_held_at_corner(path: Seq<Direction>)
    requires
        forall|i: int|
            0 <= i < path.len() ==> path[i] == Direction::Up || path[i] == Direction::Left,
    ensures
        moved_along((0, 0), path) == (0int, 0int),
    decreases path.len(),
{
    if path.len() > 0 {
        lemma_cursor_held_at_corner(path.drop_last());
    }
}

/// A grid of marks has five rows of six marks.
pub open spec fn is_mark_grid(rows: Seq<Seq<bool>>) -> bool {
    &&& rows.len() == BOARD_ROWS
    &&& forall|y: int| 0 <= y < BOARD_ROWS ==> (#[trigger] rows[y]).len() == BOARD_COLUMNS
}

/// The grid of revealed cells in which no cell is revealed.
pub open spec fn nothing_answered() -> Seq<Seq<bool>> {
    Seq::new(BOARD_ROWS as nat, |y: int| Seq::new(BOARD_COLUMNS as nat, |x: int| false))
}

/// The cursor and the cells revealed so far in the round being played.
#[derive(Debug)]
pub struct GameState {
    answered: Vec<bool>,
    selected: Coords,
}

impl GameState {
    /// The cursor is on the board and there is a mark for every cell.
    pub closed spec fn wf(&self) -> bool {
        &&& self.answered.len() == BOARD_ROWS * BOARD_COLUMNS
        &&& self.selected.x < BOARD_COLUMNS
        &&& self.selected.y < BOARD_ROWS
    }

    /// The highlighted cell, as `(x, y)`.
    pub closed spec fn cursor(&self) -> (int, int) {
        (self.selected.x as int, self.selected.y as int)
    }

    /// The revealed cells, row by row.
    pub closed spec fn answered(&self) -> Seq<Seq<bool>> {
        Seq::new(
            BOARD_ROWS as nat,
            |y: int| Seq::new(BOARD_COLUMNS as nat, |x: int| self.answered@[y * BOARD_COLUMNS + x]),
        )
    }

    /// The marks of every state make a grid of five rows of six, whatever
    /// is marked.
    pub proof fn lemma_answered_is_grid(&self)
        ensures
            is_mark_grid(self.answered()),
    {
    }

    /// The cursor of a well-formed state is on the board.
    pub proof fn lemma_cursor_on_board(&self)
        requires
            self.wf(),
        ensures
            on_board(self.cursor().0, self.cursor().1),
    {
    }

    /// The cursor in the top left corner and no cell revealed.
    pub fn new() -> (state: GameState)
        ensures
            state.wf(),
            state.cursor() == (0int, 0int),
            state.answered() == nothing_answered(),
    {
        let mut answered: Vec<bool> = Vec::new();
        let mut i: usize = 0;
        while i < BOARD_ROWS * BOARD_COLUMNS
            invariant
                i <= BOARD_ROWS * BOARD_COLUMNS,
                answered.len() == i,
                forall|k: int| 0 <= k < i ==> !answered@[k],
            decreases BOARD_ROWS * BOARD_COLUMNS - i,
        {
            answered.push(false);
            i += 1;
        }
        let state = GameState { answered, selected: Coords { x: 0, y: 0 } };
        assert(state.answered() =~~= nothing_answered());
        state
    }

    /// The highlighted cell.
    pub fn selected(&self) -> (at: Coords)
        ensures
            (at.x as int, at.y as int) == self.cursor(),
    {
        self.selected
    }

    /// Tells whether the cell at column `x`, row `y` was revealed.
    pub fn is_answered(&self, x: usize, y: usize) -> (b: bool)
        requires
            self.wf(),
            x < BOARD_COLUMNS,
            y < BOARD_ROWS,
        ensures
            b == self.answered()[y as int][x as int],
    {
        self.answered[y * BOARD_COLUMNS + x]
    }

    /// Moves the cursor one row up, unless it is in the top row.
    pub fn up(&mut self)
        requires
            old(self).wf(),
        ensures
            final(self).wf(),
            final(self).cursor() == moved(old(self).cursor(), Direction::Up),
            final(self).answered() == old(self).answered(),
    {
        if self.selected.y > 0 {
            self.selected.y -= 1;
        }
    }

    /// Moves the cursor one row down, unless it is in the bottom row.
    pub fn down(&mut self)
        requires
            old(self).wf(),
        ensures
            final(self).wf(),
            final(self).cursor() == moved(old(self).cursor(), Direction::Down),
            final(self).answered() == old(self).answered(),
    {
        if self.selected.y < BOARD_ROWS - 1 {
            self.selected.y += 1;
        }
    }

    /// Moves the cursor one column to the left, unless it is in the first
    /// column.
    pub fn left(&mut self)
        requires
            old(self).wf(),
        ensures
            final(self).wf(),
            final(self).cursor() == moved(old(self).cursor(), Direction::Left),
            final(self).answered() == old(self).answered(),
    {
        if self.selected.x > 0 {
            self.selected.x -= 1;
        }
    }

    /// Moves the cursor one column to the right, unless it is in the last
    /// column.
    pub fn right(&mut self)
        requires
            old(self).wf(),
        ensures
            final(self).wf(),
            final(self).cursor() == moved(old(self).cursor(), Direction::Right),
            final(self).answered() == old(self).answered(),
    {
        if self.selected.x < BOARD_COLUMNS - 1 {
            self.selected.x += 1;
        }
    }

    /// Moves the cursor one step in a direction, held at the edges.
    pub fn step(&mut self, direction: Direction)
        requires
            old(self).wf(),
        ensures
            final(self).wf(),
            final(self).cursor() == moved(old(self).cursor(), direction),
            final(self).answered() == old(self).answered(),
    {
        match direction {
            Direction::Up => self.up(),
            Direction::Down => self.down(),
            Direction::Left => self.left(),
            Direction::Right => self.right(),
        }
    }

    /// Marks the highlighted cell as revealed.
    pub fn mark_selected(&mut self)
        requires
            old(self).wf(),
        ensures
            final(self).wf(),
            final(self).cursor() == old(self).cursor(),
            final(self).answered() == old(self).answered().update(
                old(self).cursor().1,
                old(self).answered()[old(self).cursor().1].update(old(self).cursor().0, true),
            ),
    {
        let index = self.selected.y * BOARD_COLUMNS + self.selected.x;
        self.answered.set(index, true);
        assert(self.answered() =~~= old(self).answered().update(
            old(self).cursor().1,
            old(self).answered()[old(self).cursor().1].update(old(self).cursor().0, true),
        ));
    }

    /// Forgets every revealed cell; the cursor stays where it is.
    pub fn clear_answered(&mut self)
        requires
            old(self).wf(),
        ensures
            final(self).wf(),
            final(self).cursor() == old(self).cursor(),
            final(self).answered() == nothing_answered(),
    {
        let mut i: usize = 0;
        while i < BOARD_ROWS * BOARD_COLUMNS
            invariant
                i <= BOARD_ROWS * BOARD_COLUMNS,
                self.wf(),
                self.selected == old(self).selected,
                forall|k: int| 0 <= k < i ==> !self.answered@[k],
            decreases BOARD_ROWS * BOARD_COLUMNS - i,
        {
            self.answered.set(i, false);
            i += 1;
        }
        assert(self.answered() =~~= nothing_answered());
    }
}

impl Default for GameState {
    fn default() -> (state: GameState)
        ensures
            state.wf(),
            state.cursor() == (0int, 0int),
            state.answered() == nothing_answered(),
    {
        GameState::new()
    }
}

} // verus!
