//! The game board: cells, the two round grids and the final question.

use vstd::prelude::*;
use vstd::string::StringExecFns;

verus! {

/// Number of category columns on a round's board.
pub const BOARD_COLUMNS: usize = 6;

/// Number of clue rows on a round's board.
pub const BOARD_ROWS: usize = 5;

/// Number of category labels a complete game carries: six for each of the
/// two rounds and one for the final question.
pub const CATEGORY_COUNT: usize = 13;

/// The dollar value of a clue in row `y`: rows pay 200, 400, ... from the
/// top in the first round and twice that in the second.
pub open spec fn spec_cell_value(y: nat, double: bool) -> nat {
    if double {
        (y + 1) * 400
    } else {
        (y + 1) * 200
    }
}

/// Computes the value of a clue in row `y` of a round.
pub fn cell_value(y: usize, double: bool) -> (value: usize)
    requires
        y < BOARD_ROWS,
    ensures
        value == spec_cell_value(y as nat, double),
{
    let single: usize = (y + 1) * 200;
    if double {
        single * 2
    } else {
        single
    }
}

/// What a cell holds, as mathematical values.
pub struct QuestionView {
    pub clue: Seq<char>,
    pub answer: Seq<char>,
    pub x: nat,
    pub y: nat,
    pub value: nat,
}

/// The cell that stands for "no clue here": empty texts, origin
/// coordinates and no value.
pub open spec fn empty_question() -> QuestionView {
    QuestionView { clue: Seq::empty(), answer: Seq::empty(), x: 0, y: 0, value: 0 }
}

/// One clue of a board, or the final question.
#[derive(Debug)]
pub struct JeopardyQuestion {
    clue: String,
    answer: String,
    x: usize,  // category, counted from the left
    y: usize,  // row, counted from the top
    value: usize,
}

impl View for JeopardyQuestion {
    type V = QuestionView;

    closed spec fn view(&self) -> QuestionView {
        QuestionView {
            clue: self.clue@,
            answer: self.answer@,
            x: self.x as nat,
            y: self.y as nat,
            value: self.value as nat,
        }
    }
}

impl Default for JeopardyQuestion {
    fn default() -> (q: JeopardyQuestion)
        ensures
            q@ == empty_question(),
    {
        JeopardyQuestion { clue: String::new(), answer: String::new(), x: 0, y: 0, value: 0 }
    }
}

impl Clone for JeopardyQuestion {
    fn clone(&self) -> (q: JeopardyQuestion)
        ensures
            q@ == self@,
    {
        JeopardyQuestion {
            clue: self.clue.clone(),
            answer: self.answer.clone(),
            x: self.x,
            y: self.y,
            value: self.value,
        }
    }
}

impl JeopardyQuestion {
    /// The dollar value of the clue; 0 where the board has no clue.
    pub fn value(&self) -> (v: usize)
        ensures
            v == self@.value,
    {
        self.value
    }

    /// The clue text.
    pub fn clue(&self) -> (s: &str)
        ensures
            s@ == self@.clue,
    {
        self.clue.as_str()
    }

    /// The text of the correct response.
    pub fn answer(&self) -> (s: &str)
        ensures
            s@ == self@.answer,
    {
        self.answer.as_str()
    }

    /// The column of the cell, counted from the left.
    pub fn x(&self) -> (x: usize)
        ensures
            x == self@.x,
    {
        self.x
    }

    /// The row of the cell, counted from the top.
    pub fn y(&self) -> (y: usize)
        ensures
            y == self@.y,
    {
        self.y
    }

    /// Replaces the clue text.
    pub fn set_clue(&mut self, clue: String)
        ensures
            final(self)@ == (QuestionView { clue: clue@, ..old(self)@ }),
    {
        self.clue = clue;
    }

    /// Replaces the text of the correct response.
    pub fn set_answer(&mut self, answer: String)
        ensures
            final(self)@ == (QuestionView { answer: answer@, ..old(self)@ }),
    {
        self.answer = answer;
    }
}

/// The cell `q` after a clue found at column `x`, row `y` was recorded in
/// it: the coordinates and the round's value are set and the text is
/// appended to what the cell already held.
pub open spec fn with_clue(q: QuestionView, x: nat, y: nat, clue: Seq<char>, double: bool) -> QuestionView {
    QuestionView { clue: q.clue + clue, answer: q.answer, x, y, value: spec_cell_value(y, double) }
}

/// The cell `q` after a correct response was recorded in it.
pub open spec fn with_answer(q: QuestionView, answer: Seq<char>) -> QuestionView {
    QuestionView { answer: q.answer + answer, ..q }
}

/// A grid has five rows of six cells.
pub open spec fn is_grid(rows: Seq<Seq<QuestionView>>) -> bool {
    &&& rows.len() == BOARD_ROWS
    &&& forall|y: int| 0 <= y < BOARD_ROWS ==> (#[trigger] rows[y]).len() == BOARD_COLUMNS
}

/// The grid in which no cell holds a clue.
pub open spec fn empty_grid() -> Seq<Seq<QuestionView>> {
    Seq::new(BOARD_ROWS as nat, |y: int| Seq::new(BOARD_COLUMNS as nat, |x: int| empty_question()))
}

/// The grid `rows` with the cell at column `x`, row `y` replaced by `q`.
pub open spec fn grid_update(rows: Seq<Seq<QuestionView>>, x: int, y: int, q: QuestionView) -> Seq<Seq<QuestionView>> {
    rows.update(y, rows[y].update(x, q))
}

/// One round's board: always five rows of six cells, stored row by row.
#[derive(Debug)]
pub struct Board {
    cells: Vec<JeopardyQuestion>,
}

impl View for Board {
    type V = Seq<Seq<QuestionView>>;

    closed spec fn view(&self) -> Seq<Seq<QuestionView>> {
        Seq::new(
            BOARD_ROWS as nat,
            |y: int| Seq::new(BOARD_COLUMNS as nat, |x: int| self.cells@[y * BOARD_COLUMNS + x]@),
        )
    }
}

impl Board {
    /// The board stores one cell for every position of the grid.
    pub closed spec fn wf(&self) -> bool {
        self.cells.len() == BOARD_ROWS * BOARD_COLUMNS
    }

    /// Every board is a grid, whatever it holds.
    pub proof fn lemma_is_grid(&self)
        ensures
            is_grid(self@),
    {
    }

    /// A board on which no cell holds a clue.
    pub fn new() -> (board: Board)
        ensures
            board.wf(),
            board@ == empty_grid(),
    {
        let mut cells: Vec<JeopardyQuestion> = Vec::new();
        let mut i: usize = 0;
        while i < BOARD_ROWS * BOARD_COLUMNS
            invariant
                i <= BOARD_ROWS * BOARD_COLUMNS,
                cells.len() == i,
                forall|k: int| 0 <= k < i ==> (#[trigger] cells@[k])@ == empty_question(),
            decreases BOARD_ROWS * BOARD_COLUMNS - i,
        {
            cells.push(JeopardyQuestion::default());
            i += 1;
        }
        let board = Board { cells };
        assert(board@ =~~= empty_grid());
        board
    }

    /// The cell at column `x`, row `y`.
    pub fn cell(&self, x: usize, y: usize) -> (q: &JeopardyQuestion)
        requires
            self.wf(),
            x < BOARD_COLUMNS,
            y < BOARD_ROWS,
        ensures
            q@ == self@[y as int][x as int],
    {
        &self.cells[y * BOARD_COLUMNS + x]
    }

    /// The cell at column `x`, row `y`, if the board has such a cell.
    pub fn get(&self, x: usize, y: usize) -> (found: Option<&JeopardyQuestion>)
        requires
            self.wf(),
        ensures
            x < BOARD_COLUMNS && y < BOARD_ROWS ==> found.is_some() && found.unwrap()@
                == self@[y as int][x as int],
            !(x < BOARD_COLUMNS && y < BOARD_ROWS) ==> found.is_none(),
    {
        if x < BOARD_COLUMNS && y < BOARD_ROWS {
            Some(self.cell(x, y))
        } else {
            None
        }
    }

    fn replace_cell(&mut self, x: usize, y: usize, q: JeopardyQuestion)
        requires
            old(self).wf(),
            x < BOARD_COLUMNS,
            y < BOARD_ROWS,
        ensures
            final(self).wf(),
            final(self)@ == grid_update(old(self)@, x as int, y as int, q@),
    {
        self.cells.set(y * BOARD_COLUMNS + x, q);
        assert(self@ =~~= grid_update(old(self)@, x as int, y as int, q@));
    }

    /// Records a clue found for column `x`, row `y`: the cell takes these
    /// coordinates and the round's value for its row, and `clue` is appended
    /// to the clue text it already holds. No other cell changes.
    pub fn record_clue(&mut self, x: usize, y: usize, clue: &str, double: bool)
        requires
            old(self).wf(),
            x < BOARD_COLUMNS,
            y < BOARD_ROWS,
        ensures
            final(self).wf(),
            final(self)@ == grid_update(
                old(self)@,
                x as int,
                y as int,
                with_clue(old(self)@[y as int][x as int], x as nat, y as nat, clue@, double),
            ),
    {
        let cell = self.cell(x, y);
        let mut text = cell.clue.clone();
        text.append(clue);
        let q = JeopardyQuestion {
            clue: text,
            answer: cell.answer.clone(),
            x,
            y,
            value: cell_value(y, double),
        };
        self.replace_cell(x, y, q);
    }

    /// Records a correct response found for column `x`, row `y`: `answer`
    /// is appended to the response text of that cell. No other cell changes.
    pub fn record_answer(&mut self, x: usize, y: usize, answer: &str)
        requires
            old(self).wf(),
            x < BOARD_COLUMNS,
            y < BOARD_ROWS,
        ensures
            final(self).wf(),
            final(self)@ == grid_update(
                old(self)@,
                x as int,
                y as int,
                with_answer(old(self)@[y as int][x as int], answer@),
            ),
    {
        let cell = self.cell(x, y);
        let mut text = cell.answer.clone();
        text.append(answer);
        let q = JeopardyQuestion {
            clue: cell.clue.clone(),
            answer: text,
            x: cell.x,
            y: cell.y,
            value: cell.value,
        };
        self.replace_cell(x, y, q);
    }
}

} // verus!
