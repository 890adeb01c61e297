//! A whole game: thirteen category labels, the boards of the two rounds
//! and the final question.

use crate::board::{is_grid, Board, JeopardyQuestion, QuestionView, CATEGORY_COUNT};
use vstd::prelude::*;

verus! {

/// Number of categories shown beside one round's board.
pub const ROUND_CATEGORIES: usize = 6;

/// What was read from a page, as mathematical values.
pub struct GameView {
    pub categories: Seq<Seq<char>>,
    pub board_1: Seq<Seq<QuestionView>>,
    pub board_2: Seq<Seq<QuestionView>>,
    pub final_jeopardy: QuestionView,
}

/// A page did not yield the thirteen category labels of a complete game.
/// The error hands over everything that was read, so that a caller may
/// still use the partial boards.
#[derive(Debug)]
pub struct ParseIncompleteError {
    pub categories: Vec<String>,
    pub board_1: Board,
    pub board_2: Board,
    pub final_jeopardy: JeopardyQuestion,
}

impl View for ParseIncompleteError {
    type V = GameView;

    open spec fn view(&self) -> GameView {
        GameView {
            categories: self.categories.deep_view(),
            board_1: self.board_1@,
            board_2: self.board_2@,
            final_jeopardy: self.final_jeopardy@,
        }
    }
}

/// A complete game. It is built once from a page and never changed.
#[derive(Debug)]
pub struct Game {
    categories: Vec<String>,
    board_1: Board,
    board_2: Board,
    final_jeopardy: JeopardyQuestion,
}

impl View for Game {
    type V = GameView;

    closed spec fn view(&self) -> GameView {
        GameView {
            categories: self.categories.deep_view(),
            board_1: self.board_1@,
            board_2: self.board_2@,
            final_jeopardy: self.final_jeopardy@,
        }
    }
}

impl Game {
    /// The game has its thirteen categories and two well-formed boards.
    pub closed spec fn wf(&self) -> bool {
        &&& self.categories.len() == CATEGORY_COUNT
        &&& self.board_1.wf()
        &&& self.board_2.wf()
    }

    /// A well-formed game shows thirteen categories and two grids.
    pub proof fn lemma_shape(&self)
        requires
            self.wf(),
        ensures
            self@.categories.len() == CATEGORY_COUNT,
            is_grid(self@.board_1),
            is_grid(self@.board_2),
    {
        self.board_1.lemma_is_grid();
        self.board_2.lemma_is_grid();
    }

    /// Puts a game together. The parts make a game exactly when there are
    /// thirteen category labels; otherwise they come back in the error.
    pub fn new(
        categories: Vec<String>,
        board_1: Board,
        board_2: Board,
        final_jeopardy: JeopardyQuestion,
    ) -> (r: Result<Game, ParseIncompleteError>)
        requires
            board_1.wf(),
            board_2.wf(),
        ensures
            r.is_ok() <==> categories.len() == CATEGORY_COUNT,
            r matches Ok(game) ==> game.wf() && game@ == (GameView {
                categories: categories.deep_view(),
                board_1: board_1@,
                board_2: board_2@,
                final_jeopardy: final_jeopardy@,
            }),
            r matches Err(e) ==> e.categories == categories && e.board_1 == board_1 && e.board_2
                == board_2 && e.final_jeopardy == final_jeopardy,
    {
        if categories.len() == CATEGORY_COUNT {
            Ok(Game { categories, board_1, board_2, final_jeopardy })
        } else {
            Err(ParseIncompleteError { categories, board_1, board_2, final_jeopardy })
        }
    }

    /// All thirteen category labels, in page order.
    pub fn categories(&self) -> (labels: &Vec<String>)
        ensures
            labels.deep_view() == self@.categories,
    {
        &self.categories
    }

    /// The label of category `index`, counted over the whole game.
    pub fn category(&self, index: usize) -> (label: &str)
        requires
            self.wf(),
            index < CATEGORY_COUNT,
        ensures
            label@ == self@.categories[index as int],
    {
        self.categories[index].as_str()
    }

    /// The label shown above column `column` of a round's board: the first
    /// six labels belong to the first round, the next six to the second.
    pub fn round_category(&self, double: bool, column: usize) -> (label: &str)
        requires
            self.wf(),
            column < ROUND_CATEGORIES,
        ensures
            label@ == self@.categories[if double {
                ROUND_CATEGORIES + column
            } else {
                column as int
            }],
    {
        if double {
            self.category(ROUND_CATEGORIES + column)
        } else {
            self.category(column)
        }
    }

    /// The label of the final round's category: the last of the thirteen.
    pub fn final_category(&self) -> (label: &str)
        requires
            self.wf(),
        ensures
            label@ == self@.categories[CATEGORY_COUNT - 1],
    {
        self.category(CATEGORY_COUNT - 1)
    }

    /// The board of the first round.
    pub fn board_1(&self) -> (board: &Board)
        requires
            self.wf(),
        ensures
            board.wf(),
            board@ == self@.board_1,
    {
        &self.board_1
    }

    /// The board of the second round.
    pub fn board_2(&self) -> (board: &Board)
        requires
            self.wf(),
        ensures
            board.wf(),
            board@ == self@.board_2,
    {
        &self.board_2
    }

    /// The board of a round.
    pub fn board(&self, double: bool) -> (board: &Board)
        requires
            self.wf(),
        ensures
            board.wf(),
            board@ == if double {
                self@.board_2
            } else {
                self@.board_1
            },
    {
        if double {
            &self.board_2
        } else {
            &self.board_1
        }
    }

    /// The final question.
    pub fn final_jeopardy(&self) -> (q: &JeopardyQuestion)
        ensures
            q@ == self@.final_jeopardy,
    {
        &self.final_jeopardy
    }
}

} // verus!
