//! The board parser: from the text of a page to categories, the boards of
//! the two rounds and the final question.
//!
//! A page is scanned with the extraction patterns. Every match is a list
//! of capture groups; what a match means is decided here. A clue or
//! response match addresses a cell by two numerals counted from 1; a match
//! whose numerals do not name a cell of the grid, or that lacks a group, is
//! passed over. Every fragment taken from the page is normalized.

use crate::board::{
    grid_update, with_answer, with_clue, Board, JeopardyQuestion, QuestionView, BOARD_COLUMNS,
    BOARD_ROWS, CATEGORY_COUNT,
};
use crate::decimal::{parse_number, parsed_number};
use crate::game::{Game, GameView, ParseIncompleteError};
use crate::markup::{clean_html, normalized};
use crate::pattern::{
    answer_pattern, clue_pattern, regex_captures, Patterns, CATEGORY_PATTERN,
    FINAL_ANSWER_PATTERN, FINAL_CLUE_PATTERN,
};
use vstd::prelude::*;

verus! {

/// The text of capture group `i` of a match, if the match has that group
/// and the group took part in it.
pub open spec fn group(m: Seq<Option<Seq<char>>>, i: int) -> Option<Seq<char>> {
    if 0 <= i < m.len() {
        m[i]
    } else {
        None
    }
}

/// The position that a group names: its numeral, counted from 1 and no
/// greater than `limit`, turned into a position counted from 0.
pub open spec fn coordinate(g: Option<Seq<char>>, limit: nat) -> Option<nat> {
    match g {
        Some(t) => match parsed_number(t) {
            Some(n) => if 1 <= n <= limit {
                Some((n - 1) as nat)
            } else {
                None
            },
            None => None,
        },
        None => None,
    }
}

/// The cell that a clue or response match addresses and the fragment it
/// carries: column from group 1, row from group 2, text from group 3.
pub open spec fn cell_match(m: Seq<Option<Seq<char>>>) -> Option<(nat, nat, Seq<char>)> {
    match (
        coordinate(group(m, 1), BOARD_COLUMNS as nat),
        coordinate(group(m, 2), BOARD_ROWS as nat),
        group(m, 3),
    ) {
        (Some(x), Some(y), Some(t)) => Some((x, y, t)),
        _ => None,
    }
}

/// The grid after one clue match was recorded.
pub open spec fn grid_with_clue(
    grid: Seq<Seq<QuestionView>>,
    m: Seq<Option<Seq<char>>>,
    double: bool,
) -> Seq<Seq<QuestionView>> {
    match cell_match(m) {
        Some((x, y, t)) => grid_update(
            grid,
            x as int,
            y as int,
            with_clue(grid[y as int][x as int], x, y, normalized(t), double),
        ),
        None => grid,
    }
}

/// The grid after the clue matches were recorded, first match first.
pub open spec fn grid_with_clues(
    grid: Seq<Seq<QuestionView>>,
    ms: Seq<Seq<Option<Seq<char>>>>,
    double: bool,
) -> Seq<Seq<QuestionView>>
    decreases ms.len(),
{
    if ms.len() == 0 {
        grid
    } else {
        grid_with_clue(grid_with_clues(grid, ms.drop_last(), double), ms.last(), double)
    }
}

/// The grid after one response match was recorded.
pub open spec fn grid_with_answer(
    grid: Seq<Seq<QuestionView>>,
    m: Seq<Option<Seq<char>>>,
) -> Seq<Seq<QuestionView>> {
    match cell_match(m) {
        Some((x, y, t)) => grid_update(
            grid,
            x as int,
            y as int,
            with_answer(grid[y as int][x as int], normalized(t)),
        ),
        None => grid,
    }
}

/// The grid after the response matches were recorded, first match first.
pub open spec fn grid_with_answers(
    grid: Seq<Seq<QuestionView>>,
    ms: Seq<Seq<Option<Seq<char>>>>,
) -> Seq<Seq<QuestionView>>
    decreases ms.len(),
{
    if ms.len() == 0 {
        grid
    } else {
        grid_with_answer(grid_with_answers(grid, ms.drop_last()), ms.last())
    }
}

/// A round's grid after the clues and then the responses of `page` were
/// recorded in `grid`.
pub open spec fn populated_grid(
    grid: Seq<Seq<QuestionView>>,
    page: Seq<char>,
    double: bool,
) -> Seq<Seq<QuestionView>> {
    grid_with_answers(
        grid_with_clues(grid, regex_captures(clue_pattern(double), page), double),
        regex_captures(answer_pattern(double), page),
    )
}

/// The normalized text of group 1 of each match that has it, in order.
pub open spec fn labels(ms: Seq<Seq<Option<Seq<char>>>>) -> Seq<Seq<char>>
    decreases ms.len(),
{
    if ms.len() == 0 {
        Seq::empty()
    } else {
        match group(ms.last(), 1) {
            Some(t) => labels(ms.drop_last()).push(normalized(t)),
            None => labels(ms.drop_last()),
        }
    }
}

/// The normalized text of group 1 of the last match that has it, or
/// `otherwise` when no match has it.
pub open spec fn last_text(ms: Seq<Seq<Option<Seq<char>>>>, otherwise: Seq<char>) -> Seq<char>
    decreases ms.len(),
{
    if ms.len() == 0 {
        otherwise
    } else {
        match group(ms.last(), 1) {
            Some(t) => normalized(t),
            None => last_text(ms.drop_last(), otherwise),
        }
    }
}

/// The final question after the final clue and response of `page` were
/// recorded in `q`.
pub open spec fn final_question(q: QuestionView, page: Seq<char>) -> QuestionView {
    QuestionView {
        clue: last_text(regex_captures(FINAL_CLUE_PATTERN@, page), q.clue),
        answer: last_text(regex_captures(FINAL_ANSWER_PATTERN@, page), q.answer),
        ..q
    }
}

/// Everything that a page yields, read into fresh boards.
pub open spec fn parsed_page(page: Seq<char>) -> GameView {
    GameView {
        categories: labels(regex_captures(CATEGORY_PATTERN@, page)),
        board_1: populated_grid(crate::board::empty_grid(), page, false),
        board_2: populated_grid(crate::board::empty_grid(), page, true),
        final_jeopardy: final_question(crate::board::empty_question(), page),
    }
}

/// The text of capture group `i` of a match.
pub fn group_text(m: &Vec<Option<String>>, i: usize) -> (found: Option<&str>)
    ensures
        found.is_some() == group(m.deep_view(), i as int).is_some(),
        found matches Some(t) ==> group(m.deep_view(), i as int) == Some(t@),
{
    if i < m.len() {
        match &m[i] {
            Some(t) => Some(t.as_str()),
            None => None,
        }
    } else {
        None
    }
}

/// The position that a group names on an axis of `limit` positions.
pub fn decode_coordinate(g: Option<&str>, limit: usize) -> (c: Option<usize>)
    ensures
        c.is_some() == coordinate(g.deep_view(), limit as nat).is_some(),
        c matches Some(v) ==> coordinate(g.deep_view(), limit as nat) == Some(v as nat),
{
    match g {
        Some(t) => match parse_number(t) {
            Some(n) => if 1 <= n && n <= limit {
                Some(n - 1)
            } else {
                None
            },
            None => None,
        },
        None => None,
    }
}

/// The cell that a clue or response match addresses and the fragment it
/// carries, as the page spells it.
pub fn decode_cell_match(m: &Vec<Option<String>>) -> (r: Option<(usize, usize, &str)>)
    ensures
        r.is_some() == cell_match(m.deep_view()).is_some(),
        r matches Some((x, y, t)) ==> x < BOARD_COLUMNS && y < BOARD_ROWS && cell_match(
            m.deep_view(),
        ) == Some((x as nat, y as nat, t@)),
{
    let x = decode_coordinate(group_text(m, 1), BOARD_COLUMNS);
    let y = decode_coordinate(group_text(m, 2), BOARD_ROWS);
    let t = group_text(m, 3);
    match (x, y, t) {
        (Some(x), Some(y), Some(t)) => Some((x, y, t)),
        _ => None,
    }
}

/// Records the clue matches `found` on `board`, first match first.
pub fn place_clues(
    patterns: &Patterns,
    board: &mut Board,
    found: &Vec<Vec<Option<String>>>,
    double: bool,
)
    requires
        patterns.wf(),
        old(board).wf(),
    ensures
        final(board).wf(),
        final(board)@ == grid_with_clues(old(board)@, found.deep_view(), double),
{
    let mut i: usize = 0;
    while i < found.len()
        invariant
            i <= found.len(),
            patterns.wf(),
            board.wf(),
            board@ == grid_with_clues(old(board)@, found.deep_view().take(i as int), double),
        decreases found.len() - i,
    {
        let ghost seen = found.deep_view().take(i + 1);
        assert(seen.drop_last() == found.deep_view().take(i as int));
        assert(seen.last() == found[i as int].deep_view());
        match decode_cell_match(&found[i]) {
            Some((x, y, t)) => {
                let clue = clean_html(patterns, t);
                board.record_clue(x, y, clue.as_str(), double);
            },
            None => {},
        }
        i += 1;
    }
    assert(found.deep_view().take(found.len() as int) == found.deep_view());
}

/// Records the response matches `found` on `board`, first match first.
pub fn place_answers(patterns: &Patterns, board: &mut Board, found: &Vec<Vec<Option<String>>>)
    requires
        patterns.wf(),
        old(board).wf(),
    ensures
        final(board).wf(),
        final(board)@ == grid_with_answers(old(board)@, found.deep_view()),
{
    let mut i: usize = 0;
    while i < found.len()
        invariant
            i <= found.len(),
            patterns.wf(),
            board.wf(),
            board@ == grid_with_answers(old(board)@, found.deep_view().take(i as int)),
        decreases found.len() - i,
    {
        let ghost seen = found.deep_view().take(i + 1);
        assert(seen.drop_last() == found.deep_view().take(i as int));
        assert(seen.last() == found[i as int].deep_view());
        match decode_cell_match(&found[i]) {
            Some((x, y, t)) => {
                let answer = clean_html(patterns, t);
                board.record_answer(x, y, answer.as_str());
            },
            None => {},
        }
        i += 1;
    }
    assert(found.deep_view().take(found.len() as int) == found.deep_view());
}

/// Reads the clues and then the correct responses of one round from `data`
/// into `board`.
pub fn populate_board(patterns: &Patterns, data: &str, board: &mut Board, double: bool)
    requires
        patterns.wf(),
        old(board).wf(),
    ensures
        final(board).wf(),
        final(board)@ == populated_grid(old(board)@, data@, double),
{
    let clues = patterns.find_clues(data, double);
    place_clues(patterns, board, &clues, double);
    let answers = patterns.find_answers(data, double);
    place_answers(patterns, board, &answers);
}

/// Appends to `labels_out` the normalized label of each match of `found`.
pub fn collect_labels(
    patterns: &Patterns,
    found: &Vec<Vec<Option<String>>>,
    labels_out: &mut Vec<String>,
)
    requires
        patterns.wf(),
    ensures
        final(labels_out).deep_view() == old(labels_out).deep_view() + labels(found.deep_view()),
{
    let mut i: usize = 0;
    assert(labels_out.deep_view() =~= old(labels_out).deep_view() + labels(
        found.deep_view().take(0),
    ));
    while i < found.len()
        invariant
            i <= found.len(),
            patterns.wf(),
            labels_out.deep_view() == old(labels_out).deep_view() + labels(
                found.deep_view().take(i as int),
            ),
        decreases found.len() - i,
    {
        let ghost seen = found.deep_view().take(i + 1);
        let ghost before = labels_out.deep_view();
        assert(seen.drop_last() == found.deep_view().take(i as int));
        assert(seen.last() == found[i as int].deep_view());
        match group_text(&found[i], 1) {
            Some(t) => {
                let label = clean_html(patterns, t);
                labels_out.push(label);
                assert(labels_out.deep_view() =~= before.push(label@));
            },
            None => {},
        }
        i += 1;
    }
    assert(found.deep_view().take(found.len() as int) == found.deep_view());
}

/// Appends the category labels found in `data` to `categories`, in page
/// order.
pub fn populate_categories(patterns: &Patterns, data: &str, categories: &mut Vec<String>)
    requires
        patterns.wf(),
    ensures
        final(categories).deep_view() == old(categories).deep_view() + labels(
            regex_captures(CATEGORY_PATTERN@, data@),
        ),
{
    let found = patterns.find_categories(data);
    collect_labels(patterns, &found, categories);
}

/// The normalized text of the last match of `found`, if any match carries
/// a text.
pub fn pick_last(patterns: &Patterns, found: &Vec<Vec<Option<String>>>) -> (picked: Option<String>)
    requires
        patterns.wf(),
    ensures
        forall|otherwise: Seq<char>|
            #[trigger] last_text(found.deep_view(), otherwise) == match picked {
                Some(t) => t@,
                None => otherwise,
            },
{
    let mut i: usize = found.len();
    let ghost all = found.deep_view();
    assert(forall|otherwise: Seq<char>| #[trigger]
        last_text(all, otherwise) == last_text(all.take(i as int), otherwise)) by {
        assert(all.take(i as int) == all);
    }
    while i > 0
        invariant
            i <= found.len(),
            patterns.wf(),
            all == found.deep_view(),
            forall|otherwise: Seq<char>| #[trigger]
                last_text(all, otherwise) == last_text(all.take(i as int), otherwise),
        decreases i,
    {
        let ghost seen = all.take(i as int);
        assert(seen.drop_last() == all.take(i - 1));
        assert(seen.last() == found[i - 1].deep_view());
        match group_text(&found[i - 1], 1) {
            Some(t) => {
                return Some(clean_html(patterns, t));
            },
            None => {},
        }
        i -= 1;
    }
    None
}

/// Reads the final round from `data`: the clue and the correct response of
/// `final_jeopardy` are each replaced by the last one found, and kept where
/// none is found.
pub fn populate_final_jeopardy(
    patterns: &Patterns,
    data: &str,
    final_jeopardy: &mut JeopardyQuestion,
)
    requires
        patterns.wf(),
    ensures
        final(final_jeopardy)@ == final_question(old(final_jeopardy)@, data@),
{
    let clues = patterns.find_final_clues(data);
    match pick_last(patterns, &clues) {
        Some(clue) => {
            final_jeopardy.set_clue(clue);
        },
        None => {},
    }
    let answers = patterns.find_final_answers(data);
    match pick_last(patterns, &answers) {
        Some(answer) => {
            final_jeopardy.set_answer(answer);
        },
        None => {},
    }
}

/// Reads a whole page. The page makes a game exactly when it yields
/// thirteen category labels; otherwise what was read comes back in the
/// error.
pub fn parse_page(patterns: &Patterns, page: &str) -> (r: Result<Game, ParseIncompleteError>)
    requires
        patterns.wf(),
    ensures
        r.is_ok() <==> parsed_page(page@).categories.len() == CATEGORY_COUNT,
        r matches Ok(game) ==> game.wf() && game@ == parsed_page(page@) && game@.categories.len()
            == CATEGORY_COUNT,
        r matches Err(e) ==> e@ == parsed_page(page@) && e.board_1.wf() && e.board_2.wf(),
{
    let mut board_1 = Board::new();
    let mut board_2 = Board::new();
    let mut categories: Vec<String> = Vec::new();
    let mut final_jeopardy = JeopardyQuestion::default();
    populate_categories(patterns, page, &mut categories);
    populate_board(patterns, page, &mut board_1, false);
    populate_board(patterns, page, &mut board_2, true);
    populate_final_jeopardy(patterns, page, &mut final_jeopardy);
    assert(categories.deep_view() =~= labels(regex_captures(CATEGORY_PATTERN@, page@)));
    Game::new(categories, board_1, board_2, final_jeopardy)
}

} // verus!
