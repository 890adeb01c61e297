//! The session controller: which screen the player is on, what each key
//! does there, and when a game has to be loaded.
//!
//! The controller reads no keyboard and draws nothing. The caller reports
//! each key to [`Session::handle_key`], carries out the [`Directive`] it
//! gets back, and reports a finished load to [`Session::game_loaded`].

use crate::board::{is_grid, QuestionView, BOARD_COLUMNS, BOARD_ROWS, CATEGORY_COUNT};
use crate::cursor::{
    is_mark_grid, moved, nothing_answered, on_board, Coords, Direction, GameState,
};
use crate::decimal::{parse_number, parsed_number};
use crate::game::{Game, GameView, ROUND_CATEGORIES};
use vstd::prelude::*;

verus! {

/// A key, as far as the controller tells keys apart.
#[derive(Clone, Copy, Debug, PartialEq, Eq, Structural)]
pub enum Key {
    Enter,
    Char(char),
    Backspace,
    Delete,
    Up,
    Down,
    Left,
    Right,
    Other,
}

/// The screen the player is on. `double` tells the second round from the
/// first.
#[derive(Clone, Copy, Debug, PartialEq, Eq, Structural)]
pub enum Phase {
    /// The prompt for a game id.
    SelectingGame,
    /// A game was asked for and has not arrived.
    Loading { game_id: usize },
    /// A round's board, with the cursor on it.
    BrowsingBoard { double: bool },
    /// The clue of the highlighted cell.
    ViewingClue { double: bool },
    /// The correct response of the highlighted cell.
    ViewingAnswer { double: bool },
    /// The clue of the final round.
    FinalClue,
    /// The correct response of the final round.
    FinalAnswer,
    /// The session is over.
    Quit,
}

/// What the prompt tells the player about the last attempt.
#[derive(Clone, Copy, Debug, PartialEq, Eq, Structural)]
pub enum Notice {
    Nothing,
    InvalidGameId,
    GameNotFound,
}

/// What the caller has to do after a key.
#[derive(Clone, Copy, Debug, PartialEq, Eq, Structural)]
pub enum Directive {
    /// Draw the current screen and wait for the next key.
    Draw,
    /// Look this game up, report the outcome, then draw.
    Load(usize),
    /// End the session.
    Quit,
}

/// What was typed at the prompt is not a game id.
#[derive(Clone, Copy, Debug, PartialEq, Eq, Structural)]
pub struct InputParseError {}

/// Reads a game id typed at the prompt: a numeral that a `usize` can hold.
pub fn parse_game_id(input: &str) -> (r: Result<usize, InputParseError>)
    ensures
        r.is_ok() == parsed_number(input@).is_some(),
        r matches Ok(game_id) ==> parsed_number(input@) == Some(game_id as nat),
{
    match parse_number(input) {
        Some(game_id) => Ok(game_id),
        None => Err(InputParseError {}),
    }
}

/// The key that ends the session from every screen.
pub const QUIT_KEY: char = 'q';

/// The key that ends a round from its board.
pub const SKIP_KEY: char = ' ';

/// A session as mathematical values.
pub struct SessionView {
    pub phase: Phase,
    pub cursor: (int, int),
    pub answered: Seq<Seq<bool>>,
    pub input: Seq<char>,
    pub notice: Notice,
    pub game: Option<GameView>,
}

/// The session as it starts: at the prompt, nothing typed, nothing to
/// report, no game.
pub open spec fn initial_session() -> SessionView {
    SessionView {
        phase: Phase::SelectingGame,
        cursor: (0, 0),
        answered: nothing_answered(),
        input: Seq::empty(),
        notice: Notice::Nothing,
        game: None,
    }
}

/// The session after the player quit.
pub open spec fn after_quit(s: SessionView) -> (SessionView, Directive) {
    (SessionView { phase: Phase::Quit, ..s }, Directive::Quit)
}

/// The direction that an arrow key stands for.
pub open spec fn direction_of(key: Key) -> Option<Direction> {
    match key {
        Key::Up => Some(Direction::Up),
        Key::Down => Some(Direction::Down),
        Key::Left => Some(Direction::Left),
        Key::Right => Some(Direction::Right),
        _ => None,
    }
}

/// What a key does at the prompt: the quit key quits, any other character
/// is typed, backspace takes the last character back, and enter submits
/// what was typed. A numeral is asked for as a game; anything else is
/// answered with a notice and an empty prompt.
pub open spec fn prompt_step(s: SessionView, key: Key) -> (SessionView, Directive) {
    match key {
        Key::Char(c) => if c == QUIT_KEY {
            after_quit(s)
        } else {
            (SessionView { input: s.input.push(c), ..s }, Directive::Draw)
        },
        Key::Backspace => if s.input.len() > 0 {
            (SessionView { input: s.input.drop_last(), ..s }, Directive::Draw)
        } else {
            (s, Directive::Draw)
        },
        Key::Enter => match parsed_number(s.input) {
            Some(n) => (
                SessionView { phase: Phase::Loading { game_id: n as usize }, ..s },
                Directive::Load(n as usize),
            ),
            None => (
                SessionView { input: Seq::empty(), notice: Notice::InvalidGameId, ..s },
                Directive::Draw,
            ),
        },
        _ => (s, Directive::Draw),
    }
}

/// What a key does on a round's board: arrows move the cursor, enter opens
/// the clue under it, the skip key ends the round, the quit key quits.
pub open spec fn board_step(s: SessionView, double: bool, key: Key) -> (SessionView, Directive) {
    match key {
        Key::Enter => (SessionView { phase: Phase::ViewingClue { double }, ..s }, Directive::Draw),
        Key::Char(c) => if c == QUIT_KEY {
            after_quit(s)
        } else if c == SKIP_KEY {
            if double {
                (SessionView { phase: Phase::FinalClue, ..s }, Directive::Draw)
            } else {
                (
                    SessionView {
                        phase: Phase::BrowsingBoard { double: true },
                        answered: nothing_answered(),
                        ..s
                    },
                    Directive::Draw,
                )
            }
        } else {
            (s, Directive::Draw)
        },
        _ => match direction_of(key) {
            Some(d) => (SessionView { cursor: moved(s.cursor, d), ..s }, Directive::Draw),
            None => (s, Directive::Draw),
        },
    }
}

/// What a key does while a clue is shown: enter marks the cell as revealed
/// and shows the response, the quit key quits and marks nothing.
pub open spec fn clue_step(s: SessionView, double: bool, key: Key) -> (SessionView, Directive) {
    match key {
        Key::Enter => (
            SessionView {
                phase: Phase::ViewingAnswer { double },
                answered: s.answered.update(
                    s.cursor.1,
                    s.answered[s.cursor.1].update(s.cursor.0, true),
                ),
                ..s
            },
            Directive::Draw,
        ),
        Key::Char(c) => if c == QUIT_KEY {
            after_quit(s)
        } else {
            (s, Directive::Draw)
        },
        _ => (s, Directive::Draw),
    }
}

/// What a key does on a screen that is left by enter or delete for the
/// phase `next`, and by the quit key for good.
pub open spec fn dismiss_step(s: SessionView, next: SessionView, key: Key) -> (
    SessionView,
    Directive,
) {
    match key {
        Key::Enter => (next, Directive::Draw),
        Key::Delete => (next, Directive::Draw),
        Key::Char(c) => if c == QUIT_KEY {
            after_quit(s)
        } else {
            (s, Directive::Draw)
        },
        _ => (s, Directive::Draw),
    }
}

/// What a key does while the final clue is shown: enter shows the
/// response, the quit key quits.
pub open spec fn final_clue_step(s: SessionView, key: Key) -> (SessionView, Directive) {
    match key {
        Key::Enter => (SessionView { phase: Phase::FinalAnswer, ..s }, Directive::Draw),
        Key::Char(c) => if c == QUIT_KEY {
            after_quit(s)
        } else {
            (s, Directive::Draw)
        },
        _ => (s, Directive::Draw),
    }
}

/// The session back at an empty prompt, the game put away.
pub open spec fn back_at_prompt(s: SessionView, notice: Notice) -> SessionView {
    SessionView { phase: Phase::SelectingGame, input: Seq::empty(), notice, game: None, ..s }
}

/// What a key does: the session it leads to and what the caller has to do.
pub open spec fn key_step(s: SessionView, key: Key) -> (SessionView, Directive) {
    match s.phase {
        Phase::SelectingGame => prompt_step(s, key),
        Phase::Loading { game_id } => (s, Directive::Draw),
        Phase::BrowsingBoard { double } => board_step(s, double, key),
        Phase::ViewingClue { double } => clue_step(s, double, key),
        Phase::ViewingAnswer { double } => dismiss_step(
            s,
            SessionView { phase: Phase::BrowsingBoard { double }, ..s },
            key,
        ),
        Phase::FinalClue => final_clue_step(s, key),
        Phase::FinalAnswer => dismiss_step(s, back_at_prompt(s, Notice::Nothing), key),
        Phase::Quit => (s, Directive::Quit),
    }
}

/// What the outcome of a load does. A session that waits for a game goes
/// to the first round's board with nothing revealed, or back to the prompt
/// with a notice; a session that waits for none is left as it is.
pub open spec fn load_step(s: SessionView, game: Option<GameView>) -> SessionView {
    if s.phase is Loading {
        match game {
            Some(g) => SessionView {
                phase: Phase::BrowsingBoard { double: false },
                answered: nothing_answered(),
                input: Seq::empty(),
                notice: Notice::Nothing,
                game: Some(g),
                ..s
            },
            None => back_at_prompt(s, Notice::GameNotFound),
        }
    } else {
        s
    }
}

/// The session after the keys of `keys`, pressed in order.
pub open spec fn key_run(s: SessionView, keys: Seq<Key>) -> SessionView
    decreases keys.len(),
{
    if keys.len() == 0 {
        s
    } else {
        key_step(key_run(s, keys.drop_last()), keys.last()).0
    }
}

/// Whatever keys are pressed, in whatever phase, the cursor of a session
/// stays on the board.
pub proof fn lemma_session_cursor_on_board(s: SessionView, keys: Seq<Key>)
    requires
        on_board(s.cursor.0, s.cursor.1),
    ensures
        on_board(key_run(s, keys).cursor.0, key_run(s, keys).cursor.1),
    decreases keys.len(),
{
    if keys.len() > 0 {
        lemma_session_cursor_on_board(s, keys.drop_last());
    }
}

/// The quit key ends the session from every screen on which keys are
/// read, and a session that is over stays over.
pub proof fn lemma_quit_key_quits(s: SessionView, key: Key)
    ensures
        !(s.phase is Loading) ==> key_step(s, Key::Char(QUIT_KEY)).0.phase is Quit,
        !(s.phase is Loading) ==> key_step(s, Key::Char(QUIT_KEY)).1 is Quit,
        s.phase is Quit ==> key_step(s, key) == (s, Directive::Quit),
{
}

/// A cell is marked as revealed only by enter on its clue: any other key,
/// in any phase, leaves the marks as they are or clears them all.
pub proof fn lemma_marks_change_only_on_confirm(s: SessionView, key: Key)
    ensures
        !(s.phase is ViewingClue && key == Key::Enter) ==> key_step(s, key).0.answered
            == s.answered || key_step(s, key).0.answered == nothing_answered(),
{
}

/// A phase in which a game is on the table.
pub open spec fn is_playing(phase: Phase) -> bool {
    phase is BrowsingBoard || phase is ViewingClue || phase is ViewingAnswer || phase is FinalClue
        || phase is FinalAnswer
}

/// What the caller has to draw.
#[derive(Debug)]
pub enum Screen {
    /// The prompt for a game id, with what was typed so far.
    Prompt { notice: Notice, input: String },
    /// A game is being looked up.
    Loading { game_id: usize },
    /// A round's board: the six category labels, for every cell the value
    /// to show or `None` for a cell shown empty, and the highlighted cell.
    Board { categories: Vec<String>, values: Vec<Vec<Option<usize>>>, cursor: Coords },
    /// One block of text: a clue or a correct response.
    Text(String),
    /// Nothing: the session is over.
    Closed,
}

/// A screen as mathematical values.
pub enum ScreenView {
    Prompt { notice: Notice, input: Seq<char> },
    Loading { game_id: usize },
    Board { categories: Seq<Seq<char>>, values: Seq<Seq<Option<nat>>>, cursor: (int, int) },
    Text(Seq<char>),
    Closed,
}

/// A value of a cell as mathematical value.
pub open spec fn value_view(v: Option<usize>) -> Option<nat> {
    match v {
        Some(n) => Some(n as nat),
        None => None,
    }
}

impl View for Screen {
    type V = ScreenView;

    open spec fn view(&self) -> ScreenView {
        match self {
            Screen::Prompt { notice, input } => ScreenView::Prompt {
                notice: *notice,
                input: input@,
            },
            Screen::Loading { game_id } => ScreenView::Loading { game_id: *game_id },
            Screen::Board { categories, values, cursor } => ScreenView::Board {
                categories: categories.deep_view(),
                values: Seq::new(
                    values@.len(),
                    |y: int| Seq::new(values@[y]@.len(), |x: int| value_view(values@[y]@[x])),
                ),
                cursor: (cursor.x as int, cursor.y as int),
            },
            Screen::Text(text) => ScreenView::Text(text@),
            Screen::Closed => ScreenView::Closed,
        }
    }
}

/// What a cell of the board shows: its value, unless the cell was revealed
/// or holds no clue.
pub open spec fn shown_value(q: QuestionView, answered: bool) -> Option<nat> {
    if !answered && q.value != 0 {
        Some(q.value)
    } else {
        None
    }
}

/// The grid of a round.
pub open spec fn round_grid(game: GameView, double: bool) -> Seq<Seq<QuestionView>> {
    if double {
        game.board_2
    } else {
        game.board_1
    }
}

/// The six category labels of a round.
pub open spec fn round_categories(game: GameView, double: bool) -> Seq<Seq<char>> {
    Seq::new(
        ROUND_CATEGORIES as nat,
        |c: int|
            game.categories[if double {
                ROUND_CATEGORIES + c
            } else {
                c
            }],
    )
}

/// The screen of a round's board.
pub open spec fn board_screen(
    game: GameView,
    double: bool,
    answered: Seq<Seq<bool>>,
    cursor: (int, int),
) -> ScreenView {
    ScreenView::Board {
        categories: round_categories(game, double),
        values: Seq::new(
            BOARD_ROWS as nat,
            |y: int|
                Seq::new(
                    BOARD_COLUMNS as nat,
                    |x: int| shown_value(round_grid(game, double)[y][x], answered[y][x]),
                ),
        ),
        cursor,
    }
}

/// The screen that a session shows.
pub open spec fn screen_of(s: SessionView) -> ScreenView {
    match s.phase {
        Phase::SelectingGame => ScreenView::Prompt { notice: s.notice, input: s.input },
        Phase::Loading { game_id } => ScreenView::Loading { game_id },
        Phase::Quit => ScreenView::Closed,
        _ => match s.game {
            None => ScreenView::Closed,
            Some(game) => match s.phase {
                Phase::BrowsingBoard { double } => board_screen(game, double, s.answered, s.cursor),
                Phase::ViewingClue { double } => ScreenView::Text(
                    round_grid(game, double)[s.cursor.1][s.cursor.0].clue,
                ),
                Phase::ViewingAnswer { double } => ScreenView::Text(
                    round_grid(game, double)[s.cursor.1][s.cursor.0].answer,
                ),
                Phase::FinalClue => ScreenView::Text(game.final_jeopardy.clue),
                _ => ScreenView::Text(game.final_jeopardy.answer),
            },
        },
    }
}

/// The words for a notice.
pub open spec fn notice_words(notice: Notice) -> Seq<char> {
    match notice {
        Notice::Nothing => ""@,
        Notice::InvalidGameId => "Invalid game id"@,
        Notice::GameNotFound => "Game not found"@,
    }
}

/// The words for a notice.
pub fn notice_text(notice: Notice) -> (words: &'static str)
    ensures
        words@ == notice_words(notice),
{
    match notice {
        Notice::Nothing => "",
        Notice::InvalidGameId => "Invalid game id",
        Notice::GameNotFound => "Game not found",
    }
}

/// One interactive session.
#[derive(Debug)]
pub struct Session {
    phase: Phase,
    state: GameState,
    input: String,
    notice: Notice,
    game: Option<Game>,
}

impl View for Session {
    type V = SessionView;

    closed spec fn view(&self) -> SessionView {
        SessionView {
            phase: self.phase,
            cursor: self.state.cursor(),
            answered: self.state.answered(),
            input: self.input@,
            notice: self.notice,
            game: match self.game {
                Some(g) => Some(g@),
                None => None,
            },
        }
    }
}

impl Session {
    /// The cursor is on the board, a game that is held is well formed, and
    /// a game is held while one is played.
    pub closed spec fn wf(&self) -> bool {
        &&& self.state.wf()
        &&& self.game matches Some(g) ==> g.wf()
        &&& is_playing(self.phase) ==> self.game is Some
    }

    /// A well-formed session plays only with a game on the table. A game
    /// that it holds has thirteen categories and two grids of five rows of
    /// six; its cursor is on the board and its marks make such a grid too.
    pub proof fn lemma_playing_has_game(&self)
        requires
            self.wf(),
        ensures
            is_playing(self@.phase) ==> self@.game is Some,
            self@.game matches Some(game) ==> game.categories.len() == CATEGORY_COUNT && is_grid(
                game.board_1,
            ) && is_grid(game.board_2),
            on_board(self@.cursor.0, self@.cursor.1),
            is_mark_grid(self@.answered),
    {
        self.state.lemma_cursor_on_board();
        self.state.lemma_answered_is_grid();
        match self.game {
            Some(game) => {
                game.lemma_shape();
            },
            None => {},
        }
    }

    /// A session at the prompt.
    pub fn new() -> (session: Session)
        ensures
            session.wf(),
            session@ == initial_session(),
    {
        Session {
            phase: Phase::SelectingGame,
            state: GameState::new(),
            input: String::new(),
            notice: Notice::Nothing,
            game: None,
        }
    }

    /// The screen the player is on.
    pub fn phase(&self) -> (phase: Phase)
        ensures
            phase == self@.phase,
    {
        self.phase
    }

    fn quit(&mut self) -> (directive: Directive)
        requires
            old(self).wf(),
        ensures
            final(self).wf(),
            (final(self)@, directive) == after_quit(old(self)@),
    {
        self.phase = Phase::Quit;
        Directive::Quit
    }

    fn to_prompt(&mut self, notice: Notice)
        requires
            old(self).wf(),
        ensures
            final(self).wf(),
            final(self)@ == back_at_prompt(old(self)@, notice),
    {
        self.phase = Phase::SelectingGame;
        self.input = String::new();
        self.notice = notice;
        self.game = None;
    }

    fn handle_prompt_key(&mut self, key: Key) -> (directive: Directive)
        requires
            old(self).wf(),
            old(self)@.phase is SelectingGame,
        ensures
            final(self).wf(),
            (final(self)@, directive) == prompt_step(old(self)@, key),
    {
        match key {
            Key::Char(c) => {
                if c == QUIT_KEY {
                    self.quit()
                } else {
                    self.input.push(c);
                    Directive::Draw
                }
            },
            Key::Backspace => {
                let _ = self.input.pop();
                Directive::Draw
            },
            Key::Enter => {
                match parse_game_id(self.input.as_str()) {
                    Ok(game_id) => {
                        self.phase = Phase::Loading { game_id };
                        Directive::Load(game_id)
                    },
                    Err(_) => {
                        self.input = String::new();
                        self.notice = Notice::InvalidGameId;
                        Directive::Draw
                    },
                }
            },
            _ => Directive::Draw,
        }
    }

    fn handle_board_key(&mut self, double: bool, key: Key) -> (directive: Directive)
        requires
            old(self).wf(),
            old(self)@.phase == (Phase::BrowsingBoard { double }),
        ensures
            final(self).wf(),
            (final(self)@, directive) == board_step(old(self)@, double, key),
    {
        match key {
            Key::Enter => {
                self.phase = Phase::ViewingClue { double };
                Directive::Draw
            },
            Key::Char(c) => {
                if c == QUIT_KEY {
                    self.quit()
                } else if c == SKIP_KEY {
                    if double {
                        self.phase = Phase::FinalClue;
                    } else {
                        self.phase = Phase::BrowsingBoard { double: true };
                        self.state.clear_answered();
                    }
                    Directive::Draw
                } else {
                    Directive::Draw
                }
            },
            Key::Up => {
                self.state.up();
                Directive::Draw
            },
            Key::Down => {
                self.state.down();
                Directive::Draw
            },
            Key::Left => {
                self.state.left();
                Directive::Draw
            },
            Key::Right => {
                self.state.right();
                Directive::Draw
            },
            _ => Directive::Draw,
        }
    }

    fn handle_clue_key(&mut self, double: bool, key: Key) -> (directive: Directive)
        requires
            old(self).wf(),
            old(self)@.phase == (Phase::ViewingClue { double }),
        ensures
            final(self).wf(),
            (final(self)@, directive) == clue_step(old(self)@, double, key),
    {
        match key {
            Key::Enter => {
                self.state.mark_selected();
                self.phase = Phase::ViewingAnswer { double };
                Directive::Draw
            },
            Key::Char(c) => {
                if c == QUIT_KEY {
                    self.quit()
                } else {
                    Directive::Draw
                }
            },
            _ => Directive::Draw,
        }
    }

    /// Takes a key and says what the caller has to do next.
    pub fn handle_key(&mut self, key: Key) -> (directive: Directive)
        requires
            old(self).wf(),
        ensures
            final(self).wf(),
            (final(self)@, directive) == key_step(old(self)@, key),
    {
        match self.phase {
            Phase::SelectingGame => self.handle_prompt_key(key),
            Phase::Loading { game_id } => Directive::Draw,
            Phase::BrowsingBoard { double } => self.handle_board_key(double, key),
            Phase::ViewingClue { double } => self.handle_clue_key(double, key),
            Phase::ViewingAnswer { double } => {
                match key {
                    Key::Enter | Key::Delete => {
                        self.phase = Phase::BrowsingBoard { double };
                        Directive::Draw
                    },
                    Key::Char(c) => {
                        if c == QUIT_KEY {
                            self.quit()
                        } else {
                            Directive::Draw
                        }
                    },
                    _ => Directive::Draw,
                }
            },
            Phase::FinalClue => {
                match key {
                    Key::Enter => {
                        self.phase = Phase::FinalAnswer;
                        Directive::Draw
                    },
                    Key::Char(c) => {
                        if c == QUIT_KEY {
                            self.quit()
                        } else {
                            Directive::Draw
                        }
                    },
                    _ => Directive::Draw,
                }
            },
            Phase::FinalAnswer => {
                match key {
                    Key::Enter | Key::Delete => {
                        self.to_prompt(Notice::Nothing);
                        Directive::Draw
                    },
                    Key::Char(c) => {
                        if c == QUIT_KEY {
                            self.quit()
                        } else {
                            Directive::Draw
                        }
                    },
                    _ => Directive::Draw,
                }
            },
            Phase::Quit => Directive::Quit,
        }
    }

    /// Takes the outcome of a load: the game, or `None` where there is no
    /// such game.
    pub fn game_loaded(&mut self, game: Option<Game>)
        requires
            old(self).wf(),
            game matches Some(g) ==> g.wf(),
        ensures
            final(self).wf(),
            final(self)@ == load_step(
                old(self)@,
                match game {
                    Some(g) => Some(g@),
                    None => None,
                },
            ),
    {
        match self.phase {
            Phase::Loading { game_id } => {
                match game {
                    Some(g) => {
                        self.phase = Phase::BrowsingBoard { double: false };
                        self.state.clear_answered();
                        self.input = String::new();
                        self.notice = Notice::Nothing;
                        self.game = Some(g);
                    },
                    None => {
                        self.to_prompt(Notice::GameNotFound);
                    },
                }
            },
            _ => {},
        }
    }

    fn draw_board(&self, game: &Game, double: bool) -> (screen: Screen)
        requires
            self.wf(),
            game.wf(),
        ensures
            screen@ == board_screen(game@, double, self@.answered, self@.cursor),
    {
        let board = game.board(double);
        let mut categories: Vec<String> = Vec::new();
        let mut c: usize = 0;
        while c < ROUND_CATEGORIES
            invariant
                c <= ROUND_CATEGORIES,
                game.wf(),
                categories.len() == c,
                forall|k: int|
                    0 <= k < c ==> (#[trigger] categories@[k])@ == round_categories(
                        game@,
                        double,
                    )[k],
            decreases ROUND_CATEGORIES - c,
        {
            categories.push(game.round_category(double, c).to_owned());
            c += 1;
        }
        assert(categories.deep_view() =~= round_categories(game@, double));
        let mut values: Vec<Vec<Option<usize>>> = Vec::new();
        let mut y: usize = 0;
        while y < BOARD_ROWS
            invariant
                y <= BOARD_ROWS,
                self.wf(),
                board.wf(),
                board@ == round_grid(game@, double),
                values.len() == y,
                forall|r: int|
                    0 <= r < y ==> (#[trigger] values@[r])@.len() == BOARD_COLUMNS && forall|k: int|
                        0 <= k < BOARD_COLUMNS ==> value_view(#[trigger] values@[r]@[k])
                            == shown_value(board@[r][k], self@.answered[r][k]),
            decreases BOARD_ROWS - y,
        {
            let mut row: Vec<Option<usize>> = Vec::new();
            let mut x: usize = 0;
            while x < BOARD_COLUMNS
                invariant
                    x <= BOARD_COLUMNS,
                    y < BOARD_ROWS,
                    self.wf(),
                    board.wf(),
                    row.len() == x,
                    forall|k: int|
                        0 <= k < x ==> value_view(#[trigger] row@[k]) == shown_value(
                            board@[y as int][k],
                            self@.answered[y as int][k],
                        ),
                decreases BOARD_COLUMNS - x,
            {
                let value = board.cell(x, y).value();
                if !self.state.is_answered(x, y) && value != 0 {
                    row.push(Some(value));
                } else {
                    row.push(None);
                }
                x += 1;
            }
            values.push(row);
            y += 1;
        }
        proof {
            let shown = Seq::new(
                values@.len(),
                |y: int| Seq::new(values@[y]@.len(), |x: int| value_view(values@[y]@[x])),
            );
            let wanted = Seq::new(
                BOARD_ROWS as nat,
                |y: int|
                    Seq::new(
                        BOARD_COLUMNS as nat,
                        |x: int|
                            shown_value(round_grid(game@, double)[y][x], self@.answered[y][x]),
                    ),
            );
            assert forall|r: int| 0 <= r < BOARD_ROWS implies shown[r] =~= wanted[r] by {
                assert(values@[r]@.len() == BOARD_COLUMNS);
                assert forall|k: int| 0 <= k < BOARD_COLUMNS implies shown[r][k] == wanted[r][k] by {
                    assert(value_view(values@[r]@[k]) == shown_value(
                        board@[r][k],
                        self@.answered[r][k],
                    ));
                }
            }
            assert(shown =~= wanted);
        }
        Screen::Board { categories, values, cursor: self.state.selected() }
    }

    /// What the caller has to draw for the session as it stands.
    pub fn screen(&self) -> (screen: Screen)
        requires
            self.wf(),
        ensures
            screen@ == screen_of(self@),
    {
        match self.phase {
            Phase::SelectingGame => Screen::Prompt {
                notice: self.notice,
                input: self.input.clone(),
            },
            Phase::Loading { game_id } => Screen::Loading { game_id },
            Phase::Quit => Screen::Closed,
            _ => match &self.game {
                None => Screen::Closed,
                Some(game) => {
                    let at = self.state.selected();
                    proof {
                        self.state.lemma_cursor_on_board();
                    }
                    match self.phase {
                        Phase::BrowsingBoard { double } => self.draw_board(game, double),
                        Phase::ViewingClue { double } => Screen::Text(
                            game.board(double).cell(at.x, at.y).clue().to_owned(),
                        ),
                        Phase::ViewingAnswer { double } => Screen::Text(
                            game.board(double).cell(at.x, at.y).answer().to_owned(),
                        ),
                        Phase::FinalClue => Screen::Text(game.final_jeopardy().clue().to_owned()),
                        _ => Screen::Text(game.final_jeopardy().answer().to_owned()),
                    }
                },
            },
        }
    }
}

} // verus!
