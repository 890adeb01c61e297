use brrr::cursor::{Coords, Direction, GameState};
use brrr::parser::parse_page;
use brrr::pattern::Patterns;
use brrr::session::{
    notice_text, parse_game_id, Directive, InputParseError, Key, Notice, Phase, Screen, Session,
};
use brrr::Game;

fn sample_game() -> Game {
    let patterns = Patterns::new().expect("patterns compile");
    let mut page = String::new();
    for i in 0..13 {
        page.push_str(&format!("<td class=\"category_name\">CATEGORY {}</td>\n", i));
    }
    page.push_str("<td id=\"clue_J_1_1\" class=\"clue_text\">first clue</td>\n");
    page.push_str(
        "<div onmouseover=\"toggle('clue_J_1_1', 'stuck', '&lt;em class=&quot;correct_response&quot;&gt;first response&lt;/em&gt;')\">\n",
    );
    page.push_str("<td id=\"clue_J_2_1\" class=\"clue_text\">second clue</td>\n");
    page.push_str("<td id=\"clue_DJ_1_1\" class=\"clue_text\">double clue</td>\n");
    page.push_str("<td id=\"clue_FJ\" class=\"clue_text\">final clue</td>\n");
    page.push_str(
        "<div onmouseover=\"toggle('clue_FJ', '&lt;em class=\\&quot;correct_response\\&quot;&gt;final response&lt;/em&gt;')\">\n",
    );
    parse_page(&patterns, &page).expect("thirteen categories")
}

fn type_text(session: &mut Session, text: &str) {
    for c in text.chars() {
        assert_eq!(session.handle_key(Key::Char(c)), Directive::Draw);
    }
}

fn playing_session() -> Session {
    let mut session = Session::new();
    type_text(&mut session, "7");
    assert_eq!(session.handle_key(Key::Enter), Directive::Load(7));
    session.game_loaded(Some(sample_game()));
    session
}

fn cursor_of(session: &Session) -> (usize, usize) {
    match session.screen() {
        Screen::Board { cursor, .. } => (cursor.x, cursor.y),
        other => panic!("not on a board: {:?}", other),
    }
}

#[test]
fn cursor_is_held_at_the_top_left_corner() {
    let mut state = GameState::new();
    for _ in 0..10 {
        state.left();
        state.up();
        assert_eq!(state.selected(), Coords { x: 0, y: 0 });
    }
}

#[test]
fn cursor_is_held_at_the_bottom_right_corner() {
    let mut state = GameState::default();
    for _ in 0..10 {
        state.right();
        state.down();
    }
    assert_eq!(state.selected(), Coords { x: 5, y: 4 });
}

#[test]
fn cursor_moves_one_cell_at_a_time() {
    let mut state = GameState::new();
    state.right();
    assert_eq!(state.selected(), Coords { x: 1, y: 0 });
    state.down();
    assert_eq!(state.selected(), Coords { x: 1, y: 1 });
    state.left();
    assert_eq!(state.selected(), Coords { x: 0, y: 1 });
    state.up();
    assert_eq!(state.selected(), Coords { x: 0, y: 0 });
    state.step(Direction::Down);
    state.step(Direction::Right);
    assert_eq!(state.selected(), Coords { x: 1, y: 1 });
}

#[test]
fn cursor_stays_on_the_board_under_any_walk() {
    let mut state = GameState::new();
    let walk = [
        Direction::Right, Direction::Right, Direction::Right, Direction::Right, Direction::Right,
        Direction::Right, Direction::Right, Direction::Down, Direction::Down, Direction::Down,
        Direction::Down, Direction::Down, Direction::Down, Direction::Left, Direction::Up,
        Direction::Up, Direction::Up, Direction::Up, Direction::Up, Direction::Up,
        Direction::Left, Direction::Left, Direction::Left, Direction::Left, Direction::Left,
        Direction::Left, Direction::Left,
    ];
    for d in walk {
        state.step(d);
        let at = state.selected();
        assert!(at.x < 6);
        assert!(at.y < 5);
    }
    assert_eq!(state.selected(), Coords { x: 0, y: 0 });
}

#[test]
fn marks_are_set_and_cleared() {
    let mut state = GameState::new();
    state.right();
    state.down();
    assert!(!state.is_answered(1, 1));
    state.mark_selected();
    assert!(state.is_answered(1, 1));
    assert!(!state.is_answered(0, 0));
    assert!(!state.is_answered(1, 0));
    state.clear_answered();
    assert!(!state.is_answered(1, 1));
    assert_eq!(state.selected(), Coords { x: 1, y: 1 });
}

#[test]
fn browsing_left_and_up_at_origin_leaves_cursor() {
    let mut session = playing_session();
    assert_eq!(session.phase(), Phase::BrowsingBoard { double: false });
    assert_eq!(cursor_of(&session), (0, 0));
    for _ in 0..5 {
        assert_eq!(session.handle_key(Key::Left), Directive::Draw);
        assert_eq!(session.handle_key(Key::Up), Directive::Draw);
        assert_eq!(cursor_of(&session), (0, 0));
        assert_eq!(session.phase(), Phase::BrowsingBoard { double: false });
    }
}

#[test]
fn browsing_arrows_are_clamped() {
    let mut session = playing_session();
    for _ in 0..9 {
        session.handle_key(Key::Right);
        session.handle_key(Key::Down);
    }
    assert_eq!(cursor_of(&session), (5, 4));
    session.handle_key(Key::Left);
    session.handle_key(Key::Up);
    assert_eq!(cursor_of(&session), (4, 3));
}

#[test]
fn prompt_shows_what_is_typed() {
    let mut session = Session::new();
    assert_eq!(session.phase(), Phase::SelectingGame);
    type_text(&mut session, "12");
    assert_eq!(session.handle_key(Key::Backspace), Directive::Draw);
    type_text(&mut session, "3");
    match session.screen() {
        Screen::Prompt { notice, input } => {
            assert_eq!(notice, Notice::Nothing);
            assert_eq!(input, "13");
        }
        other => panic!("unexpected screen {:?}", other),
    }
    assert_eq!(session.handle_key(Key::Enter), Directive::Load(13));
    assert_eq!(session.phase(), Phase::Loading { game_id: 13 });
    assert!(matches!(session.screen(), Screen::Loading { game_id: 13 }));
}

#[test]
fn backspace_on_empty_prompt_does_nothing() {
    let mut session = Session::new();
    assert_eq!(session.handle_key(Key::Backspace), Directive::Draw);
    match session.screen() {
        Screen::Prompt { input, .. } => assert_eq!(input, ""),
        other => panic!("unexpected screen {:?}", other),
    }
}

#[test]
fn garbled_game_id_is_answered_with_a_notice() {
    let mut session = Session::new();
    type_text(&mut session, "12x");
    assert_eq!(session.handle_key(Key::Enter), Directive::Draw);
    assert_eq!(session.phase(), Phase::SelectingGame);
    match session.screen() {
        Screen::Prompt { notice, input } => {
            assert_eq!(notice, Notice::InvalidGameId);
            assert_eq!(input, "");
        }
        other => panic!("unexpected screen {:?}", other),
    }
    assert_eq!(session.handle_key(Key::Enter), Directive::Draw);
    type_text(&mut session, "5");
    assert_eq!(session.handle_key(Key::Enter), Directive::Load(5));
}

#[test]
fn missing_game_returns_to_the_prompt() {
    let mut session = Session::new();
    type_text(&mut session, "1132");
    assert_eq!(session.handle_key(Key::Enter), Directive::Load(1132));
    assert_eq!(session.handle_key(Key::Char('q')), Directive::Draw);
    assert_eq!(session.phase(), Phase::Loading { game_id: 1132 });
    session.game_loaded(None);
    assert_eq!(session.phase(), Phase::SelectingGame);
    match session.screen() {
        Screen::Prompt { notice, input } => {
            assert_eq!(notice, Notice::GameNotFound);
            assert_eq!(input, "");
        }
        other => panic!("unexpected screen {:?}", other),
    }
}

#[test]
fn game_that_was_not_asked_for_is_dropped() {
    let mut session = Session::new();
    session.game_loaded(Some(sample_game()));
    assert_eq!(session.phase(), Phase::SelectingGame);
    assert!(matches!(session.screen(), Screen::Prompt { .. }));
}

#[test]
fn notices_have_words() {
    assert_eq!(notice_text(Notice::Nothing), "");
    assert_eq!(notice_text(Notice::InvalidGameId), "Invalid game id");
    assert_eq!(notice_text(Notice::GameNotFound), "Game not found");
}

#[test]
fn quit_key_ends_the_session_from_every_screen() {
    let mut at_prompt = Session::new();
    assert_eq!(at_prompt.handle_key(Key::Char('q')), Directive::Quit);
    assert_eq!(at_prompt.phase(), Phase::Quit);
    assert!(matches!(at_prompt.screen(), Screen::Closed));
    assert_eq!(at_prompt.handle_key(Key::Enter), Directive::Quit);
    assert_eq!(at_prompt.phase(), Phase::Quit);

    let mut browsing = playing_session();
    assert_eq!(browsing.handle_key(Key::Char('q')), Directive::Quit);

    let mut clue = playing_session();
    clue.handle_key(Key::Enter);
    assert_eq!(clue.phase(), Phase::ViewingClue { double: false });
    assert_eq!(clue.handle_key(Key::Char('q')), Directive::Quit);
    assert_eq!(clue.phase(), Phase::Quit);

    let mut answer = playing_session();
    answer.handle_key(Key::Enter);
    answer.handle_key(Key::Enter);
    assert_eq!(answer.phase(), Phase::ViewingAnswer { double: false });
    assert_eq!(answer.handle_key(Key::Char('q')), Directive::Quit);

    let mut last = playing_session();
    last.handle_key(Key::Char(' '));
    last.handle_key(Key::Char(' '));
    assert_eq!(last.phase(), Phase::FinalClue);
    assert_eq!(last.handle_key(Key::Char('q')), Directive::Quit);
}

#[test]
fn board_shows_values_of_unrevealed_clues() {
    let session = playing_session();
    match session.screen() {
        Screen::Board { categories, values, cursor } => {
            assert_eq!(
                categories,
                vec!["CATEGORY 0", "CATEGORY 1", "CATEGORY 2", "CATEGORY 3", "CATEGORY 4", "CATEGORY 5"]
            );
            assert_eq!(values.len(), 5);
            for row in &values {
                assert_eq!(row.len(), 6);
            }
            assert_eq!(values[0][0], Some(200));
            assert_eq!(values[0][1], Some(200));
            assert_eq!(values[0][2], None);
            assert_eq!(values[1][0], None);
            assert_eq!(cursor, Coords { x: 0, y: 0 });
        }
        other => panic!("unexpected screen {:?}", other),
    }
}

#[test]
fn clue_then_answer_then_board() {
    let mut session = playing_session();
    assert_eq!(session.handle_key(Key::Enter), Directive::Draw);
    assert_eq!(session.phase(), Phase::ViewingClue { double: false });
    match session.screen() {
        Screen::Text(text) => assert_eq!(text, "first clue"),
        other => panic!("unexpected screen {:?}", other),
    }
    assert_eq!(session.handle_key(Key::Other), Directive::Draw);
    assert_eq!(session.handle_key(Key::Delete), Directive::Draw);
    assert_eq!(session.phase(), Phase::ViewingClue { double: false });
    assert_eq!(session.handle_key(Key::Enter), Directive::Draw);
    assert_eq!(session.phase(), Phase::ViewingAnswer { double: false });
    match session.screen() {
        Screen::Text(text) => assert_eq!(text, "first response"),
        other => panic!("unexpected screen {:?}", other),
    }
    assert_eq!(session.handle_key(Key::Delete), Directive::Draw);
    assert_eq!(session.phase(), Phase::BrowsingBoard { double: false });
    match session.screen() {
        Screen::Board { values, .. } => {
            assert_eq!(values[0][0], None);
            assert_eq!(values[0][1], Some(200));
        }
        other => panic!("unexpected screen {:?}", other),
    }
}

#[test]
fn quitting_a_clue_marks_nothing() {
    let mut session = playing_session();
    session.handle_key(Key::Right);
    session.handle_key(Key::Enter);
    match session.screen() {
        Screen::Text(text) => assert_eq!(text, "second clue"),
        other => panic!("unexpected screen {:?}", other),
    }
    assert_eq!(session.handle_key(Key::Char('q')), Directive::Quit);
    assert_eq!(session.phase(), Phase::Quit);
}

#[test]
fn skip_round_advances_through_the_rounds() {
    let mut session = playing_session();
    session.handle_key(Key::Enter);
    session.handle_key(Key::Enter);
    session.handle_key(Key::Enter);
    session.handle_key(Key::Right);
    assert_eq!(session.handle_key(Key::Char(' ')), Directive::Draw);
    assert_eq!(session.phase(), Phase::BrowsingBoard { double: true });
    match session.screen() {
        Screen::Board { categories, values, cursor } => {
            assert_eq!(categories[0], "CATEGORY 6");
            assert_eq!(categories[5], "CATEGORY 11");
            assert_eq!(values[0][0], Some(400));
            assert_eq!(values[0][1], None);
            assert_eq!(cursor, Coords { x: 1, y: 0 });
        }
        other => panic!("unexpected screen {:?}", other),
    }
    assert_eq!(session.handle_key(Key::Char(' ')), Directive::Draw);
    assert_eq!(session.phase(), Phase::FinalClue);
    match session.screen() {
        Screen::Text(text) => assert_eq!(text, "final clue"),
        other => panic!("unexpected screen {:?}", other),
    }
    assert_eq!(session.handle_key(Key::Delete), Directive::Draw);
    assert_eq!(session.phase(), Phase::FinalClue);
    assert_eq!(session.handle_key(Key::Enter), Directive::Draw);
    assert_eq!(session.phase(), Phase::FinalAnswer);
    match session.screen() {
        Screen::Text(text) => assert_eq!(text, "final response"),
        other => panic!("unexpected screen {:?}", other),
    }
    assert_eq!(session.handle_key(Key::Enter), Directive::Draw);
    assert_eq!(session.phase(), Phase::SelectingGame);
    match session.screen() {
        Screen::Prompt { notice, input } => {
            assert_eq!(notice, Notice::Nothing);
            assert_eq!(input, "");
        }
        other => panic!("unexpected screen {:?}", other),
    }
}

#[test]
fn other_keys_change_nothing_on_the_board() {
    let mut session = playing_session();
    for key in [Key::Other, Key::Backspace, Key::Delete, Key::Char('x')] {
        assert_eq!(session.handle_key(key), Directive::Draw);
        assert_eq!(session.phase(), Phase::BrowsingBoard { double: false });
        assert_eq!(cursor_of(&session), (0, 0));
    }
}

#[test]
fn game_ids_are_numerals() {
    assert_eq!(parse_game_id("1132"), Ok(1132));
    assert_eq!(parse_game_id("0"), Ok(0));
    assert_eq!(parse_game_id(""), Err(InputParseError {}));
    assert_eq!(parse_game_id("12x"), Err(InputParseError {}));
    assert_eq!(parse_game_id("-3"), Err(InputParseError {}));
}
