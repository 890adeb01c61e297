use brrr::parser::{
    collect_labels, decode_cell_match, decode_coordinate, group_text, parse_page, pick_last,
    place_answers, place_clues, populate_board, populate_categories, populate_final_jeopardy,
};
use brrr::pattern::Patterns;
use brrr::{Board, JeopardyQuestion};

fn page_with_categories(count: usize, body: &str) -> String {
    let mut page = String::new();
    for i in 0..count {
        page.push_str(&format!("<td class=\"category_name\">CATEGORY {}</td>\n", i));
    }
    page.push_str(body);
    page
}

fn clue_line(round: &str, x: usize, y: usize, text: &str) -> String {
    format!("<td id=\"clue_{}_{}_{}\" class=\"clue_text\">{}</td>\n", round, x, y, text)
}

fn answer_line(round: &str, x: usize, y: usize, text: &str) -> String {
    format!(
        "<div onmouseover=\"toggle('clue_{}_{}_{}', 'stuck', '&lt;em class=&quot;correct_response&quot;&gt;{}&lt;/em&gt;')\">\n",
        round, x, y, text
    )
}

fn groups(texts: &[Option<&str>]) -> Vec<Option<String>> {
    texts.iter().map(|t| t.map(|s| s.to_string())).collect()
}

#[test]
fn single_clue_at_source_coordinates_one_one() {
    let patterns = Patterns::new().expect("patterns compile");
    let mut body = String::new();
    body.push_str(&clue_line("J", 1, 1, "A <i>first</i> clue &amp; more"));
    body.push_str(&answer_line("J", 1, 1, "An &lt;i&gt;answer&lt;/i&gt;"));
    let page = page_with_categories(13, &body);
    let game = parse_page(&patterns, &page).expect("thirteen categories");
    let cell = game.board_1().cell(0, 0);
    assert_eq!(cell.value(), 200);
    assert_eq!(cell.x(), 0);
    assert_eq!(cell.y(), 0);
    assert_eq!(cell.clue(), "A first clue & more");
    assert_eq!(cell.answer(), "An answer");
    assert_eq!(game.board_1().cell(1, 0).value(), 0);
    assert_eq!(game.board_1().cell(1, 0).clue(), "");
    assert_eq!(game.board_2().cell(0, 0).value(), 0);
}

#[test]
fn successful_parse_yields_thirteen_categories() {
    let patterns = Patterns::new().expect("patterns compile");
    let page = page_with_categories(13, "");
    let game = parse_page(&patterns, &page).expect("thirteen categories");
    assert_eq!(game.categories().len(), 13);
    assert_eq!(game.category(0), "CATEGORY 0");
    assert_eq!(game.round_category(false, 5), "CATEGORY 5");
    assert_eq!(game.round_category(true, 0), "CATEGORY 6");
    assert_eq!(game.round_category(true, 5), "CATEGORY 11");
    assert_eq!(game.final_category(), "CATEGORY 12");
}

#[test]
fn wrong_category_count_is_incomplete() {
    let patterns = Patterns::new().expect("patterns compile");
    for count in [0usize, 1, 12, 14] {
        let mut body = String::new();
        body.push_str(&clue_line("J", 2, 3, "kept"));
        let page = page_with_categories(count, &body);
        let err = parse_page(&patterns, &page).expect_err("not thirteen categories");
        assert_eq!(err.categories.len(), count);
        assert_eq!(err.board_1.cell(1, 2).clue(), "kept");
        assert_eq!(err.board_1.cell(1, 2).value(), 600);
    }
}

#[test]
fn both_rounds_and_final_are_read() {
    let patterns = Patterns::new().expect("patterns compile");
    let mut body = String::new();
    body.push_str(&clue_line("J", 6, 5, "single corner"));
    body.push_str(&answer_line("J", 6, 5, "single response"));
    body.push_str(&clue_line("DJ", 3, 2, "double clue"));
    body.push_str(&answer_line("DJ", 3, 2, "double response"));
    body.push_str("<td id=\"clue_FJ\" class=\"clue_text\">final <b>clue</b></td>\n");
    body.push_str(
        "<div onmouseover=\"toggle('clue_FJ', '&lt;em class=\\&quot;correct_response\\&quot;&gt;final response&lt;/em&gt;')\">\n",
    );
    let page = page_with_categories(13, &body);
    let game = parse_page(&patterns, &page).expect("thirteen categories");
    let single = game.board_1().cell(5, 4);
    assert_eq!(single.value(), 1000);
    assert_eq!(single.x(), 5);
    assert_eq!(single.y(), 4);
    assert_eq!(single.clue(), "single corner");
    assert_eq!(single.answer(), "single response");
    let double = game.board_2().cell(2, 1);
    assert_eq!(double.value(), 800);
    assert_eq!(double.clue(), "double clue");
    assert_eq!(double.answer(), "double response");
    assert_eq!(game.board_1().cell(2, 1).value(), 0);
    assert_eq!(game.board_2().cell(5, 4).value(), 0);
    assert_eq!(game.final_jeopardy().clue(), "final clue");
    assert_eq!(game.final_jeopardy().answer(), "final response");
    assert_eq!(game.final_jeopardy().value(), 0);
}

#[test]
fn clue_without_answer_keeps_empty_answer() {
    let patterns = Patterns::new().expect("patterns compile");
    let page = page_with_categories(13, &clue_line("J", 4, 2, "lonely"));
    let game = parse_page(&patterns, &page).expect("thirteen categories");
    let cell = game.board_1().cell(3, 1);
    assert_eq!(cell.clue(), "lonely");
    assert_eq!(cell.answer(), "");
    assert_eq!(cell.value(), 400);
}

#[test]
fn coordinates_off_the_grid_are_passed_over() {
    let patterns = Patterns::new().expect("patterns compile");
    let mut body = String::new();
    body.push_str(&clue_line("J", 7, 1, "column seven"));
    body.push_str(&clue_line("J", 1, 6, "row six"));
    body.push_str(&clue_line("J", 0, 1, "column zero"));
    body.push_str(&clue_line("J", 1, 0, "row zero"));
    body.push_str(&answer_line("J", 9, 9, "nowhere"));
    let mut board = Board::new();
    populate_board(&patterns, &body, &mut board, false);
    for y in 0..5 {
        for x in 0..6 {
            assert_eq!(board.cell(x, y).clue(), "");
            assert_eq!(board.cell(x, y).answer(), "");
            assert_eq!(board.cell(x, y).value(), 0);
        }
    }
}

#[test]
fn populate_board_reads_only_its_round() {
    let patterns = Patterns::new().expect("patterns compile");
    let mut body = String::new();
    body.push_str(&clue_line("J", 1, 1, "single"));
    body.push_str(&clue_line("DJ", 1, 1, "double"));
    let mut first = Board::new();
    populate_board(&patterns, &body, &mut first, false);
    assert_eq!(first.cell(0, 0).clue(), "single");
    assert_eq!(first.cell(0, 0).value(), 200);
    let mut second = Board::new();
    populate_board(&patterns, &body, &mut second, true);
    assert_eq!(second.cell(0, 0).clue(), "double");
    assert_eq!(second.cell(0, 0).value(), 400);
}

#[test]
fn populate_categories_appends_in_page_order() {
    let patterns = Patterns::new().expect("patterns compile");
    let mut categories = vec![String::from("EARLIER")];
    let page = "<td class=\"category_name\">A &amp; B</td>\n<td class=\"category_name\"><i>C</i></td>\n";
    populate_categories(&patterns, page, &mut categories);
    assert_eq!(categories, vec!["EARLIER", "A & B", "C"]);
}

#[test]
fn populate_final_jeopardy_keeps_what_is_not_found() {
    let patterns = Patterns::new().expect("patterns compile");
    let mut q = JeopardyQuestion::default();
    q.set_clue(String::from("old clue"));
    q.set_answer(String::from("old answer"));
    populate_final_jeopardy(&patterns, "nothing here", &mut q);
    assert_eq!(q.clue(), "old clue");
    assert_eq!(q.answer(), "old answer");
    populate_final_jeopardy(
        &patterns,
        "<td id=\"clue_FJ\" class=\"clue_text\">new clue</td>\n",
        &mut q,
    );
    assert_eq!(q.clue(), "new clue");
    assert_eq!(q.answer(), "old answer");
}

#[test]
fn last_final_clue_wins() {
    let patterns = Patterns::new().expect("patterns compile");
    let mut q = JeopardyQuestion::default();
    let page = "<td id=\"clue_FJ\" class=\"clue_text\">first</td>\n<td id=\"clue_FJ\" class=\"clue_text\">second</td>\n";
    populate_final_jeopardy(&patterns, page, &mut q);
    assert_eq!(q.clue(), "second");
}

#[test]
fn group_text_reads_groups() {
    let m = groups(&[Some("whole"), Some("1"), None]);
    assert_eq!(group_text(&m, 0), Some("whole"));
    assert_eq!(group_text(&m, 1), Some("1"));
    assert_eq!(group_text(&m, 2), None);
    assert_eq!(group_text(&m, 3), None);
}

#[test]
fn decode_coordinate_counts_from_one() {
    assert_eq!(decode_coordinate(Some("1"), 6), Some(0));
    assert_eq!(decode_coordinate(Some("6"), 6), Some(5));
    assert_eq!(decode_coordinate(Some("7"), 6), None);
    assert_eq!(decode_coordinate(Some("0"), 6), None);
    assert_eq!(decode_coordinate(Some("5"), 5), Some(4));
    assert_eq!(decode_coordinate(Some("6"), 5), None);
    assert_eq!(decode_coordinate(Some("x"), 6), None);
    assert_eq!(decode_coordinate(Some(""), 6), None);
    assert_eq!(decode_coordinate(Some("٣"), 6), None);
    assert_eq!(decode_coordinate(None, 6), None);
}

#[test]
fn decode_cell_match_needs_all_three_groups() {
    let m = groups(&[Some("w"), Some("2"), Some("3"), Some("text")]);
    assert_eq!(decode_cell_match(&m), Some((1, 2, "text")));
    assert_eq!(decode_cell_match(&groups(&[Some("w"), Some("2"), Some("3")])), None);
    assert_eq!(decode_cell_match(&groups(&[Some("w"), Some("2"), Some("3"), None])), None);
    assert_eq!(decode_cell_match(&groups(&[Some("w"), None, Some("3"), Some("t")])), None);
    assert_eq!(decode_cell_match(&groups(&[Some("w"), Some("7"), Some("3"), Some("t")])), None);
    assert_eq!(decode_cell_match(&groups(&[Some("w"), Some("2"), Some("6"), Some("t")])), None);
    assert_eq!(decode_cell_match(&groups(&[])), None);
}

#[test]
fn place_clues_and_answers_on_given_matches() {
    let patterns = Patterns::new().expect("patterns compile");
    let mut board = Board::new();
    let clues = vec![
        groups(&[Some("w"), Some("1"), Some("1"), Some("<i>a</i>")]),
        groups(&[Some("w"), Some("9"), Some("1"), Some("skipped")]),
        groups(&[Some("w"), Some("1"), Some("1"), Some("b")]),
        groups(&[Some("w"), Some("6"), Some("5"), Some("z")]),
    ];
    place_clues(&patterns, &mut board, &clues, true);
    assert_eq!(board.cell(0, 0).clue(), "ab");
    assert_eq!(board.cell(0, 0).value(), 400);
    assert_eq!(board.cell(5, 4).clue(), "z");
    assert_eq!(board.cell(5, 4).value(), 2000);
    let answers = vec![groups(&[Some("w"), Some("6"), Some("5"), Some("r &amp; s")])];
    place_answers(&patterns, &mut board, &answers);
    assert_eq!(board.cell(5, 4).answer(), "r & s");
    assert_eq!(board.cell(5, 4).value(), 2000);
    assert_eq!(board.cell(0, 0).answer(), "");
}

#[test]
fn collect_labels_skips_matches_without_text() {
    let patterns = Patterns::new().expect("patterns compile");
    let found = vec![
        groups(&[Some("w"), Some("ONE")]),
        groups(&[Some("w"), None]),
        groups(&[Some("w")]),
        groups(&[Some("w"), Some("<b>TWO</b>")]),
    ];
    let mut labels = Vec::new();
    collect_labels(&patterns, &found, &mut labels);
    assert_eq!(labels, vec!["ONE", "TWO"]);
}

#[test]
fn pick_last_takes_the_last_text() {
    let patterns = Patterns::new().expect("patterns compile");
    let found = vec![
        groups(&[Some("w"), Some("first")]),
        groups(&[Some("w"), Some("<u>last</u>")]),
        groups(&[Some("w"), None]),
    ];
    assert_eq!(pick_last(&patterns, &found), Some(String::from("last")));
    assert_eq!(pick_last(&patterns, &Vec::new()), None);
    assert_eq!(pick_last(&patterns, &vec![groups(&[Some("w")])]), None);
}
