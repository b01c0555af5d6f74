use chess_terminal::io_controller::{read_move, IOController, MoveSourceKind};
use chess_terminal::piece_move::{parse_move_line, parse_move_text, Position};
use chess_terminal::text::{chars_of, string_of};

fn lines(ls: &[&str]) -> Vec<String> {
    ls.iter().map(|l| l.to_string()).collect()
}

#[test]
fn four_tokens_give_a_move_without_promotion() {
    let m = parse_move_text("4,1,4,3").unwrap();
    assert_eq!(m.start, Position { column: 4, row: 1 });
    assert_eq!(m.end, Position { column: 4, row: 3 });
    assert_eq!(m.promotion, None);
}

#[test]
fn five_tokens_give_a_move_with_promotion() {
    let m = parse_move_text("4,1,4,3,Q").unwrap();
    assert_eq!(m.start, Position { column: 4, row: 1 });
    assert_eq!(m.end, Position { column: 4, row: 3 });
    assert_eq!(m.promotion, Some("Q".to_string()));
}

#[test]
fn column_comes_before_row() {
    let m = parse_move_text("6,7,5,5").unwrap();
    assert_eq!(m.start.column, 6);
    assert_eq!(m.start.row, 7);
    assert_eq!(m.end.column, 5);
    assert_eq!(m.end.row, 5);
}

#[test]
fn three_tokens_are_rejected() {
    assert!(parse_move_text("4,1,4").is_none());
}

#[test]
fn six_tokens_are_rejected() {
    assert!(parse_move_text("4,1,4,3,Q,R").is_none());
}

#[test]
fn letter_coordinate_is_rejected() {
    assert!(parse_move_text("a,1,4,3").is_none());
}

#[test]
fn empty_line_is_rejected() {
    assert!(parse_move_text("").is_none());
    assert!(parse_move_line("\n").is_none());
}

#[test]
fn empty_coordinate_is_rejected() {
    assert!(parse_move_text("4,,4,3").is_none());
}

#[test]
fn coordinates_are_not_range_checked() {
    let m = parse_move_text("9,12,0,100").unwrap();
    assert_eq!(m.start, Position { column: 9, row: 12 });
    assert_eq!(m.end, Position { column: 0, row: 100 });
}

#[test]
fn coordinate_too_large_for_usize_is_rejected() {
    assert!(parse_move_text("99999999999999999999999,1,4,3").is_none());
    let max = format!("{},1,4,3", usize::MAX);
    assert_eq!(parse_move_text(&max).unwrap().start.column, usize::MAX);
}

#[test]
fn promotion_is_kept_verbatim() {
    let m = parse_move_text("0,6,0,7,knight").unwrap();
    assert_eq!(m.promotion, Some("knight".to_string()));
    let e = parse_move_text("0,6,0,7,").unwrap();
    assert_eq!(e.promotion, Some(String::new()));
}

#[test]
fn line_is_trimmed_before_parsing() {
    let m = parse_move_line("  4,1,4,3,Q \r\n").unwrap();
    assert_eq!(m.start, Position { column: 4, row: 1 });
    assert_eq!(m.promotion, Some("Q".to_string()));
    assert!(parse_move_text("4,1,4,3\n").is_none());
}

#[test]
fn text_form_reads_back_to_the_same_move() {
    let m = parse_move_text("3,0,7,4,Q").unwrap();
    let text = format!(
        "{},{},{},{},{}",
        m.start.column,
        m.start.row,
        m.end.column,
        m.end.row,
        m.promotion.clone().unwrap()
    );
    let again = parse_move_text(&text).unwrap();
    assert_eq!(again.start, m.start);
    assert_eq!(again.end, m.end);
    assert_eq!(again.promotion, m.promotion);
}

#[test]
fn rejected_lines_are_skipped_until_a_move() {
    let ls = lines(&["4,1,4", "a,1,4,3", "4,1,4,3", "4,6,4,4"]);
    let r = read_move(&ls, 0);
    let m = r.piece_move.unwrap();
    assert_eq!(m.start, Position { column: 4, row: 1 });
    assert_eq!(m.end, Position { column: 4, row: 3 });
    assert_eq!(r.consumed, 3);
    assert_eq!(r.rejected, 2);
}

#[test]
fn rejections_only_advance_the_reading_place() {
    let ls = lines(&["x", "1,2", "4,6,4,4"]);
    let a = read_move(&ls, 0);
    let b = read_move(&ls, 1);
    assert_eq!(a.piece_move.unwrap().start, b.piece_move.unwrap().start);
    assert_eq!(a.consumed, b.consumed + 1);
    assert_eq!(a.rejected, b.rejected + 1);
}

#[test]
fn running_out_of_lines_gives_no_move() {
    let ls = lines(&["bad", "4,1"]);
    let r = read_move(&ls, 0);
    assert!(r.piece_move.is_none());
    assert_eq!(r.consumed, 2);
    assert_eq!(r.rejected, 2);
    let none = read_move(&ls, 2);
    assert!(none.piece_move.is_none());
    assert_eq!(none.consumed, 0);
}

#[test]
fn sources_follow_the_flags() {
    let c = IOController::new(true, false);
    assert_eq!(c.source_for(true), MoveSourceKind::Human);
    assert_eq!(c.source_for(false), MoveSourceKind::Agent);
}

#[test]
fn agent_side_reads_as_a_human_side() {
    let ls = lines(&["oops", "5,0,2,3"]);
    let human = IOController::new(true, true);
    let agents = IOController::new(false, false);
    for white in [true, false] {
        let a = human.get_move(white, &ls, 0);
        let b = agents.get_move(white, &ls, 0);
        let (ma, mb) = (a.piece_move.unwrap(), b.piece_move.unwrap());
        assert_eq!(ma.start, mb.start);
        assert_eq!(ma.end, mb.end);
        assert_eq!(ma.start, Position { column: 5, row: 0 });
        assert_eq!(a.consumed, b.consumed);
        assert_eq!(a.rejected, 1);
        assert_eq!(b.rejected, 1);
    }
}

#[test]
fn chars_and_strings_round_trip() {
    let cs = chars_of("a\u{2657}b");
    assert_eq!(cs, vec!['a', '\u{2657}', 'b']);
    assert_eq!(string_of(&cs), "a\u{2657}b");
}
