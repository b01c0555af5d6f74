use chess_terminal::driver::{closing_message, GameSnapshot, Step, TurnDriver};
use chess_terminal::history::{logged_move_lines, LoggedMove};
use chess_terminal::io_view::{Board, GameStatus, IOView, Outcome, Piece};

fn back_rank(white: bool) -> Vec<Option<Piece>> {
    vec![
        Some(Piece::Rook(white)),
        Some(Piece::Knight(white)),
        Some(Piece::Bishop(white)),
        Some(Piece::Queen(white)),
        Some(Piece::King(white)),
        Some(Piece::Bishop(white)),
        Some(Piece::Knight(white)),
        Some(Piece::Rook(white)),
    ]
}

fn start_board() -> Board {
    let mut rows = vec![back_rank(true), vec![Some(Piece::Pawn(true)); 8]];
    for _ in 0..4 {
        rows.push(vec![None; 8]);
    }
    rows.push(vec![Some(Piece::Pawn(false)); 8]);
    rows.push(back_rank(false));
    Board::from_rows(rows).unwrap()
}

fn status(outcome: Outcome) -> GameStatus {
    GameStatus { white_turn: true, outcome, in_check: false }
}

fn snapshot(outcome: Outcome, log: Vec<Vec<LoggedMove>>) -> GameSnapshot {
    GameSnapshot { board: start_board(), status: status(outcome), move_log: log }
}

fn logged(n: &str) -> LoggedMove {
    LoggedMove { pgn_notation: n.to_string() }
}

#[test]
fn board_needs_eight_rows_of_eight() {
    assert!(Board::from_rows(vec![vec![None; 8]; 7]).is_none());
    let mut rows = vec![vec![None; 8]; 8];
    rows[3].pop();
    assert!(Board::from_rows(rows).is_none());
    assert!(Board::from_rows(vec![vec![None; 8]; 8]).is_some());
}

#[test]
fn cell_reads_row_then_column() {
    let b = start_board();
    assert_eq!(b.cell(0, 4), Some(Piece::King(true)));
    assert_eq!(b.cell(7, 3), Some(Piece::Queen(false)));
    assert_eq!(b.cell(4, 4), None);
}

#[test]
fn glyph_board_layout() {
    let view = IOView { use_unicode: true };
    let lines = view.update_state(&start_board(), &status(Outcome::Active));
    let expected = vec![
        "",
        "   0 1 2 3 4 5 6 7",
        "7  \u{265c} \u{265e} \u{265d} \u{265b} \u{265a} \u{265d} \u{265e} \u{265c}  7",
        "6  \u{265f}\u{fe0e} \u{265f}\u{fe0e} \u{265f}\u{fe0e} \u{265f}\u{fe0e} \u{265f}\u{fe0e} \u{265f}\u{fe0e} \u{265f}\u{fe0e} \u{265f}\u{fe0e}  6",
        "5  - - - - - - - -  5",
        "4  - - - - - - - -  4",
        "3  - - - - - - - -  3",
        "2  - - - - - - - -  2",
        "1  \u{2659} \u{2659} \u{2659} \u{2659} \u{2659} \u{2659} \u{2659} \u{2659}  1",
        "0  \u{2656} \u{2658} \u{2657} \u{2655} \u{2654} \u{2657} \u{2658} \u{2656}  0",
        "   0 1 2 3 4 5 6 7",
        "",
        "Turn: White",
        "Game State: Active",
        "In Check? false",
        "",
        "#################################",
        "",
    ];
    assert_eq!(lines, expected);
}

#[test]
fn glyph_status_block_for_black_in_check() {
    let view = IOView { use_unicode: true };
    let st = GameStatus { white_turn: false, outcome: Outcome::Checkmate, in_check: true };
    let lines = view.update_state(&start_board(), &st);
    assert_eq!(lines[12], "Turn: Black");
    assert_eq!(lines[13], "Game State: Checkmate");
    assert_eq!(lines[14], "In Check? true");
}

#[test]
fn letter_board_layout_has_no_status() {
    let view = IOView { use_unicode: false };
    let lines = view.update_state(&start_board(), &status(Outcome::Stalemate));
    let expected = vec![
        "    0  1  2  3  4  5  6  7",
        "7  bR bN bB bQ bK bB bN bR  7",
        "6  bP bP bP bP bP bP bP bP  6",
        "5  -- -- -- -- -- -- -- --  5",
        "4  -- -- -- -- -- -- -- --  4",
        "3  -- -- -- -- -- -- -- --  3",
        "2  -- -- -- -- -- -- -- --  2",
        "1  wP wP wP wP wP wP wP wP  1",
        "0  wR wN wB wQ wK wB wN wR  0",
        "    0  1  2  3  4  5  6  7",
        "",
        "#################################",
        "",
    ];
    assert_eq!(lines, expected);
}

#[test]
fn both_styles_render_eight_rows_descending() {
    let board = start_board();
    for (unicode, first) in [(true, 2usize), (false, 1usize)] {
        let lines = IOView { use_unicode: unicode }.update_state(&board, &status(Outcome::Active));
        for k in 0..8usize {
            let r = 7 - k;
            let line = &lines[first + k];
            assert!(line.starts_with(&format!("{}  ", r)));
            assert!(line.ends_with(&format!(" {}", r)));
            let cells = line[3..line.len() - 2].split_whitespace().count();
            assert_eq!(cells, 8);
        }
    }
}

#[test]
fn history_one_line_per_turn() {
    let log = vec![vec![logged("e4"), logged("e5")], vec![logged("Bc4")]];
    let lines = logged_move_lines(&log);
    assert_eq!(lines, vec!["e4 e5 ".to_string(), "Bc4 ".to_string()]);
    assert!(logged_move_lines(&Vec::new()).is_empty());
}

#[test]
fn driver_requests_moves_while_active() {
    let mut d = TurnDriver::new(snapshot(Outcome::Active, Vec::new()));
    assert_eq!(d.next_step(), Step::RequestMove(true));
    assert_eq!(d.next_step(), Step::RequestMove(true));
}

#[test]
fn refused_move_keeps_the_snapshot() {
    let mut d = TurnDriver::new(snapshot(Outcome::Active, vec![vec![logged("e4")]]));
    let before = d.history_lines();
    let msg = d.on_move_result(Err("illegal move".to_string()));
    assert_eq!(msg, Some("Unable to process move. Reason: illegal move".to_string()));
    assert_eq!(d.history_lines(), before);
    assert_eq!(d.status(), status(Outcome::Active));
    assert_eq!(d.next_step(), Step::RequestMove(true));
}

#[test]
fn accepted_move_replaces_the_snapshot() {
    let mut d = TurnDriver::new(snapshot(Outcome::Active, Vec::new()));
    let mut next = snapshot(Outcome::Active, vec![vec![logged("e4")]]);
    next.status.white_turn = false;
    assert_eq!(d.on_move_result(Ok(next)), None);
    assert_eq!(d.history_lines(), vec!["e4 ".to_string()]);
    assert_eq!(d.next_step(), Step::RequestMove(false));
    let lines = d.board_lines(&IOView { use_unicode: true });
    assert_eq!(lines[12], "Turn: Black");
}

#[test]
fn game_over_is_announced_once() {
    let mut d = TurnDriver::new(snapshot(Outcome::Active, Vec::new()));
    let end = snapshot(Outcome::Checkmate, Vec::new());
    assert_eq!(d.on_move_result(Ok(end)), None);
    assert_eq!(d.next_step(), Step::GameOver);
    for _ in 0..3 {
        assert_eq!(d.next_step(), Step::Stopped);
    }
    assert_eq!(closing_message(), "Game Over!");
}
