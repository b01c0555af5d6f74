use vstd::prelude::*;

use crate::piece_move::digit_char;
use crate::text::{lines_view, owned, push_char, push_line};

verus! {

/// A piece as the board shows it; the flag is true for white.
#[derive(Clone, Copy, PartialEq, Eq, Structural, Debug)]
pub enum Piece {
    Pawn(bool),
    Knight(bool),
    Bishop(bool),
    Rook(bool),
    Queen(bool),
    King(bool),
}

/// The state of play that the rule engine reports.
#[derive(Clone, Copy, PartialEq, Eq, Structural, Debug)]
pub enum Outcome {
    Active,
    Checkmate,
    Stalemate,
    Draw,
}

/// Whose turn it is, the state of play and whether the side to move is in check.
#[derive(Clone, Copy, PartialEq, Eq, Structural, Debug)]
pub struct GameStatus {
    pub white_turn: bool,
    pub outcome: Outcome,
    pub in_check: bool,
}

pub open spec fn is_grid(rows: Seq<Seq<Option<Piece>>>) -> bool {
    &&& rows.len() == 8
    &&& forall|r: int| 0 <= r < 8 ==> (#[trigger] rows[r]).len() == 8
}

/// An 8 by 8 board, rank 0 (white's back rank) first; each cell holds a piece or nothing.
pub struct Board {
    rows: Vec<Vec<Option<Piece>>>,
}

impl View for Board {
    type V = Seq<Seq<Option<Piece>>>;

    closed spec fn view(&self) -> Seq<Seq<Option<Piece>>> {
        self.rows@.map_values(|r: Vec<Option<Piece>>| r@)
    }
}

impl Board {
    #[verifier::type_invariant]
    spec fn shaped(self) -> bool {
        is_grid(self@)
    }

    /// The board with the given rows, where there are 8 rows of 8 cells.
    pub fn from_rows(rows: Vec<Vec<Option<Piece>>>) -> (r: Option<Board>)
        ensures
            r is Some <==> is_grid(rows@.map_values(|r: Vec<Option<Piece>>| r@)),
            r is Some ==> r->0@ == rows@.map_values(|r: Vec<Option<Piece>>| r@),
    {
        let ghost v = rows@.map_values(|r: Vec<Option<Piece>>| r@);
        if rows.len() != 8 {
            return None;
        }
        for i in 0..8usize
            invariant
                rows.len() == 8,
                v == rows@.map_values(|r: Vec<Option<Piece>>| r@),
                forall|r: int| 0 <= r < i ==> (#[trigger] v[r]).len() == 8,
        {
            if rows[i].len() != 8 {
                assert(v[i as int].len() != 8);
                return None;
            }
        }
        Some(Board { rows })
    }

    /// The cell at the given row and column.
    pub fn cell(&self, row: usize, column: usize) -> (r: Option<Piece>)
        requires
            row < 8,
            column < 8,
        ensures
            r == self@[row as int][column as int],
    {
        proof {
            use_type_invariant(self);
            assert(self@[row as int] == self.rows@[row as int]@);
        }
        self.rows[row][column]
    }
}

pub open spec fn glyph_cell(c: Option<Piece>) -> Seq<char> {
    match c {
        None => "- "@,
        Some(Piece::Bishop(w)) => if w { "\u{2657} "@ } else { "\u{265d} "@ },
        Some(Piece::King(w)) => if w { "\u{2654} "@ } else { "\u{265a} "@ },
        Some(Piece::Knight(w)) => if w { "\u{2658} "@ } else { "\u{265e} "@ },
        Some(Piece::Pawn(w)) => if w { "\u{2659} "@ } else { "\u{265f}\u{fe0e} "@ },
        Some(Piece::Queen(w)) => if w { "\u{2655} "@ } else { "\u{265b} "@ },
        Some(Piece::Rook(w)) => if w { "\u{2656} "@ } else { "\u{265c} "@ },
    }
}

pub open spec fn letter_cell(c: Option<Piece>) -> Seq<char> {
    match c {
        None => "-- "@,
        Some(p) => {
            let (w, k) = match p {
                Piece::Bishop(w) => (w, 'B'),
                Piece::King(w) => (w, 'K'),
                Piece::Knight(w) => (w, 'N'),
                Piece::Pawn(w) => (w, 'P'),
                Piece::Queen(w) => (w, 'Q'),
                Piece::Rook(w) => (w, 'R'),
            };
            seq![if w { 'w' } else { 'b' }, k, ' ']
        },
    }
}

/// The text of one cell: a glyph per piece, or a colour letter and a piece letter.
pub open spec fn cell_text(glyphs: bool, c: Option<Piece>) -> Seq<char> {
    if glyphs {
        glyph_cell(c)
    } else {
        letter_cell(c)
    }
}

/// The cells of a row, one after the other.
pub open spec fn cells_text(glyphs: bool, row: Seq<Option<Piece>>) -> Seq<char>
    decreases row.len(),
{
    if row.len() == 0 {
        Seq::empty()
    } else {
        cells_text(glyphs, row.drop_last()) + cell_text(glyphs, row.last())
    }
}

/// One rendered row: its index, its cells, and its index again.
pub open spec fn row_line(glyphs: bool, r: int, row: Seq<Option<Piece>>) -> Seq<char> {
    seq![digit_char(r as nat)] + "  "@ + cells_text(glyphs, row) + seq![' ', digit_char(r as nat)]
}

/// The eight rows of a board, from row 7 down to row 0.
pub open spec fn board_rows(glyphs: bool, board: Seq<Seq<Option<Piece>>>) -> Seq<Seq<char>> {
    Seq::new(8, |k: int| row_line(glyphs, 7 - k, board[7 - k]))
}

pub open spec fn glyph_header() -> Seq<char> {
    "   0 1 2 3 4 5 6 7"@
}

pub open spec fn letter_header() -> Seq<char> {
    "    0  1  2  3  4  5  6  7"@
}

pub open spec fn separator() -> Seq<char> {
    "#################################"@
}

pub open spec fn outcome_name(o: Outcome) -> Seq<char> {
    match o {
        Outcome::Active => "Active"@,
        Outcome::Checkmate => "Checkmate"@,
        Outcome::Stalemate => "Stalemate"@,
        Outcome::Draw => "Draw"@,
    }
}

pub open spec fn bool_name(b: bool) -> Seq<char> {
    if b {
        "true"@
    } else {
        "false"@
    }
}

/// The status block: whose turn it is, the state of play and the check flag.
pub open spec fn status_lines(s: GameStatus) -> Seq<Seq<char>> {
    seq![
        if s.white_turn { "Turn: White"@ } else { "Turn: Black"@ },
        "Game State: "@ + outcome_name(s.outcome),
        "In Check? "@ + bool_name(s.in_check),
    ]
}

/// The screen in the glyph style: board between column headers, then the status block.
pub open spec fn glyph_screen(board: Seq<Seq<Option<Piece>>>, s: GameStatus) -> Seq<Seq<char>> {
    seq![Seq::empty(), glyph_header()] + board_rows(true, board) + seq![
        glyph_header(),
        Seq::empty(),
    ] + status_lines(s) + seq![Seq::empty(), separator(), Seq::empty()]
}

/// The screen in the letter style: board between column headers, with no status block.
pub open spec fn letter_screen(board: Seq<Seq<Option<Piece>>>) -> Seq<Seq<char>> {
    seq![letter_header()] + board_rows(false, board) + seq![
        letter_header(),
        Seq::empty(),
        separator(),
        Seq::empty(),
    ]
}

/// Whichever the style, a rendered board holds exactly eight row lines, one after the
/// other, for rows 7 down to 0, and each is made of its row's eight cells.
pub proof fn lemma_eight_rows_descending(
    view: IOView,
    board: Seq<Seq<Option<Piece>>>,
    status: GameStatus,
    k: int,
)
    requires
        is_grid(board),
        0 <= k < 8,
    ensures
        ({
            let first = if view.use_unicode {
                2int
            } else {
                1int
            };
            &&& view.screen(board, status)[first + k] == row_line(
                view.use_unicode,
                7 - k,
                board[7 - k],
            )
            &&& board[7 - k].len() == 8
            &&& view.screen(board, status).len() == first + 8 + (if view.use_unicode {
                8int
            } else {
                4int
            })
        }),
{
    let rows = board_rows(view.use_unicode, board);
    assert(rows.len() == 8);
    assert(rows[k] == row_line(view.use_unicode, 7 - k, board[7 - k]));
    if view.use_unicode {
        let head = seq![Seq::<char>::empty(), glyph_header()];
        let tail = seq![glyph_header(), Seq::<char>::empty()];
        let sc = glyph_screen(board, status);
        assert((head + rows)[2 + k] == rows[k]);
        assert(((head + rows) + tail)[2 + k] == rows[k]);
        assert(sc[2 + k] == rows[k]);
    } else {
        let sc = letter_screen(board);
        assert((seq![letter_header()] + rows)[1 + k] == rows[k]);
        assert(sc[1 + k] == rows[k]);
    }
}

/// The decimal digit for `d`.
fn digit(d: usize) -> (r: char)
    requires
        d < 10,
    ensures
        r == digit_char(d as nat),
{
    match d {
        0 => '0',
        1 => '1',
        2 => '2',
        3 => '3',
        4 => '4',
        5 => '5',
        6 => '6',
        7 => '7',
        8 => '8',
        _ => '9',
    }
}

fn glyph_str(c: Option<Piece>) -> (r: &'static str)
    ensures
        r@ == glyph_cell(c),
{
    match c {
        None => "- ",
        Some(Piece::Bishop(w)) => if w { "\u{2657} " } else { "\u{265d} " },
        Some(Piece::King(w)) => if w { "\u{2654} " } else { "\u{265a} " },
        Some(Piece::Knight(w)) => if w { "\u{2658} " } else { "\u{265e} " },
        Some(Piece::Pawn(w)) => if w { "\u{2659} " } else { "\u{265f}\u{fe0e} " },
        Some(Piece::Queen(w)) => if w { "\u{2655} " } else { "\u{265b} " },
        Some(Piece::Rook(w)) => if w { "\u{2656} " } else { "\u{265c} " },
    }
}

/// Appends the text of one cell.
fn push_cell(glyphs: bool, out: &mut String, c: Option<Piece>)
    ensures
        final(out)@ == old(out)@ + cell_text(glyphs, c),
{
    if glyphs {
        out.append(glyph_str(c));
        return;
    }
    match c {
        None => {
            out.append("-- ");
        },
        Some(p) => {
            let (w, k) = match p {
                Piece::Bishop(w) => (w, 'B'),
                Piece::King(w) => (w, 'K'),
                Piece::Knight(w) => (w, 'N'),
                Piece::Pawn(w) => (w, 'P'),
                Piece::Queen(w) => (w, 'Q'),
                Piece::Rook(w) => (w, 'R'),
            };
            push_char(out, if w { 'w' } else { 'b' });
            push_char(out, k);
            push_char(out, ' ');
        },
    }
    assert(final(out)@ =~= old(out)@ + cell_text(glyphs, c));
}

/// The text of row `r`.
fn row_text(glyphs: bool, r: usize, row: &Vec<Option<Piece>>) -> (s: String)
    requires
        r < 8,
    ensures
        s@ == row_line(glyphs, r as int, row@),
{
    let d = digit(r);
    let mut s = String::new();
    push_char(&mut s, d);
    s.append("  ");
    for j in 0..row.len()
        invariant
            d == digit_char(r as nat),
            s@ == seq![d] + "  "@ + cells_text(glyphs, row@.take(j as int)),
    {
        push_cell(glyphs, &mut s, row[j]);
        assert(row@.take(j + 1).drop_last() == row@.take(j as int));
        assert(s@ =~= seq![d] + "  "@ + cells_text(glyphs, row@.take(j + 1)));
    }
    push_char(&mut s, ' ');
    push_char(&mut s, d);
    assert(row@.take(row.len() as int) == row@);
    assert(s@ =~= row_line(glyphs, r as int, row@));
    s
}

/// Appends the eight rows of the board, row 7 first.
fn push_board_rows(glyphs: bool, board: &Board, out: &mut Vec<String>)
    ensures
        lines_view(final(out)@) == lines_view(old(out)@) + board_rows(glyphs, board@),
{
    proof {
        use_type_invariant(board);
    }
    let ghost start = lines_view(out@);
    for k in 0..8usize
        invariant
            is_grid(board@),
            lines_view(out@) == start + board_rows(glyphs, board@).take(k as int),
    {
        let r = 7 - k;
        assert(board@[r as int] == board.rows@[r as int]@);
        let line = row_text(glyphs, r, &board.rows[r]);
        push_line(out, line);
        assert(board_rows(glyphs, board@).take(k + 1) =~= board_rows(glyphs, board@).take(
            k as int,
        ).push(line@));
        assert(lines_view(out@) =~= start + board_rows(glyphs, board@).take(k + 1));
    }
    assert(board_rows(glyphs, board@).take(8) =~= board_rows(glyphs, board@));
}

fn outcome_str(o: Outcome) -> (r: &'static str)
    ensures
        r@ == outcome_name(o),
{
    match o {
        Outcome::Active => "Active",
        Outcome::Checkmate => "Checkmate",
        Outcome::Stalemate => "Stalemate",
        Outcome::Draw => "Draw",
    }
}

/// Renders the board and status as lines of text, in one of two styles.
pub struct IOView {
    pub use_unicode: bool,
}

impl IOView {
    /// The lines that show the given board and status, in this view's style.
    pub open spec fn screen(self, board: Seq<Seq<Option<Piece>>>, s: GameStatus) -> Seq<Seq<char>> {
        if self.use_unicode {
            glyph_screen(board, s)
        } else {
            letter_screen(board)
        }
    }

    /// Renders a board and status received from the engine.
    pub fn update_state(&self, board: &Board, status: &GameStatus) -> (r: Vec<String>)
        ensures
            lines_view(r@) == self.screen(board@, *status),
    {
        if self.use_unicode {
            self.unicode_board_lines(board, status)
        } else {
            self.letter_board_lines(board, status)
        }
    }

    fn unicode_board_lines(&self, board: &Board, status: &GameStatus) -> (r: Vec<String>)
        ensures
            lines_view(r@) == glyph_screen(board@, *status),
    {
        let mut out: Vec<String> = Vec::new();
        push_line(&mut out, String::new());
        push_line(&mut out, owned("   0 1 2 3 4 5 6 7"));
        push_board_rows(true, board, &mut out);
        push_line(&mut out, owned("   0 1 2 3 4 5 6 7"));
        push_line(&mut out, String::new());
        if status.white_turn {
            push_line(&mut out, owned("Turn: White"));
        } else {
            push_line(&mut out, owned("Turn: Black"));
        }
        let mut state = owned("Game State: ");
        state.append(outcome_str(status.outcome));
        push_line(&mut out, state);
        let mut check = owned("In Check? ");
        check.append(if status.in_check { "true" } else { "false" });
        push_line(&mut out, check);
        push_line(&mut out, String::new());
        push_line(&mut out, owned("#################################"));
        push_line(&mut out, String::new());
        assert(lines_view(out@) =~= glyph_screen(board@, *status));
        out
    }

    fn letter_board_lines(&self, board: &Board, _status: &GameStatus) -> (r: Vec<String>)
        ensures
            lines_view(r@) == letter_screen(board@),
    {
        let mut out: Vec<String> = Vec::new();
        push_line(&mut out, owned("    0  1  2  3  4  5  6  7"));
        push_board_rows(false, board, &mut out);
        push_line(&mut out, owned("    0  1  2  3  4  5  6  7"));
        push_line(&mut out, String::new());
        push_line(&mut out, owned("#################################"));
        push_line(&mut out, String::new());
        assert(lines_view(out@) =~= letter_screen(board@));
        out
    }
}

} // verus!
