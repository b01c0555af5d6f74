use vstd::prelude::*;

use crate::piece_move::{move_of_line, parse_move_line, MoveModel, PieceMove};
use crate::text::lines_view;

verus! {

/// What came of reading input lines until one held a move.
pub struct MoveRead {
    /// The move read, or `None` where the lines ran out first.
    pub piece_move: Option<PieceMove>,
    /// How many lines were read, the accepted one included.
    pub consumed: usize,
    /// How many lines were rejected; each is owed an "Invalid Input" notice.
    pub rejected: usize,
}

pub struct MoveReadModel {
    pub piece_move: Option<MoveModel>,
    pub consumed: int,
    pub rejected: int,
}

impl View for MoveRead {
    type V = MoveReadModel;

    open spec fn view(&self) -> MoveReadModel {
        MoveReadModel {
            piece_move: match self.piece_move {
                Some(m) => Some(m@),
                None => None,
            },
            consumed: self.consumed as int,
            rejected: self.rejected as int,
        }
    }
}

/// The index of the first line at or after `from` that holds a move, or the number
/// of lines where none does.
pub open spec fn first_valid(lines: Seq<Seq<char>>, from: int) -> int
    decreases lines.len() - from,
{
    if from < 0 || from >= lines.len() {
        lines.len() as int
    } else if move_of_line(lines[from]) is Some {
        from
    } else {
        first_valid(lines, from + 1)
    }
}

/// Reading from line `from` on: every line that holds no move is rejected and the next
/// one is read, until a line holds a move or the lines run out.
pub open spec fn read_from(lines: Seq<Seq<char>>, from: int) -> MoveReadModel {
    let i = first_valid(lines, from);
    if i < lines.len() {
        MoveReadModel {
            piece_move: move_of_line(lines[i]),
            consumed: i + 1 - from,
            rejected: i - from,
        }
    } else {
        MoveReadModel { piece_move: None, consumed: lines.len() - from, rejected: lines.len() - from }
    }
}

/// Reads lines from index `from` on until one holds a move.
pub fn read_move(lines: &Vec<String>, from: usize) -> (r: MoveRead)
    requires
        from <= lines.len(),
    ensures
        r@ == read_from(lines_view(lines@), from as int),
{
    let ghost ls = lines_view(lines@);
    let mut i: usize = from;
    while i < lines.len()
        invariant
            from <= i <= lines.len(),
            ls == lines_view(lines@),
            first_valid(ls, from as int) == first_valid(ls, i as int),
        decreases lines.len() - i,
    {
        assert(ls[i as int] == lines@[i as int]@);
        match parse_move_line(lines[i].as_str()) {
            Some(m) => {
                return MoveRead { piece_move: Some(m), consumed: i - from + 1, rejected: i - from };
            },
            None => {},
        }
        i = i + 1;
    }
    MoveRead { piece_move: None, consumed: lines.len() - from, rejected: lines.len() - from }
}

/// Where the moves of one side come from.
#[derive(Clone, Copy, PartialEq, Eq, Structural, Debug)]
pub enum MoveSourceKind {
    Human,
    Agent,
}

/// Moves read from the terminal when it is a human side's turn. An automated side
/// reads its moves the same way for now.
pub open spec fn human_move(lines: Seq<Seq<char>>, from: int) -> MoveReadModel {
    read_from(lines, from)
}

/// Moves of an automated side: it has no agent of its own yet and reads lines as a human does.
pub open spec fn agent_move(lines: Seq<Seq<char>>, from: int) -> MoveReadModel {
    read_from(lines, from)
}

/// The move sources of the two sides.
pub struct IOController {
    white_human: bool,
    black_human: bool,
}

impl IOController {
    /// Whether the given side is played by a human.
    pub closed spec fn is_human(self, white: bool) -> bool {
        if white {
            self.white_human
        } else {
            self.black_human
        }
    }

    pub open spec fn source(self, white: bool) -> MoveSourceKind {
        if self.is_human(white) {
            MoveSourceKind::Human
        } else {
            MoveSourceKind::Agent
        }
    }

    /// What the side to move hands back when offered lines from index `from` on.
    pub open spec fn move_for(self, white_turn: bool, lines: Seq<Seq<char>>, from: int) -> MoveReadModel {
        match self.source(white_turn) {
            MoveSourceKind::Human => human_move(lines, from),
            MoveSourceKind::Agent => agent_move(lines, from),
        }
    }

    pub fn new(white_human: bool, black_human: bool) -> (r: Self)
        ensures
            r.is_human(true) == white_human,
            r.is_human(false) == black_human,
    {
        Self { white_human, black_human }
    }

    /// Which kind of source plays the given side.
    pub fn source_for(&self, white: bool) -> (r: MoveSourceKind)
        ensures
            r == self.source(white),
    {
        let human = if white {
            self.white_human
        } else {
            self.black_human
        };
        if human {
            MoveSourceKind::Human
        } else {
            MoveSourceKind::Agent
        }
    }

    fn get_white_move(&self, lines: &Vec<String>, from: usize) -> (r: MoveRead)
        requires
            from <= lines.len(),
        ensures
            r@ == self.move_for(true, lines_view(lines@), from as int),
    {
        if self.white_human {
            read_move(lines, from)
        } else {
            read_move(lines, from)
        }
    }

    fn get_black_move(&self, lines: &Vec<String>, from: usize) -> (r: MoveRead)
        requires
            from <= lines.len(),
        ensures
            r@ == self.move_for(false, lines_view(lines@), from as int),
    {
        if self.black_human {
            read_move(lines, from)
        } else {
            read_move(lines, from)
        }
    }

    /// The next move of the side to move, read from the lines at index `from` on.
    pub fn get_move(&self, white_turn: bool, lines: &Vec<String>, from: usize) -> (r: MoveRead)
        requires
            from <= lines.len(),
        ensures
            r@ == self.move_for(white_turn, lines_view(lines@), from as int),
    {
        if white_turn {
            self.get_white_move(lines, from)
        } else {
            self.get_black_move(lines, from)
        }
    }
}

/// An automated side currently behaves exactly as a human side: whichever sources two
/// controllers assign, they hand back the same move from the same lines.
pub proof fn lemma_agent_reads_as_human(
    a: IOController,
    b: IOController,
    white_turn: bool,
    lines: Seq<Seq<char>>,
    from: int,
)
    ensures
        a.move_for(white_turn, lines, from) == b.move_for(white_turn, lines, from),
        a.move_for(white_turn, lines, from) == human_move(lines, from),
{
}

/// Any run of rejected lines changes nothing but the place to read from: reading from
/// the start of the run gives the same move as reading from the line after it, with the
/// run's lines consumed and rejected on top.
pub proof fn lemma_rejections_only_advance(lines: Seq<Seq<char>>, from: int, k: int)
    requires
        0 <= from,
        0 <= k,
        from + k <= lines.len(),
        forall|j: int| from <= j < from + k ==> move_of_line(#[trigger] lines[j]) is None,
    ensures
        read_from(lines, from).piece_move == read_from(lines, from + k).piece_move,
        read_from(lines, from).consumed == read_from(lines, from + k).consumed + k,
        read_from(lines, from).rejected == read_from(lines, from + k).rejected + k,
    decreases k,
{
    if k > 0 {
        lemma_rejection_only_advances(lines, from);
        lemma_rejections_only_advance(lines, from + 1, k - 1);
    }
}

/// A rejected line changes nothing but the place to read from: reading from a line
/// that holds no move gives the same move as reading from the line after it, with one
/// more line consumed and one more rejected.
pub proof fn lemma_rejection_only_advances(lines: Seq<Seq<char>>, from: int)
    requires
        0 <= from < lines.len(),
        move_of_line(lines[from]) is None,
    ensures
        read_from(lines, from).piece_move == read_from(lines, from + 1).piece_move,
        read_from(lines, from).consumed == read_from(lines, from + 1).consumed + 1,
        read_from(lines, from).rejected == read_from(lines, from + 1).rejected + 1,
{
}

} // verus!
