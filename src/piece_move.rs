use vstd::prelude::*;

use crate::text::{chars_of, string_of, trim, trimmed};

verus! {

/// One square of the board, zero-based.
#[derive(Clone, Copy, PartialEq, Eq, Structural, Debug)]
pub struct Position {
    pub row: usize,
    pub column: usize,
}

/// A move from one square to another, with the piece to promote to, if any.
#[derive(Clone, Debug)]
pub struct PieceMove {
    pub start: Position,
    pub end: Position,
    pub promotion: Option<String>,
}

/// The mathematical value of a `PieceMove`.
pub struct MoveModel {
    pub start: Position,
    pub end: Position,
    pub promotion: Option<Seq<char>>,
}

impl View for PieceMove {
    type V = MoveModel;

    open spec fn view(&self) -> MoveModel {
        MoveModel {
            start: self.start,
            end: self.end,
            promotion: match self.promotion {
                Some(p) => Some(p@),
                None => None,
            },
        }
    }
}

/// The pieces of `s` between commas, in order; `s` has one more piece than commas.
pub open spec fn fields(s: Seq<char>) -> Seq<Seq<char>>
    decreases s.len(),
{
    if s.len() == 0 {
        seq![Seq::empty()]
    } else {
        let f = fields(s.drop_last());
        if s.last() == ',' {
            f.push(Seq::empty())
        } else {
            f.update(f.len() - 1, f.last().push(s.last()))
        }
    }
}

pub open spec fn is_digit(c: char) -> bool {
    '0' <= c <= '9'
}

pub open spec fn digit_value(c: char) -> nat {
    if is_digit(c) {
        (c as int - '0' as int) as nat
    } else {
        0
    }
}

/// The number that a string of decimal digits denotes.
pub open spec fn digits_value(t: Seq<char>) -> nat
    decreases t.len(),
{
    if t.len() == 0 {
        0
    } else {
        digits_value(t.drop_last()) * 10 + digit_value(t.last())
    }
}

/// A coordinate token: one or more decimal digits whose value fits in `usize`.
pub open spec fn coordinate(t: Seq<char>) -> Option<usize> {
    if t.len() > 0 && (forall|i: int| 0 <= i < t.len() ==> is_digit(#[trigger] t[i]))
        && digits_value(t) <= usize::MAX {
        Some(digits_value(t) as usize)
    } else {
        None
    }
}

/// The move that a line of text `startColumn,startRow,endColumn,endRow[,promotion]`
/// denotes, or `None` where the line is malformed.
pub open spec fn move_of_text(t: Seq<char>) -> Option<MoveModel> {
    let f = fields(t);
    if (f.len() == 4 || f.len() == 5) && coordinate(f[0]) is Some && coordinate(f[1]) is Some
        && coordinate(f[2]) is Some && coordinate(f[3]) is Some {
        Some(
            MoveModel {
                start: Position { column: coordinate(f[0])->0, row: coordinate(f[1])->0 },
                end: Position { column: coordinate(f[2])->0, row: coordinate(f[3])->0 },
                promotion: if f.len() == 5 {
                    Some(f[4])
                } else {
                    None
                },
            },
        )
    } else {
        None
    }
}

/// The move that an input line denotes once its surrounding whitespace is trimmed.
pub open spec fn move_of_line(line: Seq<char>) -> Option<MoveModel> {
    move_of_text(trimmed(line))
}

pub open spec fn views_of(v: Seq<Vec<char>>) -> Seq<Seq<char>> {
    v.map_values(|f: Vec<char>| f@)
}

proof fn lemma_fields_nonempty(s: Seq<char>)
    ensures
        fields(s).len() >= 1,
    decreases s.len(),
{
    if s.len() > 0 {
        lemma_fields_nonempty(s.drop_last());
    }
}

/// Splits a character sequence at its commas.
fn split_commas(cs: &Vec<char>) -> (r: Vec<Vec<char>>)
    ensures
        views_of(r@) == fields(cs@),
{
    let mut done: Vec<Vec<char>> = Vec::new();
    let mut cur: Vec<char> = Vec::new();
    for i in 0..cs.len()
        invariant
            views_of(done@).push(cur@) == fields(cs@.take(i as int)),
    {
        let c = cs[i];
        proof {
            let s = cs@.take(i + 1);
            assert(s.drop_last() == cs@.take(i as int));
            lemma_fields_nonempty(s.drop_last());
        }
        if c == ',' {
            let piece = cur;
            done.push(piece);
            cur = Vec::new();
            assert(views_of(done@) == views_of(done@).drop_last().push(piece@));
        } else {
            cur.push(c);
        }
        assert(views_of(done@).push(cur@) =~= fields(cs@.take(i + 1)));
    }
    done.push(cur);
    assert(cs@.take(cs.len() as int) == cs@);
    assert(views_of(done@) =~= fields(cs@));
    done
}


proof fn lemma_prefix_value_le(t: Seq<char>, k: int)
    requires
        0 <= k <= t.len(),
    ensures
        digits_value(t.take(k)) <= digits_value(t),
    decreases t.len(),
{
    if k < t.len() {
        assert(t.drop_last().take(k) == t.take(k));
        lemma_prefix_value_le(t.drop_last(), k);
    } else {
        assert(t.take(k) == t);
    }
}

/// Reads a coordinate token: decimal digits only, with a value that fits in `usize`.
fn parse_coordinate(t: &Vec<char>) -> (r: Option<usize>)
    ensures
        r == coordinate(t@),
{
    if t.len() == 0 {
        return None;
    }
    let mut acc: usize = 0;
    for i in 0..t.len()
        invariant
            acc == digits_value(t@.take(i as int)),
            forall|j: int| 0 <= j < i ==> is_digit(#[trigger] t@[j]),
    {
        let c = t[i];
        if !('0' <= c && c <= '9') {
            return None;
        }
        let d = (c as u32 - '0' as u32) as usize;
        proof {
            assert(t@.take(i + 1).drop_last() == t@.take(i as int));
            lemma_prefix_value_le(t@, i + 1);
        }
        match acc.checked_mul(10) {
            Some(m) => match m.checked_add(d) {
                Some(n) => {
                    acc = n;
                },
                None => {
                    return None;
                },
            },
            None => {
                proof {
                    assert(digits_value(t@.take(i + 1)) >= acc * 10);
                }
                return None;
            },
        }
    }
    assert(t@.take(t.len() as int) == t@);
    Some(acc)
}

/// Reads a move from text of the form `startColumn,startRow,endColumn,endRow[,promotion]`.
/// The promotion token is kept as it stands; coordinates are not checked against the board.
pub fn parse_move_text(t: &str) -> (r: Option<PieceMove>)
    ensures
        r is Some <==> move_of_text(t@) is Some,
        r is Some ==> r->0@ == move_of_text(t@)->0,
{
    let cs = chars_of(t);
    let f = split_commas(&cs);
    let ghost fs = fields(t@);
    assert(f.len() == fs.len());
    if f.len() != 4 && f.len() != 5 {
        return None;
    }
    assert(f@[0]@ == fs[0] && f@[1]@ == fs[1] && f@[2]@ == fs[2] && f@[3]@ == fs[3]);
    let c0 = parse_coordinate(&f[0]);
    let r0 = parse_coordinate(&f[1]);
    let c1 = parse_coordinate(&f[2]);
    let r1 = parse_coordinate(&f[3]);
    match (c0, r0, c1, r1) {
        (Some(c0), Some(r0), Some(c1), Some(r1)) => {
            let promotion = if f.len() == 5 {
                assert(f@[4]@ == fs[4]);
                Some(string_of(&f[4]))
            } else {
                None
            };
            Some(
                PieceMove {
                    start: Position { row: r0, column: c0 },
                    end: Position { row: r1, column: c1 },
                    promotion,
                },
            )
        },
        _ => None,
    }
}

/// Reads a move from one input line, ignoring the whitespace around it.
pub fn parse_move_line(line: &str) -> (r: Option<PieceMove>)
    ensures
        r is Some <==> move_of_line(line@) is Some,
        r is Some ==> r->0@ == move_of_line(line@)->0,
{
    parse_move_text(trim(line))
}


pub open spec fn digit_char(d: nat) -> char {
    seq!['0', '1', '2', '3', '4', '5', '6', '7', '8', '9'][d as int]
}

/// The decimal digits of `n`, most significant first, with no leading zero.
pub open spec fn decimal(n: nat) -> Seq<char>
    decreases n,
{
    if n < 10 {
        seq![digit_char(n)]
    } else {
        decimal(n / 10).push(digit_char(n % 10))
    }
}

/// The text form of a move: `startColumn,startRow,endColumn,endRow`, then `,promotion`
/// where there is one.
pub open spec fn move_text(m: MoveModel) -> Seq<char> {
    let coords = decimal(m.start.column as nat) + seq![','] + decimal(m.start.row as nat) + seq![
        ',',
    ] + decimal(m.end.column as nat) + seq![','] + decimal(m.end.row as nat);
    match m.promotion {
        Some(p) => coords + seq![','] + p,
        None => coords,
    }
}

proof fn lemma_digit_char(d: nat)
    requires
        d < 10,
    ensures
        is_digit(digit_char(d)),
        digit_value(digit_char(d)) == d,
{
    if d == 0 {
    } else if d == 1 {
    } else if d == 2 {
    } else if d == 3 {
    } else if d == 4 {
    } else if d == 5 {
    } else if d == 6 {
    } else if d == 7 {
    } else if d == 8 {
    } else {
    }
}

proof fn lemma_decimal(n: nat)
    ensures
        decimal(n).len() > 0,
        forall|i: int| 0 <= i < decimal(n).len() ==> is_digit(#[trigger] decimal(n)[i]),
        digits_value(decimal(n)) == n,
    decreases n,
{
    if n < 10 {
        lemma_digit_char(n);
        assert(decimal(n).drop_last() =~= Seq::<char>::empty());
        assert(digits_value(Seq::<char>::empty()) == 0);
    } else {
        lemma_decimal(n / 10);
        lemma_digit_char(n % 10);
        assert(decimal(n).drop_last() == decimal(n / 10));
        assert(n == (n / 10) * 10 + n % 10) by (nonlinear_arith);
    }
}

proof fn lemma_fields_single(s: Seq<char>)
    requires
        forall|i: int| 0 <= i < s.len() ==> s[i] != ',',
    ensures
        fields(s) == seq![s],
    decreases s.len(),
{
    if s.len() > 0 {
        lemma_fields_single(s.drop_last());
        assert(s.drop_last().push(s.last()) == s);
        assert(fields(s) =~= seq![s]);
    } else {
        assert(s =~= Seq::<char>::empty());
        assert(fields(s) =~= seq![s]);
    }
}

proof fn lemma_fields_concat(a: Seq<char>, b: Seq<char>)
    ensures
        fields(a + seq![','] + b) == fields(a) + fields(b),
    decreases b.len(),
{
    let s = a + seq![','] + b;
    if b.len() == 0 {
        assert(s.drop_last() == a);
        assert(fields(s) =~= fields(a) + fields(b));
    } else {
        assert(s.drop_last() == a + seq![','] + b.drop_last());
        lemma_fields_concat(a, b.drop_last());
        lemma_fields_nonempty(b.drop_last());
        lemma_fields_nonempty(a);
        assert(fields(s) =~= fields(a) + fields(b));
    }
}

proof fn lemma_coordinate_of_decimal(n: usize)
    ensures
        coordinate(decimal(n as nat)) == Some(n),
        forall|i: int|
            0 <= i < decimal(n as nat).len() ==> #[trigger] decimal(n as nat)[i] != ',',
{
    lemma_decimal(n as nat);
}

/// Writing a move in its text form and reading that text back gives the same move,
/// wherever the promotion token holds no comma.
pub proof fn lemma_move_text_round_trip(m: MoveModel)
    requires
        m.promotion is Some ==> forall|i: int|
            0 <= i < m.promotion->0.len() ==> #[trigger] m.promotion->0[i] != ',',
    ensures
        move_of_text(move_text(m)) == Some(m),
{
    let d0 = decimal(m.start.column as nat);
    let d1 = decimal(m.start.row as nat);
    let d2 = decimal(m.end.column as nat);
    let d3 = decimal(m.end.row as nat);
    lemma_coordinate_of_decimal(m.start.column);
    lemma_coordinate_of_decimal(m.start.row);
    lemma_coordinate_of_decimal(m.end.column);
    lemma_coordinate_of_decimal(m.end.row);
    lemma_fields_single(d0);
    lemma_fields_single(d1);
    lemma_fields_single(d2);
    lemma_fields_single(d3);
    let p1 = d0 + seq![','] + d1;
    let p2 = p1 + seq![','] + d2;
    let p3 = p2 + seq![','] + d3;
    lemma_fields_concat(d0, d1);
    lemma_fields_concat(p1, d2);
    lemma_fields_concat(p2, d3);
    assert(fields(p3) =~= seq![d0, d1, d2, d3]);
    match m.promotion {
        Some(p) => {
            lemma_fields_single(p);
            lemma_fields_concat(p3, p);
            assert(fields(move_text(m)) =~= seq![d0, d1, d2, d3, p]);
        },
        None => {},
    }
}

} // verus!
