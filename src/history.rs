use vstd::prelude::*;

use crate::text::{lines_view, push_line};

verus! {

/// One half-move as the engine wrote it down.
#[derive(Clone, Debug)]
pub struct LoggedMove {
    pub pgn_notation: String,
}

/// The notation of each half-move, turn by turn.
pub open spec fn log_view(log: Seq<Vec<LoggedMove>>) -> Seq<Seq<Seq<char>>> {
    log.map_values(|turn: Vec<LoggedMove>| turn@.map_values(|m: LoggedMove| m.pgn_notation@))
}

/// One turn on one line: each half-move's notation followed by a space.
pub open spec fn turn_line(turn: Seq<Seq<char>>) -> Seq<char>
    decreases turn.len(),
{
    if turn.len() == 0 {
        Seq::empty()
    } else {
        turn_line(turn.drop_last()) + turn.last() + seq![' ']
    }
}

/// The history: one line per turn, in turn order.
pub open spec fn history_lines(log: Seq<Seq<Seq<char>>>) -> Seq<Seq<char>> {
    Seq::new(log.len(), |i: int| turn_line(log[i]))
}

/// The text of one turn.
fn turn_text(turn: &Vec<LoggedMove>) -> (r: String)
    ensures
        r@ == turn_line(turn@.map_values(|m: LoggedMove| m.pgn_notation@)),
{
    let ghost ns = turn@.map_values(|m: LoggedMove| m.pgn_notation@);
    let mut s = String::new();
    for j in 0..turn.len()
        invariant
            ns == turn@.map_values(|m: LoggedMove| m.pgn_notation@),
            s@ == turn_line(ns.take(j as int)),
    {
        assert(ns[j as int] == turn@[j as int].pgn_notation@);
        s.append(turn[j].pgn_notation.as_str());
        s.append(" ");
        proof {
            reveal_strlit(" ");
        }
        assert(ns.take(j + 1).drop_last() == ns.take(j as int));
        assert(s@ =~= turn_line(ns.take(j + 1)));
    }
    assert(ns.take(turn.len() as int) == ns);
    s
}

/// Renders the move log, one line per turn.
pub fn logged_move_lines(moves: &Vec<Vec<LoggedMove>>) -> (r: Vec<String>)
    ensures
        lines_view(r@) == history_lines(log_view(moves@)),
{
    let ghost log = log_view(moves@);
    let mut out: Vec<String> = Vec::new();
    for i in 0..moves.len()
        invariant
            log == log_view(moves@),
            lines_view(out@) == history_lines(log).take(i as int),
    {
        assert(log[i as int] == moves@[i as int]@.map_values(|m: LoggedMove| m.pgn_notation@));
        let line = turn_text(&moves[i]);
        push_line(&mut out, line);
        assert(lines_view(out@) =~= history_lines(log).take(i + 1));
    }
    assert(history_lines(log).take(moves.len() as int) =~= history_lines(log));
    out
}

} // verus!
