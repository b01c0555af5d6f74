use vstd::prelude::*;

use crate::history::{history_lines, log_view, logged_move_lines, LoggedMove};
use crate::io_view::{Board, GameStatus, IOView, Outcome};
use crate::text::{lines_view, owned};

verus! {

/// What the engine reports after it starts a game or processes a move.
pub struct GameSnapshot {
    pub board: Board,
    pub status: GameStatus,
    pub move_log: Vec<Vec<LoggedMove>>,
}

/// What the game loop does next.
#[derive(Clone, Copy, PartialEq, Eq, Structural, Debug)]
pub enum Step {
    /// Ask the side to move for a move; the flag is true for white.
    RequestMove(bool),
    /// Show the closing message: the game has ended.
    GameOver,
    /// Nothing more: the closing message has been shown.
    Stopped,
}

/// The step that follows from whether the game was already closed and the status held.
pub open spec fn step_for(finished: bool, status: GameStatus) -> Step {
    if finished {
        Step::Stopped
    } else if status.outcome == Outcome::Active {
        Step::RequestMove(status.white_turn)
    } else {
        Step::GameOver
    }
}

/// The steps that `n` calls in a row hand out, from a driver in the given state.
pub open spec fn steps_from(finished: bool, status: GameStatus, n: nat) -> Seq<Step>
    decreases n,
{
    if n == 0 {
        Seq::empty()
    } else {
        seq![step_for(finished, status)] + steps_from(
            finished || status.outcome != Outcome::Active,
            status,
            (n - 1) as nat,
        )
    }
}

/// The decisions of the game loop: it holds the last snapshot the engine reported,
/// asks for moves while the game is active, and closes the game once.
pub struct TurnDriver {
    snapshot: GameSnapshot,
    finished: bool,
}

impl TurnDriver {
    /// The snapshot held.
    pub closed spec fn held(self) -> GameSnapshot {
        self.snapshot
    }

    /// Whether the closing message has been handed out.
    pub closed spec fn is_finished(self) -> bool {
        self.finished
    }

    /// A driver holding the engine's first snapshot.
    pub fn new(initial: GameSnapshot) -> (r: Self)
        ensures
            r.held() == initial,
            !r.is_finished(),
    {
        TurnDriver { snapshot: initial, finished: false }
    }

    pub fn status(&self) -> (r: GameStatus)
        ensures
            r == self.held().status,
    {
        self.snapshot.status
    }

    /// Decides the next step: a move request while the game is active, the closing
    /// message once the engine reports an end, and nothing after that.
    pub fn next_step(&mut self) -> (r: Step)
        ensures
            r == step_for(old(self).is_finished(), old(self).held().status),
            final(self).held() == old(self).held(),
            final(self).is_finished() == (old(self).is_finished()
                || old(self).held().status.outcome != Outcome::Active),
    {
        if self.finished {
            Step::Stopped
        } else {
            match self.snapshot.status.outcome {
                Outcome::Active => Step::RequestMove(self.snapshot.status.white_turn),
                _ => {
                    self.finished = true;
                    Step::GameOver
                },
            }
        }
    }

    /// Takes the engine's answer to a submitted move. A new snapshot replaces the one
    /// held; a refusal leaves everything as it was and yields the line that reports it.
    pub fn on_move_result(&mut self, result: Result<GameSnapshot, String>) -> (r: Option<String>)
        ensures
            match result {
                Ok(s) => r is None && final(self).held() == s && final(self).is_finished()
                    == old(self).is_finished(),
                Err(e) => r is Some && r->0@ == "Unable to process move. Reason: "@ + e@
                    && *final(self) == *old(self),
            },
    {
        match result {
            Ok(s) => {
                self.snapshot = s;
                None
            },
            Err(e) => {
                let mut line = owned("Unable to process move. Reason: ");
                line.append(e.as_str());
                Some(line)
            },
        }
    }

    /// The board and status held, rendered in the view's style.
    pub fn board_lines(&self, view: &IOView) -> (r: Vec<String>)
        ensures
            lines_view(r@) == view.screen(self.held().board@, self.held().status),
    {
        view.update_state(&self.snapshot.board, &self.snapshot.status)
    }

    /// The move log held, one line per turn.
    pub fn history_lines(&self) -> (r: Vec<String>)
        ensures
            lines_view(r@) == history_lines(log_view(self.held().move_log@)),
    {
        logged_move_lines(&self.snapshot.move_log)
    }
}

/// The message shown once the game has ended.
pub fn closing_message() -> (r: String)
    ensures
        r@ == "Game Over!"@,
{
    owned("Game Over!")
}

/// Once the engine reports an end, the driver hands out the closing message exactly
/// once, as its next step, and after that neither a move request nor another closing
/// message.
pub proof fn lemma_game_over_once(status: GameStatus, n: nat)
    requires
        status.outcome != Outcome::Active,
        n >= 1,
    ensures
        steps_from(false, status, n)[0] == Step::GameOver,
        forall|i: int| 1 <= i < n ==> #[trigger] steps_from(false, status, n)[i] == Step::Stopped,
{
    lemma_stopped_after_close(status, (n - 1) as nat);
    assert forall|i: int| 1 <= i < n implies #[trigger] steps_from(false, status, n)[i]
        == Step::Stopped by {
        assert(steps_from(false, status, n)[i] == steps_from(true, status, (n - 1) as nat)[i - 1]);
    }
}

/// A driver that has closed the game only ever hands out `Stopped`.
pub proof fn lemma_stopped_after_close(status: GameStatus, n: nat)
    ensures
        steps_from(true, status, n).len() == n,
        forall|i: int| 0 <= i < n ==> #[trigger] steps_from(true, status, n)[i] == Step::Stopped,
    decreases n,
{
    if n > 0 {
        lemma_stopped_after_close(status, (n - 1) as nat);
        assert forall|i: int| 0 <= i < n implies #[trigger] steps_from(true, status, n)[i]
            == Step::Stopped by {
            if i > 0 {
                assert(steps_from(true, status, n)[i] == steps_from(true, status, (n - 1) as nat)[i
                    - 1]);
            }
        }
    }
}

} // verus!
