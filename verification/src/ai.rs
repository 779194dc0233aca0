//! The computer opponent: move enumeration, terminal-state scoring, and a
//! bounded-depth negamax search over value copies of the game state.
//!
//! The search is a pure function of the state and the ply budget. Each
//! applied move advances the turn, so each ply of the search flips the
//! perspective; scores are always seen from the side to move.

use crate::board::{
    board_full, can_insert, has_winner, lemma_insert_no_new_win, lemma_not_full_has_room,
    piece_wins, spec_insert, GameBoard, GamePiece, GRID_COLS,
};
use crate::state::{other, terminal, EndgameType, GameState};
use vstd::prelude::*;

verus! {

/// Whether 1-based column `col` admits an insertion in state `s`.
pub open spec fn legal_col(s: GameState, col: int) -> bool {
    1 <= col <= GRID_COLS && can_insert(s.board, col - 1)
}

/// The state after the side to move drops a piece into 1-based column `col`:
/// the piece lands in that column and the turn passes to the opponent.
pub open spec fn spec_child(s: GameState, col: int) -> GameState
    recommends
        legal_col(s, col),
{
    GameState {
        board: spec_insert(s.board, s.next_player, col - 1),
        next_player: other(s.next_player),
    }
}

/// The naive terminal score of `s` from the perspective of the side to
/// move: 1 for a position the side to move has already won, -1 for one the
/// opponent has won, 0 otherwise (draws and all non-terminal positions).
pub open spec fn spec_eval(s: GameState) -> int {
    if piece_wins(s.board, s.next_player) {
        1
    } else if piece_wins(s.board, other(s.next_player)) {
        -1
    } else {
        0
    }
}

/// The negamax value of `s` explored to `depth` further plies: the terminal
/// score at terminal states, the cutoff score when the ply budget is
/// exhausted, and otherwise the maximum over all legal columns of the
/// negated value of the resulting state.
pub open spec fn spec_negamax(s: GameState, depth: nat) -> int
    decreases depth, 0int,
{
    if terminal(s) {
        spec_eval(s)
    } else if depth == 0 {
        spec_eval(s)
    } else {
        spec_pick(s, (depth - 1) as nat, 1).1
    }
}

/// The best column and score among 1-based columns `col..=GRID_COLS` of
/// state `s`, with each child explored to `depth` plies. Columns are ranked
/// by the negated child value; ties prefer the leftmost column. A column of
/// 0 and a score of -2 (below every reachable score) stand for "no legal
/// column in the range".
pub open spec fn spec_pick(s: GameState, depth: nat, col: int) -> (int, int)
    recommends
        1 <= col <= GRID_COLS + 1,
    decreases depth, GRID_COLS + 1 - col,
{
    if col < 1 || col > GRID_COLS {
        (0int, -2int)
    } else {
        let rest = spec_pick(s, depth, col + 1);
        if legal_col(s, col) {
            let v = -spec_negamax(spec_child(s, col), depth);
            if v >= rest.1 {
                (col, v)
            } else {
                rest
            }
        } else {
            rest
        }
    }
}

/// The ply budget left for the states one move below the root when the
/// caller asks for `depth` plies in all: choosing the root move itself
/// consumes one ply (a budget of 0 is treated like 1).
pub open spec fn search_depth(depth: nat) -> nat {
    if depth == 0 {
        0
    } else {
        (depth - 1) as nat
    }
}

/// The column `choose_move` recommends for `s` under a ply budget of
/// `depth`: none at a terminal state, and otherwise the leftmost legal
/// column whose child value is maximal.
pub open spec fn spec_choose_move(s: GameState, depth: nat) -> Option<usize> {
    if terminal(s) {
        Option::None
    } else {
        Option::Some(spec_pick(s, search_depth(depth), 1).0 as usize)
    }
}

/// The outcome of a finished game, seen from the side to move.
#[derive(Clone, Copy, Debug, PartialEq, Eq, Structural)]
pub enum Winner {
    /// The side to move has the winning run.
    PlayerToMove,
    /// The opponent of the side to move has the winning run.
    PlayerJustMoved,
    /// The board is full with no winning run.
    Draw,
}

/// The rules of the game as the search sees them: which moves a state
/// admits, what applying a move does, and who has won.
pub struct FourStackRules;

impl FourStackRules {
    /// Appends to `moves` every 1-based column that currently admits an
    /// insertion, in left-to-right order.
    pub fn generate_moves(state: &GameState, moves: &mut Vec<usize>)
        ensures
            final (moves)@ == old(moves)@ + legal_cols_from(*state, 1),
    {
        let mut i: usize = 1;
        while i <= GRID_COLS
            invariant
                1 <= i <= GRID_COLS + 1,
                old(moves)@ + legal_cols_from(*state, 1) == moves@ + legal_cols_from(
                    *state,
                    i as int,
                ),
            decreases GRID_COLS + 1 - i,
        {
            let mut board = *state.get_board();
            let ghost pre = moves@;
            if board.insert_piece(*state.get_next_player(), i).is_ok() {
                moves.push(i);
                proof {
                    assert(legal_col(*state, i as int));
                    assert(pre + legal_cols_from(*state, i as int) =~= moves@ + legal_cols_from(
                        *state,
                        i + 1,
                    ));
                }
            } else {
                proof {
                    assert(!legal_col(*state, i as int));
                }
            }
            i = i + 1;
        }
        proof {
            assert(moves@ + legal_cols_from(*state, GRID_COLS + 1) =~= moves@);
        }
    }

    /// Applies 1-based column `m` to `state`: inserts the piece of the side
    /// to move and advances the turn, returning the new state; a column with
    /// no room, or out of range, leaves the state untouched and returns
    /// nothing.
    pub fn apply(state: &mut GameState, m: usize) -> (r: Option<GameState>)
        ensures
            legal_col(*old(state), m as int) ==> *final (state) == spec_child(
                *old(state),
                m as int,
            ) && r == Option::Some(*final (state)),
            !legal_col(*old(state), m as int) ==> *final (state) == *old(state) && r is None,
    {
        let player = *state.get_next_player();
        let board = state.get_board_mut();
        if board.insert_piece(player, m).is_err() {
            return Option::None;
        }
        state.toggle_player();
        Option::Some(*state)
    }

    /// Who, if anyone, has finished the game in `state`, seen from the side
    /// to move.
    pub fn get_winner(state: &GameState) -> (r: Option<Winner>)
        ensures
            r is None <==> !terminal(*state),
            (!has_winner(state.board) && board_full(state.board)) ==> r == Option::Some(
                Winner::Draw,
            ),
            piece_wins(state.board, state.next_player) && !piece_wins(
                state.board,
                other(state.next_player),
            ) ==> r == Option::Some(Winner::PlayerToMove),
            piece_wins(state.board, other(state.next_player)) && !piece_wins(
                state.board,
                state.next_player,
            ) ==> r == Option::Some(Winner::PlayerJustMoved),
    {
        match state.check_endgame() {
            EndgameType::Full => Option::Some(Winner::Draw),
            EndgameType::Ongoing => Option::None,
            EndgameType::Win(p) => Option::Some(
                if p == *state.get_next_player() {
                    Winner::PlayerToMove
                } else {
                    Winner::PlayerJustMoved
                },
            ),
        }
    }
}

/// The 1-based columns of `col..=GRID_COLS` that admit an insertion in `s`,
/// in increasing order.
pub open spec fn legal_cols_from(s: GameState, col: int) -> Seq<usize>
    recommends
        1 <= col <= GRID_COLS + 1,
    decreases GRID_COLS + 1 - col when col <= GRID_COLS + 1
{
    if col < 1 || col > GRID_COLS {
        Seq::empty()
    } else if legal_col(s, col) {
        seq![col as usize] + legal_cols_from(s, col + 1)
    } else {
        legal_cols_from(s, col + 1)
    }
}

/// The intentionally naive evaluator: it scores only already-terminal
/// states (1 for a win of the side to move, -1 for a loss, 0 for a draw)
/// and 0 for every state cut off at the search horizon. The search relies
/// only on the sign of these scores, so a stronger evaluator may replace
/// this one as long as it keeps the sign contract stated on `evaluate`.
pub struct NaiveEvaluator;

impl NaiveEvaluator {
    /// Scores `s` from the perspective of the side to move: strictly
    /// positive only on a win for the side to move, strictly negative only
    /// on a loss, 0 otherwise.
    pub fn evaluate(&self, s: &GameState) -> (r: i32)
        ensures
            at_most_one_winner(s.board) ==> r == spec_eval(*s),
            -1 <= r <= 1,
            r == 1 ==> piece_wins(s.board, s.next_player),
            r == -1 ==> piece_wins(s.board, other(s.next_player)),
            r != 0 ==> has_winner(s.board),
    {
        match s.check_endgame() {
            EndgameType::Win(player) => {
                if player == *s.get_next_player() {
                    1
                } else {
                    -1
                }
            },
            _ => 0,
        }
    }
}

/// Whether at most one player has a four-in-a-row on `b`. Every state the
/// search explores from a non-terminal root satisfies this: an insertion
/// can complete a run only for the player who made it.
pub open spec fn at_most_one_winner(b: GameBoard) -> bool {
    !(piece_wins(b, GamePiece::Red) && piece_wins(b, GamePiece::Yellow))
}

/// A legal move from a state without a winner cannot give the opponent of
/// the mover a run, so the child has at most one winner.
proof fn lemma_child_one_winner(s: GameState, col: int)
    requires
        legal_col(s, col),
        !has_winner(s.board),
    ensures
        at_most_one_winner(spec_child(s, col).board),
        !piece_wins(spec_child(s, col).board, other(s.next_player)),
{
    lemma_insert_no_new_win(s.board, s.next_player, other(s.next_player), col - 1);
}

/// Bounds on the negamax value: every position is worth between -1 (lost
/// for the side to move within the horizon) and 1 (won).
pub proof fn lemma_negamax_bounds(s: GameState, depth: nat)
    ensures
        -1 <= spec_negamax(s, depth) <= 1,
    decreases depth, 0int,
{
    if !terminal(s) && depth > 0 {
        lemma_not_full_has_room(s.board);
        let c0 = choose|c: int| 0 <= c < GRID_COLS && can_insert(s.board, c);
        assert(legal_col(s, c0 + 1));
        lemma_pick_props(s, (depth - 1) as nat, 1);
    }
}

/// What `spec_pick` returns: a score no greater than 1; the sentinel -2
/// exactly when no column in the range is legal; and otherwise a legal
/// column from the range whose negated child value equals the score, with
/// no legal column in the range scoring higher.
pub proof fn lemma_pick_props(s: GameState, depth: nat, col: int)
    requires
        1 <= col <= GRID_COLS + 1,
    ensures
        ({
            let pk = spec_pick(s, depth, col);
            &&& -2 <= pk.1 <= 1
            &&& ((pk.1 == -2) <==> (forall|k: int|
                col <= k <= GRID_COLS ==> !(#[trigger] legal_col(s, k))))
            &&& (pk.1 >= -1 ==> legal_col(s, pk.0) && col <= pk.0 <= GRID_COLS && pk.1
                == -spec_negamax(spec_child(s, pk.0), depth))
            &&& (forall|k: int|
                col <= k <= GRID_COLS && #[trigger] legal_col(s, k) ==> -spec_negamax(
                    spec_child(s, k),
                    depth,
                ) <= pk.1)
        }),
    decreases depth, GRID_COLS + 1 - col,
{
    if col <= GRID_COLS {
        lemma_pick_props(s, depth, col + 1);
        if legal_col(s, col) {
            lemma_negamax_bounds(spec_child(s, col), depth);
        }
    }
}

/// Explores the game tree below `state` to `depth` further plies and
/// returns the negamax value of `state` for the side to move.
fn negamax(state: &GameState, depth: usize) -> (score: i32)
    requires
        at_most_one_winner(state.board),
    ensures
        score == spec_negamax(*state, depth as nat),
        -1 <= score <= 1,
    decreases depth,
{
    let e = NaiveEvaluator;
    match state.check_endgame() {
        EndgameType::Ongoing => (),
        _ => {
            return e.evaluate(state);
        },
    }
    if depth == 0 {
        return e.evaluate(state);
    }
    proof {
        lemma_negamax_bounds(*state, depth as nat);
    }
    let mut best: i32 = -2;
    let mut col: usize = GRID_COLS + 1;
    while col > 1
        invariant
            1 <= col <= GRID_COLS + 1,
            !terminal(*state),
            depth >= 1,
            ({
                let pk = spec_pick(*state, (depth - 1) as nat, col as int);
                pk.1 == best
            }),
            -2 <= best <= 1,
        decreases col,
    {
        let c = col - 1;
        let mut child = *state;
        match FourStackRules::apply(&mut child, c) {
            Option::Some(_) => {
                proof {
                    lemma_child_one_winner(*state, c as int);
                }
                let v = negamax(&child, depth - 1);
                let nv = -v;
                if nv >= best {
                    best = nv;
                }
            },
            Option::None => (),
        }
        col = c;
    }
    best
}

/// Recommends a move for the side to move in `state`, exploring the game
/// tree to a budget of `depth` plies: the leftmost legal column whose
/// resulting state has the best negamax value. A terminal state admits no
/// move and yields `None`; that is absence, not failure, and the caller
/// must not apply a move. The result is a function of the state and depth
/// alone, so repeated calls agree.
pub fn choose_move(state: &GameState, depth: usize) -> (r: Option<usize>)
    ensures
        r == spec_choose_move(*state, depth as nat),
        (r is None) <==> terminal(*state),
        r matches Option::Some(c) ==> legal_col(*state, c as int),
{
    match state.check_endgame() {
        EndgameType::Ongoing => (),
        _ => {
            return Option::None;
        },
    }
    let dd: usize = if depth == 0 {
        0
    } else {
        depth - 1
    };
    proof {
        assert(dd as nat == search_depth(depth as nat));
    }
    let mut best: i32 = -2;
    let mut best_col: usize = 0;
    let mut col: usize = GRID_COLS + 1;
    while col > 1
        invariant
            1 <= col <= GRID_COLS + 1,
            !terminal(*state),
            ({
                let pk = spec_pick(*state, dd as nat, col as int);
                pk.0 == best_col && pk.1 == best
            }),
            -2 <= best <= 1,
        decreases col,
    {
        let c = col - 1;
        let mut child = *state;
        match FourStackRules::apply(&mut child, c) {
            Option::Some(_) => {
                proof {
                    lemma_child_one_winner(*state, c as int);
                }
                let v = negamax(&child, dd);
                let nv = -v;
                if nv >= best {
                    best = nv;
                    best_col = c;
                }
            },
            Option::None => (),
        }
        col = c;
    }
    proof {
        lemma_pick_props(*state, dd as nat, 1);
        lemma_not_full_has_room(state.board);
        let c0 = choose|c: int| 0 <= c < GRID_COLS && can_insert(state.board, c);
        assert(legal_col(*state, c0 + 1));
    }
    Option::Some(best_col)
}

/// When the side to move has an immediately winning column and at least one
/// ply of budget, the recommended move forces the win: the state after the
/// chosen column has negamax value -1 for the opponent.
pub proof fn lemma_forced_win_found(s: GameState, depth: nat, wcol: int)
    requires
        !terminal(s),
        legal_col(s, wcol),
        piece_wins(spec_child(s, wcol).board, s.next_player),
        depth >= 2,
    ensures
        spec_choose_move(s, depth) matches Option::Some(c) && legal_col(s, c as int)
            && spec_negamax(spec_child(s, c as int), search_depth(depth)) == -1,
{
    let d = search_depth(depth);
    let cw = spec_child(s, wcol);
    lemma_child_one_winner(s, wcol);
    assert(cw.next_player == other(s.next_player));
    assert(other(cw.next_player) == s.next_player);
    assert(spec_eval(cw) == -1);
    assert(terminal(cw));
    assert(spec_negamax(cw, d) == -1);
    lemma_pick_props(s, d, 1);
    let pk = spec_pick(s, d, 1);
    assert(-spec_negamax(cw, d) <= pk.1);
    assert(pk.1 == 1);
    assert(pk.1 == -spec_negamax(spec_child(s, pk.0), d));
}

} // verus!
