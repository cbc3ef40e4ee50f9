//! A plain minimax search with alpha-beta pruning: White maximises the
//! static score, Black minimises it. It searches the legal moves in the
//! rules engine's order, evaluates at the horizon without a quiescence
//! search, and keeps no cache.

use crate::board::Color;
use crate::eval::evaluate_board;
use crate::rules::{fen_after, fen_board, fen_game_over, fen_moves, Move, Position};
use crate::search::{lowered, raised, stand_pat, INFINITY};
use vstd::prelude::*;

verus! {

/// The minimax value of a position searched to `depth` in the window
/// `(alpha, beta)`: the static score at the horizon or where the game is
/// finished, else the best value among the moves for the side whose turn
/// `maximizing` tells.
pub open spec fn minimax_value(fen: Seq<char>, depth: nat, alpha: int, beta: int, maximizing: bool) -> int
    decreases depth, 1int, 0nat,
{
    if depth == 0 || fen_game_over(fen) {
        stand_pat(fen)
    } else if maximizing {
        max_moves(fen, depth, fen_moves(fen), alpha, beta, -INFINITY as int)
    } else {
        min_moves(fen, depth, fen_moves(fen), alpha, beta, INFINITY as int)
    }
}

/// The largest value among `moves` and `best`, each move searched to
/// `depth - 1` for the minimising side. `alpha` rises to the best value; the
/// first move that lifts it to `beta` ends the search.
pub open spec fn max_moves(
    fen: Seq<char>,
    depth: nat,
    moves: Seq<Move>,
    alpha: int,
    beta: int,
    best: int,
) -> int
    decreases depth, 0int, moves.len(),
{
    if moves.len() == 0 || depth == 0 {
        best
    } else {
        let value = minimax_value(fen_after(fen, moves[0]), (depth - 1) as nat, alpha, beta, false);
        if beta <= raised(alpha, value) {
            raised(best, value)
        } else {
            max_moves(fen, depth, moves.drop_first(), raised(alpha, value), beta, raised(best, value))
        }
    }
}

/// The smallest value among `moves` and `best`, each move searched to
/// `depth - 1` for the maximising side. `beta` falls to the best value; the
/// first move that drops it to `alpha` ends the search.
pub open spec fn min_moves(
    fen: Seq<char>,
    depth: nat,
    moves: Seq<Move>,
    alpha: int,
    beta: int,
    best: int,
) -> int
    decreases depth, 0int, moves.len(),
{
    if moves.len() == 0 || depth == 0 {
        best
    } else {
        let value = minimax_value(fen_after(fen, moves[0]), (depth - 1) as nat, alpha, beta, true);
        if lowered(beta, value) <= alpha {
            lowered(best, value)
        } else {
            min_moves(fen, depth, moves.drop_first(), alpha, lowered(beta, value), lowered(best, value))
        }
    }
}

/// The minimax value of a position searched to `depth` without a window:
/// every move of every position is searched.
pub open spec fn plain_value(fen: Seq<char>, depth: nat, maximizing: bool) -> int
    decreases depth, 1int, 0nat,
{
    if depth == 0 || fen_game_over(fen) {
        stand_pat(fen)
    } else if maximizing {
        plain_max(fen, depth, fen_moves(fen), -INFINITY as int)
    } else {
        plain_min(fen, depth, fen_moves(fen), INFINITY as int)
    }
}

/// The largest of `best` and the values of all of `moves`.
pub open spec fn plain_max(fen: Seq<char>, depth: nat, moves: Seq<Move>, best: int) -> int
    decreases depth, 0int, moves.len(),
{
    if moves.len() == 0 || depth == 0 {
        best
    } else {
        let value = plain_value(fen_after(fen, moves[0]), (depth - 1) as nat, false);
        plain_max(fen, depth, moves.drop_first(), raised(best, value))
    }
}

/// The smallest of `best` and the values of all of `moves`.
pub open spec fn plain_min(fen: Seq<char>, depth: nat, moves: Seq<Move>, best: int) -> int
    decreases depth, 0int, moves.len(),
{
    if moves.len() == 0 || depth == 0 {
        best
    } else {
        let value = plain_value(fen_after(fen, moves[0]), (depth - 1) as nat, true);
        plain_min(fen, depth, moves.drop_first(), lowered(best, value))
    }
}

/// What a pruned result tells of the true value: a result inside the window
/// is the value; a result at or below `alpha` bounds the value from above,
/// one at or above `beta` from below.
pub open spec fn agrees(result: int, value: int, alpha: int, beta: int) -> bool {
    &&& result <= alpha ==> value <= result
    &&& result >= beta ==> value >= result
    &&& alpha < result < beta ==> value == result
}

/// The largest value is at least the value to beat.
proof fn lemma_plain_max_at_least(fen: Seq<char>, depth: nat, moves: Seq<Move>, best: int)
    ensures
        plain_max(fen, depth, moves, best) >= best,
    decreases moves.len(),
{
    if moves.len() > 0 && depth > 0 {
        let value = plain_value(fen_after(fen, moves[0]), (depth - 1) as nat, false);
        lemma_plain_max_at_least(fen, depth, moves.drop_first(), raised(best, value));
    }
}

/// The smallest value is at most the value to beat.
proof fn lemma_plain_min_at_most(fen: Seq<char>, depth: nat, moves: Seq<Move>, best: int)
    ensures
        plain_min(fen, depth, moves, best) <= best,
    decreases moves.len(),
{
    if moves.len() > 0 && depth > 0 {
        let value = plain_value(fen_after(fen, moves[0]), (depth - 1) as nat, true);
        lemma_plain_min_at_most(fen, depth, moves.drop_first(), lowered(best, value));
    }
}

/// Pruning is sound: in a window that is not empty, the pruned minimax
/// result agrees with the value found by searching every move. Where that
/// value lies inside the window, the pruned search returns it exactly.
pub proof fn lemma_minimax_pruning_is_sound(
    fen: Seq<char>,
    depth: nat,
    alpha: int,
    beta: int,
    maximizing: bool,
)
    requires
        alpha < beta,
    ensures
        agrees(
            minimax_value(fen, depth, alpha, beta, maximizing),
            plain_value(fen, depth, maximizing),
            alpha,
            beta,
        ),
        alpha < plain_value(fen, depth, maximizing) < beta ==> minimax_value(
            fen,
            depth,
            alpha,
            beta,
            maximizing,
        ) == plain_value(fen, depth, maximizing),
    decreases depth, 1int, 0nat,
{
    if depth == 0 || fen_game_over(fen) {
    } else if maximizing {
        let start = -INFINITY as int;
        lemma_max_moves_pruning(fen, depth, fen_moves(fen), alpha, alpha, beta, start, start);
    } else {
        let start = INFINITY as int;
        lemma_min_moves_pruning(fen, depth, fen_moves(fen), beta, alpha, beta, start, start);
    }
}

/// The same of a maximising search under way. `window` is the lower bound
/// that the search was asked with, `alpha` what it has risen to, `pruned`
/// the best pruned result so far and `plain` the best true value so far.
proof fn lemma_max_moves_pruning(
    fen: Seq<char>,
    depth: nat,
    moves: Seq<Move>,
    window: int,
    alpha: int,
    beta: int,
    pruned: int,
    plain: int,
)
    requires
        depth > 0,
        window <= alpha < beta,
        alpha <= raised(window, pruned),
        pruned <= window ==> plain <= pruned && alpha == window,
        pruned > window ==> plain == pruned,
    ensures
        agrees(
            max_moves(fen, depth, moves, alpha, beta, pruned),
            plain_max(fen, depth, moves, plain),
            window,
            beta,
        ),
    decreases depth, 0int, moves.len(),
{
    if moves.len() > 0 {
        let child = fen_after(fen, moves[0]);
        lemma_minimax_pruning_is_sound(child, (depth - 1) as nat, alpha, beta, false);
        let result = minimax_value(child, (depth - 1) as nat, alpha, beta, false);
        let value = plain_value(child, (depth - 1) as nat, false);
        if beta <= raised(alpha, result) {
            lemma_plain_max_at_least(fen, depth, moves.drop_first(), raised(plain, value));
        } else {
            lemma_max_moves_pruning(
                fen,
                depth,
                moves.drop_first(),
                window,
                raised(alpha, result),
                beta,
                raised(pruned, result),
                raised(plain, value),
            );
        }
    }
}

/// The same of a minimising search under way. `window` is the upper bound
/// that the search was asked with, `beta` what it has fallen to.
proof fn lemma_min_moves_pruning(
    fen: Seq<char>,
    depth: nat,
    moves: Seq<Move>,
    window: int,
    alpha: int,
    beta: int,
    pruned: int,
    plain: int,
)
    requires
        depth > 0,
        alpha < beta <= window,
        beta >= lowered(window, pruned),
        pruned >= window ==> plain >= pruned && beta == window,
        pruned < window ==> plain == pruned,
    ensures
        agrees(
            min_moves(fen, depth, moves, alpha, beta, pruned),
            plain_min(fen, depth, moves, plain),
            alpha,
            window,
        ),
    decreases depth, 0int, moves.len(),
{
    if moves.len() > 0 {
        let child = fen_after(fen, moves[0]);
        lemma_minimax_pruning_is_sound(child, (depth - 1) as nat, alpha, beta, true);
        let result = minimax_value(child, (depth - 1) as nat, alpha, beta, true);
        let value = plain_value(child, (depth - 1) as nat, true);
        if lowered(beta, result) <= alpha {
            lemma_plain_min_at_most(fen, depth, moves.drop_first(), lowered(plain, value));
        } else {
            lemma_min_moves_pruning(
                fen,
                depth,
                moves.drop_first(),
                window,
                alpha,
                lowered(beta, result),
                lowered(pruned, result),
                lowered(plain, value),
            );
        }
    }
}

/// Minimax search with alpha-beta pruning. The score is White's, whoever is
/// to move.
pub fn minimax(pos: &Position, depth: u8, alpha: i32, beta: i32, maximizing_player: bool) -> (score:
    i32)
    ensures
        score == minimax_value(pos@, depth as nat, alpha as int, beta as int, maximizing_player),
    decreases depth,
{
    if depth == 0 || pos.is_game_over() {
        return evaluate_board(pos.board());
    }
    let legal_moves = pos.legal_moves();
    let mut low = alpha;
    let mut high = beta;
    let mut i: usize = 0;
    proof {
        assert(legal_moves@.skip(0) == legal_moves@);
    }
    if maximizing_player {
        let mut max_eval: i32 = -INFINITY;
        while i < legal_moves.len()
            invariant_except_break
                i <= legal_moves.len(),
                minimax_value(pos@, depth as nat, alpha as int, beta as int, true) == max_moves(
                    pos@,
                    depth as nat,
                    legal_moves@.skip(i as int),
                    low as int,
                    high as int,
                    max_eval as int,
                ),
            invariant
                depth > 0,
                legal_moves@ == fen_moves(pos@),
            ensures
                max_eval == minimax_value(pos@, depth as nat, alpha as int, beta as int, true),
            decreases legal_moves.len() - i,
        {
            let m = legal_moves[i];
            proof {
                assert(legal_moves@.contains(m));
                assert(legal_moves@.skip(i as int)[0] == m);
                assert(legal_moves@.skip(i as int).drop_first() == legal_moves@.skip(i + 1));
            }
            let next = pos.play(&m);
            let value = minimax(&next, depth - 1, low, high, false);
            if value > max_eval {
                max_eval = value;
            }
            if value > low {
                low = value;
            }
            if high <= low {
                break;
            }
            i += 1;
        }
        max_eval
    } else {
        let mut min_eval: i32 = INFINITY;
        while i < legal_moves.len()
            invariant_except_break
                i <= legal_moves.len(),
                minimax_value(pos@, depth as nat, alpha as int, beta as int, false) == min_moves(
                    pos@,
                    depth as nat,
                    legal_moves@.skip(i as int),
                    low as int,
                    high as int,
                    min_eval as int,
                ),
            invariant
                depth > 0,
                legal_moves@ == fen_moves(pos@),
            ensures
                min_eval == minimax_value(pos@, depth as nat, alpha as int, beta as int, false),
            decreases legal_moves.len() - i,
        {
            let m = legal_moves[i];
            proof {
                assert(legal_moves@.contains(m));
                assert(legal_moves@.skip(i as int)[0] == m);
                assert(legal_moves@.skip(i as int).drop_first() == legal_moves@.skip(i + 1));
            }
            let next = pos.play(&m);
            let value = minimax(&next, depth - 1, low, high, true);
            if value < min_eval {
                min_eval = value;
            }
            if value < high {
                high = value;
            }
            if high <= low {
                break;
            }
            i += 1;
        }
        min_eval
    }
}

/// The move that `get_best_move` settles on among `moves`, `best` being the
/// best so far with value `best_value`: for White the first move with the
/// largest value, for Black the first with the smallest. The window narrows
/// with each move, but no move ends the search.
pub open spec fn best_of_moves(
    fen: Seq<char>,
    depth: nat,
    moves: Seq<Move>,
    alpha: int,
    beta: int,
    best_value: int,
    best: Move,
    maximizing: bool,
) -> Move
    decreases moves.len(),
{
    if moves.len() == 0 {
        best
    } else {
        let value = minimax_value(
            fen_after(fen, moves[0]),
            (depth - 1) as nat,
            alpha,
            beta,
            !maximizing,
        );
        if maximizing {
            best_of_moves(
                fen,
                depth,
                moves.drop_first(),
                raised(alpha, value),
                beta,
                raised(best_value, value),
                if value > best_value {
                    moves[0]
                } else {
                    best
                },
                maximizing,
            )
        } else {
            best_of_moves(
                fen,
                depth,
                moves.drop_first(),
                alpha,
                lowered(beta, value),
                lowered(best_value, value),
                if value < best_value {
                    moves[0]
                } else {
                    best
                },
                maximizing,
            )
        }
    }
}

/// The move that a minimax search of a position to `depth` settles on.
pub open spec fn minimax_choice(fen: Seq<char>, depth: nat) -> Move {
    let maximizing = fen_board(fen).unwrap().turn == Color::White;
    best_of_moves(
        fen,
        depth,
        fen_moves(fen),
        -INFINITY as int,
        INFINITY as int,
        if maximizing {
            -INFINITY as int
        } else {
            INFINITY as int
        },
        fen_moves(fen)[0],
        maximizing,
    )
}

/// Searches a position to `depth` by minimax and returns the best move for
/// the side to move. The move is one of the position's legal moves.
///
/// The position must have a legal move, and `depth` must be at least 1.
pub fn get_best_move(pos: &Position, depth: u8) -> (best: Move)
    requires
        depth >= 1,
        fen_moves(pos@).len() > 0,
    ensures
        best == minimax_choice(pos@, depth as nat),
        fen_moves(pos@).contains(best),
{
    let legal_moves = pos.legal_moves();
    let mut best_move = legal_moves[0];
    let maximizing = pos.board().turn() == Color::White;
    let mut best_val: i32 = if maximizing {
        -INFINITY
    } else {
        INFINITY
    };
    let mut alpha: i32 = -INFINITY;
    let mut beta: i32 = INFINITY;
    let mut i: usize = 0;
    proof {
        assert(legal_moves@.skip(0) == legal_moves@);
    }
    while i < legal_moves.len()
        invariant
            i <= legal_moves.len(),
            depth >= 1,
            legal_moves@ == fen_moves(pos@),
            legal_moves@.contains(best_move),
            minimax_choice(pos@, depth as nat) == best_of_moves(
                pos@,
                depth as nat,
                legal_moves@.skip(i as int),
                alpha as int,
                beta as int,
                best_val as int,
                best_move,
                maximizing,
            ),
        decreases legal_moves.len() - i,
    {
        let m = legal_moves[i];
        proof {
            assert(legal_moves@.contains(m));
            assert(legal_moves@.skip(i as int)[0] == m);
            assert(legal_moves@.skip(i as int).drop_first() == legal_moves@.skip(i + 1));
        }
        let next = pos.play(&m);
        let val = minimax(&next, depth - 1, alpha, beta, !maximizing);
        if maximizing {
            if val > best_val {
                best_val = val;
                best_move = m;
            }
            if val > alpha {
                alpha = val;
            }
        } else {
            if val < best_val {
                best_val = val;
                best_move = m;
            }
            if val < beta {
                beta = val;
            }
        }
        i += 1;
    }
    best_move
}

/// Searches a position to `depth` by minimax where it can: `None` where
/// `depth` is 0 or the game is over; else the move that `get_best_move`
/// returns.
pub fn try_get_best_move(pos: &Position, depth: u8) -> (best: Option<Move>)
    ensures
        best.is_some() == (depth >= 1 && !fen_game_over(pos@)),
        best matches Some(m) ==> m == minimax_choice(pos@, depth as nat) && fen_moves(pos@).contains(
            m,
        ),
{
    if depth == 0 || pos.is_game_over() {
        None
    } else {
        Some(get_best_move(pos, depth))
    }
}

} // verus!
