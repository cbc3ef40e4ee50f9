//! The search: negamax with alpha-beta pruning over the positions that the
//! rules engine generates, a quiescence search at the horizon, and the
//! transposition table threaded through every call.
//!
//! Each function is specified by a mathematical function of the position
//! text, the window and the table, written over the named results of the
//! rules engine.

use crate::eval::{evaluate_board, static_score};
use crate::ordering::{lemma_ordered, lemma_ordered_contains, order_moves, ordered};
use crate::rules::{
    fen_after, fen_board, fen_checkmate, fen_game_over, fen_moves, piece_count, Move, Position,
};
use crate::tt::{
    lemma_slot_in_range, lemma_store_keeps, Flag, TTEntry, TableView, TranspositionTable,
};
use vstd::prelude::*;

verus! {

/// The widest window the search opens: the root searches from
/// `-INFINITY` to `INFINITY`, and `-INFINITY` is the score to beat before a
/// move has been tried.
pub const INFINITY: i32 = 100000;

/// The base of the mate scores. A side mated with `depth` plies left to
/// search scores `-MATE_SCORE + depth`.
pub const MATE_SCORE: i32 = 20000;

/// The larger of a bound and a score.
pub open spec fn raised(bound: int, score: int) -> int {
    if score > bound {
        score
    } else {
        bound
    }
}

/// The static score of the board that the rules engine reads from a
/// position text. It is counted for White whoever is to move.
pub open spec fn stand_pat(fen: Seq<char>) -> int {
    static_score(fen_board(fen).unwrap().pieces)
}

/// The captures among some moves, in their order.
pub open spec fn captures(moves: Seq<Move>) -> Seq<Move> {
    moves.filter(|m: Move| m.capture)
}

/// The quiescence score of a position for the window `(alpha, beta)`:
/// `beta` where the static score reaches it; else the result of trying the
/// ordered captures from the window `(max(alpha, static score), beta)`.
pub open spec fn quiescence_score(fen: Seq<char>, alpha: int, beta: int) -> int
    decreases piece_count(fen), 1int, 0nat,
{
    let stand = stand_pat(fen);
    if stand >= beta {
        beta
    } else {
        quiescence_moves(fen, ordered(captures(fen_moves(fen))), raised(alpha, stand), beta)
    }
}

/// The quiescence score of a position of which `moves` are the captures
/// still to try, `alpha` being the best score so far. Each capture is
/// searched in the negated window; the first one that reaches `beta` ends
/// the search with `beta`.
///
/// The search descends only while the pieces get fewer, which a capture
/// always brings about.
pub open spec fn quiescence_moves(fen: Seq<char>, moves: Seq<Move>, alpha: int, beta: int) -> int
    decreases piece_count(fen), 0int, moves.len(),
{
    if moves.len() == 0 {
        alpha
    } else {
        let child = fen_after(fen, moves[0]);
        let score = if piece_count(child) < piece_count(fen) {
            -quiescence_score(child, -beta, -alpha)
        } else {
            0
        };
        if score >= beta {
            beta
        } else {
            quiescence_moves(fen, moves.drop_first(), raised(alpha, score), beta)
        }
    }
}

/// A capture among the legal moves is a legal move and a capture.
proof fn lemma_captures(moves: Seq<Move>, m: Move)
    requires
        captures(moves).contains(m),
    ensures
        moves.contains(m),
        m.capture,
    decreases moves.len(),
{
    reveal(Seq::filter);
    if moves.len() > 0 {
        let rest = moves.drop_last();
        if captures(rest).contains(m) {
            lemma_captures(rest, m);
            let i = choose|i: int| 0 <= i < rest.len() && rest[i] == m;
            assert(moves[i] == m);
        } else {
            let i = choose|i: int| 0 <= i < captures(moves).len() && captures(moves)[i] == m;
            assert(captures(moves) == captures(rest).push(moves.last()));
            if i < captures(rest).len() {
                assert(captures(rest)[i] == m);
            }
            assert(moves[moves.len() - 1] == m);
        }
    }
}

/// The captures among some moves, in their order.
fn capture_moves(moves: &Vec<Move>) -> (found: Vec<Move>)
    ensures
        found@ == captures(moves@),
{
    let mut found: Vec<Move> = Vec::new();
    let mut i: usize = 0;
    proof {
        reveal(Seq::filter);
    }
    while i < moves.len()
        invariant
            i <= moves.len(),
            found@ == captures(moves@.take(i as int)),
        decreases moves.len() - i,
    {
        let m = moves[i];
        proof {
            reveal(Seq::filter);
            assert(moves@.take(i + 1).drop_last() == moves@.take(i as int));
            assert(moves@.take(i + 1).last() == m);
        }
        if m.capture {
            found.push(m);
        }
        i += 1;
    }
    proof {
        assert(moves@.take(i as int) == moves@);
    }
    found
}

/// Quiescence search: the static score as a baseline, then captures only,
/// until the position is quiet or a capture reaches `beta`.
pub fn quiescence(pos: &Position, alpha: i32, beta: i32) -> (score: i32)
    ensures
        score == quiescence_score(pos@, alpha as int, beta as int),
        beta > i32::MIN ==> score > i32::MIN,
    decreases piece_count(pos@),
{
    let stand_pat = evaluate_board(pos.board());
    if stand_pat >= beta {
        return beta;
    }
    let mut best = alpha;
    if stand_pat > best {
        best = stand_pat;
    }
    let moves = pos.legal_moves();
    let capture_moves = order_moves(capture_moves(&moves));
    let mut i: usize = 0;
    proof {
        assert(capture_moves@.skip(0) == capture_moves@);
    }
    while i < capture_moves.len()
        invariant
            i <= capture_moves.len(),
            capture_moves@ == ordered(captures(fen_moves(pos@))),
            best > i32::MIN,
            beta > i32::MIN,
            quiescence_score(pos@, alpha as int, beta as int) == quiescence_moves(
                pos@,
                capture_moves@.skip(i as int),
                best as int,
                beta as int,
            ),
        decreases capture_moves.len() - i,
    {
        let m = capture_moves[i];
        proof {
            assert(capture_moves@.contains(m));
            lemma_ordered_contains(captures(fen_moves(pos@)), m);
            lemma_captures(fen_moves(pos@), m);
            assert(capture_moves@.skip(i as int)[0] == m);
            assert(capture_moves@.skip(i as int).drop_first() == capture_moves@.skip(i + 1));
        }
        let next = pos.play(&m);
        let score = -quiescence(&next, -beta, -best);
        if score >= beta {
            return beta;
        }
        if score > best {
            best = score;
        }
        i += 1;
    }
    best
}

/// The quiescence value of a position without a window: the largest of the
/// static score and the negated values after each capture.
pub open spec fn quiet_value(fen: Seq<char>) -> int
    decreases piece_count(fen), 1int, 0nat,
{
    best_capture(fen, ordered(captures(fen_moves(fen))), stand_pat(fen))
}

/// The largest of `best` and the negated quiescence values after each of
/// `moves`.
pub open spec fn best_capture(fen: Seq<char>, moves: Seq<Move>, best: int) -> int
    decreases piece_count(fen), 0int, moves.len(),
{
    if moves.len() == 0 {
        best
    } else {
        let child = fen_after(fen, moves[0]);
        let score = if piece_count(child) < piece_count(fen) {
            -quiet_value(child)
        } else {
            0
        };
        best_capture(fen, moves.drop_first(), raised(best, score))
    }
}

/// The best capture is at least the score to beat, and a higher score to
/// beat lifts it no higher than to that score.
proof fn lemma_best_capture_of_raised(fen: Seq<char>, moves: Seq<Move>, best: int, floor: int)
    ensures
        best_capture(fen, moves, best) >= best,
        best_capture(fen, moves, raised(floor, best)) == raised(floor, best_capture(fen, moves, best)),
    decreases moves.len(),
{
    if moves.len() > 0 {
        let child = fen_after(fen, moves[0]);
        let score = if piece_count(child) < piece_count(fen) {
            -quiet_value(child)
        } else {
            0
        };
        lemma_best_capture_of_raised(fen, moves.drop_first(), raised(best, score), floor);
        assert(raised(raised(floor, best), score) == raised(floor, raised(best, score)));
    }
}

/// Pruning does not change what the quiescence search finds: in a window
/// that is not empty, the quiescence score is the value found without a
/// window, brought into the window.
pub proof fn lemma_quiescence_pruning_is_exact(fen: Seq<char>, alpha: int, beta: int)
    requires
        alpha < beta,
    ensures
        quiescence_score(fen, alpha, beta) == lowered(beta, raised(alpha, quiet_value(fen))),
    decreases piece_count(fen), 1int, 0nat,
{
    let moves = ordered(captures(fen_moves(fen)));
    let stand = stand_pat(fen);
    lemma_best_capture_of_raised(fen, moves, stand, alpha);
    if stand < beta {
        lemma_quiescence_moves_pruning_is_exact(fen, moves, raised(alpha, stand), beta);
    }
}

/// The same of the captures still to try: where the best score so far is
/// below `beta`, the search returns the best capture's score, or `beta`
/// where that reaches it.
pub proof fn lemma_quiescence_moves_pruning_is_exact(
    fen: Seq<char>,
    moves: Seq<Move>,
    alpha: int,
    beta: int,
)
    requires
        alpha < beta,
    ensures
        quiescence_moves(fen, moves, alpha, beta) == lowered(beta, best_capture(fen, moves, alpha)),
    decreases piece_count(fen), 0int, moves.len(),
{
    if moves.len() > 0 {
        let child = fen_after(fen, moves[0]);
        if piece_count(child) < piece_count(fen) {
            lemma_quiescence_pruning_is_exact(child, -beta, -alpha);
        }
        let value = if piece_count(child) < piece_count(fen) {
            -quiet_value(child)
        } else {
            0
        };
        let score = if piece_count(child) < piece_count(fen) {
            -quiescence_score(child, -beta, -alpha)
        } else {
            0
        };
        lemma_best_capture_of_raised(fen, moves.drop_first(), raised(alpha, value), alpha);
        if score < beta {
            assert(raised(alpha, score) == raised(alpha, value));
            lemma_quiescence_moves_pruning_is_exact(fen, moves.drop_first(), raised(alpha, score), beta);
        }
    }
}

/// The smaller of a bound and a score.
pub open spec fn lowered(bound: int, score: int) -> int {
    if score < bound {
        score
    } else {
        bound
    }
}

/// The hash of the board that the rules engine reads from a position text.
pub open spec fn position_hash(table: TableView, fen: Seq<char>) -> u64 {
    table.hash(fen_board(fen).unwrap())
}

/// The cached entry that a search to `depth` may use: the one a probe
/// found, where it was searched at least as deep.
pub open spec fn usable_entry(found: Option<TTEntry>, depth: nat) -> Option<TTEntry> {
    match found {
        Some(entry) => if entry.depth >= depth {
            Some(entry)
        } else {
            None
        },
        None => None,
    }
}

/// The lower bound of the window after a usable entry: raised to the cached
/// score where that is a lower bound.
pub open spec fn tightened_alpha(entry: Option<TTEntry>, alpha: int) -> int {
    match entry {
        Some(e) => if e.flag == Flag::LowerBound {
            raised(alpha, e.score as int)
        } else {
            alpha
        },
        None => alpha,
    }
}

/// The upper bound of the window after a usable entry: lowered to the cached
/// score where that is an upper bound.
pub open spec fn tightened_beta(entry: Option<TTEntry>, beta: int) -> int {
    match entry {
        Some(e) => if e.flag == Flag::UpperBound {
            lowered(beta, e.score as int)
        } else {
            beta
        },
        None => beta,
    }
}

/// Whether a usable entry answers the search: its score is exact, or the
/// tightened window is empty.
pub open spec fn entry_answers(entry: Option<TTEntry>, alpha: int, beta: int) -> bool {
    match entry {
        Some(e) => e.flag == Flag::Exact || tightened_alpha(entry, alpha) >= tightened_beta(
            entry,
            beta,
        ),
        None => false,
    }
}

/// How a result is cached, judged by the window the search was asked with,
/// before any cached entry tightened it: as an upper bound where it does not
/// exceed that window's `alpha`, as a lower bound where it reaches that
/// window's `beta`, else as exact.
pub open spec fn result_flag(best: int, alpha: int, beta: int) -> Flag {
    if best <= alpha {
        Flag::UpperBound
    } else if best >= beta {
        Flag::LowerBound
    } else {
        Flag::Exact
    }
}

/// What a probe of the table means for a search.
#[derive(Clone, Copy, Debug, PartialEq, Eq, Structural)]
pub enum Probe {
    /// The cached score answers the search.
    Answer(i32),
    /// The search goes on with these bounds.
    Window(i32, i32),
}

/// Applies what a probe found to the window of a search to `depth`: an
/// entry searched at least as deep answers where it is exact, raises
/// `alpha` where it is a lower bound and lowers `beta` where it is an upper
/// bound; it also answers where that leaves the window empty. Any other
/// entry, and a miss, leave the window as it is.
pub fn apply_probe(found: Option<TTEntry>, depth: u8, alpha: i32, beta: i32) -> (probe: Probe)
    ensures
        entry_answers(usable_entry(found, depth as nat), alpha as int, beta as int) ==> probe
            == Probe::Answer(found.unwrap().score),
        !entry_answers(usable_entry(found, depth as nat), alpha as int, beta as int) ==> probe
            == Probe::Window(
            tightened_alpha(usable_entry(found, depth as nat), alpha as int) as i32,
            tightened_beta(usable_entry(found, depth as nat), beta as int) as i32,
        ),
{
    let mut low = alpha;
    let mut high = beta;
    if let Some(entry) = found {
        if entry.depth >= depth {
            match entry.flag {
                Flag::Exact => {
                    return Probe::Answer(entry.score);
                },
                Flag::LowerBound => {
                    if entry.score > low {
                        low = entry.score;
                    }
                },
                Flag::UpperBound => {
                    if entry.score < high {
                        high = entry.score;
                    }
                },
            }
            if low >= high {
                return Probe::Answer(entry.score);
            }
        }
    }
    Probe::Window(low, high)
}

/// The flag under which a result is cached.
pub fn flag_of_result(best_score: i32, alpha: i32, beta: i32) -> (flag: Flag)
    ensures
        flag == result_flag(best_score as int, alpha as int, beta as int),
{
    if best_score <= alpha {
        Flag::UpperBound
    } else if best_score >= beta {
        Flag::LowerBound
    } else {
        Flag::Exact
    }
}

/// What `negamax` returns and what it leaves in the table.
pub struct Outcome {
    pub score: int,
    pub table: TableView,
}

/// The result of a negamax search of a position to `depth` in the window
/// `(alpha, beta)`, with `table` as the cache. In this order:
///
/// 1. a usable cached entry answers, or tightens the window;
/// 2. a finished game scores `-MATE_SCORE + depth` for a mate and 0 else;
/// 3. at depth 0 the quiescence score of the tightened window is returned;
/// 4. else the ordered legal moves are searched in the tightened window,
///    and the best score is stored under the position's hash with the flag
///    that `result_flag` gives it in the window `(alpha, beta)` as asked.
///
/// The score is relative to the side to move.
pub open spec fn negamax_result(
    fen: Seq<char>,
    depth: nat,
    alpha: int,
    beta: int,
    table: TableView,
) -> Outcome
    decreases depth, 1int, 0nat,
{
    let hash = position_hash(table, fen);
    let entry = usable_entry(table.get(hash), depth);
    let low = tightened_alpha(entry, alpha);
    let high = tightened_beta(entry, beta);
    if entry_answers(entry, alpha, beta) {
        Outcome { score: entry.unwrap().score as int, table }
    } else if fen_game_over(fen) {
        Outcome {
            score: if fen_checkmate(fen) {
                -MATE_SCORE + depth
            } else {
                0
            },
            table,
        }
    } else if depth == 0 {
        Outcome { score: quiescence_score(fen, low, high), table }
    } else {
        let searched = negamax_moves(fen, depth, ordered(fen_moves(fen)), low, high, -INFINITY, table);
        Outcome {
            score: searched.score,
            table: searched.table.store(
                hash,
                searched.score as i32,
                depth as u8,
                result_flag(searched.score, alpha, beta),
            ),
        }
    }
}

/// The result of searching `moves` of a position one after the other to
/// `depth - 1` in the negated window. `alpha` rises to the best score, and
/// the first move that lifts it to `beta` ends the search.
pub open spec fn negamax_moves(
    fen: Seq<char>,
    depth: nat,
    moves: Seq<Move>,
    alpha: int,
    beta: int,
    best: int,
    table: TableView,
) -> Outcome
    decreases depth, 0int, moves.len(),
{
    if moves.len() == 0 || depth == 0 {
        Outcome { score: best, table }
    } else {
        let child = negamax_result(fen_after(fen, moves[0]), (depth - 1) as nat, -beta, -alpha, table);
        let score = -child.score;
        if raised(alpha, score) >= beta {
            Outcome { score: raised(best, score), table: child.table }
        } else {
            negamax_moves(
                fen,
                depth,
                moves.drop_first(),
                raised(alpha, score),
                beta,
                raised(best, score),
                child.table,
            )
        }
    }
}

/// Whether the cache answers a search of a position: the probe for the
/// position's hash finds an entry that `entry_answers` accepts.
pub open spec fn cache_answers(fen: Seq<char>, depth: nat, alpha: int, beta: int, table: TableView) -> bool {
    entry_answers(usable_entry(table.get(position_hash(table, fen)), depth), alpha, beta)
}

/// Negamax search with alpha-beta pruning and the transposition table.
/// Returns the score of the position for the side to move and caches what
/// it learns.
///
/// A position in which the side to move is mated scores
/// `-MATE_SCORE + depth` and leaves the table as it is, unless the cache
/// answers first.
///
/// The bounds and the cached scores must be negatable, that is, above
/// `i32::MIN`.
pub fn negamax(pos: &Position, depth: u8, alpha: i32, beta: i32, tt: &mut TranspositionTable) -> (score:
    i32)
    requires
        alpha > i32::MIN,
        beta > i32::MIN,
        old(tt)@.scores_negatable(),
    ensures
        score == negamax_result(pos@, depth as nat, alpha as int, beta as int, old(tt)@).score,
        final(tt)@ == negamax_result(pos@, depth as nat, alpha as int, beta as int, old(tt)@).table,
        score > i32::MIN,
        final(tt)@.scores_negatable(),
        fen_checkmate(pos@) && !cache_answers(
            pos@,
            depth as nat,
            alpha as int,
            beta as int,
            old(tt)@,
        ) ==> score == -MATE_SCORE + depth && final(tt)@ == old(tt)@,
    decreases depth,
{
    let hash = tt.compute_hash(pos.board());
    proof {
        use_type_invariant(&*tt);
        lemma_slot_in_range(tt@, hash);
    }
    let (mut low, high) = match apply_probe(tt.get(hash), depth, alpha, beta) {
        Probe::Answer(score) => {
            return score;
        },
        Probe::Window(low, high) => (low, high),
    };
    if pos.is_game_over() {
        if pos.is_checkmate() {
            return -MATE_SCORE + (depth as i32);
        }
        return 0;
    }
    if depth == 0 {
        return quiescence(pos, low, high);
    }
    let moves = order_moves(pos.legal_moves());
    let mut best_score: i32 = -INFINITY;
    let mut best_move: Option<Move> = None;
    let ghost goal = negamax_moves(
        pos@,
        depth as nat,
        moves@,
        low as int,
        high as int,
        -INFINITY as int,
        tt@,
    );
    let mut i: usize = 0;
    proof {
        assert(moves@.skip(0) == moves@);
    }
    while i < moves.len()
        invariant_except_break
            i <= moves.len(),
            goal == negamax_moves(
                pos@,
                depth as nat,
                moves@.skip(i as int),
                low as int,
                high as int,
                best_score as int,
                tt@,
            ),
        invariant
            depth > 0,
            moves@ == ordered(fen_moves(pos@)),
            low > i32::MIN,
            high > i32::MIN,
            best_score > i32::MIN,
            tt@.scores_negatable(),
        ensures
            goal == (Outcome { score: best_score as int, table: tt@ }),
        decreases moves.len() - i,
    {
        let m = moves[i];
        proof {
            assert(moves@.contains(m));
            lemma_ordered_contains(fen_moves(pos@), m);
            assert(moves@.skip(i as int)[0] == m);
            assert(moves@.skip(i as int).drop_first() == moves@.skip(i + 1));
        }
        let next = pos.play(&m);
        let score = -negamax(&next, depth - 1, -high, -low, tt);
        if score > best_score {
            best_score = score;
            best_move = Some(m);
        }
        if score > low {
            low = score;
        }
        if low >= high {
            break;
        }
        i += 1;
    }
    let flag = flag_of_result(best_score, alpha, beta);
    proof {
        use_type_invariant(&*tt);
        lemma_store_keeps(tt@, hash, best_score, depth, flag);
    }
    tt.store(hash, best_score, depth, flag, best_move.as_ref());
    best_score
}

/// What `get_best_move` returns and what it leaves in the table.
pub struct Choice {
    pub best: Move,
    pub table: TableView,
}

/// The result of searching `moves` at the root, each to `depth - 1` in the
/// window `(-INFINITY, -alpha)`. The first move that beats the best score so
/// far becomes the best move; no move ends the search early.
pub open spec fn root_moves(
    fen: Seq<char>,
    depth: nat,
    moves: Seq<Move>,
    alpha: int,
    best_score: int,
    best: Move,
    table: TableView,
) -> Choice
    decreases moves.len(),
{
    if moves.len() == 0 {
        Choice { best, table }
    } else {
        let child = negamax_result(
            fen_after(fen, moves[0]),
            (depth - 1) as nat,
            -INFINITY as int,
            -alpha,
            table,
        );
        let score = -child.score;
        root_moves(
            fen,
            depth,
            moves.drop_first(),
            raised(alpha, score),
            raised(best_score, score),
            if score > best_score {
                moves[0]
            } else {
                best
            },
            child.table,
        )
    }
}

/// The move that a search of a position to `depth` settles on: the first of
/// the ordered legal moves with the highest score, or the first of all
/// where none scores above `-INFINITY`.
pub open spec fn best_move_result(fen: Seq<char>, depth: nat, table: TableView) -> Choice {
    let moves = ordered(fen_moves(fen));
    root_moves(fen, depth, moves, -INFINITY as int, -INFINITY as int, moves[0], table)
}

/// Searches a position to `depth` and returns the best move for the side
/// to move. The move is one of the position's legal moves.
///
/// The position must have a legal move, and `depth` must be at least 1.
pub fn get_best_move(pos: &Position, depth: u8, tt: &mut TranspositionTable) -> (best: Move)
    requires
        depth >= 1,
        fen_moves(pos@).len() > 0,
        old(tt)@.scores_negatable(),
    ensures
        best == best_move_result(pos@, depth as nat, old(tt)@).best,
        final(tt)@ == best_move_result(pos@, depth as nat, old(tt)@).table,
        fen_moves(pos@).contains(best),
        final(tt)@.scores_negatable(),
{
    let moves = order_moves(pos.legal_moves());
    proof {
        lemma_ordered(fen_moves(pos@));
        assert(moves@.skip(0) == moves@);
        assert(moves@.contains(moves@[0]));
    }
    let mut best_move = moves[0];
    let mut best_score: i32 = -INFINITY;
    let mut alpha: i32 = -INFINITY;
    let beta: i32 = INFINITY;
    let mut i: usize = 0;
    while i < moves.len()
        invariant
            i <= moves.len(),
            depth >= 1,
            moves@ == ordered(fen_moves(pos@)),
            moves@.contains(best_move),
            beta == INFINITY,
            alpha > i32::MIN,
            best_score > i32::MIN,
            tt@.scores_negatable(),
            best_move_result(pos@, depth as nat, old(tt)@) == root_moves(
                pos@,
                depth as nat,
                moves@.skip(i as int),
                alpha as int,
                best_score as int,
                best_move,
                tt@,
            ),
        decreases moves.len() - i,
    {
        let m = moves[i];
        proof {
            assert(moves@.contains(m));
            lemma_ordered_contains(fen_moves(pos@), m);
            assert(moves@.skip(i as int)[0] == m);
            assert(moves@.skip(i as int).drop_first() == moves@.skip(i + 1));
        }
        let next = pos.play(&m);
        let score = -negamax(&next, depth - 1, -beta, -alpha, tt);
        if score > best_score {
            best_score = score;
            best_move = m;
        }
        if score > alpha {
            alpha = score;
        }
        i += 1;
    }
    proof {
        lemma_ordered_contains(fen_moves(pos@), best_move);
    }
    best_move
}

/// Searches a position to `depth` where it can: `None`, with the table
/// untouched, where `depth` is 0 or the game is over; else the move that
/// `get_best_move` returns.
pub fn try_get_best_move(pos: &Position, depth: u8, tt: &mut TranspositionTable) -> (best: Option<
    Move,
>)
    requires
        old(tt)@.scores_negatable(),
    ensures
        best.is_some() == (depth >= 1 && !fen_game_over(pos@)),
        best matches Some(m) ==> m == best_move_result(pos@, depth as nat, old(tt)@).best
            && fen_moves(pos@).contains(m),
        final(tt)@ == if best.is_some() {
            best_move_result(pos@, depth as nat, old(tt)@).table
        } else {
            old(tt)@
        },
        final(tt)@.scores_negatable(),
{
    if depth == 0 || pos.is_game_over() {
        None
    } else {
        Some(get_best_move(pos, depth, tt))
    }
}

/// A search changes slots only: the table it leaves has the size and the
/// keys it found.
pub proof fn lemma_negamax_keeps_table_shape(
    fen: Seq<char>,
    depth: nat,
    alpha: int,
    beta: int,
    table: TableView,
)
    requires
        table.wf(),
    ensures
        negamax_result(fen, depth, alpha, beta, table).table.wf(),
        negamax_result(fen, depth, alpha, beta, table).table.entries.len() == table.entries.len(),
        negamax_result(fen, depth, alpha, beta, table).table.piece_keys == table.piece_keys,
        negamax_result(fen, depth, alpha, beta, table).table.side_key == table.side_key,
    decreases depth, 1int, 0nat,
{
    let hash = position_hash(table, fen);
    let entry = usable_entry(table.get(hash), depth);
    let low = tightened_alpha(entry, alpha);
    let high = tightened_beta(entry, beta);
    if !entry_answers(entry, alpha, beta) && !fen_game_over(fen) && depth > 0 {
        let moves = ordered(fen_moves(fen));
        lemma_negamax_moves_keep_table_shape(fen, depth, moves, low, high, -INFINITY as int, table);
        let searched = negamax_moves(fen, depth, moves, low, high, -INFINITY as int, table);
        lemma_store_keeps(
            searched.table,
            hash,
            searched.score as i32,
            depth as u8,
            result_flag(searched.score, alpha, beta),
        );
    }
}

/// The same of a search of some moves of a position.
pub proof fn lemma_negamax_moves_keep_table_shape(
    fen: Seq<char>,
    depth: nat,
    moves: Seq<Move>,
    alpha: int,
    beta: int,
    best: int,
    table: TableView,
)
    requires
        table.wf(),
    ensures
        negamax_moves(fen, depth, moves, alpha, beta, best, table).table.wf(),
        negamax_moves(fen, depth, moves, alpha, beta, best, table).table.entries.len()
            == table.entries.len(),
        negamax_moves(fen, depth, moves, alpha, beta, best, table).table.piece_keys
            == table.piece_keys,
        negamax_moves(fen, depth, moves, alpha, beta, best, table).table.side_key == table.side_key,
    decreases depth, 0int, moves.len(),
{
    if moves.len() > 0 && depth > 0 {
        let child_fen = fen_after(fen, moves[0]);
        lemma_negamax_keeps_table_shape(child_fen, (depth - 1) as nat, -beta, -alpha, table);
        let child = negamax_result(child_fen, (depth - 1) as nat, -beta, -alpha, table);
        let score = -child.score;
        if raised(alpha, score) < beta {
            lemma_negamax_moves_keep_table_shape(
                fen,
                depth,
                moves.drop_first(),
                raised(alpha, score),
                beta,
                raised(best, score),
                child.table,
            );
        }
    }
}

} // verus!
