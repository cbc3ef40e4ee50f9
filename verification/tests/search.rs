use chess_search::board::Role;
use chess_search::eval::evaluate_board;
use chess_search::rules::{Move, Position};
use chess_search::search::{
    apply_probe, flag_of_result, get_best_move, negamax, quiescence, try_get_best_move, Probe,
    INFINITY, MATE_SCORE,
};
use chess_search::tt::{Flag, TTEntry, TranspositionTable};

const START: &str = "rnbqkbnr/pppppppp/8/8/8/8/PPPPPPPP/RNBQKBNR w KQkq - 0 1";
const MATE_IN_ONE: &str = "6k1/5ppp/8/8/8/8/8/R3K3 w Q - 0 1";
const EXCHANGES: &str = "3r2k1/3r4/4bn2/3p4/2P1P3/2N2B2/3R4/3R2K1 w - - 0 1";

fn position(fen: &str) -> Position {
    Position::from_fen(fen).unwrap()
}

fn table() -> TranspositionTable {
    TranspositionTable::new(1 << 16)
}

/// Quiescence without a window: the best of the static score and every
/// capture line.
fn quiet_value(pos: &Position) -> i32 {
    let mut best = evaluate_board(pos.board());
    for m in pos.legal_moves() {
        if m.capture {
            best = best.max(-quiet_value(&pos.play(&m)));
        }
    }
    best
}

/// Negamax over every move, with no window and no cache.
fn full_width(pos: &Position, depth: u8) -> i32 {
    if pos.is_game_over() {
        return if pos.is_checkmate() { -MATE_SCORE + depth as i32 } else { 0 };
    }
    if depth == 0 {
        return quiet_value(pos);
    }
    let mut best = -INFINITY;
    for m in pos.legal_moves() {
        best = best.max(-full_width(&pos.play(&m), depth - 1));
    }
    best
}

#[test]
fn depth_one_from_the_start_is_the_best_child_score() {
    let pos = position(START);
    let mut tt = table();
    let score = negamax(&pos, 1, -INFINITY, INFINITY, &mut tt);
    let expected = pos
        .legal_moves()
        .iter()
        .map(|m| -evaluate_board(pos.play(m).board()))
        .max()
        .unwrap();
    assert_eq!(score, expected);
    // A wing pawn's double step gives up the most placement bonus: 50 - 5.
    assert_eq!(score, 45);
}

#[test]
fn mate_in_one_scores_in_the_mate_band() {
    for depth in 1..=3u8 {
        let pos = position(MATE_IN_ONE);
        let mut tt = table();
        let score = negamax(&pos, depth, -INFINITY, INFINITY, &mut tt);
        assert_eq!(score, MATE_SCORE - (depth as i32 - 1));
        assert!(score > 15000 && score <= MATE_SCORE);
    }
}

#[test]
fn mate_in_one_is_played() {
    for depth in 1..=3u8 {
        let pos = position(MATE_IN_ONE);
        let mut tt = table();
        let best = get_best_move(&pos, depth, &mut tt);
        assert_eq!(best, Move { from: 0, to: 56, role: Role::Rook, capture: false, promotion: None });
        assert!(pos.play(&best).is_checkmate());
    }
}

#[test]
fn mated_side_scores_the_mate_score_plus_depth() {
    let pos = position("R5k1/5ppp/8/8/8/8/8/4K3 b - - 1 1");
    assert!(pos.is_checkmate());
    for depth in [0u8, 1, 5, 255] {
        let mut tt = table();
        assert_eq!(negamax(&pos, depth, -INFINITY, INFINITY, &mut tt), -MATE_SCORE + depth as i32);
    }
}

#[test]
fn stalemate_and_bare_kings_score_zero() {
    let mut tt = table();
    let stalemate = position("7k/5Q2/6K1/8/8/8/8/8 b - - 0 1");
    assert!(stalemate.is_game_over() && !stalemate.is_checkmate());
    assert_eq!(negamax(&stalemate, 3, -INFINITY, INFINITY, &mut tt), 0);
    let bare = position("4k3/8/8/8/8/8/8/4K3 w - - 0 1");
    assert!(bare.is_game_over());
    assert_eq!(negamax(&bare, 2, -INFINITY, INFINITY, &mut tt), 0);
}

#[test]
fn best_move_is_always_legal() {
    let fens = [
        START,
        MATE_IN_ONE,
        EXCHANGES,
        "r1bqkb1r/pppp1ppp/2n2n2/4p2Q/2B1P3/8/PPPP1PPP/RNB1K1NR w KQkq - 4 4",
        "rnbqkbnr/ppp1pppp/8/8/3pP3/7P/PPPP1PP1/RNBQKBNR b KQkq e3 0 3",
        "8/P7/8/8/8/8/7k/K7 w - - 0 1",
        "r3k2r/8/8/8/8/8/8/R3K2R w KQkq - 0 1",
    ];
    for fen in fens {
        for depth in 1..=2u8 {
            let pos = position(fen);
            let mut tt = table();
            let best = get_best_move(&pos, depth, &mut tt);
            assert!(pos.legal_moves().contains(&best), "{} at depth {}", fen, depth);
        }
    }
}

#[test]
fn best_move_leads_to_the_best_score() {
    let pos = position("4k3/8/8/3q4/8/2N5/8/4K3 w - - 0 1");
    let mut tt = table();
    let best = get_best_move(&pos, 2, &mut tt);
    // The knight takes the queen.
    assert_eq!(best, Move { from: 18, to: 35, role: Role::Knight, capture: true, promotion: None });
}

#[test]
fn try_get_best_move_refuses_what_cannot_be_searched() {
    let mut tt = table();
    let pos = position(START);
    assert_eq!(try_get_best_move(&pos, 0, &mut tt), None);
    let mated = position("R5k1/5ppp/8/8/8/8/8/4K3 b - - 1 1");
    assert_eq!(try_get_best_move(&mated, 2, &mut tt), None);
    let stalemate = position("7k/5Q2/6K1/8/8/8/8/8 b - - 0 1");
    assert_eq!(try_get_best_move(&stalemate, 2, &mut tt), None);
    // Bare kings can still move, but the game is over.
    let bare = position("4k3/8/8/8/8/8/8/4K3 w - - 0 1");
    assert_eq!(try_get_best_move(&bare, 2, &mut tt), None);
    // Nothing was searched, so nothing was cached.
    assert_eq!(tt.get(tt.compute_hash(pos.board())), None);
    let mut fresh = table();
    assert_eq!(try_get_best_move(&pos, 2, &mut tt), Some(get_best_move(&pos, 2, &mut fresh)));
}

#[test]
fn capture_line_of_eight_exists() {
    let mut pos = position(EXCHANGES);
    let mut taken = 0;
    while let Some(m) = pos.legal_moves().into_iter().find(|m| m.capture) {
        let before = pos.board().pieces().len();
        pos = pos.play(&m);
        assert_eq!(pos.board().pieces().len(), before - 1);
        taken += 1;
    }
    assert!(taken >= 8, "{} captures", taken);
}

#[test]
fn quiescence_ends_on_a_long_capture_sequence() {
    let pos = position(EXCHANGES);
    let score = quiescence(&pos, -INFINITY, INFINITY);
    assert_eq!(score, quiet_value(&pos));
}

#[test]
fn quiescence_of_a_quiet_position_is_the_static_score() {
    let pos = position("4k3/8/8/8/4P3/8/8/4K3 w - - 0 1");
    assert_eq!(quiescence(&pos, -INFINITY, INFINITY), 125);
    // Black to move: the static score is still White's.
    let pos = position("4k3/8/8/8/4P3/8/8/4K3 b - - 0 1");
    assert_eq!(quiescence(&pos, -INFINITY, INFINITY), 125);
}

#[test]
fn quiescence_respects_the_window() {
    let pos = position("4k3/8/8/8/4P3/8/8/4K3 w - - 0 1");
    assert_eq!(quiescence(&pos, -INFINITY, 100), 100);
    assert_eq!(quiescence(&pos, -INFINITY, 125), 125);
    assert_eq!(quiescence(&pos, 200, 300), 200);
    assert_eq!(quiescence(&pos, 125, 126), 125);
}

#[test]
fn quiescence_takes_a_hanging_queen() {
    let pos = position("4k3/8/8/3q4/8/2N5/8/4K3 w - - 0 1");
    // Static: 330 - 900. After NxQ: knight on d5 is worth 320 + 20.
    assert_eq!(evaluate_board(pos.board()), -570);
    assert_eq!(quiescence(&pos, -INFINITY, INFINITY), -340);
}

#[test]
fn pruned_search_equals_full_width_search() {
    let fens = [
        "4k3/8/8/8/4P3/8/8/4K3 w - - 0 1",
        "4k3/8/8/3p4/4P3/8/8/4K3 w - - 0 1",
        "4k3/8/8/3q4/8/2N5/8/4K3 w - - 0 1",
        "6k1/5ppp/8/8/8/8/8/R3K3 w Q - 0 1",
        "8/P7/8/8/8/8/7k/K7 w - - 0 1",
        "2k5/8/8/8/8/8/4p3/2K5 b - - 0 1",
        "4k3/4r3/8/8/8/8/4R3/4K3 b - - 0 1",
    ];
    for fen in fens {
        for depth in 1..=4u8 {
            let pos = position(fen);
            let mut tt = table();
            let pruned = negamax(&pos, depth, -INFINITY, INFINITY, &mut tt);
            assert_eq!(pruned, full_width(&pos, depth), "{} at depth {}", fen, depth);
        }
    }
}

#[test]
fn search_stores_its_result() {
    let pos = position("4k3/8/8/3p4/4P3/8/8/4K3 w - - 0 1");
    let mut tt = table();
    let score = negamax(&pos, 2, -INFINITY, INFINITY, &mut tt);
    let entry = tt.get(tt.compute_hash(pos.board())).unwrap();
    assert_eq!(entry.score, score);
    assert_eq!(entry.depth, 2);
    assert_eq!(entry.flag, Flag::Exact);
    assert_eq!(entry.best_move_index, 0);
}

#[test]
fn exact_entry_answers_the_search() {
    let pos = position(START);
    let mut tt = table();
    let hash = tt.compute_hash(pos.board());
    tt.store(hash, 4242, 9, Flag::Exact, None);
    assert_eq!(negamax(&pos, 3, -INFINITY, INFINITY, &mut tt), 4242);
    assert_eq!(negamax(&pos, 9, -INFINITY, INFINITY, &mut tt), 4242);
}

#[test]
fn shallow_entry_is_not_used() {
    let pos = position(START);
    let mut tt = table();
    let hash = tt.compute_hash(pos.board());
    tt.store(hash, 4242, 0, Flag::Exact, None);
    assert_eq!(negamax(&pos, 1, -INFINITY, INFINITY, &mut tt), 45);
    // The deeper result took the slot.
    assert_eq!(tt.get(hash).unwrap().depth, 1);
    assert_eq!(tt.get(hash).unwrap().score, 45);
}

#[test]
fn bound_entries_cut_an_empty_window() {
    let pos = position(START);
    let mut tt = table();
    let hash = tt.compute_hash(pos.board());
    tt.store(hash, 500, 5, Flag::LowerBound, None);
    // The lower bound lifts alpha to 500, at or above beta.
    assert_eq!(negamax(&pos, 2, -INFINITY, 400, &mut tt), 500);
    assert_eq!(negamax(&pos, 2, -INFINITY, 500, &mut tt), 500);
    let mut tt = table();
    tt.store(hash, -500, 5, Flag::UpperBound, None);
    assert_eq!(negamax(&pos, 2, -400, INFINITY, &mut tt), -500);
}

#[test]
fn result_is_flagged_against_the_window() {
    let pos = position(START);
    let hash = table().compute_hash(pos.board());
    // The true depth-1 score is 45. Below the window, every child's
    // quiescence search stops at its bound, so the score is alpha.
    let mut tt = table();
    assert_eq!(negamax(&pos, 1, 100, 200, &mut tt), 100);
    assert_eq!(tt.get(hash).unwrap().flag, Flag::UpperBound);
    assert_eq!(tt.get(hash).unwrap().score, 100);
    // Above the window, the first child already reaches beta.
    let mut tt = table();
    assert_eq!(negamax(&pos, 1, -200, -100, &mut tt), -100);
    assert_eq!(tt.get(hash).unwrap().flag, Flag::LowerBound);
    assert_eq!(tt.get(hash).unwrap().score, -100);
    // Inside the window the score is exact.
    let mut tt = table();
    assert_eq!(negamax(&pos, 1, 0, 100, &mut tt), 45);
    assert_eq!(tt.get(hash).unwrap().flag, Flag::Exact);
}

#[test]
fn table_is_reused_across_searches() {
    let pos = position("4k3/8/8/3p4/4P3/8/8/4K3 w - - 0 1");
    let mut tt = table();
    let first = get_best_move(&pos, 3, &mut tt);
    let second = get_best_move(&pos, 3, &mut tt);
    assert_eq!(first, second);
    assert!(pos.legal_moves().contains(&second));
}

fn cached(score: i32, depth: u8, flag: Flag) -> Option<TTEntry> {
    Some(TTEntry { key: 99, score, depth, flag, best_move_index: 0 })
}

#[test]
fn miss_leaves_the_window() {
    assert_eq!(apply_probe(None, 3, -50, 70), Probe::Window(-50, 70));
    assert_eq!(apply_probe(None, 0, 9, 9), Probe::Window(9, 9));
}

#[test]
fn shallow_entry_leaves_the_window() {
    assert_eq!(apply_probe(cached(5, 2, Flag::Exact), 3, -50, 70), Probe::Window(-50, 70));
    assert_eq!(apply_probe(cached(500, 2, Flag::LowerBound), 3, -50, 70), Probe::Window(-50, 70));
    assert_eq!(apply_probe(cached(-500, 0, Flag::UpperBound), 1, -50, 70), Probe::Window(-50, 70));
}

#[test]
fn exact_entry_answers() {
    assert_eq!(apply_probe(cached(5, 3, Flag::Exact), 3, -50, 70), Probe::Answer(5));
    assert_eq!(apply_probe(cached(-900, 9, Flag::Exact), 3, -50, 70), Probe::Answer(-900));
    assert_eq!(apply_probe(cached(5, 0, Flag::Exact), 0, 70, -50), Probe::Answer(5));
}

#[test]
fn lower_bound_raises_alpha() {
    assert_eq!(apply_probe(cached(10, 3, Flag::LowerBound), 3, -50, 70), Probe::Window(10, 70));
    assert_eq!(apply_probe(cached(-60, 3, Flag::LowerBound), 3, -50, 70), Probe::Window(-50, 70));
    assert_eq!(apply_probe(cached(70, 4, Flag::LowerBound), 3, -50, 70), Probe::Answer(70));
    assert_eq!(apply_probe(cached(900, 4, Flag::LowerBound), 3, -50, 70), Probe::Answer(900));
}

#[test]
fn upper_bound_lowers_beta() {
    assert_eq!(apply_probe(cached(10, 3, Flag::UpperBound), 3, -50, 70), Probe::Window(-50, 10));
    assert_eq!(apply_probe(cached(80, 3, Flag::UpperBound), 3, -50, 70), Probe::Window(-50, 70));
    assert_eq!(apply_probe(cached(-50, 4, Flag::UpperBound), 3, -50, 70), Probe::Answer(-50));
    assert_eq!(apply_probe(cached(-900, 4, Flag::UpperBound), 3, -50, 70), Probe::Answer(-900));
}

#[test]
fn empty_window_is_answered_by_any_deep_bound() {
    assert_eq!(apply_probe(cached(0, 3, Flag::LowerBound), 3, 70, 70), Probe::Answer(0));
    assert_eq!(apply_probe(cached(0, 3, Flag::UpperBound), 3, 80, 70), Probe::Answer(0));
}

#[test]
fn flags_of_results() {
    assert_eq!(flag_of_result(45, 100, 200), Flag::UpperBound);
    assert_eq!(flag_of_result(100, 100, 200), Flag::UpperBound);
    assert_eq!(flag_of_result(101, 100, 200), Flag::Exact);
    assert_eq!(flag_of_result(199, 100, 200), Flag::Exact);
    assert_eq!(flag_of_result(200, 100, 200), Flag::LowerBound);
    assert_eq!(flag_of_result(900, 100, 200), Flag::LowerBound);
    // An empty window: the lower bound is tried first.
    assert_eq!(flag_of_result(150, 200, 100), Flag::UpperBound);
}

#[test]
fn flag_is_judged_by_the_window_as_asked() {
    // The slot holds this position at the requested depth as an upper bound
    // of 30, inside the window asked with. The probe lowers beta to 30, and
    // the search, whose true score is 45, returns 30: at or above the
    // lowered beta, but inside the window as asked, so it is cached as exact.
    let pos = position(START);
    let mut tt = table();
    let hash = tt.compute_hash(pos.board());
    tt.store(hash, 30, 1, Flag::UpperBound, None);
    assert_eq!(negamax(&pos, 1, -INFINITY, INFINITY, &mut tt), 30);
    let entry = tt.get(hash).unwrap();
    assert_eq!((entry.score, entry.depth, entry.flag), (30, 1, Flag::Exact));
}

#[test]
fn flag_is_a_lower_bound_only_at_the_beta_asked_with() {
    let pos = position(START);
    let hash = table().compute_hash(pos.board());
    // Asked with beta 30, the same result reaches beta.
    let mut tt = table();
    assert_eq!(negamax(&pos, 1, -INFINITY, 30, &mut tt), 30);
    assert_eq!(tt.get(hash).unwrap().flag, Flag::LowerBound);
    // A cached lower bound raises alpha, but the result is judged by the
    // alpha asked with: 45 lies inside (-INFINITY, INFINITY).
    let mut tt = table();
    tt.store(hash, 40, 1, Flag::LowerBound, None);
    assert_eq!(negamax(&pos, 1, -INFINITY, INFINITY, &mut tt), 45);
    assert_eq!(tt.get(hash).unwrap().flag, Flag::Exact);
}

#[test]
fn mated_position_leaves_the_table_alone() {
    let pos = position("R5k1/5ppp/8/8/8/8/8/4K3 b - - 1 1");
    let mut tt = table();
    let hash = tt.compute_hash(pos.board());
    assert_eq!(negamax(&pos, 4, -INFINITY, INFINITY, &mut tt), -MATE_SCORE + 4);
    assert_eq!(tt.get(hash), None);
    // A window of any kind, even an empty one, does not change the score.
    assert_eq!(negamax(&pos, 4, 500, -500, &mut tt), -MATE_SCORE + 4);
}

#[test]
fn quiescence_takes_any_bounds() {
    let pos = position("4k3/8/8/3q4/8/2N5/8/4K3 w - - 0 1");
    assert_eq!(quiescence(&pos, i32::MIN, i32::MAX), -340);
    assert_eq!(quiescence(&pos, i32::MIN, i32::MIN), i32::MIN);
    assert_eq!(quiescence(&pos, i32::MAX, i32::MAX), i32::MAX);
    assert_eq!(quiescence(&pos, i32::MAX, i32::MIN), i32::MIN);
    assert_eq!(quiescence(&pos, i32::MIN, -340), -340);
    assert_eq!(quiescence(&pos, i32::MIN, -339), -340);
}
