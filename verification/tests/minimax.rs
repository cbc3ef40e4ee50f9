use chess_search::board::{Color, Role};
use chess_search::eval::evaluate_board;
use chess_search::minimax::{get_best_move as minimax_best_move, minimax, try_get_best_move as try_minimax};
use chess_search::rules::{Move, Position};

fn position(fen: &str) -> Position {
    Position::from_fen(fen).unwrap()
}

/// Minimax over every move, without a window.
fn plain_minimax(pos: &Position, depth: u8, maximizing: bool) -> i32 {
    if depth == 0 || pos.is_game_over() {
        return evaluate_board(pos.board());
    }
    let values = pos.legal_moves().into_iter().map(|m| plain_minimax(&pos.play(&m), depth - 1, !maximizing));
    if maximizing {
        values.max().unwrap()
    } else {
        values.min().unwrap()
    }
}

#[test]
fn minimax_at_the_horizon_is_the_static_score() {
    let pos = position("4k3/8/8/3q4/8/2N5/8/4K3 w - - 0 1");
    assert_eq!(minimax(&pos, 0, -100000, 100000, true), -570);
    assert_eq!(minimax(&pos, 0, 5, 4, false), -570);
}

#[test]
fn minimax_of_a_finished_game_is_the_static_score() {
    let mated = position("R5k1/5ppp/8/8/8/8/8/4K3 b - - 1 1");
    assert_eq!(minimax(&mated, 3, -100000, 100000, false), evaluate_board(mated.board()));
}

#[test]
fn minimax_depth_one_takes_the_queen() {
    let pos = position("4k3/8/8/3q4/8/2N5/8/4K3 w - - 0 1");
    // After NxQ the knight on d5 is worth 320 + 20; the kings cancel.
    assert_eq!(minimax(&pos, 1, -100000, 100000, true), 340);
    let best = minimax_best_move(&pos, 1);
    assert_eq!(best, Move { from: 18, to: 35, role: Role::Knight, capture: true, promotion: None });
}

#[test]
fn minimax_for_black_minimises() {
    let pos = position("4k3/8/8/3q4/8/2N5/8/4K3 b - - 0 1");
    assert_eq!(pos.board().turn(), Color::Black);
    let value = minimax(&pos, 1, -100000, 100000, false);
    assert_eq!(value, plain_minimax(&pos, 1, false));
    let best = minimax_best_move(&pos, 2);
    assert!(pos.legal_moves().contains(&best));
    assert_eq!(best.role, Role::Queen);
}

#[test]
fn pruned_minimax_equals_plain_minimax() {
    let fens = [
        "4k3/8/8/8/4P3/8/8/4K3 w - - 0 1",
        "4k3/8/8/3p4/4P3/8/8/4K3 w - - 0 1",
        "4k3/8/8/3q4/8/2N5/8/4K3 w - - 0 1",
        "6k1/5ppp/8/8/8/8/8/R3K3 w Q - 0 1",
        "4k3/4r3/8/8/8/8/4R3/4K3 b - - 0 1",
    ];
    for fen in fens {
        for depth in 0..=3u8 {
            let pos = position(fen);
            let white = pos.board().turn() == Color::White;
            assert_eq!(
                minimax(&pos, depth, -100000, 100000, white),
                plain_minimax(&pos, depth, white),
                "{} at depth {}",
                fen,
                depth
            );
        }
    }
}

#[test]
fn minimax_best_move_is_legal() {
    let fens = [
        "rnbqkbnr/pppppppp/8/8/8/8/PPPPPPPP/RNBQKBNR w KQkq - 0 1",
        "rnbqkbnr/ppp1pppp/8/8/3pP3/7P/PPPP1PP1/RNBQKBNR b KQkq e3 0 3",
        "8/P7/8/8/8/8/7k/K7 w - - 0 1",
        "r3k2r/8/8/8/8/8/8/R3K2R w KQkq - 0 1",
    ];
    for fen in fens {
        let pos = position(fen);
        let best = minimax_best_move(&pos, 2);
        assert!(pos.legal_moves().contains(&best), "{}", fen);
        assert_eq!(try_minimax(&pos, 2), Some(best));
    }
}

#[test]
fn minimax_best_move_from_the_start() {
    let pos = position("rnbqkbnr/pppppppp/8/8/8/8/PPPPPPPP/RNBQKBNR w KQkq - 0 1");
    // At depth 1 White maximises the static score after its move: a knight
    // leaving the back rank for c3 or f3 gains 10 + 40; b1-c3 is generated
    // first.
    let best = minimax_best_move(&pos, 1);
    assert_eq!(evaluate_board(pos.play(&best).board()), 50);
    let best_value = pos.legal_moves().iter().map(|m| evaluate_board(pos.play(m).board())).max();
    assert_eq!(best_value, Some(50));
}

#[test]
fn try_minimax_refuses_what_cannot_be_searched() {
    let pos = position("rnbqkbnr/pppppppp/8/8/8/8/PPPPPPPP/RNBQKBNR w KQkq - 0 1");
    assert_eq!(try_minimax(&pos, 0), None);
    let mated = position("R5k1/5ppp/8/8/8/8/8/4K3 b - - 1 1");
    assert_eq!(try_minimax(&mated, 3), None);
    let bare = position("4k3/8/8/8/8/8/8/4K3 w - - 0 1");
    assert_eq!(try_minimax(&bare, 3), None);
}
