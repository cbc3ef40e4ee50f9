use chess_search::board::Role;
use chess_search::ordering::{order_moves, score_move};
use chess_search::rules::{Move, Position};

fn quiet(from: u8, role: Role) -> Move {
    Move { from, to: from + 8, role, capture: false, promotion: None }
}

fn capture(from: u8, role: Role) -> Move {
    Move { from, to: from + 8, role, capture: true, promotion: None }
}

#[test]
fn capture_scores_by_the_attacker() {
    assert_eq!(score_move(&capture(0, Role::Pawn)), 9900);
    assert_eq!(score_move(&capture(0, Role::Knight)), 9680);
    assert_eq!(score_move(&capture(0, Role::Bishop)), 9670);
    assert_eq!(score_move(&capture(0, Role::Rook)), 9500);
    assert_eq!(score_move(&capture(0, Role::Queen)), 9100);
    assert_eq!(score_move(&capture(0, Role::King)), -10000);
}

#[test]
fn quiet_move_scores_zero() {
    assert_eq!(score_move(&quiet(0, Role::Pawn)), 0);
    assert_eq!(score_move(&quiet(0, Role::Queen)), 0);
    assert_eq!(score_move(&quiet(0, Role::King)), 0);
}

#[test]
fn promotion_without_capture_scores_zero() {
    let m = Move { from: 52, to: 60, role: Role::Pawn, capture: false, promotion: Some(Role::Queen) };
    assert_eq!(score_move(&m), 0);
}

#[test]
fn cheapest_attacker_first_and_king_captures_last() {
    let moves = vec![
        quiet(1, Role::Knight),
        capture(2, Role::King),
        capture(3, Role::Queen),
        quiet(4, Role::Pawn),
        capture(5, Role::Pawn),
        capture(6, Role::Rook),
        capture(7, Role::Knight),
        capture(8, Role::Bishop),
    ];
    let sorted = order_moves(moves);
    assert_eq!(
        sorted,
        vec![
            capture(5, Role::Pawn),
            capture(7, Role::Knight),
            capture(8, Role::Bishop),
            capture(6, Role::Rook),
            capture(3, Role::Queen),
            quiet(1, Role::Knight),
            quiet(4, Role::Pawn),
            capture(2, Role::King),
        ]
    );
}

#[test]
fn equal_scores_keep_their_order() {
    let moves = vec![
        quiet(10, Role::Queen),
        capture(20, Role::Pawn),
        quiet(11, Role::Pawn),
        capture(21, Role::Pawn),
        quiet(12, Role::King),
        capture(22, Role::Pawn),
    ];
    let sorted = order_moves(moves);
    let origins: Vec<u8> = sorted.iter().map(|m| m.from).collect();
    assert_eq!(origins, vec![20, 21, 22, 10, 11, 12]);
}

#[test]
fn empty_and_single_lists() {
    assert_eq!(order_moves(Vec::new()), Vec::new());
    assert_eq!(order_moves(vec![quiet(3, Role::Rook)]), vec![quiet(3, Role::Rook)]);
}

#[test]
fn ordering_keeps_every_legal_move() {
    let pos = Position::from_fen("r1bqkb1r/pppp1ppp/2n2n2/4p2Q/2B1P3/8/PPPP1PPP/RNB1K1NR w KQkq - 4 4")
        .unwrap();
    let moves = pos.legal_moves();
    let sorted = order_moves(moves.clone());
    assert_eq!(sorted.len(), moves.len());
    for m in &moves {
        assert_eq!(
            sorted.iter().filter(|s| *s == m).count(),
            moves.iter().filter(|s| *s == m).count()
        );
    }
    for pair in sorted.windows(2) {
        assert!(score_move(&pair[0]) >= score_move(&pair[1]));
    }
    // The queen's captures on e5, f7 and h7 and the bishop's on f7 lead.
    assert!(sorted[0].capture && sorted[0].role == Role::Bishop);
    assert!(sorted[1].capture && sorted[1].role == Role::Queen);
    assert!(sorted[2].capture && sorted[3].capture && !sorted[4].capture);
}
