use chess_search::board::{Board, Color, Piece, Role};
use chess_search::eval::{evaluate_board, get_piece_value};
use chess_search::rules::Position;

fn score(fen: &str) -> i32 {
    evaluate_board(Position::from_fen(fen).unwrap().board())
}

#[test]
fn piece_values() {
    assert_eq!(get_piece_value(Role::Pawn), 100);
    assert_eq!(get_piece_value(Role::Knight), 320);
    assert_eq!(get_piece_value(Role::Bishop), 330);
    assert_eq!(get_piece_value(Role::Rook), 500);
    assert_eq!(get_piece_value(Role::Queen), 900);
    assert_eq!(get_piece_value(Role::King), 20000);
}

#[test]
fn start_position_is_level() {
    assert_eq!(score("rnbqkbnr/pppppppp/8/8/8/8/PPPPPPPP/RNBQKBNR w KQkq - 0 1"), 0);
}

#[test]
fn known_scores() {
    assert_eq!(score("rnbqkbnr/pppppppp/8/8/4P3/8/PPPP1PPP/RNBQKBNR b KQkq - 0 1"), -25);
    // Kings cancel; the pawn on e4 is worth 100 + 25.
    assert_eq!(score("4k3/8/8/8/4P3/8/8/4K3 w - - 0 1"), 125);
    // Knight on c3: 320 + 10; queen on d5: 900 and no bonus; kings cancel.
    assert_eq!(score("4k3/8/8/3q4/8/2N5/8/4K3 b - - 0 1"), -570);
}

#[test]
fn side_to_move_does_not_change_the_score() {
    assert_eq!(score("4k3/8/8/8/4P3/8/8/4K3 w - - 0 1"), score("4k3/8/8/8/4P3/8/8/4K3 b - - 0 1"));
}

#[test]
fn black_looks_up_the_mirrored_square() {
    // A lone black pawn on e5 mirrors a lone white pawn on e4.
    assert_eq!(score("4k3/8/8/4p3/8/8/8/4K3 w - - 0 1"), -125);
    // A queen never has a bonus.
    assert_eq!(score("4k3/8/8/8/8/8/8/Q3K3 w - - 0 1"), 900);
    assert_eq!(score("q3k3/8/8/8/8/8/8/4K3 w - - 0 1"), -900);
}

#[test]
fn mirror_negates_the_score() {
    let fens = [
        "rnbqkbnr/pppppppp/8/8/4P3/8/PPPP1PPP/RNBQKBNR b KQkq - 0 1",
        "4k3/8/8/3q4/8/2N5/8/4K3 b - - 0 1",
        "r1bqkb1r/pppp1ppp/2n2n2/4p2Q/2B1P3/8/PPPP1PPP/RNB1K1NR w KQkq - 4 4",
        "8/5k2/3p4/1p1Pp2p/pP2Pp1P/P4P1K/8/8 b - - 99 50",
        "3r2k1/3r4/4bn2/3p4/2P1P3/2N2B2/3R4/3R2K1 w - - 0 1",
    ];
    for fen in fens {
        let pos = Position::from_fen(fen).unwrap();
        let mirrored = pos.board().mirror();
        assert_eq!(evaluate_board(&mirrored), -evaluate_board(pos.board()), "{}", fen);
        assert_eq!(mirrored.pieces().len(), pos.board().pieces().len());
        assert!(mirrored.turn() != pos.board().turn());
    }
}

#[test]
fn mirror_of_a_written_position() {
    // The mirror image, written out by hand.
    let a = score("4k3/8/8/3q4/8/2N5/8/4K3 b - - 0 1");
    let b = score("4k3/8/2n5/8/3Q4/8/8/4K3 w - - 0 1");
    assert_eq!(a, -b);
}

#[test]
fn board_from_pieces() {
    let king = |square: u8, color: Color| Piece { square, role: Role::King, color };
    let board = Board::new(
        vec![
            king(4, Color::White),
            Piece { square: 28, role: Role::Pawn, color: Color::White },
            king(60, Color::Black),
        ],
        Color::White,
    )
    .unwrap();
    assert_eq!(evaluate_board(&board), 125);
    assert_eq!(board.turn(), Color::White);
    assert_eq!(board.pieces().len(), 3);
    let mirrored = board.mirror();
    assert_eq!(mirrored.pieces()[1], Piece { square: 36, role: Role::Pawn, color: Color::Black });
    assert_eq!(mirrored.turn(), Color::Black);
}

#[test]
fn board_rejects_bad_squares() {
    let pawn = |square: u8| Piece { square, role: Role::Pawn, color: Color::White };
    assert!(Board::new(vec![pawn(64)], Color::White).is_none());
    assert!(Board::new(vec![pawn(255)], Color::White).is_none());
    assert!(Board::new(vec![pawn(10), pawn(11), pawn(10)], Color::Black).is_none());
    assert!(Board::new(vec![pawn(10), pawn(11), pawn(63), pawn(0)], Color::Black).is_some());
    assert!(Board::new(Vec::new(), Color::Black).is_some());
}

#[test]
fn empty_board_scores_zero() {
    assert_eq!(evaluate_board(&Board::new(Vec::new(), Color::White).unwrap()), 0);
}

#[test]
fn full_board_of_kings_is_within_bounds() {
    let mut pieces = Vec::new();
    for square in 0..64u8 {
        pieces.push(Piece { square, role: Role::King, color: Color::White });
    }
    let board = Board::new(pieces, Color::White).unwrap();
    // 64 kings at 20000 each, plus the king table's sum of -1460.
    assert_eq!(evaluate_board(&board), 64 * 20000 - 1460);
}
