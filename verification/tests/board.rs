use chess_search::board::{Board, Color, Piece, Role};
use chess_search::rules::Position;

#[test]
fn symbols() {
    let piece = |role, color| Piece { square: 0, role, color };
    let white: String = [Role::Pawn, Role::Knight, Role::Bishop, Role::Rook, Role::Queen, Role::King]
        .iter()
        .map(|r| piece(*r, Color::White).symbol())
        .collect();
    let black: String = [Role::Pawn, Role::Knight, Role::Bishop, Role::Rook, Role::Queen, Role::King]
        .iter()
        .map(|r| piece(*r, Color::Black).symbol())
        .collect();
    assert_eq!(white, "PNBRQK");
    assert_eq!(black, "pnbrqk");
}

#[test]
fn piece_at_finds_the_piece_on_a_square() {
    let pos = Position::from_fen("rnbqkbnr/pppppppp/8/8/4P3/8/PPPP1PPP/RNBQKBNR b KQkq - 0 1").unwrap();
    let board = pos.board();
    assert_eq!(board.piece_at(0), Some(Piece { square: 0, role: Role::Rook, color: Color::White }));
    assert_eq!(board.piece_at(4), Some(Piece { square: 4, role: Role::King, color: Color::White }));
    assert_eq!(board.piece_at(28), Some(Piece { square: 28, role: Role::Pawn, color: Color::White }));
    assert_eq!(board.piece_at(12), None);
    assert_eq!(board.piece_at(59), Some(Piece { square: 59, role: Role::Queen, color: Color::Black }));
    assert_eq!(board.piece_at(63), Some(Piece { square: 63, role: Role::Rook, color: Color::Black }));
    assert_eq!(board.piece_at(64), None);
    assert_eq!(board.piece_at(255), None);
}

#[test]
fn diagram_of_the_start_position() {
    let pos = Position::from_fen("rnbqkbnr/pppppppp/8/8/8/8/PPPPPPPP/RNBQKBNR w KQkq - 0 1").unwrap();
    let mut rows = Vec::new();
    for rank in (0..8u8).rev() {
        let row: String = (0..8u8)
            .map(|file| pos.board().piece_at(rank * 8 + file).map_or('.', |p| p.symbol()))
            .collect();
        rows.push(row);
    }
    assert_eq!(
        rows,
        vec!["rnbqkbnr", "pppppppp", "........", "........", "........", "........", "PPPPPPPP", "RNBQKBNR"]
    );
}

#[test]
fn board_lists_squares_in_rising_order() {
    let pos = Position::from_fen("4k3/8/8/3q4/8/2N5/8/4K3 b - - 0 1").unwrap();
    let squares: Vec<u8> = pos.board().pieces().iter().map(|p| p.square).collect();
    assert_eq!(squares, vec![4, 18, 35, 60]);
    assert_eq!(pos.board().turn(), Color::Black);
}

#[test]
fn mirror_twice_is_the_board() {
    let pos = Position::from_fen("r1bqkb1r/pppp1ppp/2n2n2/4p2Q/2B1P3/8/PPPP1PPP/RNB1K1NR w KQkq - 4 4")
        .unwrap();
    let twice = pos.board().mirror().mirror();
    assert_eq!(twice.pieces(), pos.board().pieces());
    assert_eq!(twice.turn(), pos.board().turn());
}

#[test]
fn mirror_flips_ranks_and_swaps_colours() {
    let board = Board::new(
        vec![
            Piece { square: 0, role: Role::Rook, color: Color::White },
            Piece { square: 63, role: Role::King, color: Color::Black },
            Piece { square: 27, role: Role::Pawn, color: Color::White },
        ],
        Color::Black,
    )
    .unwrap();
    let mirrored = board.mirror();
    assert_eq!(
        mirrored.pieces(),
        &vec![
            Piece { square: 56, role: Role::Rook, color: Color::Black },
            Piece { square: 7, role: Role::King, color: Color::White },
            Piece { square: 35, role: Role::Pawn, color: Color::Black },
        ]
    );
    assert_eq!(mirrored.turn(), Color::White);
    assert_eq!(Color::White.opponent(), Color::Black);
    assert_eq!(Color::Black.opponent(), Color::White);
}
