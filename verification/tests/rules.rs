use chess_search::board::{Color, Role};
use chess_search::rules::{Move, Position};

const START: &str = "rnbqkbnr/pppppppp/8/8/8/8/PPPPPPPP/RNBQKBNR w KQkq - 0 1";

#[test]
fn start_position_has_twenty_moves() {
    let pos = Position::from_fen(START).unwrap();
    assert_eq!(pos.legal_moves().len(), 20);
    assert_eq!(pos.board().pieces().len(), 32);
    assert_eq!(pos.board().turn(), Color::White);
    assert!(!pos.is_game_over());
    assert!(!pos.is_checkmate());
}

#[test]
fn rejected_text_gives_no_position() {
    assert!(Position::from_fen("not a position").is_none());
    assert!(Position::from_fen("8/8/8/8/8/8/8/8 w - - 0 1").is_none());
}

#[test]
fn play_changes_the_position() {
    let pos = Position::from_fen(START).unwrap();
    let m = Move { from: 12, to: 28, role: Role::Pawn, capture: false, promotion: None };
    let next = pos.try_play(&m).unwrap();
    assert_eq!(next.fen(), "rnbqkbnr/pppppppp/8/8/4P3/8/PPPP1PPP/RNBQKBNR b KQkq - 0 1");
    assert_eq!(next.board().turn(), Color::Black);
    let illegal = Move { from: 12, to: 36, role: Role::Pawn, capture: false, promotion: None };
    assert!(pos.try_play(&illegal).is_none());
}

use shakmaty::fen::Fen;
use shakmaty::{CastlingMode, Chess, EnPassantMode, Position as _};

const UNUSUAL: [&str; 10] = [
    START,
    "r3k2r/p1ppqpb1/bn2pnp1/3PN3/1p2P3/2N2Q1p/PPPBBPPP/R3K2R w KQkq - 0 1",
    "8/2p5/3p4/KP5r/1R3p1k/8/4P1P1/8 w - - 0 1",
    "r3k2r/Pppp1ppp/1b3nbN/nP6/BBP1P3/q4N2/Pp1P2PP/R2Q1RK1 w kq - 0 1",
    "rnbq1k1r/pp1Pbppp/2p5/8/2B5/8/PPP1NnPP/RNBQK2R w KQ - 1 8",
    "8/8/8/8/k2Pp2Q/8/8/3K4 b - d3 0 1",
    "NNNNNNN1/7P/8/8/8/8/k7/2K5 w - - 0 1",
    "4k3/8/8/8/8/8/8/R3K2R w KQ - 0 1",
    "3r2k1/3r4/4bn2/3p4/2P1P3/2N2B2/3R4/3R2K1 w - - 0 1",
    "8/5k2/8/2Pp4/8/8/8/4K2B w - d6 0 2",
];

fn rules_engine(fen: &str) -> Chess {
    fen.parse::<Fen>().unwrap().into_position(CastlingMode::Standard).unwrap()
}

#[test]
fn moves_are_those_of_the_rules_engine() {
    for fen in UNUSUAL {
        let pos = Position::from_fen(fen).expect(fen);
        let game = rules_engine(fen);
        let expected = game.legal_moves();
        let moves = pos.legal_moves();
        assert_eq!(moves.len(), expected.len(), "{}", fen);
        for (m, e) in moves.iter().zip(expected.iter()) {
            assert_eq!(m.from, u8::from(e.from().unwrap()));
            assert_eq!(m.to, u8::from(e.to()));
            assert_eq!(m.capture, e.is_capture());
            assert_eq!(m.promotion.is_some(), e.is_promotion());
            assert_eq!(pos.board().piece_at(m.from).unwrap().role, m.role);
        }
        assert_eq!(pos.is_game_over(), game.is_game_over());
        assert_eq!(pos.is_checkmate(), game.is_checkmate());
    }
}

#[test]
fn play_is_that_of_the_rules_engine() {
    for fen in UNUSUAL {
        let pos = Position::from_fen(fen).unwrap();
        let game = rules_engine(fen);
        for (m, e) in pos.legal_moves().iter().zip(game.legal_moves().iter()) {
            let mut after = game.clone();
            after.play_unchecked(e);
            let next = pos.play(m);
            assert_eq!(next.fen(), Fen::from_position(after.clone(), EnPassantMode::Legal).to_string());
            assert_eq!(next.board().pieces().len(), after.board().occupied().count());
            assert!(next.board().turn() != pos.board().turn());
        }
    }
}

#[test]
fn every_child_is_a_position_again() {
    // Two plies from each position; `play` reads every position it reaches.
    let mut reached = 0;
    for fen in UNUSUAL {
        let pos = Position::from_fen(fen).unwrap();
        for m in pos.legal_moves() {
            let child = pos.play(&m);
            for n in child.legal_moves() {
                let grandchild = child.play(&n);
                assert!(Position::from_fen(grandchild.fen()).is_some());
                reached += 1;
            }
        }
    }
    assert!(reached > 5000, "{} positions", reached);
}

#[test]
fn capture_takes_one_piece_off() {
    for fen in UNUSUAL {
        let pos = Position::from_fen(fen).unwrap();
        let before = pos.board().pieces().len();
        for m in pos.legal_moves() {
            let after = pos.play(&m).board().pieces().len();
            assert_eq!(after, if m.capture { before - 1 } else { before }, "{} {:?}", fen, m);
        }
    }
}

#[test]
fn castling_names_the_rook_square() {
    let pos = Position::from_fen("4k3/8/8/8/8/8/8/R3K2R w KQ - 0 1").unwrap();
    let short = Move { from: 4, to: 7, role: Role::King, capture: false, promotion: None };
    let long = Move { from: 4, to: 0, role: Role::King, capture: false, promotion: None };
    assert!(pos.legal_moves().contains(&short));
    assert!(pos.legal_moves().contains(&long));
    assert_eq!(pos.play(&short).fen(), "4k3/8/8/8/8/8/8/R4RK1 b - - 1 1");
    assert_eq!(pos.play(&long).fen(), "4k3/8/8/8/8/8/8/2KR3R b - - 1 1");
}

#[test]
fn en_passant_is_a_capture() {
    let pos = Position::from_fen("8/5k2/8/2Pp4/8/8/8/4K2B w - d6 0 2").unwrap();
    let m = Move { from: 34, to: 43, role: Role::Pawn, capture: true, promotion: None };
    assert!(pos.legal_moves().contains(&m));
    let next = pos.play(&m);
    assert_eq!(next.board().piece_at(35), None);
    assert_eq!(next.board().pieces().len(), 4);
}

#[test]
fn promotion_names_the_new_piece() {
    let pos = Position::from_fen("8/P7/8/8/8/8/7k/K7 w - - 0 1").unwrap();
    let promotions: Vec<Option<Role>> =
        pos.legal_moves().iter().filter(|m| m.role == Role::Pawn).map(|m| m.promotion).collect();
    assert_eq!(promotions.len(), 4);
    for role in [Role::Queen, Role::Rook, Role::Bishop, Role::Knight] {
        assert!(promotions.contains(&Some(role)));
        let m = Move { from: 48, to: 56, role: Role::Pawn, capture: false, promotion: Some(role) };
        assert_eq!(pos.play(&m).board().piece_at(56).unwrap().role, role);
    }
    let pawn = Move { from: 48, to: 56, role: Role::Pawn, capture: false, promotion: None };
    assert!(pos.try_play(&pawn).is_none());
}

#[test]
fn try_play_wants_every_field_right() {
    let pos = Position::from_fen(START).unwrap();
    let good = Move { from: 6, to: 21, role: Role::Knight, capture: false, promotion: None };
    assert!(pos.try_play(&good).is_some());
    assert!(pos.try_play(&Move { role: Role::Bishop, ..good }).is_none());
    assert!(pos.try_play(&Move { capture: true, ..good }).is_none());
    assert!(pos.try_play(&Move { promotion: Some(Role::Queen), ..good }).is_none());
    assert!(pos.try_play(&Move { from: 200, ..good }).is_none());
}

#[test]
fn finished_games() {
    let mated = Position::from_fen("R5k1/5ppp/8/8/8/8/8/4K3 b - - 1 1").unwrap();
    assert!(mated.is_game_over() && mated.is_checkmate());
    assert!(mated.legal_moves().is_empty());
    let stalemate = Position::from_fen("7k/5Q2/6K1/8/8/8/8/8 b - - 0 1").unwrap();
    assert!(stalemate.is_game_over() && !stalemate.is_checkmate());
    assert!(stalemate.legal_moves().is_empty());
    let bare = Position::from_fen("4k3/8/8/8/8/8/8/4K3 w - - 0 1").unwrap();
    assert!(bare.is_game_over() && !bare.is_checkmate());
    assert!(!bare.legal_moves().is_empty());
}

#[test]
fn text_is_kept_as_given() {
    let text = "4k3/8/8/8/8/8/8/4K2R w K - 12 34";
    assert_eq!(Position::from_fen(text).unwrap().fen(), text);
}
