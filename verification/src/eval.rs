//! The static evaluator: material plus a placement bonus for each piece,
//! positive where White is ahead.

use crate::board::{
    flip_rank, lemma_board_size, lemma_flip_rank, mirror_piece, Board, BoardView, Color, Piece, Role,
};
use vstd::prelude::*;

verus! {

// The placement tables: entry `i` is the bonus of a White piece on square
// `i`, and of a Black piece on the square that mirrors `i`.
pub const PAWN_TABLE: [i32; 64] = [
     0,  0,  0,  0,  0,  0,  0,  0,
    50, 50, 50, 50, 50, 50, 50, 50,
    10, 10, 20, 30, 30, 20, 10, 10,
     5,  5, 10, 25, 25, 10,  5,  5,
     0,  0,  0, 20, 20,  0,  0,  0,
     5, -5,-10,  0,  0,-10, -5,  5,
     5, 10, 10,-20,-20, 10, 10,  5,
     0,  0,  0,  0,  0,  0,  0,  0
];

pub const KNIGHT_TABLE: [i32; 64] = [
    -50,-40,-30,-30,-30,-30,-40,-50,
    -40,-20,  0,  0,  0,  0,-20,-40,
    -30,  0, 10, 15, 15, 10,  0,-30,
    -30,  5, 15, 20, 20, 15,  5,-30,
    -30,  0, 15, 20, 20, 15,  0,-30,
    -30,  5, 10, 15, 15, 10,  5,-30,
    -40,-20,  0,  5,  5,  0,-20,-40,
    -50,-40,-30,-30,-30,-30,-40,-50
];

pub const BISHOP_TABLE: [i32; 64] = [
    -20,-10,-10,-10,-10,-10,-10,-20,
    -10,  0,  0,  0,  0,  0,  0,-10,
    -10,  0,  5, 10, 10,  5,  0,-10,
    -10,  5,  5, 10, 10,  5,  5,-10,
    -10,  0, 10, 10, 10, 10,  0,-10,
    -10, 10, 10, 10, 10, 10, 10,-10,
    -10,  5,  0,  0,  0,  0,  5,-10,
    -20,-10,-10,-10,-10,-10,-10,-20
];

pub const ROOK_TABLE: [i32; 64] = [
    0,  0,  0,  0,  0,  0,  0,  0,
    5, 10, 10, 10, 10, 10, 10,  5,
   -5,  0,  0,  0,  0,  0,  0, -5,
   -5,  0,  0,  0,  0,  0,  0, -5,
   -5,  0,  0,  0,  0,  0,  0, -5,
   -5,  0,  0,  0,  0,  0,  0, -5,
   -5,  0,  0,  0,  0,  0,  0, -5,
    0,  0,  0,  5,  5,  0,  0,  0
];

pub const KING_TABLE: [i32; 64] = [
    -30,-40,-40,-50,-50,-40,-40,-30,
    -30,-40,-40,-50,-50,-40,-40,-30,
    -30,-40,-40,-50,-50,-40,-40,-30,
    -30,-40,-40,-50,-50,-40,-40,-30,
    -20,-30,-30,-40,-40,-30,-30,-20,
    -10,-20,-20,-20,-20,-20,-20,-10,
     20, 20,  0,  0,  0,  0, 20, 20,
     20, 30, 10,  0,  0, 10, 30, 20
];

/// The material value of a kind of piece, in centipawns.
pub open spec fn piece_value(role: Role) -> int {
    match role {
        Role::Pawn => 100,
        Role::Knight => 320,
        Role::Bishop => 330,
        Role::Rook => 500,
        Role::Queen => 900,
        Role::King => 20000,
    }
}

/// Where a piece looks up its placement bonus: its square for White, the
/// square on the mirrored rank for Black.
pub open spec fn table_index(p: Piece) -> int {
    match p.color {
        Color::White => p.square as int,
        Color::Black => flip_rank(p.square) as int,
    }
}

/// The placement bonus of a piece. The queen has none.
pub open spec fn placement_bonus(p: Piece) -> int {
    match p.role {
        Role::Pawn => PAWN_TABLE[table_index(p)] as int,
        Role::Knight => KNIGHT_TABLE[table_index(p)] as int,
        Role::Bishop => BISHOP_TABLE[table_index(p)] as int,
        Role::Rook => ROOK_TABLE[table_index(p)] as int,
        Role::Queen => 0,
        Role::King => KING_TABLE[table_index(p)] as int,
    }
}

/// What one piece adds to the score: its value and bonus, counted for White
/// and against Black.
pub open spec fn piece_score(p: Piece) -> int {
    match p.color {
        Color::White => piece_value(p.role) + placement_bonus(p),
        Color::Black => -(piece_value(p.role) + placement_bonus(p)),
    }
}

/// The score of a list of pieces: the sum of what each adds.
pub open spec fn static_score(pieces: Seq<Piece>) -> int
    decreases pieces.len(),
{
    if pieces.len() == 0 {
        0
    } else {
        static_score(pieces.drop_last()) + piece_score(pieces.last())
    }
}

/// The largest magnitude of what one piece can add to the score.
pub const PIECE_SCORE_LIMIT: i32 = 20050;

/// No piece on the board adds more than `PIECE_SCORE_LIMIT` either way.
pub proof fn lemma_piece_score_bounded(p: Piece)
    requires
        p.square < 64,
    ensures
        -PIECE_SCORE_LIMIT <= piece_score(p) <= PIECE_SCORE_LIMIT,
{
    lemma_flip_rank(p.square);
    let i = table_index(p);
    assert(0 <= i < 64);
    lemma_tables_bounded(i);
}

/// Every table entry lies between -50 and 50.
proof fn lemma_tables_bounded(i: int)
    requires
        0 <= i < 64,
    ensures
        -50 <= PAWN_TABLE[i] <= 50,
        -50 <= KNIGHT_TABLE[i] <= 50,
        -50 <= BISHOP_TABLE[i] <= 50,
        -50 <= ROOK_TABLE[i] <= 50,
        -50 <= KING_TABLE[i] <= 50,
{
}

/// A score of `n` pieces lies within `n` times the limit of one.
pub proof fn lemma_static_score_bounded(pieces: Seq<Piece>)
    requires
        forall|i: int| 0 <= i < pieces.len() ==> (#[trigger] pieces[i]).square < 64,
    ensures
        -20050 * pieces.len() <= static_score(pieces) <= 20050 * pieces.len(),
    decreases pieces.len(),
{
    if pieces.len() > 0 {
        lemma_static_score_bounded(pieces.drop_last());
        lemma_piece_score_bounded(pieces.last());
    }
}

/// The material value of a kind of piece, in centipawns.
pub fn get_piece_value(role: Role) -> (value: i32)
    ensures
        value == piece_value(role),
{
    match role {
        Role::Pawn => 100,
        Role::Knight => 320,
        Role::Bishop => 330,
        Role::Rook => 500,
        Role::Queen => 900,
        Role::King => 20000,
    }
}

/// The largest magnitude of a board's score: 64 pieces at the limit of one.
pub const SCORE_LIMIT: i32 = 1283200;

/// The score of a board lies within `SCORE_LIMIT`.
pub proof fn lemma_board_score_bounded(board: BoardView)
    requires
        board.wf(),
    ensures
        -SCORE_LIMIT <= static_score(board.pieces) <= SCORE_LIMIT,
{
    lemma_board_size(board);
    lemma_static_score_bounded(board.pieces);
}

/// Seen from the other side, a piece adds the opposite.
pub proof fn lemma_mirror_piece_score(p: Piece)
    ensures
        piece_score(mirror_piece(p)) == -piece_score(p),
{
    lemma_flip_rank(p.square);
}

/// The score of a position and of its mirror image (ranks flipped, colours
/// swapped) are opposite.
pub proof fn lemma_mirror_negates_score(board: BoardView)
    ensures
        static_score(board.mirror().pieces) == -static_score(board.pieces),
    decreases board.pieces.len(),
{
    if board.pieces.len() > 0 {
        let rest = BoardView { pieces: board.pieces.drop_last(), turn: board.turn };
        lemma_mirror_negates_score(rest);
        lemma_mirror_piece_score(board.pieces.last());
        assert(board.mirror().pieces.drop_last() =~= rest.mirror().pieces);
        assert(board.mirror().pieces.last() == mirror_piece(board.pieces.last()));
    }
}

/// The placement bonus of a piece on the board.
fn get_placement_bonus(p: Piece) -> (bonus: i32)
    requires
        p.square < 64,
    ensures
        bonus == placement_bonus(p),
{
    proof {
        lemma_flip_rank(p.square);
    }
    let index: usize = match p.color {
        Color::White => p.square as usize,
        Color::Black => (p.square ^ 56) as usize,
    };
    match p.role {
        Role::Pawn => PAWN_TABLE[index],
        Role::Knight => KNIGHT_TABLE[index],
        Role::Bishop => BISHOP_TABLE[index],
        Role::Rook => ROOK_TABLE[index],
        Role::Queen => 0,
        Role::King => KING_TABLE[index],
    }
}

/// The static score of a board: for every piece its material value plus its
/// placement bonus, added for White and subtracted for Black.
pub fn evaluate_board(board: &Board) -> (score: i32)
    ensures
        score == static_score(board@.pieces),
        -SCORE_LIMIT <= score <= SCORE_LIMIT,
{
    let pieces = board.pieces();
    proof {
        lemma_board_size(board@);
        lemma_board_score_bounded(board@);
    }
    let mut score: i32 = 0;
    let mut i: usize = 0;
    while i < pieces.len()
        invariant
            i <= pieces.len(),
            pieces.len() <= 64,
            pieces@ == board@.pieces,
            board@.wf(),
            score == static_score(pieces@.take(i as int)),
            -20050 * i <= score <= 20050 * i,
        decreases pieces.len() - i,
    {
        let p = pieces[i];
        proof {
            assert(pieces@.take(i + 1).drop_last() == pieces@.take(i as int));
            assert(pieces@.take(i + 1).last() == p);
            lemma_piece_score_bounded(p);
        }
        let value = get_piece_value(p.role);
        let bonus = get_placement_bonus(p);
        match p.color {
            Color::White => {
                score = score + (value + bonus);
            },
            Color::Black => {
                score = score - (value + bonus);
            },
        }
        i += 1;
    }
    proof {
        assert(pieces@.take(i as int) == pieces@);
    }
    score
}

} // verus!
