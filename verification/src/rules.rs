//! The rules of chess, asked of the `shakmaty` crate.
//!
//! A position crosses this boundary as text in Forsyth-Edwards Notation and
//! a move as its two squares and promotion piece. Nothing in this module is
//! proved about `shakmaty`: each `rules_*` function states, in its `ensures`,
//! what the rest of the crate takes on trust.

use crate::board::{Board, BoardView, Color, Piece, Role};
use shakmaty::fen::Fen;
use shakmaty::uci::UciMove;
use shakmaty::{CastlingMode, Chess, Color as Side, EnPassantMode, Position as _, Role as Kind, Square};
use vstd::prelude::*;

verus! {

/// A move of the side to move, as the rules engine reports it.
///
/// `from` and `to` are square numbers; for castling, `from` is the king's
/// square and `to` the square of the rook it castles with. `role` is the
/// piece that moves and `capture` says whether the move takes a piece (en
/// passant included).
#[derive(Clone, Copy, Debug, PartialEq, Eq, Structural)]
pub struct Move {
    pub from: u8,
    pub to: u8,
    pub role: Role,
    pub capture: bool,
    pub promotion: Option<Role>,
}

/// The board that the rules engine reads from a position text, or `None`
/// where it does not accept the text as a position of standard chess.
pub uninterp spec fn fen_board(fen: Seq<char>) -> Option<BoardView>;

/// The legal moves that the rules engine generates in a position, in its
/// order.
pub uninterp spec fn fen_moves(fen: Seq<char>) -> Seq<Move>;

/// The text of the position that the rules engine reaches by a move.
pub uninterp spec fn fen_after(fen: Seq<char>, m: Move) -> Seq<char>;

/// Whether the rules engine finds the game finished in a position.
pub uninterp spec fn fen_game_over(fen: Seq<char>) -> bool;

/// Whether the rules engine finds the side to move checkmated.
pub uninterp spec fn fen_checkmate(fen: Seq<char>) -> bool;

/// `Fen::from_str`, `Fen::into_position` and `Board::iter` of shakmaty.
///
/// Trusted: the result depends on the text alone; it is `None` exactly where
/// shakmaty rejects the text or the position; a board that is read lists
/// each occupied square once, with a square number below 64.
#[verifier::external_body]
fn rules_read(fen: &str) -> (board: Option<Board>)
    ensures
        board.is_some() == fen_board(fen@).is_some(),
        board matches Some(b) ==> b@ == fen_board(fen@).unwrap() && b@.wf(),
{
    let game: Chess = fen.parse::<Fen>().ok()?.into_position(CastlingMode::Standard).ok()?;
    let color = |c: Side| match c { Side::White => Color::White, Side::Black => Color::Black };
    let pieces = game.board().iter().map(|(at, p)| Piece {
        square: at as u8,
        role: match p.role {
            Kind::Pawn => Role::Pawn, Kind::Knight => Role::Knight, Kind::Bishop => Role::Bishop,
            Kind::Rook => Role::Rook, Kind::Queen => Role::Queen, Kind::King => Role::King,
        },
        color: color(p.color),
    });
    Some(Board { pieces: pieces.collect(), turn: color(game.turn()) })
}

/// `Position::legal_moves` of shakmaty, each move through `Move::from`,
/// `Move::to`, `Move::role`, `Move::is_capture` and `Move::promotion`.
///
/// Trusted: the list depends on the position text alone.
#[verifier::external_body]
fn rules_moves(fen: &str) -> (moves: Vec<Move>)
    requires
        fen_board(fen@).is_some(),
    ensures
        moves@ == fen_moves(fen@),
{
    let game: Chess = fen.parse::<Fen>().unwrap().into_position(CastlingMode::Standard).unwrap();
    let role = |r: Kind| match r {
        Kind::Pawn => Role::Pawn, Kind::Knight => Role::Knight, Kind::Bishop => Role::Bishop,
        Kind::Rook => Role::Rook, Kind::Queen => Role::Queen, Kind::King => Role::King,
    };
    game.legal_moves().iter().map(|m| Move {
        from: m.from().unwrap() as u8,
        to: m.to() as u8,
        role: role(m.role()),
        capture: m.is_capture(),
        promotion: m.promotion().map(role),
    }).collect()
}

/// `UciMove::to_move` and `Position::play_unchecked` of shakmaty, and the
/// text of the new position through `Fen::from_position`.
///
/// Trusted: the new text depends on the position text and the move alone;
/// shakmaty accepts it as a position again; and a capture leaves fewer
/// pieces on the board than there were.
#[verifier::external_body]
fn rules_play(fen: &str, m: &Move) -> (next: String)
    requires
        fen_board(fen@).is_some(),
        fen_moves(fen@).contains(*m),
    ensures
        next@ == fen_after(fen@, *m),
        fen_board(next@).is_some(),
        m.capture ==> fen_board(next@).unwrap().pieces.len() < fen_board(fen@).unwrap().pieces.len(),
{
    let mut game: Chess = fen.parse::<Fen>().unwrap().into_position(CastlingMode::Standard).unwrap();
    let promotion = m.promotion.map(|r| match r {
        Role::Pawn => Kind::Pawn, Role::Knight => Kind::Knight, Role::Bishop => Kind::Bishop,
        Role::Rook => Kind::Rook, Role::Queen => Kind::Queen, Role::King => Kind::King,
    });
    let from = Square::new(m.from as u32);
    let to = Square::new(m.to as u32);
    let chosen = UciMove::Normal { from, to, promotion }.to_move(&game).unwrap();
    game.play_unchecked(&chosen);
    Fen::from_position(game, EnPassantMode::Legal).to_string()
}

/// `Position::is_game_over` of shakmaty.
///
/// Trusted: the answer depends on the position text alone; a game without a
/// legal move is over, and so is a game in which the side to move is mated.
#[verifier::external_body]
fn rules_game_over(fen: &str) -> (over: bool)
    requires
        fen_board(fen@).is_some(),
    ensures
        over == fen_game_over(fen@),
        fen_moves(fen@).len() == 0 ==> over,
        fen_checkmate(fen@) ==> over,
{
    let game: Chess = fen.parse::<Fen>().unwrap().into_position(CastlingMode::Standard).unwrap();
    game.is_game_over()
}

/// `Position::is_checkmate` of shakmaty.
///
/// Trusted: the answer depends on the position text alone; a side that is
/// mated has no legal move.
#[verifier::external_body]
fn rules_checkmate(fen: &str) -> (mate: bool)
    requires
        fen_board(fen@).is_some(),
    ensures
        mate == fen_checkmate(fen@),
        mate ==> fen_moves(fen@).len() == 0,
{
    let game: Chess = fen.parse::<Fen>().unwrap().into_position(CastlingMode::Standard).unwrap();
    game.is_checkmate()
}

/// How many pieces the rules engine reads from a position text; 0 where it
/// does not accept the text.
pub open spec fn piece_count(fen: Seq<char>) -> nat {
    match fen_board(fen) {
        Some(board) => board.pieces.len(),
        None => 0,
    }
}

/// A position of standard chess that the rules engine accepts: its text in
/// Forsyth-Edwards Notation, and the board that the rules engine reads from
/// that text.
///
/// The view of a position is its text. Castling rights and the en passant
/// square live in the text alone; the board holds what the evaluator and the
/// hasher read.
#[derive(Debug)]
pub struct Position {
    fen: String,
    board: Board,
}

impl View for Position {
    type V = Seq<char>;

    closed spec fn view(&self) -> Seq<char> {
        self.fen@
    }
}

impl Position {
    #[verifier::type_invariant]
    closed spec fn inv(self) -> bool {
        fen_board(self.fen@) == Some(self.board@)
    }

    /// Reads a position from its text. `None` where the rules engine rejects
    /// the text.
    pub fn from_fen(fen: &str) -> (pos: Option<Position>)
        ensures
            pos.is_some() == fen_board(fen@).is_some(),
            pos matches Some(p) ==> p@ == fen@,
    {
        match rules_read(fen) {
            Some(board) => Some(Position { fen: fen.to_owned(), board }),
            None => None,
        }
    }

    /// The position's text.
    pub fn fen(&self) -> (text: &str)
        ensures
            text@ == self@,
    {
        self.fen.as_str()
    }

    /// The position's board.
    pub fn board(&self) -> (board: &Board)
        ensures
            fen_board(self@) == Some(board@),
            board@.wf(),
    {
        proof {
            use_type_invariant(self);
            use_type_invariant(&self.board);
        }
        &self.board
    }

    /// The legal moves of the side to move, in the rules engine's order.
    pub fn legal_moves(&self) -> (moves: Vec<Move>)
        ensures
            moves@ == fen_moves(self@),
    {
        proof {
            use_type_invariant(self);
        }
        rules_moves(self.fen.as_str())
    }

    /// The position after a legal move.
    pub fn play(&self, m: &Move) -> (next: Position)
        requires
            fen_moves(self@).contains(*m),
        ensures
            next@ == fen_after(self@, *m),
            m.capture ==> piece_count(next@) < piece_count(self@),
    {
        proof {
            use_type_invariant(self);
        }
        let fen = rules_play(self.fen.as_str(), m);
        let board = rules_read(fen.as_str());
        Position { fen, board: board.unwrap() }
    }

    /// The position after a move, or `None` where the move is not among the
    /// legal moves.
    pub fn try_play(&self, m: &Move) -> (next: Option<Position>)
        ensures
            next.is_some() == fen_moves(self@).contains(*m),
            next matches Some(p) ==> p@ == fen_after(self@, *m),
    {
        let moves = self.legal_moves();
        let mut i: usize = 0;
        while i < moves.len()
            invariant
                i <= moves.len(),
                moves@ == fen_moves(self@),
                forall|j: int| 0 <= j < i ==> moves@[j] != *m,
            decreases moves.len() - i,
        {
            if moves[i] == *m {
                return Some(self.play(m));
            }
            i += 1;
        }
        None
    }

    /// Whether the game is finished: no legal move is left, or neither side
    /// has the material to mate.
    pub fn is_game_over(&self) -> (over: bool)
        ensures
            over == fen_game_over(self@),
            fen_moves(self@).len() == 0 ==> over,
            fen_checkmate(self@) ==> over,
    {
        proof {
            use_type_invariant(self);
        }
        rules_game_over(self.fen.as_str())
    }

    /// Whether the side to move is checkmated.
    pub fn is_checkmate(&self) -> (mate: bool)
        ensures
            mate == fen_checkmate(self@),
            mate ==> fen_moves(self@).len() == 0,
    {
        proof {
            use_type_invariant(self);
        }
        rules_checkmate(self.fen.as_str())
    }
}

} // verus!
