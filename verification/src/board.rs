//! The plain data the evaluator and the hasher read: which piece stands on
//! which square, and whose turn it is.

use vstd::prelude::*;

verus! {

/// The six kinds of chess piece.
#[derive(Clone, Copy, Debug, PartialEq, Eq, Structural)]
pub enum Role {
    Pawn,
    Knight,
    Bishop,
    Rook,
    Queen,
    King,
}

/// The two sides. Scores returned by the evaluator are positive where
/// `White` is ahead.
#[derive(Clone, Copy, Debug, PartialEq, Eq, Structural)]
pub enum Color {
    White,
    Black,
}

impl Color {
    /// The opposite side.
    pub open spec fn other(self) -> Color {
        match self {
            Color::White => Color::Black,
            Color::Black => Color::White,
        }
    }

    /// The opposite side.
    pub fn opponent(self) -> (c: Color)
        ensures
            c == self.other(),
    {
        match self {
            Color::White => Color::Black,
            Color::Black => Color::White,
        }
    }
}

/// A piece on a square. Squares are numbered rank by rank from White's side:
/// a1 is 0, h1 is 7, a8 is 56 and h8 is 63.
#[derive(Clone, Copy, Debug, PartialEq, Eq, Structural)]
pub struct Piece {
    pub square: u8,
    pub role: Role,
    pub color: Color,
}

/// The letter of a piece in a diagram: `P`, `N`, `B`, `R`, `Q` or `K`, in
/// upper case for White and in lower case for Black.
pub open spec fn symbol_of(role: Role, color: Color) -> char {
    match color {
        Color::White => match role {
            Role::Pawn => 'P',
            Role::Knight => 'N',
            Role::Bishop => 'B',
            Role::Rook => 'R',
            Role::Queen => 'Q',
            Role::King => 'K',
        },
        Color::Black => match role {
            Role::Pawn => 'p',
            Role::Knight => 'n',
            Role::Bishop => 'b',
            Role::Rook => 'r',
            Role::Queen => 'q',
            Role::King => 'k',
        },
    }
}

impl Piece {
    /// The piece's letter in a diagram.
    pub fn symbol(&self) -> (c: char)
        ensures
            c == symbol_of(self.role, self.color),
    {
        match self.color {
            Color::White => match self.role {
                Role::Pawn => 'P',
                Role::Knight => 'N',
                Role::Bishop => 'B',
                Role::Rook => 'R',
                Role::Queen => 'Q',
                Role::King => 'K',
            },
            Color::Black => match self.role {
                Role::Pawn => 'p',
                Role::Knight => 'n',
                Role::Bishop => 'b',
                Role::Rook => 'r',
                Role::Queen => 'q',
                Role::King => 'k',
            },
        }
    }
}

/// The square with the same file on the rank mirrored across the middle of
/// the board.
pub open spec fn flip_rank(square: u8) -> u8 {
    square ^ 56
}

/// The same piece seen from the other side of the board: on the mirrored
/// rank, and owned by the opponent.
pub open spec fn mirror_piece(p: Piece) -> Piece {
    Piece { square: flip_rank(p.square), role: p.role, color: p.color.other() }
}

/// Mirroring a square twice gives the square back, and a mirrored square is
/// on the board where the square is.
pub proof fn lemma_flip_rank(square: u8)
    ensures
        flip_rank(flip_rank(square)) == square,
        square < 64 ==> flip_rank(square) < 64,
{
    assert((square ^ 56) ^ 56 == square) by (bit_vector);
    assert(square < 64 ==> (square ^ 56) < 64) by (bit_vector);
}

/// What a board holds, as mathematics: the pieces in the order in which the
/// board lists them, and the side to move.
pub struct BoardView {
    pub pieces: Seq<Piece>,
    pub turn: Color,
}

impl BoardView {
    /// Every piece stands on one of the 64 squares, and no two pieces share
    /// a square.
    pub open spec fn wf(self) -> bool {
        &&& forall|i: int| 0 <= i < self.pieces.len() ==> (#[trigger] self.pieces[i]).square < 64
        &&& forall|i: int, j: int|
            0 <= i < j < self.pieces.len() ==> (#[trigger] self.pieces[i]).square != (
            #[trigger] self.pieces[j]).square
    }
}

/// Piece placement and side to move.
#[derive(Debug)]
pub struct Board {
    pub(crate) pieces: Vec<Piece>,
    pub(crate) turn: Color,
}

impl View for Board {
    type V = BoardView;

    closed spec fn view(&self) -> BoardView {
        BoardView { pieces: self.pieces@, turn: self.turn }
    }
}

impl BoardView {
    /// The board seen from the other side: every piece mirrored, and the
    /// other side to move.
    pub open spec fn mirror(self) -> BoardView {
        BoardView { pieces: self.pieces.map_values(|p: Piece| mirror_piece(p)), turn: self.turn.other() }
    }
}

/// A board has at most 64 pieces.
pub proof fn lemma_board_size(board: BoardView)
    requires
        board.wf(),
    ensures
        board.pieces.len() <= 64,
{
    let squares = board.pieces.map_values(|p: Piece| p.square as int);
    assert(squares.no_duplicates());
    squares.unique_seq_to_set();
    vstd::set_lib::lemma_int_range(0, 64);
    assert(squares.to_set().subset_of(vstd::set_lib::set_int_range(0, 64))) by {
        assert forall|s: int| squares.to_set().contains(s) implies vstd::set_lib::set_int_range(
            0,
            64,
        ).contains(s) by {
            let i = choose|i: int| 0 <= i < squares.len() && squares[i] == s;
            assert(board.pieces[i].square < 64);
        }
    }
    vstd::set_lib::lemma_len_subset(squares.to_set(), vstd::set_lib::set_int_range(0, 64));
}

/// The mirror of a board is a board, and mirroring twice gives the board
/// back.
pub proof fn lemma_mirror_board(board: BoardView)
    requires
        board.wf(),
    ensures
        board.mirror().wf(),
        board.mirror().mirror() == board,
{
    let m = board.mirror();
    assert forall|i: int| 0 <= i < m.pieces.len() implies (#[trigger] m.pieces[i]).square < 64 by {
        lemma_flip_rank(board.pieces[i].square);
    }
    assert forall|i: int, j: int| 0 <= i < j < m.pieces.len() implies (#[trigger] m.pieces[i]).square
        != (#[trigger] m.pieces[j]).square by {
        lemma_flip_rank(board.pieces[i].square);
        lemma_flip_rank(board.pieces[j].square);
    }
    assert forall|i: int| 0 <= i < board.pieces.len() implies m.mirror().pieces[i]
        == board.pieces[i] by {
        lemma_flip_rank(board.pieces[i].square);
    }
    assert(m.mirror().pieces =~= board.pieces);
}

impl Board {
    #[verifier::type_invariant]
    pub open spec fn inv(self) -> bool {
        self@.wf()
    }

    /// A board of the given pieces, or `None` where a piece stands off the
    /// board or two pieces share a square.
    pub fn new(pieces: Vec<Piece>, turn: Color) -> (board: Option<Board>)
        ensures
            board.is_some() == (BoardView { pieces: pieces@, turn }).wf(),
            board matches Some(b) ==> b@ == (BoardView { pieces: pieces@, turn }),
    {
        let mut taken: Vec<bool> = Vec::new();
        let mut s: usize = 0;
        while s < 64
            invariant
                s <= 64,
                taken.len() == s,
                forall|k: int| 0 <= k < s ==> !taken[k],
            decreases 64 - s,
        {
            taken.push(false);
            s += 1;
        }
        let mut i: usize = 0;
        while i < pieces.len()
            invariant
                i <= pieces.len(),
                taken.len() == 64,
                forall|k: int| 0 <= k < i ==> (#[trigger] pieces[k]).square < 64,
                forall|k: int, l: int|
                    0 <= k < l < i ==> (#[trigger] pieces[k]).square != (#[trigger] pieces[l]).square,
                forall|q: int|
                    0 <= q < 64 ==> (#[trigger] taken[q] <==> exists|k: int|
                        0 <= k < i && (#[trigger] pieces[k]).square == q),
            decreases pieces.len() - i,
        {
            let square = pieces[i].square as usize;
            if square >= 64 {
                return None;
            }
            if taken[square] {
                proof {
                    let k = choose|k: int| 0 <= k < i && (#[trigger] pieces[k]).square == square;
                    assert(pieces[k].square == pieces[i as int].square);
                }
                return None;
            }
            taken.set(square, true);
            proof {
                assert forall|q: int| 0 <= q < 64 implies (#[trigger] taken[q] <==> exists|k: int|
                    0 <= k < i + 1 && (#[trigger] pieces[k]).square == q) by {
                    if q == square {
                        assert(pieces[i as int].square == q);
                    } else if taken[q] {
                        let k = choose|k: int| 0 <= k < i && (#[trigger] pieces[k]).square == q;
                        assert(0 <= k < i + 1 && pieces[k].square == q);
                    }
                }
            }
            i += 1;
        }
        Some(Board { pieces, turn })
    }

    /// The board seen from the other side: every piece on the mirrored rank
    /// and of the other colour, and the other side to move.
    pub fn mirror(&self) -> (mirrored: Board)
        ensures
            mirrored@ == self@.mirror(),
    {
        proof {
            use_type_invariant(self);
            lemma_mirror_board(self@);
        }
        let mut pieces: Vec<Piece> = Vec::new();
        let mut i: usize = 0;
        while i < self.pieces.len()
            invariant
                i <= self.pieces.len(),
                pieces.len() == i,
                forall|k: int| 0 <= k < i ==> pieces[k] == mirror_piece(self.pieces[k]),
            decreases self.pieces.len() - i,
        {
            let p = self.pieces[i];
            pieces.push(Piece { square: p.square ^ 56, role: p.role, color: p.color.opponent() });
            i += 1;
        }
        proof {
            assert(pieces@ =~= self@.mirror().pieces);
        }
        Board { pieces, turn: self.turn.opponent() }
    }

    /// The side to move.
    pub fn turn(&self) -> (c: Color)
        ensures
            c == self@.turn,
    {
        self.turn
    }

    /// The piece on a square, if there is one.
    pub fn piece_at(&self, square: u8) -> (found: Option<Piece>)
        ensures
            self@.wf(),
            found matches Some(p) ==> p.square == square && self@.pieces.contains(p),
            found is None ==> forall|i: int|
                0 <= i < self@.pieces.len() ==> (#[trigger] self@.pieces[i]).square != square,
    {
        proof {
            use_type_invariant(self);
        }
        let mut i: usize = 0;
        while i < self.pieces.len()
            invariant
                i <= self.pieces.len(),
                self@.wf(),
                forall|k: int| 0 <= k < i ==> (#[trigger] self.pieces[k]).square != square,
            decreases self.pieces.len() - i,
        {
            if self.pieces[i].square == square {
                return Some(self.pieces[i]);
            }
            i += 1;
        }
        None
    }

    /// The pieces, in the board's order.
    pub fn pieces(&self) -> (pieces: &Vec<Piece>)
        ensures
            pieces@ == self@.pieces,
            self@.wf(),
    {
        proof {
            use_type_invariant(self);
        }
        &self.pieces
    }
}

} // verus!
