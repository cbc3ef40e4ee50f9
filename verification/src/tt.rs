//! The transposition table: a direct-mapped cache of search results, keyed
//! by a Zobrist hash of the board.

use crate::board::{Board, BoardView, Color, Piece, Role};
use crate::keys::{lemma_key_not_zero, lemma_keys_differ};
use crate::rules::Move;
use vstd::prelude::*;

verus! {

/// How a cached score bounds the true score of its position.
#[derive(Clone, Copy, Debug, PartialEq, Eq, Structural)]
pub enum Flag {
    /// The score is exact.
    Exact,
    /// The true score is at least the cached one.
    LowerBound,
    /// The true score is at most the cached one.
    UpperBound,
}

/// One slot of the table. A slot whose `key` is 0 counts as empty.
#[derive(Clone, Copy, Debug, PartialEq, Eq, Structural)]
pub struct TTEntry {
    pub key: u64,
    pub score: i32,
    pub depth: u8,
    pub flag: Flag,
    pub best_move_index: u16,
}

/// What an empty slot holds.
pub open spec fn empty_entry() -> TTEntry {
    TTEntry { key: 0, score: 0, depth: 0, flag: Flag::Exact, best_move_index: 0 }
}

/// The table size the engine plays with: 2^20 slots.
pub const TT_SIZE: usize = 1048576;

/// The number of hash keys for pieces: 12 kinds of piece on 64 squares.
pub const PIECE_KEYS: usize = 768;

/// The seed of the key generator.
pub const KEY_SEED: u64 = 123456789;

/// One step of the xorshift generator that the hash keys come from.
pub open spec fn xorshift(seed: u64) -> u64 {
    let a = seed ^ (seed << 13);
    let b = a ^ (a >> 7);
    b ^ (b << 17)
}

/// The `n`-th output of the key generator; its state before the first output
/// is `KEY_SEED`.
pub open spec fn random_key(n: nat) -> u64
    decreases n,
{
    if n == 0 {
        KEY_SEED
    } else {
        xorshift(random_key((n - 1) as nat))
    }
}

/// Whether `n` is a power of two.
pub open spec fn is_power_of_two(n: usize) -> bool {
    n > 0 && n & ((n - 1) as usize) == 0
}

/// The number of a kind of piece among the twelve: White's pawn, knight,
/// bishop, rook, queen and king are 0 to 5, Black's are 6 to 11.
pub open spec fn piece_index(role: Role, color: Color) -> int {
    let r: int = match role {
        Role::Pawn => 0,
        Role::Knight => 1,
        Role::Bishop => 2,
        Role::Rook => 3,
        Role::Queen => 4,
        Role::King => 5,
    };
    match color {
        Color::White => r,
        Color::Black => r + 6,
    }
}

/// Where the key of a piece on its square stands among the piece keys.
pub open spec fn key_index(p: Piece) -> int {
    piece_index(p.role, p.color) * 64 + p.square
}

/// A table as mathematics: its slots and its hash keys.
pub struct TableView {
    pub entries: Seq<TTEntry>,
    pub piece_keys: Seq<u64>,
    pub side_key: u64,
}

impl TableView {
    /// The number of slots is a power of two that fits the machine, and
    /// there is a key for each kind of piece on each square.
    pub open spec fn wf(self) -> bool {
        &&& self.entries.len() <= usize::MAX
        &&& is_power_of_two(self.entries.len() as usize)
        &&& self.piece_keys.len() == PIECE_KEYS
    }

    /// The keys are the first 769 outputs of the key generator: the piece
    /// keys in order, then the key for Black to move.
    pub open spec fn has_standard_keys(self) -> bool {
        &&& self.piece_keys.len() == PIECE_KEYS
        &&& forall|i: int| 0 <= i < PIECE_KEYS ==> self.piece_keys[i] == random_key((i + 1) as nat)
        &&& self.side_key == random_key((PIECE_KEYS + 1) as nat)
    }

    /// The slot a hash maps to: the hash's low bits.
    pub open spec fn slot(self, hash: u64) -> int {
        (hash & ((self.entries.len() - 1) as u64)) as int
    }

    /// What a probe for `hash` finds: the entry in the hash's slot where its
    /// key is the hash, else nothing.
    pub open spec fn get(self, hash: u64) -> Option<TTEntry> {
        let entry = self.entries[self.slot(hash)];
        if entry.key == hash {
            Some(entry)
        } else {
            None
        }
    }

    /// Whether a result searched to `depth` replaces what the slot of `hash`
    /// holds: the slot is empty, or its entry was searched no deeper.
    pub open spec fn replaces(self, hash: u64, depth: u8) -> bool {
        let entry = self.entries[self.slot(hash)];
        depth >= entry.depth || entry.key == 0
    }

    /// The table after a store.
    pub open spec fn store(self, hash: u64, score: i32, depth: u8, flag: Flag) -> TableView {
        if self.replaces(hash, depth) {
            TableView {
                entries: self.entries.update(
                    self.slot(hash),
                    TTEntry { key: hash, score, depth, flag, best_move_index: 0 },
                ),
                ..self
            }
        } else {
            self
        }
    }

    /// Whether every cached score can be negated in 32 bits.
    pub open spec fn scores_negatable(self) -> bool {
        forall|i: int| 0 <= i < self.entries.len() ==> (#[trigger] self.entries[i]).score > i32::MIN
    }

    /// The XOR of the keys of the given pieces.
    pub open spec fn placement_hash(self, pieces: Seq<Piece>) -> u64
        decreases pieces.len(),
    {
        if pieces.len() == 0 {
            0
        } else {
            self.placement_hash(pieces.drop_last()) ^ self.piece_keys[key_index(pieces.last())]
        }
    }

    /// The hash of a board: the XOR of the keys of its pieces and, where
    /// Black is to move, of the side key.
    pub open spec fn hash(self, board: BoardView) -> u64 {
        match board.turn {
            Color::White => self.placement_hash(board.pieces),
            Color::Black => self.placement_hash(board.pieces) ^ self.side_key,
        }
    }
}

/// A fixed-capacity, direct-mapped cache of search results with its Zobrist
/// keys. A store replaces what its slot holds unless that was searched
/// deeper; nothing is ever removed.
pub struct TranspositionTable {
    entries: Vec<TTEntry>,
    piece_keys: Vec<u64>,
    side_key: u64,
}

impl View for TranspositionTable {
    type V = TableView;

    closed spec fn view(&self) -> TableView {
        TableView { entries: self.entries@, piece_keys: self.piece_keys@, side_key: self.side_key }
    }
}

impl Default for TranspositionTable {
    /// An empty table of `TT_SIZE` slots with the standard keys.
    fn default() -> (table: Self)
        ensures
            table@ == Self::new_spec(TT_SIZE),
    {
        assert(is_power_of_two(1048576usize)) by (bit_vector);
        Self::new(TT_SIZE)
    }
}

/// One step of the key generator.
fn next_random(seed: u64) -> (next: u64)
    ensures
        next == xorshift(seed),
{
    let a = seed ^ (seed << 13);
    let b = a ^ (a >> 7);
    b ^ (b << 17)
}

/// The number of a kind of piece among the twelve.
fn piece_number(role: Role, color: Color) -> (n: usize)
    ensures
        n == piece_index(role, color),
        n < 12,
{
    let r: usize = match role {
        Role::Pawn => 0,
        Role::Knight => 1,
        Role::Bishop => 2,
        Role::Rook => 3,
        Role::Queen => 4,
        Role::King => 5,
    };
    match color {
        Color::White => r,
        Color::Black => r + 6,
    }
}

impl TranspositionTable {
    #[verifier::type_invariant]
    pub open spec fn inv(self) -> bool {
        self@.wf()
    }

    /// The table that `new` builds: every slot empty, and the standard keys.
    pub open spec fn new_spec(capacity: usize) -> TableView {
        TableView {
            entries: Seq::new(capacity as nat, |i: int| empty_entry()),
            piece_keys: Seq::new(PIECE_KEYS as nat, |i: int| random_key((i + 1) as nat)),
            side_key: random_key((PIECE_KEYS + 1) as nat),
        }
    }

    /// An empty table of `capacity` slots with the standard keys.
    pub fn new(capacity: usize) -> (table: Self)
        requires
            is_power_of_two(capacity),
        ensures
            table@ == Self::new_spec(capacity),
    {
        let empty = TTEntry { key: 0, score: 0, depth: 0, flag: Flag::Exact, best_move_index: 0 };
        let mut entries: Vec<TTEntry> = Vec::new();
        let mut i: usize = 0;
        while i < capacity
            invariant
                i <= capacity,
                entries.len() == i,
                forall|j: int| 0 <= j < i ==> entries[j] == empty,
            decreases capacity - i,
        {
            entries.push(empty);
            i += 1;
        }
        let mut piece_keys: Vec<u64> = Vec::new();
        let mut k: usize = 0;
        while k < PIECE_KEYS
            invariant
                k <= PIECE_KEYS,
                piece_keys.len() == k,
            decreases PIECE_KEYS - k,
        {
            piece_keys.push(0);
            k += 1;
        }
        let mut table = TranspositionTable { entries, piece_keys, side_key: 0 };
        table.init_random_keys();
        proof {
            assert(table@.entries =~= Self::new_spec(capacity).entries);
            assert(table@.piece_keys =~= Self::new_spec(capacity).piece_keys);
        }
        table
    }

    /// Fills in the standard keys: the outputs of the key generator, in
    /// order, for the twelve kinds of piece on the 64 squares each, then for
    /// Black to move. The slots stay as they are.
    pub fn init_random_keys(&mut self)
        ensures
            final(self)@.has_standard_keys(),
            final(self)@.entries == old(self)@.entries,
    {
        proof {
            use_type_invariant(&*self);
        }
        let mut seed: u64 = KEY_SEED;
        let mut piece: usize = 0;
        while piece < 12
            invariant
                piece <= 12,
                self@.wf(),
                self@.entries == old(self)@.entries,
                seed == random_key((piece * 64) as nat),
                forall|i: int| 0 <= i < piece * 64 ==> self@.piece_keys[i] == random_key((i + 1) as nat),
            decreases 12 - piece,
        {
            let mut square: usize = 0;
            while square < 64
                invariant
                    piece < 12,
                    square <= 64,
                    self@.wf(),
                    self@.entries == old(self)@.entries,
                    seed == random_key((piece * 64 + square) as nat),
                    forall|i: int|
                        0 <= i < piece * 64 + square ==> self@.piece_keys[i] == random_key(
                            (i + 1) as nat,
                        ),
                decreases 64 - square,
            {
                seed = next_random(seed);
                self.piece_keys[piece * 64 + square] = seed;
                square += 1;
            }
            piece += 1;
        }
        seed = next_random(seed);
        self.side_key = seed;
    }

    /// An empty table of `capacity` slots with the standard keys, or `None`
    /// where `capacity` is not a power of two.
    pub fn with_capacity(capacity: usize) -> (table: Option<Self>)
        ensures
            table.is_some() == is_power_of_two(capacity),
            table matches Some(t) ==> t@ == Self::new_spec(capacity),
    {
        if capacity > 0 && capacity & (capacity - 1) == 0 {
            Some(Self::new(capacity))
        } else {
            None
        }
    }

    /// The number of slots.
    pub fn capacity(&self) -> (n: usize)
        ensures
            n == self@.entries.len(),
            self@.wf(),
    {
        proof {
            use_type_invariant(self);
        }
        self.entries.len()
    }

    /// Whether every cached score can be negated in 32 bits, as the search
    /// asks of the table it is given.
    pub fn scores_negatable(&self) -> (ok: bool)
        ensures
            ok == self@.scores_negatable(),
    {
        let mut i: usize = 0;
        while i < self.entries.len()
            invariant
                i <= self.entries.len(),
                forall|k: int| 0 <= k < i ==> (#[trigger] self.entries[k]).score > i32::MIN,
            decreases self.entries.len() - i,
        {
            if self.entries[i].score == i32::MIN {
                return false;
            }
            i += 1;
        }
        true
    }

    /// The slot that `hash` maps to.
    fn slot_index(&self, hash: u64) -> (index: usize)
        ensures
            index == self@.slot(hash),
            index < self@.entries.len(),
    {
        proof {
            use_type_invariant(self);
        }
        let mask: u64 = (self.entries.len() - 1) as u64;
        assert(hash & mask <= mask) by (bit_vector);
        (hash & mask) as usize
    }

    /// The Zobrist hash of a board. It reads the placement of the pieces and
    /// the side to move, and nothing else of a position.
    pub fn compute_hash(&self, board: &Board) -> (hash: u64)
        ensures
            hash == self@.hash(board@),
    {
        proof {
            use_type_invariant(self);
        }
        let pieces = board.pieces();
        let mut hash: u64 = 0;
        let mut i: usize = 0;
        while i < pieces.len()
            invariant
                i <= pieces.len(),
                self@.wf(),
                pieces@ == board@.pieces,
                board@.wf(),
                hash == self@.placement_hash(pieces@.take(i as int)),
            decreases pieces.len() - i,
        {
            let p = pieces[i];
            let index = piece_number(p.role, p.color) * 64 + p.square as usize;
            proof {
                assert(pieces@.take(i + 1).drop_last() == pieces@.take(i as int));
                assert(pieces@.take(i + 1).last() == p);
            }
            hash = hash ^ self.piece_keys[index];
            i += 1;
        }
        proof {
            assert(pieces@.take(i as int) == pieces@);
        }
        match board.turn() {
            Color::White => hash,
            Color::Black => hash ^ self.side_key,
        }
    }

    /// Probes the table: the entry in the slot of `hash` where its key is
    /// `hash`, else a miss.
    pub fn get(&self, hash: u64) -> (found: Option<TTEntry>)
        ensures
            found == self@.get(hash),
    {
        let index = self.slot_index(hash);
        let entry = self.entries[index];
        if entry.key == hash {
            Some(entry)
        } else {
            None
        }
    }

    /// Stores a result in the slot of `hash`, unless the slot holds an entry
    /// that was searched deeper. The move is not recorded.
    pub fn store(&mut self, hash: u64, score: i32, depth: u8, flag: Flag, best_move: Option<&Move>)
        ensures
            final(self)@ == old(self)@.store(hash, score, depth, flag),
    {
        proof {
            use_type_invariant(&*self);
        }
        let index = self.slot_index(hash);
        if depth >= self.entries[index].depth || self.entries[index].key == 0 {
            self.entries[index] = TTEntry { key: hash, score, depth, flag, best_move_index: 0 };
        }
    }
}

/// A hash's slot is one of the table's.
pub proof fn lemma_slot_in_range(table: TableView, hash: u64)
    requires
        table.wf(),
    ensures
        0 <= table.slot(hash) < table.entries.len(),
{
    let mask = (table.entries.len() - 1) as u64;
    assert(hash & mask <= mask) by (bit_vector);
}

/// A store keeps the table's size and keys, and keeps the scores negatable
/// where the stored score is.
pub proof fn lemma_store_keeps(table: TableView, hash: u64, score: i32, depth: u8, flag: Flag)
    requires
        table.wf(),
    ensures
        table.store(hash, score, depth, flag).wf(),
        table.store(hash, score, depth, flag).entries.len() == table.entries.len(),
        table.store(hash, score, depth, flag).piece_keys == table.piece_keys,
        table.store(hash, score, depth, flag).side_key == table.side_key,
        table.scores_negatable() && score > i32::MIN ==> table.store(
            hash,
            score,
            depth,
            flag,
        ).scores_negatable(),
{
    lemma_slot_in_range(table, hash);
}

/// After a store that its slot takes, a probe for the same hash returns what
/// was stored.
pub proof fn lemma_get_after_store(table: TableView, hash: u64, score: i32, depth: u8, flag: Flag)
    requires
        table.wf(),
        table.replaces(hash, depth),
    ensures
        table.store(hash, score, depth, flag).get(hash) == Some(
            TTEntry { key: hash, score, depth, flag, best_move_index: 0 },
        ),
{
    lemma_slot_in_range(table, hash);
}

/// A store of a shallower result does not evict a deeper entry: where the
/// slot is occupied by an entry searched deeper, the table stays as it was.
pub proof fn lemma_shallow_store_keeps_entry(
    table: TableView,
    hash: u64,
    score: i32,
    depth: u8,
    flag: Flag,
)
    requires
        table.wf(),
        !table.replaces(hash, depth),
    ensures
        table.store(hash, score, depth, flag) == table,
{
}

/// Of two stores into one slot, the later wins where it is at least as deep:
/// a probe for its hash returns it, and a probe for the earlier hash, where
/// that is another one, misses.
pub proof fn lemma_later_store_wins(
    table: TableView,
    first: TTEntry,
    second: TTEntry,
)
    requires
        table.wf(),
        table.slot(first.key) == table.slot(second.key),
        table.replaces(first.key, first.depth),
        second.depth >= first.depth,
    ensures
        ({
            let after = table.store(first.key, first.score, first.depth, first.flag).store(
                second.key,
                second.score,
                second.depth,
                second.flag,
            );
            &&& after.get(second.key) == Some(TTEntry { best_move_index: 0, ..second })
            &&& first.key != second.key ==> after.get(first.key).is_none()
        }),
{
    lemma_slot_in_range(table, first.key);
    lemma_store_keeps(table, first.key, first.score, first.depth, first.flag);
}

/// The hash reads the board alone: two positions with the same placement and
/// the same side to move hash alike under the same keys, whatever else
/// tells them apart.
pub proof fn lemma_hash_reads_board_only(table: TableView, a: BoardView, b: BoardView)
    requires
        a.pieces == b.pieces,
        a.turn == b.turn,
    ensures
        table.hash(a) == table.hash(b),
{
}

/// The standard keys differ from one another, the side key included, and
/// none is zero.
pub proof fn lemma_standard_keys_differ(table: TableView, i: int, j: int)
    requires
        table.has_standard_keys(),
        0 <= i < j < PIECE_KEYS,
    ensures
        table.piece_keys[i] != table.piece_keys[j],
        table.piece_keys[i] != table.side_key,
        table.piece_keys[j] != table.side_key,
        table.piece_keys[i] != 0,
        table.piece_keys[j] != 0,
        table.side_key != 0,
{
    lemma_keys_differ((i + 1) as nat, (j + 1) as nat);
    lemma_keys_differ((i + 1) as nat, (PIECE_KEYS + 1) as nat);
    lemma_keys_differ((j + 1) as nat, (PIECE_KEYS + 1) as nat);
    lemma_key_not_zero((i + 1) as nat);
    lemma_key_not_zero((j + 1) as nat);
    lemma_key_not_zero((PIECE_KEYS + 1) as nat);
}

/// The key of a piece on the board has its place among the piece keys, and
/// pieces of different kind on one square have different places.
pub proof fn lemma_key_index(p: Piece, q: Piece)
    requires
        p.square < 64,
    ensures
        0 <= key_index(p) < PIECE_KEYS,
        q.square == p.square && (q.role != p.role || q.color != p.color) ==> key_index(q)
            != key_index(p),
{
}

/// A piece more in the list, wherever it enters, adds its key to the hash.
pub proof fn lemma_hash_with_piece_added(table: TableView, pieces: Seq<Piece>, at: int, p: Piece)
    requires
        0 <= at <= pieces.len(),
    ensures
        table.placement_hash(pieces.insert(at, p)) == table.placement_hash(pieces)
            ^ table.piece_keys[key_index(p)],
    decreases pieces.len() - at,
{
    let longer = pieces.insert(at, p);
    if at == pieces.len() {
        assert(longer.drop_last() =~= pieces);
    } else {
        lemma_hash_with_piece_added(table, pieces.drop_last(), at, p);
        assert(longer.drop_last() =~= pieces.drop_last().insert(at, p));
        assert(longer.last() == pieces.last());
        let rest = table.placement_hash(pieces.drop_last());
        let added = table.piece_keys[key_index(p)];
        let last = table.piece_keys[key_index(pieces.last())];
        assert((rest ^ added) ^ last == (rest ^ last) ^ added) by (bit_vector);
    }
}

/// Another piece in a place of the list takes the key of the piece that
/// stood there out of the hash and adds its own.
pub proof fn lemma_hash_with_piece_replaced(table: TableView, pieces: Seq<Piece>, at: int, p: Piece)
    requires
        0 <= at < pieces.len(),
    ensures
        table.placement_hash(pieces.update(at, p)) == (table.placement_hash(pieces)
            ^ table.piece_keys[key_index(pieces[at])]) ^ table.piece_keys[key_index(p)],
    decreases pieces.len(),
{
    let changed = pieces.update(at, p);
    let rest = table.placement_hash(pieces.drop_last());
    let new = table.piece_keys[key_index(p)];
    if at == pieces.len() - 1 {
        let old = table.piece_keys[key_index(pieces[at])];
        assert(changed.drop_last() =~= pieces.drop_last());
        assert(rest ^ new == ((rest ^ old) ^ old) ^ new) by (bit_vector);
    } else {
        lemma_hash_with_piece_replaced(table, pieces.drop_last(), at, p);
        assert(changed.drop_last() =~= pieces.drop_last().update(at, p));
        assert(changed.last() == pieces.last());
        let old = table.piece_keys[key_index(pieces[at])];
        let last = table.piece_keys[key_index(pieces.last())];
        assert(((rest ^ old) ^ new) ^ last == ((rest ^ last) ^ old) ^ new) by (bit_vector);
    }
}

/// Under the standard keys, a piece more on the board changes the hash,
/// whoever is to move.
pub proof fn lemma_added_piece_changes_hash(table: TableView, board: BoardView, at: int, p: Piece)
    requires
        table.has_standard_keys(),
        0 <= at <= board.pieces.len(),
        p.square < 64,
    ensures
        table.hash(BoardView { pieces: board.pieces.insert(at, p), turn: board.turn }) != table.hash(
            board,
        ),
{
    lemma_hash_with_piece_added(table, board.pieces, at, p);
    lemma_key_index(p, p);
    lemma_key_not_zero((key_index(p) + 1) as nat);
    let before = table.placement_hash(board.pieces);
    let key = table.piece_keys[key_index(p)];
    let side = table.side_key;
    assert(key != 0 ==> before ^ key != before && (before ^ key) ^ side != before ^ side)
        by (bit_vector);
}

/// Under the standard keys, a piece of another kind on the same square
/// changes the hash, whoever is to move.
pub proof fn lemma_replaced_piece_changes_hash(table: TableView, board: BoardView, at: int, p: Piece)
    requires
        table.has_standard_keys(),
        0 <= at < board.pieces.len(),
        p.square < 64,
        p.square == board.pieces[at].square,
        p.role != board.pieces[at].role || p.color != board.pieces[at].color,
    ensures
        table.hash(BoardView { pieces: board.pieces.update(at, p), turn: board.turn }) != table.hash(
            board,
        ),
{
    let q = board.pieces[at];
    lemma_hash_with_piece_replaced(table, board.pieces, at, p);
    lemma_key_index(p, q);
    lemma_key_index(q, p);
    if key_index(q) < key_index(p) {
        lemma_standard_keys_differ(table, key_index(q), key_index(p));
    } else {
        lemma_standard_keys_differ(table, key_index(p), key_index(q));
    }
    let before = table.placement_hash(board.pieces);
    let old = table.piece_keys[key_index(q)];
    let new = table.piece_keys[key_index(p)];
    let side = table.side_key;
    assert(old != new ==> (before ^ old) ^ new != before && ((before ^ old) ^ new) ^ side != before
        ^ side) by (bit_vector);
}

} // verus!
