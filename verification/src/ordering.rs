//! Move ordering: captures first, the cheapest attacker leading, so that the
//! search meets its cutoffs early.

use crate::eval::{get_piece_value, piece_value};
use crate::rules::Move;
use vstd::prelude::*;

verus! {

/// The ordering score of a move: `10000 - value` of the moving piece for a
/// capture, 0 for any other move. The captured piece plays no part.
pub open spec fn move_score(m: Move) -> int {
    if m.capture {
        10000 - piece_value(m.role)
    } else {
        0
    }
}

/// Where `m` enters a list of falling scores: behind every move that scores
/// at least as much.
pub open spec fn insert_position(sorted: Seq<Move>, m: Move) -> int
    decreases sorted.len(),
{
    if sorted.len() == 0 || move_score(sorted[0]) < move_score(m) {
        0
    } else {
        1 + insert_position(sorted.drop_first(), m)
    }
}

/// The moves by falling score; moves of equal score keep their order.
pub open spec fn ordered(moves: Seq<Move>) -> Seq<Move>
    decreases moves.len(),
{
    if moves.len() == 0 {
        Seq::empty()
    } else {
        let rest = ordered(moves.drop_last());
        rest.insert(insert_position(rest, moves.last()), moves.last())
    }
}

/// Whether the scores never rise along the list.
pub open spec fn scores_fall(moves: Seq<Move>) -> bool {
    forall|i: int, j: int| 0 <= i <= j < moves.len() ==> move_score(moves[i]) >= move_score(moves[j])
}

/// The insert position lies in the list; every move before it scores at
/// least as much as `m`, and, in a list of falling scores, every move from
/// it on scores less.
pub proof fn lemma_insert_position(sorted: Seq<Move>, m: Move)
    ensures
        0 <= insert_position(sorted, m) <= sorted.len(),
        forall|i: int| 0 <= i < insert_position(sorted, m) ==> move_score(sorted[i]) >= move_score(m),
        scores_fall(sorted) ==> forall|i: int|
            insert_position(sorted, m) <= i < sorted.len() ==> move_score(sorted[i]) < move_score(m),
    decreases sorted.len(),
{
    if sorted.len() == 0 || move_score(sorted[0]) < move_score(m) {
    } else {
        let tail = sorted.drop_first();
        lemma_insert_position(tail, m);
        let p = insert_position(tail, m);
        assert forall|i: int| 0 <= i < p + 1 implies move_score(sorted[i]) >= move_score(m) by {
            if i > 0 {
                assert(sorted[i] == tail[i - 1]);
            }
        }
        if scores_fall(sorted) {
            assert(scores_fall(tail)) by {
                assert forall|i: int, j: int| 0 <= i <= j < tail.len() implies move_score(tail[i])
                    >= move_score(tail[j]) by {
                    assert(tail[i] == sorted[i + 1] && tail[j] == sorted[j + 1]);
                }
            }
            assert forall|i: int| p + 1 <= i < sorted.len() implies move_score(sorted[i])
                < move_score(m) by {
                assert(sorted[i] == tail[i - 1]);
            }
        }
    }
}

/// Ordering rearranges: the ordered list has the same moves, each as often
/// as the given list, and its scores never rise.
pub proof fn lemma_ordered(moves: Seq<Move>)
    ensures
        ordered(moves).len() == moves.len(),
        ordered(moves).to_multiset() == moves.to_multiset(),
        scores_fall(ordered(moves)),
    decreases moves.len(),
{
    broadcast use vstd::seq_lib::group_to_multiset_ensures;

    if moves.len() == 0 {
    } else {
        let rest = ordered(moves.drop_last());
        let m = moves.last();
        let p = insert_position(rest, m);
        lemma_ordered(moves.drop_last());
        lemma_insert_position(rest, m);
        assert(moves.drop_last().push(m) == moves);
        let out = rest.insert(p, m);
        assert forall|i: int, j: int| 0 <= i <= j < out.len() implies move_score(out[i])
            >= move_score(out[j]) by {
            if i < p {
                assert(out[i] == rest[i]);
            } else if i > p {
                assert(out[i] == rest[i - 1]);
            }
            if j < p {
                assert(out[j] == rest[j]);
            } else if j > p {
                assert(out[j] == rest[j - 1]);
            }
        }
    }
}

/// Ordering neither adds nor loses a move.
pub proof fn lemma_ordered_contains(moves: Seq<Move>, m: Move)
    ensures
        ordered(moves).contains(m) <==> moves.contains(m),
{
    lemma_ordered(moves);
    vstd::seq_lib::to_multiset_contains(ordered(moves), m);
    vstd::seq_lib::to_multiset_contains(moves, m);
}

/// The ordering score of a move.
pub fn score_move(m: &Move) -> (score: i32)
    ensures
        score == move_score(*m),
{
    if m.capture {
        let attacker_value = get_piece_value(m.role);
        return 10000 - attacker_value;
    }
    0
}

/// Orders moves for the search: by falling ordering score, moves of equal
/// score in the order given.
pub fn order_moves(moves: Vec<Move>) -> (sorted: Vec<Move>)
    ensures
        sorted@ == ordered(moves@),
{
    let mut sorted: Vec<Move> = Vec::new();
    let mut i: usize = 0;
    while i < moves.len()
        invariant
            i <= moves.len(),
            sorted@ == ordered(moves@.take(i as int)),
        decreases moves.len() - i,
    {
        let m = moves[i];
        let key = score_move(&m);
        proof {
            assert(sorted@.skip(0) == sorted@);
        }
        let mut at: usize = 0;
        while at < sorted.len() && score_move(&sorted[at]) >= key
            invariant
                at <= sorted.len(),
                key == move_score(m),
                insert_position(sorted@, m) == at + insert_position(sorted@.skip(at as int), m),
            decreases sorted.len() - at,
        {
            proof {
                assert(sorted@.skip(at as int).drop_first() == sorted@.skip(at + 1));
            }
            at += 1;
        }
        proof {
            assert(moves@.take(i + 1).drop_last() == moves@.take(i as int));
            assert(moves@.take(i + 1).last() == m);
            if at < sorted.len() {
                assert(sorted@.skip(at as int)[0] == sorted@[at as int]);
            }
        }
        sorted.insert(at, m);
        i += 1;
    }
    proof {
        assert(moves@.take(i as int) == moves@);
    }
    sorted
}

} // verus!
