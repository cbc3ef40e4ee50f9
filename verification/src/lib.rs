//! A depth-limited negamax chess search with alpha-beta pruning, a quiescence
//! extension, capture-first move ordering, a direct-mapped transposition
//! table and a material-plus-placement evaluator.
//!
//! The rules of chess are not part of this crate: move generation, move
//! application and the detection of finished games are asked of the
//! `shakmaty` crate, behind the trusted declarations in [`rules`].

pub mod board;
pub mod eval;
pub mod keys;
pub mod minimax;
pub mod ordering;
pub mod rules;
pub mod search;
pub mod tt;
