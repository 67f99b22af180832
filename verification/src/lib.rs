//! A chess engine core, verified with Verus: bitboard operators, a
//! static evaluator, pawn-structure and transposition caches, and an
//! iterative-deepening principal-variation search. The board library
//! supplies positions and legal moves; everything computed from them is
//! specified and proved here.

pub mod bitboard_operators;
pub mod boardlib;
pub mod constants;
pub mod driver;
pub mod evaluation;
pub mod opening;
pub mod position;
pub mod search;
pub mod uci;
pub mod utils;
