//! The engine's own model of a chess position.
//!
//! The board library supplies move generation and legality; everything the
//! static evaluator reads is captured here as plain values: one bitboard per
//! piece type and colour, the side to move, and the terminal status.

use vstd::prelude::*;

verus! {

use crate::bitboard_operators::popcount;

/// The six piece types.
#[derive(Clone, Copy, PartialEq, Eq, Structural, Debug)]
pub enum PieceKind {
    Pawn,
    Knight,
    Bishop,
    Rook,
    Queen,
    King,
}

/// Whether a position is terminal, and how.
#[derive(Clone, Copy, PartialEq, Eq, Structural, Debug)]
pub enum GameStatus {
    Ongoing,
    Checkmate,
    Stalemate,
}

/// Everything the static evaluator reads from a position, as plain values.
///
/// Bit `i` of each mask stands for square `i` (a1 = 0, h8 = 63).
#[derive(Clone, Copy, PartialEq, Eq, Structural, Debug)]
pub struct BoardFacts {
    pub white_pawns: u64,
    pub white_knights: u64,
    pub white_bishops: u64,
    pub white_rooks: u64,
    pub white_queens: u64,
    pub white_king: u64,
    pub black_pawns: u64,
    pub black_knights: u64,
    pub black_bishops: u64,
    pub black_rooks: u64,
    pub black_queens: u64,
    pub black_king: u64,
    pub white_to_move: bool,
    pub status: GameStatus,
}

impl BoardFacts {
    /// Every occupied square.
    pub open spec fn spec_occupied(self) -> u64 {
        self.white_pawns | self.white_knights | self.white_bishops | self.white_rooks
            | self.white_queens | self.white_king | self.black_pawns | self.black_knights
            | self.black_bishops | self.black_rooks | self.black_queens | self.black_king
    }

    /// Every occupied square.
    pub fn occupied(&self) -> (r: u64)
        ensures
            r == self.spec_occupied(),
    {
        self.white_pawns | self.white_knights | self.white_bishops | self.white_rooks
            | self.white_queens | self.white_king | self.black_pawns | self.black_knights
            | self.black_bishops | self.black_rooks | self.black_queens | self.black_king
    }

    /// The position counts as an endgame when no queen is on the board and
    /// at most two rooks, bishops and knights remain in total.
    pub open spec fn spec_endgame(self) -> bool {
        popcount(self.white_queens) + popcount(self.black_queens) == 0 && popcount(
            self.white_knights,
        ) + popcount(self.black_knights) + popcount(self.white_bishops) + popcount(
            self.black_bishops,
        ) + popcount(self.white_rooks) + popcount(self.black_rooks) <= 2
    }

    /// Mirror image of the position: colours swapped, every bitboard
    /// rank-flipped, the side to move flipped.
    pub open spec fn spec_colour_flip(self) -> BoardFacts {
        BoardFacts {
            white_pawns: spec_flip_board(self.black_pawns),
            white_knights: spec_flip_board(self.black_knights),
            white_bishops: spec_flip_board(self.black_bishops),
            white_rooks: spec_flip_board(self.black_rooks),
            white_queens: spec_flip_board(self.black_queens),
            white_king: spec_flip_board(self.black_king),
            black_pawns: spec_flip_board(self.white_pawns),
            black_knights: spec_flip_board(self.white_knights),
            black_bishops: spec_flip_board(self.white_bishops),
            black_rooks: spec_flip_board(self.white_rooks),
            black_queens: spec_flip_board(self.white_queens),
            black_king: spec_flip_board(self.white_king),
            white_to_move: !self.white_to_move,
            status: self.status,
        }
    }
}

impl BoardFacts {
    /// Mirror image of the position: colours swapped, every bitboard
    /// rank-flipped, the side to move flipped.
    pub fn colour_flip(&self) -> (r: BoardFacts)
        ensures
            r == self.spec_colour_flip(),
    {
        BoardFacts {
            white_pawns: flip_board(self.black_pawns),
            white_knights: flip_board(self.black_knights),
            white_bishops: flip_board(self.black_bishops),
            white_rooks: flip_board(self.black_rooks),
            white_queens: flip_board(self.black_queens),
            white_king: flip_board(self.black_king),
            black_pawns: flip_board(self.white_pawns),
            black_knights: flip_board(self.white_knights),
            black_bishops: flip_board(self.white_bishops),
            black_rooks: flip_board(self.white_rooks),
            black_queens: flip_board(self.white_queens),
            black_king: flip_board(self.white_king),
            white_to_move: !self.white_to_move,
            status: self.status,
        }
    }
}

/// Rank-flip of a whole bitboard (a1 trades places with a8, and so on).
pub open spec fn spec_flip_board(b: u64) -> u64 {
    ((b << 56) & 0xff00_0000_0000_0000) | ((b << 40) & 0x00ff_0000_0000_0000) | ((b << 24)
        & 0x0000_ff00_0000_0000) | ((b << 8) & 0x0000_00ff_0000_0000) | ((b >> 8)
        & 0x0000_0000_ff00_0000) | ((b >> 24) & 0x0000_0000_00ff_0000) | ((b >> 40)
        & 0x0000_0000_0000_ff00) | ((b >> 56) & 0x0000_0000_0000_00ff)
}

/// Rank-flip of a whole bitboard.
pub fn flip_board(b: u64) -> (r: u64)
    ensures
        r == spec_flip_board(b),
{
    ((b << 56) & 0xff00_0000_0000_0000) | ((b << 40) & 0x00ff_0000_0000_0000) | ((b << 24)
        & 0x0000_ff00_0000_0000) | ((b << 8) & 0x0000_00ff_0000_0000) | ((b >> 8)
        & 0x0000_0000_ff00_0000) | ((b >> 24) & 0x0000_0000_00ff_0000) | ((b >> 40)
        & 0x0000_0000_0000_ff00) | ((b >> 56) & 0x0000_0000_0000_00ff)
}

/// The square index of the lowest set bit, or 0 for an empty mask.
pub open spec fn spec_first_square(b: u64) -> u64 {
    if b == 0 {
        0
    } else {
        vstd::std_specs::bits::u64_trailing_zeros(b) as u64
    }
}

/// The square index of the lowest set bit, or 0 for an empty mask.
pub fn first_square(b: u64) -> (r: u8)
    ensures
        r == spec_first_square(b),
        r < 64,
{
    proof {
        vstd::std_specs::bits::axiom_u64_trailing_zeros(b);
    }
    if b == 0 {
        0
    } else {
        b.trailing_zeros() as u8
    }
}

} // verus!
