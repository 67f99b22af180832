//! Square arithmetic and per-square summation helpers for the evaluator.

use vstd::prelude::*;

verus! {

use crate::bitboard_operators::has_sq;
use crate::constants::{pst, spec_pst};
use crate::position::{BoardFacts, PieceKind};

/// The rank mirror of a square: a1 trades places with a8, and so on.
pub open spec fn spec_mirror_square(sq: int) -> int {
    sq % 8 + 8 * (7 - sq / 8)
}

/// The rank mirror of a square.
pub fn mirror_square(sq: u8) -> (r: u8)
    requires
        sq < 64,
    ensures
        r == spec_mirror_square(sq as int),
        r < 64,
{
    sq % 8 + 8 * (7 - sq / 8)
}

/// Chebyshev distance between two squares: the larger of the file gap and
/// the rank gap.
pub open spec fn spec_distance(a: int, b: int) -> int {
    let file_gap = if a % 8 >= b % 8 {
        a % 8 - b % 8
    } else {
        b % 8 - a % 8
    };
    let rank_gap = if a / 8 >= b / 8 {
        a / 8 - b / 8
    } else {
        b / 8 - a / 8
    };
    if file_gap >= rank_gap {
        file_gap
    } else {
        rank_gap
    }
}

/// Chebyshev distance between two squares.
pub fn distance(a: u8, b: u8) -> (r: i32)
    requires
        a < 64,
        b < 64,
    ensures
        r == spec_distance(a as int, b as int),
        0 <= r <= 7,
{
    let file_gap: u8 = if a % 8 >= b % 8 {
        a % 8 - b % 8
    } else {
        b % 8 - a % 8
    };
    let rank_gap: u8 = if a / 8 >= b / 8 {
        a / 8 - b / 8
    } else {
        b / 8 - a / 8
    };
    if file_gap >= rank_gap {
        file_gap as i32
    } else {
        rank_gap as i32
    }
}

/// The bitboard of one piece type of one colour.
pub open spec fn spec_get_piece_type(f: BoardFacts, kind: PieceKind, white: bool) -> u64 {
    match kind {
        PieceKind::Pawn => if white {
            f.white_pawns
        } else {
            f.black_pawns
        },
        PieceKind::Knight => if white {
            f.white_knights
        } else {
            f.black_knights
        },
        PieceKind::Bishop => if white {
            f.white_bishops
        } else {
            f.black_bishops
        },
        PieceKind::Rook => if white {
            f.white_rooks
        } else {
            f.black_rooks
        },
        PieceKind::Queen => if white {
            f.white_queens
        } else {
            f.black_queens
        },
        PieceKind::King => if white {
            f.white_king
        } else {
            f.black_king
        },
    }
}

/// The bitboard of one piece type of one colour.
pub fn get_piece_type(f: &BoardFacts, kind: PieceKind, white: bool) -> (r: u64)
    ensures
        r == spec_get_piece_type(*f, kind, white),
{
    match kind {
        PieceKind::Pawn => if white {
            f.white_pawns
        } else {
            f.black_pawns
        },
        PieceKind::Knight => if white {
            f.white_knights
        } else {
            f.black_knights
        },
        PieceKind::Bishop => if white {
            f.white_bishops
        } else {
            f.black_bishops
        },
        PieceKind::Rook => if white {
            f.white_rooks
        } else {
            f.black_rooks
        },
        PieceKind::Queen => if white {
            f.white_queens
        } else {
            f.black_queens
        },
        PieceKind::King => if white {
            f.white_king
        } else {
            f.black_king
        },
    }
}

/// Sum of the piece-square bonuses of the first `n` squares of `pieces`.
/// With `mirror` set each square is looked up rank-flipped, which is how
/// black pieces read the white tables.
pub open spec fn spec_sum_by_table_upto(
    pieces: u64,
    kind: PieceKind,
    endgame: bool,
    mirror: bool,
    n: int,
) -> int
    decreases n,
{
    if n <= 0 {
        0
    } else {
        spec_sum_by_table_upto(pieces, kind, endgame, mirror, n - 1) + if has_sq(
            pieces,
            (n - 1) as u64,
        ) {
            spec_pst(
                kind,
                endgame,
                if mirror {
                    spec_mirror_square(n - 1)
                } else {
                    n - 1
                },
            )
        } else {
            0
        }
    }
}

/// Sum of the piece-square bonuses of every square of `pieces`.
pub open spec fn spec_sum_by_table(pieces: u64, kind: PieceKind, endgame: bool, mirror: bool) -> int {
    spec_sum_by_table_upto(pieces, kind, endgame, mirror, 64)
}

/// Sums the piece-square table over the squares of `pieces`.
pub fn sum_by_table(pieces: u64, kind: PieceKind, endgame: bool, mirror: bool) -> (r: i32)
    ensures
        r == spec_sum_by_table(pieces, kind, endgame, mirror),
        -3200 <= r <= 3200,
{
    let mut sum: i32 = 0;
    let mut i: u8 = 0;
    while i < 64
        invariant
            i <= 64,
            sum == spec_sum_by_table_upto(pieces, kind, endgame, mirror, i as int),
            -50 * (i as i32) <= sum <= 50 * (i as i32),
        decreases 64 - i,
    {
        if (pieces >> (i as u64)) & 1u64 == 1u64 {
            let ix = if mirror {
                mirror_square(i)
            } else {
                i
            };
            sum = sum + pst(kind, endgame, ix);
        }
        i = i + 1;
    }
    sum
}

/// Penalty when an own bishop on `bishop_sq` is shut in by an own pawn on
/// `pawn_sq` that is itself blocked by any piece one square ahead.
pub open spec fn spec_blocked_bishop(f: BoardFacts, bishop_sq: int, pawn_sq: int, white: bool) -> int {
    let bishops = if white {
        f.white_bishops
    } else {
        f.black_bishops
    };
    let pawns = if white {
        f.white_pawns
    } else {
        f.black_pawns
    };
    let block_sq = if white {
        pawn_sq + 8
    } else {
        pawn_sq - 8
    };
    if has_sq(bishops, bishop_sq as u64) && has_sq(pawns, pawn_sq as u64) && has_sq(
        f.spec_occupied(),
        block_sq as u64,
    ) {
        crate::constants::BLOCKED_PENALTY as int
    } else {
        0
    }
}

/// Penalty when an own bishop is shut in by an own blocked pawn.
pub fn blocked_bishop(f: &BoardFacts, bishop_sq: u8, pawn_sq: u8, white: bool) -> (r: i32)
    requires
        bishop_sq < 64,
        white ==> pawn_sq < 56,
        !white ==> 8 <= pawn_sq < 64,
    ensures
        r == spec_blocked_bishop(*f, bishop_sq as int, pawn_sq as int, white),
        -50 <= r <= 0,
{
    let bishops = if white {
        f.white_bishops
    } else {
        f.black_bishops
    };
    let pawns = if white {
        f.white_pawns
    } else {
        f.black_pawns
    };
    let block_sq: u8 = if white {
        pawn_sq + 8
    } else {
        pawn_sq - 8
    };
    let occ = f.occupied();
    if (bishops >> (bishop_sq as u64)) & 1u64 == 1u64 && (pawns >> (pawn_sq as u64)) & 1u64 == 1u64
        && (occ >> (block_sq as u64)) & 1u64 == 1u64 {
        crate::constants::BLOCKED_PENALTY
    } else {
        0
    }
}

} // verus!
