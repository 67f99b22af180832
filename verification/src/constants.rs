//! Evaluation weights: piece values, piece-square bonuses and the tunable
//! margins of the search.
//!
//! Every weight is given twice, as a specification function and as its
//! executable twin, so contracts elsewhere can pin sums of them exactly.

use vstd::prelude::*;

verus! {

use crate::position::PieceKind;

/// Centipawn score reported for a mated side.
pub const MATE_SCORE: i32 = 9999;

/// Margin for razoring three plies from the horizon.
pub const RAZORING_MARGIN: i32 = 900;

/// Margin for extended futility pruning two plies from the horizon.
pub const EXTENDED_FUTILITY_MARGIN: i32 = 500;

/// Margin for selective futility pruning at the horizon.
pub const FUTILITY_MARGIN: i32 = 200;

/// Queen value used by the delta-pruning test in quiescence.
pub const BIG_DELTA: i32 = 975;

/// Every score the search passes around stays within this bound; it is far
/// above any evaluation, mate score or root window.
pub const SCORE_BOUND: i32 = 2_000_000;

/// Bonus for a rook on a file with no pawns of either side.
pub const ROOK_OPEN_FILE_MG: i32 = 25;

pub const ROOK_OPEN_FILE_EG: i32 = 20;

/// Bonus for a rook on a file with no own pawns but enemy pawns.
pub const ROOK_HALF_OPEN_FILE_MG: i32 = 12;

pub const ROOK_HALF_OPEN_FILE_EG: i32 = 10;

/// Bonus for holding both bishops.
pub const BISHOP_PAIR_MG: i32 = 30;

pub const BISHOP_PAIR_EG: i32 = 50;

/// Penalty per doubled pawn.
pub const DOUBLED_PAWNS_MG: i32 = -20;

pub const DOUBLED_PAWNS_EG: i32 = -30;

/// Penalty per isolated pawn.
pub const ISOLATED_PAWNS_MG: i32 = -15;

pub const ISOLATED_PAWNS_EG: i32 = -25;

/// Penalty per backward pawn.
pub const BACKWARD_PAWNS_MG: i32 = -10;

pub const BACKWARD_PAWNS_EG: i32 = -15;

/// Penalty per missing pawn of the three-pawn shield.
pub const SHIELD_UNIT: i32 = -25;

/// Penalty unit per storming enemy pawn, scaled by closeness.
pub const STORM_UNIT: i32 = -10;

/// Penalty for a blocked bishop or a rook shut in by its king.
pub const BLOCKED_PENALTY: i32 = -50;

/// Weight unit for pieces bearing on the enemy king zone.
pub const KING_ATTACK_UNIT: i32 = -20;

/// Material value of a piece, by phase.
pub open spec fn spec_piece_value(kind: PieceKind, endgame: bool) -> int {
    match kind {
        PieceKind::Pawn => if endgame {
            120
        } else {
            100
        },
        PieceKind::Knight => 320,
        PieceKind::Bishop => 330,
        PieceKind::Rook => if endgame {
            520
        } else {
            500
        },
        PieceKind::Queen => 975,
        PieceKind::King => 0,
    }
}

/// Material value of a piece, by phase.
pub fn piece_value(kind: PieceKind, endgame: bool) -> (r: i32)
    ensures
        r == spec_piece_value(kind, endgame),
        0 <= r <= 975,
{
    match kind {
        PieceKind::Pawn => if endgame {
            120
        } else {
            100
        },
        PieceKind::Knight => 320,
        PieceKind::Bishop => 330,
        PieceKind::Rook => if endgame {
            520
        } else {
            500
        },
        PieceKind::Queen => 975,
        PieceKind::King => 0,
    }
}

/// Centralisation profile shared by the piece-square bonuses: best in the
/// middle two files or ranks, worst at the edge.
pub open spec fn spec_center_bonus(line: int) -> int {
    if line == 0 || line == 7 {
        -20
    } else if line == 1 || line == 6 {
        -5
    } else if line == 2 || line == 5 {
        5
    } else {
        10
    }
}

/// Piece-square bonus for a white piece of `kind` on square `sq`
/// (a black piece looks its square up through the rank mirror).
pub open spec fn spec_pst(kind: PieceKind, endgame: bool, sq: int) -> int {
    let file = sq % 8;
    let rank = sq / 8;
    match kind {
        PieceKind::Pawn => (if rank == 3 {
            10int
        } else if rank == 4 {
            15
        } else if rank == 5 {
            20
        } else if rank == 6 {
            30
        } else if rank == 1 || rank == 2 {
            5
        } else {
            0
        }) + (if (file == 3 || file == 4) && (rank == 3 || rank == 4) {
            10int
        } else {
            0
        }),
        PieceKind::Knight => spec_center_bonus(file) + spec_center_bonus(rank),
        PieceKind::Bishop => spec_center_bonus(file),
        PieceKind::Rook => (if rank == 6 {
            20int
        } else {
            0
        }) + (if file == 3 || file == 4 {
            5int
        } else {
            0
        }),
        PieceKind::Queen => if 2 <= file <= 5 && 2 <= rank <= 5 {
            5int
        } else {
            0
        },
        PieceKind::King => if endgame {
            spec_center_bonus(file) + spec_center_bonus(rank)
        } else {
            if rank == 0 {
                if file == 1 || file == 6 {
                    30
                } else if file == 0 || file == 2 || file == 7 {
                    20
                } else {
                    0
                }
            } else if rank == 1 {
                -10
            } else {
                -30
            }
        },
    }
}

fn center_bonus(line: u8) -> (r: i32)
    ensures
        r == spec_center_bonus(line as int),
        -20 <= r <= 10,
{
    if line == 0 || line == 7 {
        -20
    } else if line == 1 || line == 6 {
        -5
    } else if line == 2 || line == 5 {
        5
    } else {
        10
    }
}

/// Piece-square bonus for a white piece of `kind` on square `sq`.
pub fn pst(kind: PieceKind, endgame: bool, sq: u8) -> (r: i32)
    requires
        sq < 64,
    ensures
        r == spec_pst(kind, endgame, sq as int),
        -50 <= r <= 50,
{
    let file: u8 = sq % 8;
    let rank: u8 = sq / 8;
    match kind {
        PieceKind::Pawn => (if rank == 3 {
            10
        } else if rank == 4 {
            15
        } else if rank == 5 {
            20
        } else if rank == 6 {
            30
        } else if rank == 1 || rank == 2 {
            5
        } else {
            0
        }) + (if (file == 3 || file == 4) && (rank == 3 || rank == 4) {
            10i32
        } else {
            0i32
        }),
        PieceKind::Knight => center_bonus(file) + center_bonus(rank),
        PieceKind::Bishop => center_bonus(file),
        PieceKind::Rook => (if rank == 6 {
            20
        } else {
            0
        }) + (if file == 3 || file == 4 {
            5i32
        } else {
            0i32
        }),
        PieceKind::Queen => if 2 <= file && file <= 5 && 2 <= rank && rank <= 5 {
            5
        } else {
            0
        },
        PieceKind::King => if endgame {
            center_bonus(file) + center_bonus(rank)
        } else {
            if rank == 0 {
                if file == 1 || file == 6 {
                    30
                } else if file == 0 || file == 2 || file == 7 {
                    20
                } else {
                    0
                }
            } else if rank == 1 {
                -10
            } else {
                -30
            }
        },
    }
}

/// Outpost bonus for a white knight on square `sq`
/// (a black knight looks its square up through the rank mirror).
pub open spec fn spec_outpost_bonus(sq: int) -> int {
    let file = sq % 8;
    let rank = sq / 8;
    if 3 <= rank <= 5 && 2 <= file <= 5 {
        15
    } else if 3 <= rank <= 5 {
        8
    } else {
        0
    }
}

/// Outpost bonus for a white knight on square `sq`.
pub fn outpost_bonus(sq: u8) -> (r: i32)
    requires
        sq < 64,
    ensures
        r == spec_outpost_bonus(sq as int),
        0 <= r <= 15,
{
    let file: u8 = sq % 8;
    let rank: u8 = sq / 8;
    if 3 <= rank && rank <= 5 && 2 <= file && file <= 5 {
        15
    } else if 3 <= rank && rank <= 5 {
        8
    } else {
        0
    }
}

/// Bonus for a white passed pawn by its rank, larger in the endgame
/// (a black passed pawn looks its rank up mirrored).
pub open spec fn spec_passed_bonus(rank: int, endgame: bool) -> int {
    if endgame {
        if rank == 1 {
            20
        } else if rank == 2 {
            30
        } else if rank == 3 {
            40
        } else if rank == 4 {
            60
        } else if rank == 5 {
            100
        } else if rank == 6 {
            150
        } else {
            0
        }
    } else {
        if rank == 1 {
            10
        } else if rank == 2 {
            10
        } else if rank == 3 {
            15
        } else if rank == 4 {
            25
        } else if rank == 5 {
            40
        } else if rank == 6 {
            70
        } else {
            0
        }
    }
}

/// Bonus for a white passed pawn by its rank.
pub fn passed_bonus(rank: u8, endgame: bool) -> (r: i32)
    requires
        rank < 8,
    ensures
        r == spec_passed_bonus(rank as int, endgame),
        0 <= r <= 150,
{
    if endgame {
        if rank == 1 {
            20
        } else if rank == 2 {
            30
        } else if rank == 3 {
            40
        } else if rank == 4 {
            60
        } else if rank == 5 {
            100
        } else if rank == 6 {
            150
        } else {
            0
        }
    } else {
        if rank == 1 {
            10
        } else if rank == 2 {
            10
        } else if rank == 3 {
            15
        } else if rank == 4 {
            25
        } else if rank == 5 {
            40
        } else if rank == 6 {
            70
        } else {
            0
        }
    }
}

/// Percentage scaling of the king-attack score by the number of distinct
/// attackers; monotone in the count.
pub open spec fn spec_attack_scale(count: int) -> int {
    if count <= 1 {
        0
    } else if count == 2 {
        50
    } else if count == 3 {
        75
    } else if count == 4 {
        88
    } else if count == 5 {
        94
    } else if count == 6 {
        97
    } else if count == 7 {
        99
    } else {
        100
    }
}

/// Percentage scaling of the king-attack score.
pub fn attack_scale(count: u32) -> (r: i32)
    ensures
        r == spec_attack_scale(count as int),
        0 <= r <= 100,
{
    if count <= 1 {
        0
    } else if count == 2 {
        50
    } else if count == 3 {
        75
    } else if count == 4 {
        88
    } else if count == 5 {
        94
    } else if count == 6 {
        97
    } else if count == 7 {
        99
    } else {
        100
    }
}

} // verus!
