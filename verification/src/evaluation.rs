//! The static evaluator: material, piece-square bonuses and structural
//! terms, folded to the side to move at the end.
//!
//! Every term is a pure function of a [`BoardFacts`] value, with a
//! specification twin, so `evaluate` can promise its exact result.

use vstd::prelude::*;

verus! {

use crate::bitboard_operators::{
    count_squares,
    popcount,
    has_sq,
    file_fill,
    open_files,
    king_attacks,
    white_front_spans,
    black_front_spans,
    east_one,
    west_one,
    white_pawn_any_attacks,
    black_pawn_any_attacks,
    white_pawns_behind_own,
    black_pawns_behind_own,
    isolanis,
    white_backward,
    black_backward,
    white_passed_pawns,
    black_passed_pawns,
    knight_moves_from,
    rook_rays_from,
    bishop_rays_from,
    spec_file_fill,
    spec_open_files,
    spec_king_attacks,
    spec_white_front_spans,
    spec_black_front_spans,
    spec_east_one,
    spec_west_one,
    spec_white_pawn_any_attacks,
    spec_black_pawn_any_attacks,
    spec_white_pawns_behind_own,
    spec_black_pawns_behind_own,
    spec_isolanis,
    spec_white_backward,
    spec_black_backward,
    spec_white_passed_pawns,
    spec_black_passed_pawns,
    spec_knight_moves_from,
    spec_rook_rays_from,
    spec_bishop_rays_from,
};
use crate::constants::{
    piece_value,
    spec_piece_value,
    passed_bonus,
    spec_passed_bonus,
    outpost_bonus,
    spec_outpost_bonus,
    attack_scale,
    spec_attack_scale,
    MATE_SCORE,
    ROOK_OPEN_FILE_MG,
    ROOK_OPEN_FILE_EG,
    ROOK_HALF_OPEN_FILE_MG,
    ROOK_HALF_OPEN_FILE_EG,
    BISHOP_PAIR_MG,
    BISHOP_PAIR_EG,
    DOUBLED_PAWNS_MG,
    DOUBLED_PAWNS_EG,
    ISOLATED_PAWNS_MG,
    ISOLATED_PAWNS_EG,
    BACKWARD_PAWNS_MG,
    BACKWARD_PAWNS_EG,
    SHIELD_UNIT,
    STORM_UNIT,
    BLOCKED_PENALTY,
};
use crate::position::{BoardFacts, GameStatus, PieceKind, spec_first_square, first_square};
use crate::utils::{
    sum_by_table,
    spec_sum_by_table,
    blocked_bishop,
    spec_blocked_bishop,
    distance,
    spec_distance,
    spec_mirror_square,
    mirror_square,
};

/// Material total of one side.
pub open spec fn spec_material(f: BoardFacts, white: bool, endgame: bool) -> int {
    if white {
        popcount(f.white_pawns) * spec_piece_value(PieceKind::Pawn, endgame) + popcount(
            f.white_knights,
        ) * spec_piece_value(PieceKind::Knight, endgame) + popcount(f.white_bishops)
            * spec_piece_value(PieceKind::Bishop, endgame) + popcount(f.white_rooks)
            * spec_piece_value(PieceKind::Rook, endgame) + popcount(f.white_queens)
            * spec_piece_value(PieceKind::Queen, endgame)
    } else {
        popcount(f.black_pawns) * spec_piece_value(PieceKind::Pawn, endgame) + popcount(
            f.black_knights,
        ) * spec_piece_value(PieceKind::Knight, endgame) + popcount(f.black_bishops)
            * spec_piece_value(PieceKind::Bishop, endgame) + popcount(f.black_rooks)
            * spec_piece_value(PieceKind::Rook, endgame) + popcount(f.black_queens)
            * spec_piece_value(PieceKind::Queen, endgame)
    }
}

/// Material total of one side.
pub fn material(f: &BoardFacts, white: bool, endgame: bool) -> (r: i32)
    ensures
        r == spec_material(*f, white, endgame),
        0 <= r <= 400_000,
{
    let pawns = if white {
        f.white_pawns
    } else {
        f.black_pawns
    };
    let knights = if white {
        f.white_knights
    } else {
        f.black_knights
    };
    let bishops = if white {
        f.white_bishops
    } else {
        f.black_bishops
    };
    let rooks = if white {
        f.white_rooks
    } else {
        f.black_rooks
    };
    let queens = if white {
        f.white_queens
    } else {
        f.black_queens
    };
    count_squares(pawns) as i32 * piece_value(PieceKind::Pawn, endgame) + count_squares(knights)
        as i32 * piece_value(PieceKind::Knight, endgame) + count_squares(bishops) as i32
        * piece_value(PieceKind::Bishop, endgame) + count_squares(rooks) as i32 * piece_value(
        PieceKind::Rook,
        endgame,
    ) + count_squares(queens) as i32 * piece_value(PieceKind::Queen, endgame)
}

/// Piece-square total of one side; black reads the tables rank-mirrored.
pub open spec fn spec_pst_total(f: BoardFacts, white: bool, endgame: bool) -> int {
    if white {
        spec_sum_by_table(f.white_pawns, PieceKind::Pawn, endgame, false) + spec_sum_by_table(
            f.white_knights,
            PieceKind::Knight,
            endgame,
            false,
        ) + spec_sum_by_table(f.white_bishops, PieceKind::Bishop, endgame, false)
            + spec_sum_by_table(f.white_rooks, PieceKind::Rook, endgame, false) + spec_sum_by_table(
            f.white_queens,
            PieceKind::Queen,
            endgame,
            false,
        ) + spec_sum_by_table(f.white_king, PieceKind::King, endgame, false)
    } else {
        spec_sum_by_table(f.black_pawns, PieceKind::Pawn, endgame, true) + spec_sum_by_table(
            f.black_knights,
            PieceKind::Knight,
            endgame,
            true,
        ) + spec_sum_by_table(f.black_bishops, PieceKind::Bishop, endgame, true)
            + spec_sum_by_table(f.black_rooks, PieceKind::Rook, endgame, true) + spec_sum_by_table(
            f.black_queens,
            PieceKind::Queen,
            endgame,
            true,
        ) + spec_sum_by_table(f.black_king, PieceKind::King, endgame, true)
    }
}

/// Piece-square total of one side.
pub fn pst_total(f: &BoardFacts, white: bool, endgame: bool) -> (r: i32)
    ensures
        r == spec_pst_total(*f, white, endgame),
        -20_000 <= r <= 20_000,
{
    let mirror = !white;
    let pawns = if white {
        f.white_pawns
    } else {
        f.black_pawns
    };
    let knights = if white {
        f.white_knights
    } else {
        f.black_knights
    };
    let bishops = if white {
        f.white_bishops
    } else {
        f.black_bishops
    };
    let rooks = if white {
        f.white_rooks
    } else {
        f.black_rooks
    };
    let queens = if white {
        f.white_queens
    } else {
        f.black_queens
    };
    let king = if white {
        f.white_king
    } else {
        f.black_king
    };
    sum_by_table(pawns, PieceKind::Pawn, endgame, mirror) + sum_by_table(
        knights,
        PieceKind::Knight,
        endgame,
        mirror,
    ) + sum_by_table(bishops, PieceKind::Bishop, endgame, mirror) + sum_by_table(
        rooks,
        PieceKind::Rook,
        endgame,
        mirror,
    ) + sum_by_table(queens, PieceKind::Queen, endgame, mirror) + sum_by_table(
        king,
        PieceKind::King,
        endgame,
        mirror,
    )
}

/// Bonus of one side for rooks on open and half-open files.
pub open spec fn spec_rook_file_bonus(f: BoardFacts, white: bool, endgame: bool) -> int {
    let rooks = if white {
        f.white_rooks
    } else {
        f.black_rooks
    };
    let own_pawns = if white {
        f.white_pawns
    } else {
        f.black_pawns
    };
    let enemy_pawns = if white {
        f.black_pawns
    } else {
        f.white_pawns
    };
    let open_val: int = if endgame {
        ROOK_OPEN_FILE_EG as int
    } else {
        ROOK_OPEN_FILE_MG as int
    };
    let half_val: int = if endgame {
        ROOK_HALF_OPEN_FILE_EG as int
    } else {
        ROOK_HALF_OPEN_FILE_MG as int
    };
    popcount(rooks & spec_open_files(f.white_pawns, f.black_pawns)) * open_val + popcount(
        rooks & (!spec_file_fill(own_pawns) & spec_file_fill(enemy_pawns)),
    ) * half_val
}

/// Bonus of one side for rooks on open and half-open files.
pub fn rook_file_bonus(f: &BoardFacts, white: bool, endgame: bool) -> (r: i32)
    ensures
        r == spec_rook_file_bonus(*f, white, endgame),
        0 <= r <= 4000,
{
    let rooks = if white {
        f.white_rooks
    } else {
        f.black_rooks
    };
    let own_pawns = if white {
        f.white_pawns
    } else {
        f.black_pawns
    };
    let enemy_pawns = if white {
        f.black_pawns
    } else {
        f.white_pawns
    };
    let open_val: i32 = if endgame {
        ROOK_OPEN_FILE_EG
    } else {
        ROOK_OPEN_FILE_MG
    };
    let half_val: i32 = if endgame {
        ROOK_HALF_OPEN_FILE_EG
    } else {
        ROOK_HALF_OPEN_FILE_MG
    };
    let open = open_files(f.white_pawns, f.black_pawns);
    let half = !file_fill(own_pawns) & file_fill(enemy_pawns);
    count_squares(rooks & open) as i32 * open_val + count_squares(rooks & half) as i32 * half_val
}

/// Bonus of one side for holding at least two bishops.
pub open spec fn spec_bishop_pair_bonus(f: BoardFacts, white: bool, endgame: bool) -> int {
    let bishops = if white {
        f.white_bishops
    } else {
        f.black_bishops
    };
    if popcount(bishops) >= 2 {
        if endgame {
            BISHOP_PAIR_EG as int
        } else {
            BISHOP_PAIR_MG as int
        }
    } else {
        0
    }
}

/// Bonus of one side for holding at least two bishops.
pub fn bishop_pair_bonus(f: &BoardFacts, white: bool, endgame: bool) -> (r: i32)
    ensures
        r == spec_bishop_pair_bonus(*f, white, endgame),
        0 <= r <= 50,
{
    let bishops = if white {
        f.white_bishops
    } else {
        f.black_bishops
    };
    if count_squares(bishops) >= 2 {
        if endgame {
            BISHOP_PAIR_EG
        } else {
            BISHOP_PAIR_MG
        }
    } else {
        0
    }
}

/// Is the knight square `sq` an outpost for the given side: defended by an
/// own pawn and out of reach of every enemy pawn on the adjacent files?
pub open spec fn spec_is_outpost(own_pawns: u64, enemy_pawns: u64, white: bool, sq: int) -> bool {
    let single = 1u64 << (sq as u64);
    if white {
        own_pawns & spec_black_pawn_any_attacks(single) != 0 && enemy_pawns & (spec_east_one(
            spec_white_front_spans(single),
        ) | spec_west_one(spec_white_front_spans(single))) == 0
    } else {
        own_pawns & spec_white_pawn_any_attacks(single) != 0 && enemy_pawns & (spec_east_one(
            spec_black_front_spans(single),
        ) | spec_west_one(spec_black_front_spans(single))) == 0
    }
}

/// Outpost bonus of one side over the first `n` squares.
pub open spec fn spec_outposts_upto(
    knights: u64,
    own_pawns: u64,
    enemy_pawns: u64,
    white: bool,
    n: int,
) -> int
    decreases n,
{
    if n <= 0 {
        0
    } else {
        spec_outposts_upto(knights, own_pawns, enemy_pawns, white, n - 1) + if has_sq(
            knights,
            (n - 1) as u64,
        ) && spec_is_outpost(own_pawns, enemy_pawns, white, n - 1) {
            spec_outpost_bonus(
                if white {
                    n - 1
                } else {
                    spec_mirror_square(n - 1)
                },
            )
        } else {
            0
        }
    }
}

/// Outpost bonus of one side's knights over the whole board.
pub open spec fn spec_outposts(f: BoardFacts, white: bool) -> int {
    if white {
        spec_outposts_upto(f.white_knights, f.white_pawns, f.black_pawns, true, 64)
    } else {
        spec_outposts_upto(f.black_knights, f.black_pawns, f.white_pawns, false, 64)
    }
}

/// Total outpost bonus of one side's knights.
pub fn outposts(f: &BoardFacts, white: bool) -> (r: i32)
    ensures
        r == spec_outposts(*f, white),
        0 <= r <= 960,
{
    let knights = if white {
        f.white_knights
    } else {
        f.black_knights
    };
    let own_pawns = if white {
        f.white_pawns
    } else {
        f.black_pawns
    };
    let enemy_pawns = if white {
        f.black_pawns
    } else {
        f.white_pawns
    };
    let mut sum: i32 = 0;
    let mut i: u8 = 0;
    while i < 64
        invariant
            i <= 64,
            sum == spec_outposts_upto(knights, own_pawns, enemy_pawns, white, i as int),
            0 <= sum <= 15 * (i as i32),
        decreases 64 - i,
    {
        if (knights >> (i as u64)) & 1u64 == 1u64 {
            let single: u64 = 1u64 << (i as u64);
            let is_outpost: bool = if white {
                let defended = own_pawns & black_pawn_any_attacks(single) != 0;
                let spans = white_front_spans(single);
                let safe = enemy_pawns & (east_one(spans) | west_one(spans)) == 0;
                defended && safe
            } else {
                let defended = own_pawns & white_pawn_any_attacks(single) != 0;
                let spans = black_front_spans(single);
                let safe = enemy_pawns & (east_one(spans) | west_one(spans)) == 0;
                defended && safe
            };
            if is_outpost {
                let ix = if white {
                    i
                } else {
                    mirror_square(i)
                };
                sum = sum + outpost_bonus(ix);
            }
        }
        i = i + 1;
    }
    sum
}

/// Penalty of one side for blocked bishops and rooks shut in by the king.
pub open spec fn spec_blocked_pieces(f: BoardFacts, white: bool) -> int {
    if white {
        spec_blocked_bishop(f, 2, 11, true) + spec_blocked_bishop(f, 5, 12, true) + (if (has_sq(
            f.white_king,
            1,
        ) || has_sq(f.white_king, 2)) && (has_sq(f.white_rooks, 0) || has_sq(f.white_rooks, 8)
            || has_sq(f.white_rooks, 1)) {
            BLOCKED_PENALTY as int
        } else {
            0
        }) + (if (has_sq(f.white_king, 5) || has_sq(f.white_king, 6)) && (has_sq(f.white_rooks, 7)
            || has_sq(f.white_rooks, 15) || has_sq(f.white_rooks, 6)) {
            BLOCKED_PENALTY as int
        } else {
            0
        })
    } else {
        spec_blocked_bishop(f, 58, 51, false) + spec_blocked_bishop(f, 61, 52, false) + (if (has_sq(
            f.black_king,
            57,
        ) || has_sq(f.black_king, 58)) && (has_sq(f.black_rooks, 56) || has_sq(f.black_rooks, 48)
            || has_sq(f.black_rooks, 57)) {
            BLOCKED_PENALTY as int
        } else {
            0
        }) + (if (has_sq(f.black_king, 61) || has_sq(f.black_king, 62)) && (has_sq(
            f.black_rooks,
            63,
        ) || has_sq(f.black_rooks, 55) || has_sq(f.black_rooks, 62)) {
            BLOCKED_PENALTY as int
        } else {
            0
        })
    }
}

/// Penalty of one side for blocked bishops and rooks shut in by the king.
pub fn blocked_pieces(f: &BoardFacts, white: bool) -> (r: i32)
    ensures
        r == spec_blocked_pieces(*f, white),
        -200 <= r <= 0,
{
    if white {
        // bishops on c1 / f1 shut in by pawns on d2 / e2
        let bishops_term = blocked_bishop(f, 2, 11, true) + blocked_bishop(f, 5, 12, true);
        let king = f.white_king;
        let rooks = f.white_rooks;
        let queenside: i32 = if ((king >> 1u64) & 1u64 == 1u64 || (king >> 2u64) & 1u64 == 1u64)
            && ((rooks >> 0u64) & 1u64 == 1u64 || (rooks >> 8u64) & 1u64 == 1u64 || (rooks >> 1u64)
            & 1u64 == 1u64) {
            BLOCKED_PENALTY
        } else {
            0
        };
        let kingside: i32 = if ((king >> 5u64) & 1u64 == 1u64 || (king >> 6u64) & 1u64 == 1u64)
            && ((rooks >> 7u64) & 1u64 == 1u64 || (rooks >> 15u64) & 1u64 == 1u64 || (rooks
            >> 6u64) & 1u64 == 1u64) {
            BLOCKED_PENALTY
        } else {
            0
        };
        bishops_term + queenside + kingside
    } else {
        // bishops on c8 / f8 shut in by pawns on d7 / e7
        let bishops_term = blocked_bishop(f, 58, 51, false) + blocked_bishop(f, 61, 52, false);
        let king = f.black_king;
        let rooks = f.black_rooks;
        let queenside: i32 = if ((king >> 57u64) & 1u64 == 1u64 || (king >> 58u64) & 1u64 == 1u64)
            && ((rooks >> 56u64) & 1u64 == 1u64 || (rooks >> 48u64) & 1u64 == 1u64 || (rooks
            >> 57u64) & 1u64 == 1u64) {
            BLOCKED_PENALTY
        } else {
            0
        };
        let kingside: i32 = if ((king >> 61u64) & 1u64 == 1u64 || (king >> 62u64) & 1u64 == 1u64)
            && ((rooks >> 63u64) & 1u64 == 1u64 || (rooks >> 55u64) & 1u64 == 1u64 || (rooks
            >> 62u64) & 1u64 == 1u64) {
            BLOCKED_PENALTY
        } else {
            0
        };
        bishops_term + queenside + kingside
    }
}

/// Pawn-shield term of one side: each missing pawn of a three-pawn shield
/// around the king costs `SHIELD_UNIT`.
pub open spec fn spec_pawn_shield(f: BoardFacts, white: bool) -> int {
    let own_pawns = if white {
        f.white_pawns
    } else {
        f.black_pawns
    };
    let zone = spec_king_attacks(
        if white {
            f.white_king
        } else {
            f.black_king
        },
    );
    (3 - popcount(own_pawns & zone)) * (SHIELD_UNIT as int)
}

/// Pawn-shield term of one side.
pub fn pawn_shield(f: &BoardFacts, white: bool) -> (r: i32)
    ensures
        r == spec_pawn_shield(*f, white),
        -100 <= r <= 1700,
{
    let own_pawns = if white {
        f.white_pawns
    } else {
        f.black_pawns
    };
    let king = if white {
        f.white_king
    } else {
        f.black_king
    };
    let zone = king_attacks(king);
    (3 - count_squares(own_pawns & zone) as i32) * SHIELD_UNIT
}

/// Storm penalty terms over the first `n` squares: each storming pawn
/// costs more the closer it has come to the defending king.
pub open spec fn spec_storm_upto(storming: u64, king_sq: int, n: int) -> int
    decreases n,
{
    if n <= 0 {
        0
    } else {
        spec_storm_upto(storming, king_sq, n - 1) + if has_sq(storming, (n - 1) as u64) {
            (7 - spec_distance(n - 1, king_sq)) * (STORM_UNIT as int)
        } else {
            0
        }
    }
}

/// Storm penalty of one side over the whole board.
pub open spec fn spec_pawn_storm(f: BoardFacts, white: bool) -> int {
    spec_storm_upto(
        spec_storming_pawns(f, white),
        spec_first_square(
            if white {
                f.white_king
            } else {
                f.black_king
            },
        ) as int,
        64,
    )
}

/// The enemy pawns storming the given side's king: those on files whose
/// front span meets the king zone.
pub open spec fn spec_storming_pawns(f: BoardFacts, white: bool) -> u64 {
    if white {
        spec_file_fill(spec_black_front_spans(f.black_pawns) & spec_king_attacks(f.white_king))
            & f.black_pawns
    } else {
        spec_file_fill(spec_white_front_spans(f.white_pawns) & spec_king_attacks(f.black_king))
            & f.white_pawns
    }
}

/// Storm penalty of one side from the enemy pawns advancing on its king.
pub fn pawn_storm(f: &BoardFacts, white: bool) -> (r: i32)
    ensures
        r == spec_pawn_storm(*f, white),
        -4500 <= r <= 0,
{
    let storming: u64 = if white {
        file_fill(black_front_spans(f.black_pawns) & king_attacks(f.white_king)) & f.black_pawns
    } else {
        file_fill(white_front_spans(f.white_pawns) & king_attacks(f.black_king)) & f.white_pawns
    };
    let king_sq: u8 = first_square(
        if white {
            f.white_king
        } else {
            f.black_king
        },
    );
    let mut sum: i32 = 0;
    let mut i: u8 = 0;
    while i < 64
        invariant
            i <= 64,
            sum == spec_storm_upto(storming, king_sq as int, i as int),
            -70 * (i as i32) <= sum <= 0,
            storming == spec_storming_pawns(*f, white),
            king_sq == spec_first_square(
                if white {
                    f.white_king
                } else {
                    f.black_king
                },
            ),
            king_sq < 64,
        decreases 64 - i,
    {
        if (storming >> (i as u64)) & 1u64 == 1u64 {
            sum = sum + (7 - distance(i, king_sq)) * STORM_UNIT;
        }
        i = i + 1;
    }
    sum
}

/// Weighted units and distinct count of the pieces among the given masks
/// whose attack pattern reaches the king `zone`, over the first `n`
/// squares.
pub open spec fn spec_attackers_upto(
    zone: u64,
    knights: u64,
    bishops: u64,
    rooks: u64,
    queens: u64,
    n: int,
) -> (int, int)
    decreases n,
{
    if n <= 0 {
        (0, 0)
    } else {
        let prev = spec_attackers_upto(zone, knights, bishops, rooks, queens, n - 1);
        let sq = (n - 1) as u64;
        let kn: (int, int) = if has_sq(knights, sq) && spec_knight_moves_from(sq) & zone != 0 {
            (1, 1)
        } else {
            (0, 0)
        };
        let bi: (int, int) = if has_sq(bishops, sq) && spec_bishop_rays_from(sq) & zone != 0 {
            (1, 1)
        } else {
            (0, 0)
        };
        let ro: (int, int) = if has_sq(rooks, sq) && spec_rook_rays_from(sq) & zone != 0 {
            (1, 2)
        } else {
            (0, 0)
        };
        let qu: (int, int) = if has_sq(queens, sq) && (spec_rook_rays_from(sq)
            | spec_bishop_rays_from(sq)) & zone != 0 {
            (1, 4)
        } else {
            (0, 0)
        };
        (prev.0 + kn.0 + bi.0 + ro.0 + qu.0, prev.1 + kn.1 + bi.1 + ro.1 + qu.1)
    }
}

/// King-attack penalty of one side: `-20` per weighted attacking unit,
/// scaled by a monotone percentage of the distinct attacker count.
pub open spec fn spec_king_attack_score(f: BoardFacts, white: bool) -> int {
    let zone = spec_king_attacks(
        if white {
            f.white_king
        } else {
            f.black_king
        },
    );
    let counts = if white {
        spec_attackers_upto(zone, f.black_knights, f.black_bishops, f.black_rooks, f.black_queens, 64)
    } else {
        spec_attackers_upto(zone, f.white_knights, f.white_bishops, f.white_rooks, f.white_queens, 64)
    };
    -((20 * counts.1 * spec_attack_scale(counts.0)) / 100)
}

/// King-attack penalty of one side.
pub fn king_attack_score(f: &BoardFacts, white: bool) -> (r: i32)
    ensures
        r == spec_king_attack_score(*f, white),
        -110_000 <= r <= 0,
{
    let zone = king_attacks(
        if white {
            f.white_king
        } else {
            f.black_king
        },
    );
    let knights = if white {
        f.black_knights
    } else {
        f.white_knights
    };
    let bishops = if white {
        f.black_bishops
    } else {
        f.white_bishops
    };
    let rooks = if white {
        f.black_rooks
    } else {
        f.white_rooks
    };
    let queens = if white {
        f.black_queens
    } else {
        f.white_queens
    };
    let mut count: u32 = 0;
    let mut units: u32 = 0;
    let mut i: u8 = 0;
    while i < 64
        invariant
            i <= 64,
            count == spec_attackers_upto(zone, knights, bishops, rooks, queens, i as int).0,
            units == spec_attackers_upto(zone, knights, bishops, rooks, queens, i as int).1,
            count <= 4 * (i as u32),
            units <= 8 * (i as u32),
            zone == spec_king_attacks(
                if white {
                    f.white_king
                } else {
                    f.black_king
                },
            ),
            knights == (if white {
                f.black_knights
            } else {
                f.white_knights
            }),
            bishops == (if white {
                f.black_bishops
            } else {
                f.white_bishops
            }),
            rooks == (if white {
                f.black_rooks
            } else {
                f.white_rooks
            }),
            queens == (if white {
                f.black_queens
            } else {
                f.white_queens
            }),
        decreases 64 - i,
    {
        if (knights >> (i as u64)) & 1u64 == 1u64 && knight_moves_from(i) & zone != 0 {
            count = count + 1;
            units = units + 1;
        }
        if (bishops >> (i as u64)) & 1u64 == 1u64 && bishop_rays_from(i) & zone != 0 {
            count = count + 1;
            units = units + 1;
        }
        if (rooks >> (i as u64)) & 1u64 == 1u64 && rook_rays_from(i) & zone != 0 {
            count = count + 1;
            units = units + 2;
        }
        if (queens >> (i as u64)) & 1u64 == 1u64 && (rook_rays_from(i) | bishop_rays_from(i))
            & zone != 0 {
            count = count + 1;
            units = units + 4;
        }
        i = i + 1;
    }
    let scale = attack_scale(count);
    -((20 * units as i32 * scale) / 100)
}

/// The whole score of one side, from White's sign convention.
pub open spec fn spec_side_score(f: BoardFacts, white: bool) -> int {
    let endgame = f.spec_endgame();
    spec_material(f, white, endgame) + spec_pst_total(f, white, endgame) + spec_rook_file_bonus(
        f,
        white,
        endgame,
    ) + spec_bishop_pair_bonus(f, white, endgame) + spec_outposts(f, white)
        + spec_blocked_pieces(f, white) + spec_king_attack_score(f, white) + if !endgame {
        spec_pawn_shield(f, white) + spec_pawn_storm(f, white)
    } else {
        0
    }
}

/// The whole score of one side.
pub fn side_score(f: &BoardFacts, white: bool, endgame: bool) -> (r: i32)
    requires
        endgame == f.spec_endgame(),
    ensures
        r == spec_side_score(*f, white),
        -200_000 <= r <= 500_000,
{
    let base = material(f, white, endgame) + pst_total(f, white, endgame) + rook_file_bonus(
        f,
        white,
        endgame,
    ) + bishop_pair_bonus(f, white, endgame) + outposts(f, white) + blocked_pieces(f, white)
        + king_attack_score(f, white);
    if !endgame {
        base + pawn_shield(f, white) + pawn_storm(f, white)
    } else {
        base
    }
}

/// Is the position an endgame for evaluation purposes?
pub fn is_endgame(f: &BoardFacts) -> (r: bool)
    ensures
        r == f.spec_endgame(),
{
    let queens = count_squares(f.white_queens) + count_squares(f.black_queens);
    let minors = count_squares(f.white_knights) + count_squares(f.black_knights) + count_squares(
        f.white_bishops,
    ) + count_squares(f.black_bishops) + count_squares(f.white_rooks) + count_squares(
        f.black_rooks,
    );
    queens == 0 && minors <= 2
}

/// The static evaluation, from the side to move's perspective: a mated
/// side scores `-MATE_SCORE`, stalemate scores zero, and otherwise the
/// score is the difference of the two side totals, signed for the mover.
pub open spec fn spec_evaluate(f: BoardFacts) -> int {
    match f.status {
        GameStatus::Checkmate => -(MATE_SCORE as int),
        GameStatus::Stalemate => 0,
        GameStatus::Ongoing => if f.white_to_move {
            spec_side_score(f, true) - spec_side_score(f, false)
        } else {
            spec_side_score(f, false) - spec_side_score(f, true)
        },
    }
}

/// Evaluates a position statically, from the side to move's perspective.
pub fn evaluate(f: &BoardFacts) -> (r: i32)
    ensures
        r == spec_evaluate(*f),
        -710_000 <= r <= 710_000,
{
    match f.status {
        GameStatus::Checkmate => -MATE_SCORE,
        GameStatus::Stalemate => 0,
        GameStatus::Ongoing => {
            let endgame = is_endgame(f);
            let white_total = side_score(f, true, endgame);
            let black_total = side_score(f, false, endgame);
            if f.white_to_move {
                white_total - black_total
            } else {
                black_total - white_total
            }
        },
    }
}

/// The same position with only the side to move exchanged.
pub open spec fn spec_flip_side(f: BoardFacts) -> BoardFacts {
    BoardFacts { white_to_move: !f.white_to_move, ..f }
}

/// The same position with only the side to move exchanged.
pub fn flip_side(f: &BoardFacts) -> (r: BoardFacts)
    ensures
        r == spec_flip_side(*f),
{
    BoardFacts { white_to_move: !f.white_to_move, ..*f }
}

/// Evaluating for one side and for the other gives opposite scores: on any
/// position that is not terminal, the evaluation seen by the mover and the
/// evaluation seen after handing the move over sum to zero.
pub proof fn lemma_evaluate_antisymmetric(f: BoardFacts)
    requires
        f.status == GameStatus::Ongoing,
    ensures
        spec_evaluate(f) + spec_evaluate(spec_flip_side(f)) == 0,
{
    let g = spec_flip_side(f);
    assert(spec_side_score(g, true) == spec_side_score(f, true));
    assert(spec_side_score(g, false) == spec_side_score(f, false));
}

/// The pure material balance from the mover's perspective, with
/// middlegame values.
pub open spec fn spec_material_balance(f: BoardFacts) -> int {
    let diff = spec_material(f, true, false) - spec_material(f, false, false);
    if f.white_to_move {
        diff
    } else {
        -diff
    }
}

/// The pure material balance from the mover's perspective.
pub fn material_balance(f: &BoardFacts) -> (r: i32)
    ensures
        r == spec_material_balance(*f),
        -400_000 <= r <= 400_000,
{
    let diff = material(f, true, false) - material(f, false, false);
    if f.white_to_move {
        diff
    } else {
        -diff
    }
}

/// White passed-pawn bonus terms over the first `n` squares.
pub open spec fn spec_passed_score_upto(passed: u64, endgame: bool, white: bool, n: int) -> int
    decreases n,
{
    if n <= 0 {
        0
    } else {
        spec_passed_score_upto(passed, endgame, white, n - 1) + if has_sq(passed, (n - 1) as u64) {
            spec_passed_bonus(
                if white {
                    (n - 1) / 8
                } else {
                    7 - (n - 1) / 8
                },
                endgame,
            )
        } else {
            0
        }
    }
}

/// Sums the rank-indexed bonus of a side's passed pawns; a black pawn's
/// progress is read from rank 8 downward.
pub fn passed_score(passed: u64, endgame: bool, white: bool) -> (r: i32)
    ensures
        r == spec_passed_score_upto(passed, endgame, white, 64),
        0 <= r <= 9600,
{
    let mut sum: i32 = 0;
    let mut i: u8 = 0;
    while i < 64
        invariant
            i <= 64,
            sum == spec_passed_score_upto(passed, endgame, white, i as int),
            0 <= sum <= 150 * (i as i32),
        decreases 64 - i,
    {
        if (passed >> (i as u64)) & 1u64 == 1u64 {
            let rank: u8 = if white {
                i / 8
            } else {
                7 - i / 8
            };
            sum = sum + passed_bonus(rank, endgame);
        }
        i = i + 1;
    }
    sum
}

/// The pawn-structure component of the evaluation, from White's view:
/// doubled, isolated and backward penalties and passed-pawn bonuses, for
/// both sides.
pub open spec fn spec_evaluate_pawn_structure(black_pawns: u64, white_pawns: u64, endgame: bool) -> int {
    let doubled_val: int = if endgame {
        DOUBLED_PAWNS_EG as int
    } else {
        DOUBLED_PAWNS_MG as int
    };
    let isolated_val: int = if endgame {
        ISOLATED_PAWNS_EG as int
    } else {
        ISOLATED_PAWNS_MG as int
    };
    let backward_val: int = if endgame {
        BACKWARD_PAWNS_EG as int
    } else {
        BACKWARD_PAWNS_MG as int
    };
    (popcount(spec_white_pawns_behind_own(white_pawns)) - popcount(
        spec_black_pawns_behind_own(black_pawns),
    )) * doubled_val + (popcount(spec_isolanis(white_pawns)) - popcount(spec_isolanis(black_pawns)))
        * isolated_val + (popcount(spec_white_backward(white_pawns, black_pawns)) - popcount(
        spec_black_backward(black_pawns, white_pawns),
    )) * backward_val + spec_passed_score_upto(
        spec_white_passed_pawns(white_pawns, black_pawns),
        endgame,
        true,
        64,
    ) - spec_passed_score_upto(
        spec_black_passed_pawns(black_pawns, white_pawns),
        endgame,
        false,
        64,
    )
}

/// Scores the pawn structure alone, from White's view.
pub fn evaluate_pawn_structure(black_pawns: u64, white_pawns: u64, endgame: bool) -> (r: i32)
    ensures
        r == spec_evaluate_pawn_structure(black_pawns, white_pawns, endgame),
        -25_000 <= r <= 25_000,
{
    let doubled_val: i32 = if endgame {
        DOUBLED_PAWNS_EG
    } else {
        DOUBLED_PAWNS_MG
    };
    let isolated_val: i32 = if endgame {
        ISOLATED_PAWNS_EG
    } else {
        ISOLATED_PAWNS_MG
    };
    let backward_val: i32 = if endgame {
        BACKWARD_PAWNS_EG
    } else {
        BACKWARD_PAWNS_MG
    };
    let doubled = (count_squares(white_pawns_behind_own(white_pawns)) as i32 - count_squares(
        black_pawns_behind_own(black_pawns),
    ) as i32) * doubled_val;
    let isolated = (count_squares(isolanis(white_pawns)) as i32 - count_squares(
        isolanis(black_pawns),
    ) as i32) * isolated_val;
    let backward = (count_squares(white_backward(white_pawns, black_pawns)) as i32 - count_squares(
        black_backward(black_pawns, white_pawns),
    ) as i32) * backward_val;
    let passed = passed_score(white_passed_pawns(white_pawns, black_pawns), endgame, true)
        - passed_score(black_passed_pawns(black_pawns, white_pawns), endgame, false);
    doubled + isolated + backward + passed
}

/// The pawn structure score of a position with no pawns at all is zero.
pub proof fn lemma_pawn_structure_empty(endgame: bool)
    ensures
        spec_evaluate_pawn_structure(0, 0, endgame) == 0,
{
    crate::bitboard_operators::lemma_doubled_pawns_subset(0);
    crate::bitboard_operators::lemma_isolated_pawns_subset(0);
    crate::bitboard_operators::lemma_no_opposition_all_passed(0);
    assert(spec_white_backward(0, 0) == 0) by (bit_vector);
    assert(spec_black_backward(0, 0) == 0) by (bit_vector);
    assert(spec_passed_score_upto(0, endgame, true, 64) == 0) by {
        lemma_passed_score_empty(endgame, true, 64);
    }
    assert(spec_passed_score_upto(0, endgame, false, 64) == 0) by {
        lemma_passed_score_empty(endgame, false, 64);
    }
}

proof fn lemma_passed_score_empty(endgame: bool, white: bool, n: int)
    requires
        0 <= n <= 64,
    ensures
        spec_passed_score_upto(0, endgame, white, n) == 0,
    decreases n,
{
    if n > 0 {
        lemma_passed_score_empty(endgame, white, n - 1);
        crate::bitboard_operators::lemma_empty_has_no_sq();
        assert(!has_sq(0, (n - 1) as u64));
    }
}

} // verus!
