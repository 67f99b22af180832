use pawngrade::bitboard_operators::{
    bishop_rays_from, black_backward, black_pawn_any_attacks, black_pawns_behind_own,
    black_passed_pawns, closed_files, count_squares, east_one, file_fill, half_isolanis,
    half_open_files, isolanis, king_attacks, knight_moves_from, nort_fill, nort_one, north_east_one,
    north_west_one, open_files, rook_rays_from, sout_fill, sout_one, south_east_one, south_west_one,
    west_one, white_backward, white_front_spans, white_passed_pawns, white_pawn_any_attacks,
    white_pawns_behind_own, white_pawns_infront_own, black_pawns_infront_own, white_rear_spans,
    black_rear_spans, black_front_spans, no_neighbor_on_east_file, no_neighbor_on_west_file,
    east_attack_file_fill, west_attack_file_fill, white_pawn_east_attacks, white_pawn_west_attacks,
    black_pawn_east_attacks, black_pawn_west_attacks,
};

const A_FILE: u64 = 0x0101_0101_0101_0101;
const H_FILE: u64 = 0x8080_8080_8080_8080;

#[test]
fn shifts_drop_wrapping_bits() {
    assert_eq!(east_one(A_FILE), A_FILE << 1);
    assert_eq!(east_one(H_FILE), 0);
    assert_eq!(west_one(A_FILE), 0);
    assert_eq!(west_one(H_FILE), H_FILE >> 1);
    assert_eq!(nort_one(1), 1 << 8);
    assert_eq!(sout_one(1 << 8), 1);
    assert_eq!(north_east_one(1 << 7), 0);
    assert_eq!(north_west_one(1), 0);
    assert_eq!(south_east_one(1 << 15), 0);
    assert_eq!(south_west_one(1 << 8), 0);
    assert_eq!(north_east_one(1), 1 << 9);
    assert_eq!(north_west_one(2), 1 << 8);
}

#[test]
fn fills_cover_files() {
    // a2 fills upward to a8
    assert_eq!(nort_fill(1 << 8), 0x0101_0101_0101_0100);
    assert_eq!(sout_fill(1 << 8), 0x0000_0000_0000_0101);
    assert_eq!(file_fill(1 << 12), 0x1010_1010_1010_1010);
    assert_eq!(half_open_files(1 << 12), !0x1010_1010_1010_1010u64);
    assert_eq!(open_files(1 << 12, 1 << 12), !0x1010_1010_1010_1010u64);
    assert_eq!(closed_files(1 << 12, 1 << 20), 0x1010_1010_1010_1010);
    assert_eq!(east_attack_file_fill(1), 0x0202_0202_0202_0202);
    assert_eq!(west_attack_file_fill(2), 0x0101_0101_0101_0101);
}

#[test]
fn spans_examples() {
    assert_eq!(white_front_spans(1 << 12), 0x1010_1010_1010_0000);
    assert_eq!(white_rear_spans(1 << 12), 1 << 4);
    assert_eq!(black_front_spans(1 << 52), 0x0000_1010_1010_1010);
    assert_eq!(black_rear_spans(1 << 52), 1 << 60);
}

#[test]
fn pawn_attacks_examples() {
    assert_eq!(white_pawn_east_attacks(1 << 12), 1 << 21);
    assert_eq!(white_pawn_west_attacks(1 << 12), 1 << 19);
    assert_eq!(black_pawn_east_attacks(1 << 52), 1 << 45);
    assert_eq!(black_pawn_west_attacks(1 << 52), 1 << 43);
    assert_eq!(white_pawn_any_attacks(1 << 12), (1 << 21) | (1 << 19));
    assert_eq!(black_pawn_any_attacks(1 << 52), (1 << 45) | (1 << 43));
}

#[test]
fn doubled_pawns_found() {
    // pawns on a2 and a4: the a2 pawn stands behind its own
    let pawns = (1u64 << 8) | (1u64 << 24);
    assert_eq!(white_pawns_behind_own(pawns), 1 << 8);
    assert_eq!(white_pawns_infront_own(pawns), 1 << 24);
    let bpawns = (1u64 << 48) | (1u64 << 32);
    assert_eq!(black_pawns_behind_own(bpawns), 1 << 48);
    assert_eq!(black_pawns_infront_own(bpawns), 1 << 32);
}

#[test]
fn doubled_and_isolated_are_subsets() {
    let masks = [0u64, 0xff00, 0x0101_0101_0101_0101, 0x00ff_0000_1200_3400];
    for b in masks {
        assert_eq!(white_pawns_behind_own(b) & b, white_pawns_behind_own(b));
        assert_eq!(black_pawns_behind_own(b) & b, black_pawns_behind_own(b));
        assert_eq!(isolanis(b) & b, isolanis(b));
    }
    assert_eq!(white_pawns_behind_own(0), 0);
    assert_eq!(isolanis(0), 0);
}

#[test]
fn isolated_pawns_examples() {
    let a2 = 1u64 << 8;
    let b2 = 1u64 << 9;
    let c2 = 1u64 << 10;
    assert_eq!(isolanis(a2 | b2), 0);
    assert_eq!(isolanis(a2 | c2), a2 | c2);
    let a3 = 1u64 << 16;
    assert_eq!(half_isolanis(a2 | b2 | a3), a2 | b2 | a3);
    assert_eq!(no_neighbor_on_east_file(a2 | b2), b2);
    assert_eq!(no_neighbor_on_west_file(a2 | b2), a2);
}

#[test]
fn no_opposition_means_all_passed() {
    let masks = [0u64, 0xff00, 0x0034_1200_0000_5600];
    for b in masks {
        assert_eq!(white_passed_pawns(b, 0), b);
        assert_eq!(black_passed_pawns(b, 0), b);
    }
    // a black pawn on e5 blocks a white pawn on e4 and its neighbours
    let e4 = 1u64 << 28;
    let e5 = 1u64 << 36;
    let d4 = 1u64 << 27;
    let a4 = 1u64 << 24;
    assert_eq!(white_passed_pawns(e4 | d4 | a4, e5), a4);
}

#[test]
fn backward_pawn_example() {
    // a white pawn on e4 whose stop square e5 a black pawn on d6 attacks,
    // with no white pawn able to cover e5
    let e4 = 1u64 << 28;
    let d6 = 1u64 << 43;
    assert_eq!(white_backward(e4, d6), e4);
    // with a helper pawn on d3 the e-pawn is no longer backward
    let d3 = 1u64 << 19;
    assert_eq!(white_backward(e4 | d3, d6), 0);
    // the mirrored case for black
    let e5 = 1u64 << 36;
    let d3b = 1u64 << 19;
    assert_eq!(black_backward(e5, d3b), e5);
}

#[test]
fn king_attacks_shape() {
    // a corner king reaches three squares
    assert_eq!(king_attacks(1), (1u64 << 1) | (1u64 << 8) | (1u64 << 9));
    // a central king reaches eight
    for sq in 0..64u64 {
        let mask = 1u64 << sq;
        let attacks = king_attacks(mask);
        assert_eq!(attacks & mask, 0);
        assert!(count_squares(attacks) <= 8);
    }
    assert_eq!(count_squares(king_attacks(1 << 27)), 8);
}

#[test]
fn count_squares_matches_popcount() {
    assert_eq!(count_squares(0), 0);
    assert_eq!(count_squares(u64::MAX), 64);
    assert_eq!(count_squares(0x8000_0000_0000_0001), 2);
    for sq in 0..64u64 {
        assert_eq!(count_squares(1u64 << sq), 1);
    }
}

#[test]
fn rays_match_the_board_library() {
    for i in 0..64usize {
        let sq = chess::ALL_SQUARES[i];
        assert_eq!(knight_moves_from(i as u8), chess::get_knight_moves(sq).0);
        assert_eq!(rook_rays_from(i as u8), chess::get_rook_rays(sq).0);
        assert_eq!(bishop_rays_from(i as u8), chess::get_bishop_rays(sq).0);
    }
}
