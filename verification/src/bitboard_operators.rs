//! Pure operators on 64-bit board masks.
//!
//! A bitboard is a `u64` with bit `i` standing for square `i`
//! (a1 = 0, h8 = 63; the file is `i % 8`, the rank is `i / 8`).
//! Every executable operator here has a specification twin that states
//! the exact bit formula it computes.

use vstd::prelude::*;

verus! {

/// Mask of every square not on the a-file.
pub const NOT_A_FILE: u64 = 0xfefe_fefe_fefe_fefe;
/// Mask of every square not on the h-file.
pub const NOT_H_FILE: u64 = 0x7f7f_7f7f_7f7f_7f7f;

/// Does bitboard `b` contain square `i`?
pub open spec fn has_sq(b: u64, i: u64) -> bool {
    i < 64 && (b >> i) & 1u64 == 1u64
}

/// Is every square of `a` also a square of `b`?
pub open spec fn subset_of(a: u64, b: u64) -> bool {
    a & b == a
}

/// Do `a` and `b` share no square?
pub open spec fn disjoint(a: u64, b: u64) -> bool {
    a & b == 0
}

/// Number of squares in `b`.
pub open spec fn popcount(b: u64) -> nat
    decreases b,
{
    if b == 0 {
        0
    } else {
        ((b & 1) as nat + popcount(b / 2)) as nat
    }
}

/// Counts the squares of a bitboard.
pub fn count_squares(b: u64) -> (r: u32)
    ensures
        r == popcount(b),
        r <= 64,
{
    proof {
        lemma_popcount_le_64(b);
    }
    let mut rest: u64 = b;
    let mut count: u32 = 0;
    let mut i: u32 = 0;
    while i < 64
        invariant
            i <= 64,
            count + popcount(rest) == popcount(b),
            popcount(b) <= 64,
            i == 0 || rest < (1u64 << (64 - i) as u64),
        decreases 64 - i,
    {
        proof {
            lemma_popcount_step(rest);
            assert(rest & 1 <= 1) by (bit_vector);
            assert(rest / 2 < (1u64 << 63u64)) by (bit_vector);
            assert(rest < (1u64 << (64 - i) as u64) && 1 <= i < 64 ==> rest / 2 < (1u64 << (64 - (i
                + 1)) as u64)) by (bit_vector);
        }
        count = count + (rest & 1) as u32;
        rest = rest / 2;
        i = i + 1;
    }
    proof {
        assert(rest < (1u64 << 0u64) ==> rest == 0) by (bit_vector);
    }
    count
}

proof fn lemma_popcount_step(b: u64)
    ensures
        popcount(b) == (b & 1) as nat + popcount(b / 2),
        popcount(b) <= 64,
{
    lemma_popcount_le_64(b);
    if b == 0 {
        assert(0u64 & 1 == 0) by (bit_vector);
        assert(0u64 / 2 == 0) by (bit_vector);
    } else {
        assert(b & 1 == (b % 2)) by (bit_vector);
    }
}

proof fn lemma_popcount_bound(b: u64, width: nat)
    requires
        b < (1u64 << (width as u64)) || width >= 64,
    ensures
        popcount(b) <= width,
    decreases width,
{
    if b == 0 {
    } else if width == 0 {
        assert(b < (1u64 << 0u64) ==> b == 0) by (bit_vector);
        assert(width >= 64 || b == 0);
        if width >= 64 {
        }
    } else {
        let w64: u64 = if width >= 64 { 64 } else { width as u64 };
        assert(b / 2 < (1u64 << ((w64 - 1) as u64)) || b / 2 >= (1u64 << ((w64 - 1) as u64)));
        assert(w64 >= 1 && (b < (1u64 << w64) || w64 == 64) ==> b / 2 < (1u64 << ((w64
            - 1) as u64))) by (bit_vector);
        lemma_popcount_bound(b / 2, (width - 1) as nat);
        assert(b & 1 <= 1) by (bit_vector);
        assert(popcount(b) == (b & 1) as nat + popcount(b / 2));
    }
}

proof fn lemma_popcount_le_64(b: u64)
    ensures
        popcount(b) <= 64,
{
    lemma_popcount_bound(b, 64);
}

pub open spec fn spec_east_one(b: u64) -> u64 {
    (b << 1) & NOT_A_FILE
}

pub open spec fn spec_west_one(b: u64) -> u64 {
    (b >> 1) & NOT_H_FILE
}

pub open spec fn spec_nort_one(b: u64) -> u64 {
    b << 8
}

pub open spec fn spec_sout_one(b: u64) -> u64 {
    b >> 8
}

pub open spec fn spec_north_east_one(b: u64) -> u64 {
    (b << 9) & NOT_A_FILE
}

pub open spec fn spec_north_west_one(b: u64) -> u64 {
    (b << 7) & NOT_H_FILE
}

pub open spec fn spec_south_east_one(b: u64) -> u64 {
    (b >> 7) & NOT_A_FILE
}

pub open spec fn spec_south_west_one(b: u64) -> u64 {
    (b >> 9) & NOT_H_FILE
}

/// One step east, dropping pawns that would wrap off the h-file.
pub fn east_one(b: u64) -> (r: u64)
    ensures
        r == spec_east_one(b),
{
    (b << 1) & NOT_A_FILE
}

/// One step west.
pub fn west_one(b: u64) -> (r: u64)
    ensures
        r == spec_west_one(b),
{
    (b >> 1) & NOT_H_FILE
}

/// One step north (toward rank 8).
pub fn nort_one(b: u64) -> (r: u64)
    ensures
        r == spec_nort_one(b),
{
    b << 8
}

/// One step south (toward rank 1).
pub fn sout_one(b: u64) -> (r: u64)
    ensures
        r == spec_sout_one(b),
{
    b >> 8
}

/// One step toward the north east.
pub fn north_east_one(b: u64) -> (r: u64)
    ensures
        r == spec_north_east_one(b),
{
    (b << 9) & NOT_A_FILE
}

/// One step toward the north west.
pub fn north_west_one(b: u64) -> (r: u64)
    ensures
        r == spec_north_west_one(b),
{
    (b << 7) & NOT_H_FILE
}

/// One step toward the south east.
pub fn south_east_one(b: u64) -> (r: u64)
    ensures
        r == spec_south_east_one(b),
{
    (b >> 7) & NOT_A_FILE
}

/// One step toward the south west.
pub fn south_west_one(b: u64) -> (r: u64)
    ensures
        r == spec_south_west_one(b),
{
    (b >> 9) & NOT_H_FILE
}

/// All squares at or north of any set square, by OR-propagation.
pub open spec fn spec_nort_fill(b: u64) -> u64 {
    (b | (b << 8) | ((b | (b << 8)) << 16)) | (((b | (b << 8)) | ((b | (b << 8)) << 16)) << 32)
}

/// All squares at or south of any set square.
pub open spec fn spec_sout_fill(b: u64) -> u64 {
    (b | (b >> 8) | ((b | (b >> 8)) >> 16)) | (((b | (b >> 8)) | ((b | (b >> 8)) >> 16)) >> 32)
}

pub open spec fn spec_file_fill(b: u64) -> u64 {
    spec_nort_fill(b) | spec_sout_fill(b)
}

/// Every square at or north of a square of `gen`, on the same file.
pub fn nort_fill(gen: u64) -> (r: u64)
    ensures
        r == spec_nort_fill(gen),
{
    let mut val: u64 = gen;
    val = val | (val << 8);
    val = val | (val << 16);
    val = val | (val << 32);
    val
}

/// Every square at or south of a square of `gen`, on the same file.
pub fn sout_fill(gen: u64) -> (r: u64)
    ensures
        r == spec_sout_fill(gen),
{
    let mut val: u64 = gen;
    val = val | (val >> 8);
    val = val | (val >> 16);
    val = val | (val >> 32);
    val
}

/// Every square on a file that holds at least one square of `gen`.
pub fn file_fill(gen: u64) -> (r: u64)
    ensures
        r == spec_file_fill(gen),
{
    nort_fill(gen) | sout_fill(gen)
}

pub open spec fn spec_half_open_files(own: u64) -> u64 {
    !spec_file_fill(own)
}

pub open spec fn spec_open_files(wpawns: u64, bpawns: u64) -> u64 {
    !spec_file_fill(wpawns) & !spec_file_fill(bpawns)
}

pub open spec fn spec_closed_files(wpawns: u64, bpawns: u64) -> u64 {
    spec_file_fill(wpawns) & spec_file_fill(bpawns)
}

/// Files without a pawn of the given side.
pub fn half_open_files(gen: u64) -> (r: u64)
    ensures
        r == spec_half_open_files(gen),
{
    !file_fill(gen)
}

/// Files without a pawn of either side.
pub fn open_files(wpawns: u64, bpawns: u64) -> (r: u64)
    ensures
        r == spec_open_files(wpawns, bpawns),
{
    !file_fill(wpawns) & !file_fill(bpawns)
}

/// Files with a pawn of each side.
pub fn closed_files(wpawns: u64, bpawns: u64) -> (r: u64)
    ensures
        r == spec_closed_files(wpawns, bpawns),
{
    file_fill(wpawns) & file_fill(bpawns)
}

pub open spec fn spec_east_attack_file_fill(pawns: u64) -> u64 {
    spec_east_one(spec_file_fill(pawns))
}

pub open spec fn spec_west_attack_file_fill(pawns: u64) -> u64 {
    spec_west_one(spec_file_fill(pawns))
}

/// The file fill shifted one file east: files a pawn could attack eastward.
pub fn east_attack_file_fill(pawns: u64) -> (r: u64)
    ensures
        r == spec_east_attack_file_fill(pawns),
{
    east_one(file_fill(pawns))
}

/// The file fill shifted one file west.
pub fn west_attack_file_fill(pawns: u64) -> (r: u64)
    ensures
        r == spec_west_attack_file_fill(pawns),
{
    west_one(file_fill(pawns))
}

pub open spec fn spec_white_front_spans(wpawns: u64) -> u64 {
    spec_nort_one(spec_nort_fill(wpawns))
}

pub open spec fn spec_black_front_spans(bpawns: u64) -> u64 {
    spec_sout_one(spec_sout_fill(bpawns))
}

pub open spec fn spec_white_rear_spans(wpawns: u64) -> u64 {
    spec_sout_one(spec_sout_fill(wpawns))
}

pub open spec fn spec_black_rear_spans(bpawns: u64) -> u64 {
    spec_nort_one(spec_nort_fill(bpawns))
}

/// Squares strictly north of each white pawn, on its file.
pub fn white_front_spans(wpawns: u64) -> (r: u64)
    ensures
        r == spec_white_front_spans(wpawns),
{
    nort_one(nort_fill(wpawns))
}

/// Squares strictly north of each black pawn, on its file.
pub fn black_rear_spans(bpawns: u64) -> (r: u64)
    ensures
        r == spec_black_rear_spans(bpawns),
{
    nort_one(nort_fill(bpawns))
}

/// Squares strictly south of each black pawn, on its file.
pub fn black_front_spans(bpawns: u64) -> (r: u64)
    ensures
        r == spec_black_front_spans(bpawns),
{
    sout_one(sout_fill(bpawns))
}

/// Squares strictly south of each white pawn, on its file.
pub fn white_rear_spans(wpawns: u64) -> (r: u64)
    ensures
        r == spec_white_rear_spans(wpawns),
{
    sout_one(sout_fill(wpawns))
}

pub open spec fn spec_white_pawn_east_attacks(wpawns: u64) -> u64 {
    spec_north_east_one(wpawns)
}

pub open spec fn spec_white_pawn_west_attacks(wpawns: u64) -> u64 {
    spec_north_west_one(wpawns)
}

pub open spec fn spec_black_pawn_east_attacks(bpawns: u64) -> u64 {
    spec_south_east_one(bpawns)
}

pub open spec fn spec_black_pawn_west_attacks(bpawns: u64) -> u64 {
    spec_south_west_one(bpawns)
}

pub open spec fn spec_white_pawn_any_attacks(wpawns: u64) -> u64 {
    spec_white_pawn_east_attacks(wpawns) | spec_white_pawn_west_attacks(wpawns)
}

pub open spec fn spec_black_pawn_any_attacks(bpawns: u64) -> u64 {
    spec_black_pawn_east_attacks(bpawns) | spec_black_pawn_west_attacks(bpawns)
}

/// Squares attacked eastward by white pawns.
pub fn white_pawn_east_attacks(wpawns: u64) -> (r: u64)
    ensures
        r == spec_white_pawn_east_attacks(wpawns),
{
    north_east_one(wpawns)
}

/// Squares attacked westward by white pawns.
pub fn white_pawn_west_attacks(wpawns: u64) -> (r: u64)
    ensures
        r == spec_white_pawn_west_attacks(wpawns),
{
    north_west_one(wpawns)
}

/// Squares attacked eastward by black pawns.
pub fn black_pawn_east_attacks(bpawns: u64) -> (r: u64)
    ensures
        r == spec_black_pawn_east_attacks(bpawns),
{
    south_east_one(bpawns)
}

/// Squares attacked westward by black pawns.
pub fn black_pawn_west_attacks(bpawns: u64) -> (r: u64)
    ensures
        r == spec_black_pawn_west_attacks(bpawns),
{
    south_west_one(bpawns)
}

/// Every square attacked by a white pawn.
pub fn white_pawn_any_attacks(wpawns: u64) -> (r: u64)
    ensures
        r == spec_white_pawn_any_attacks(wpawns),
{
    white_pawn_east_attacks(wpawns) | white_pawn_west_attacks(wpawns)
}

/// Every square attacked by a black pawn.
pub fn black_pawn_any_attacks(bpawns: u64) -> (r: u64)
    ensures
        r == spec_black_pawn_any_attacks(bpawns),
{
    black_pawn_east_attacks(bpawns) | black_pawn_west_attacks(bpawns)
}

pub open spec fn spec_white_pawns_behind_own(wpawns: u64) -> u64 {
    wpawns & spec_white_rear_spans(wpawns)
}

pub open spec fn spec_white_pawns_infront_own(wpawns: u64) -> u64 {
    wpawns & spec_white_front_spans(wpawns)
}

pub open spec fn spec_black_pawns_behind_own(bpawns: u64) -> u64 {
    bpawns & spec_black_rear_spans(bpawns)
}

pub open spec fn spec_black_pawns_infront_own(bpawns: u64) -> u64 {
    bpawns & spec_black_front_spans(bpawns)
}

/// White pawns with at least one own pawn in front on the same file (doubled).
pub fn white_pawns_behind_own(wpawns: u64) -> (r: u64)
    ensures
        r == spec_white_pawns_behind_own(wpawns),
{
    wpawns & white_rear_spans(wpawns)
}

/// White pawns with at least one own pawn behind on the same file.
pub fn white_pawns_infront_own(wpawns: u64) -> (r: u64)
    ensures
        r == spec_white_pawns_infront_own(wpawns),
{
    wpawns & white_front_spans(wpawns)
}

/// Black pawns with at least one own pawn in front on the same file (doubled).
pub fn black_pawns_behind_own(bpawns: u64) -> (r: u64)
    ensures
        r == spec_black_pawns_behind_own(bpawns),
{
    bpawns & black_rear_spans(bpawns)
}

/// Black pawns with at least one own pawn behind on the same file.
pub fn black_pawns_infront_own(bpawns: u64) -> (r: u64)
    ensures
        r == spec_black_pawns_infront_own(bpawns),
{
    bpawns & black_front_spans(bpawns)
}

pub open spec fn spec_no_neighbor_on_east_file(pawns: u64) -> u64 {
    pawns & !spec_west_attack_file_fill(pawns)
}

pub open spec fn spec_no_neighbor_on_west_file(pawns: u64) -> u64 {
    pawns & !spec_east_attack_file_fill(pawns)
}

pub open spec fn spec_isolanis(pawns: u64) -> u64 {
    spec_no_neighbor_on_east_file(pawns) & spec_no_neighbor_on_west_file(pawns)
}

pub open spec fn spec_half_isolanis(pawns: u64) -> u64 {
    spec_no_neighbor_on_east_file(pawns) ^ spec_no_neighbor_on_west_file(pawns)
}

/// Pawns with no own pawn on the adjacent file to their east.
pub fn no_neighbor_on_east_file(pawns: u64) -> (r: u64)
    ensures
        r == spec_no_neighbor_on_east_file(pawns),
{
    pawns & !west_attack_file_fill(pawns)
}

/// Pawns with no own pawn on the adjacent file to their west.
pub fn no_neighbor_on_west_file(pawns: u64) -> (r: u64)
    ensures
        r == spec_no_neighbor_on_west_file(pawns),
{
    pawns & !east_attack_file_fill(pawns)
}

/// Pawns with no own pawn on either adjacent file (isolated).
pub fn isolanis(pawns: u64) -> (r: u64)
    ensures
        r == spec_isolanis(pawns),
{
    no_neighbor_on_east_file(pawns) & no_neighbor_on_west_file(pawns)
}

/// Pawns with an own pawn on exactly one adjacent file.
pub fn half_isolanis(pawns: u64) -> (r: u64)
    ensures
        r == spec_half_isolanis(pawns),
{
    no_neighbor_on_east_file(pawns) ^ no_neighbor_on_west_file(pawns)
}

pub open spec fn spec_white_backward(wpawns: u64, bpawns: u64) -> u64 {
    ((wpawns << 8) & spec_black_pawn_any_attacks(bpawns) & !spec_file_fill(
        spec_white_pawn_any_attacks(wpawns),
    )) >> 8
}

pub open spec fn spec_black_backward(bpawns: u64, wpawns: u64) -> u64 {
    ((bpawns >> 8) & spec_white_pawn_any_attacks(wpawns) & !spec_file_fill(
        spec_black_pawn_any_attacks(bpawns),
    )) << 8
}

/// White pawns whose stop square is attacked by a black pawn and covered by
/// no white pawn attack on any rank (backward pawns).
pub fn white_backward(wpawns: u64, bpawns: u64) -> (r: u64)
    ensures
        r == spec_white_backward(wpawns, bpawns),
{
    let stops: u64 = wpawns << 8;
    let white_attack_spans = file_fill(white_pawn_any_attacks(wpawns));
    let black_attacks = black_pawn_any_attacks(bpawns);
    (stops & black_attacks & !white_attack_spans) >> 8
}

/// The mirror of `white_backward` for black pawns.
pub fn black_backward(bpawns: u64, wpawns: u64) -> (r: u64)
    ensures
        r == spec_black_backward(bpawns, wpawns),
{
    let stops: u64 = bpawns >> 8;
    let black_attack_spans = file_fill(black_pawn_any_attacks(bpawns));
    let white_attacks = white_pawn_any_attacks(wpawns);
    (stops & white_attacks & !black_attack_spans) << 8
}

pub open spec fn spec_king_attacks(king_set: u64) -> u64 {
    spec_east_one(king_set) | spec_west_one(king_set) | spec_nort_one(
        king_set | spec_east_one(king_set) | spec_west_one(king_set),
    ) | spec_sout_one(king_set | spec_east_one(king_set) | spec_west_one(king_set))
}

/// The one-step attack set of the king squares in `king_set`.
pub fn king_attacks(king_set: u64) -> (r: u64)
    ensures
        r == spec_king_attacks(king_set),
{
    let east = east_one(king_set);
    let west = west_one(king_set);
    let expanded = king_set | east | west;
    east | west | nort_one(expanded) | sout_one(expanded)
}

pub open spec fn spec_white_passed_pawns(wpawns: u64, bpawns: u64) -> u64 {
    wpawns & !(spec_black_front_spans(bpawns) | spec_east_one(spec_black_front_spans(bpawns))
        | spec_west_one(spec_black_front_spans(bpawns)))
}

pub open spec fn spec_black_passed_pawns(bpawns: u64, wpawns: u64) -> u64 {
    bpawns & !(spec_white_front_spans(wpawns) | spec_east_one(spec_white_front_spans(wpawns))
        | spec_west_one(spec_white_front_spans(wpawns)))
}

/// White pawns with no black pawn ahead on their own or an adjacent file.
pub fn white_passed_pawns(wpawns: u64, bpawns: u64) -> (r: u64)
    ensures
        r == spec_white_passed_pawns(wpawns, bpawns),
{
    let mut all_front_spans = black_front_spans(bpawns);
    all_front_spans = all_front_spans | east_one(all_front_spans) | west_one(all_front_spans);
    wpawns & !all_front_spans
}

/// Black pawns with no white pawn ahead on their own or an adjacent file.
pub fn black_passed_pawns(bpawns: u64, wpawns: u64) -> (r: u64)
    ensures
        r == spec_black_passed_pawns(bpawns, wpawns),
{
    let mut all_front_spans = white_front_spans(wpawns);
    all_front_spans = all_front_spans | east_one(all_front_spans) | west_one(all_front_spans);
    bpawns & !all_front_spans
}

/// With no opposing pawns at all, every pawn counts as passed.
pub proof fn lemma_no_opposition_all_passed(b: u64)
    ensures
        spec_white_passed_pawns(b, 0) == b,
        spec_black_passed_pawns(b, 0) == b,
{
    assert(spec_white_passed_pawns(b, 0) == b) by (bit_vector);
    assert(spec_black_passed_pawns(b, 0) == b) by (bit_vector);
}

/// Doubled pawns are a subset of the pawns themselves, and empty for an
/// empty board.
pub proof fn lemma_doubled_pawns_subset(b: u64)
    ensures
        subset_of(spec_white_pawns_behind_own(b), b),
        subset_of(spec_black_pawns_behind_own(b), b),
        b == 0 ==> spec_white_pawns_behind_own(b) == 0 && spec_black_pawns_behind_own(b) == 0,
{
    assert(subset_of(spec_white_pawns_behind_own(b), b) && (b == 0
        ==> spec_white_pawns_behind_own(b) == 0)) by (bit_vector);
    assert(subset_of(spec_black_pawns_behind_own(b), b) && (b == 0
        ==> spec_black_pawns_behind_own(b) == 0)) by (bit_vector);
}

/// Isolated pawns are a subset of the pawns themselves, and empty for an
/// empty board.
pub proof fn lemma_isolated_pawns_subset(b: u64)
    ensures
        subset_of(spec_isolanis(b), b),
        b == 0 ==> spec_isolanis(b) == 0,
{
    assert(subset_of(spec_isolanis(b), b) && (b == 0 ==> spec_isolanis(b) == 0)) by (bit_vector);
}

/// A king's attack set never contains its own square and holds at most
/// eight squares.
pub proof fn lemma_king_attacks_bounds(s: u64)
    requires
        s < 64,
    ensures
        disjoint(spec_king_attacks(1u64 << s), 1u64 << s),
        popcount(spec_king_attacks(1u64 << s)) <= 8,
{
    let k = 1u64 << s;
    assert(spec_king_attacks(1u64 << s) & (1u64 << s) == 0) by (bit_vector)
        requires
            s < 64,
    ;
    // The attack set splits into eight one-step shifts of the king square,
    // each of which is either empty or a single square again.
    assert(spec_king_attacks(1u64 << s) == spec_east_one(1u64 << s) | spec_west_one(1u64 << s)
        | spec_nort_one(1u64 << s) | spec_sout_one(1u64 << s) | spec_north_east_one(1u64 << s)
        | spec_north_west_one(1u64 << s) | spec_south_east_one(1u64 << s) | spec_south_west_one(
        1u64 << s,
    )) by (bit_vector)
        requires
            s < 64,
    ;
    lemma_shift_of_single_square(s);
    let t1 = spec_east_one(k);
    let t2 = spec_west_one(k);
    let t3 = spec_nort_one(k);
    let t4 = spec_sout_one(k);
    let t5 = spec_north_east_one(k);
    let t6 = spec_north_west_one(k);
    let t7 = spec_south_east_one(k);
    let t8 = spec_south_west_one(k);
    lemma_popcount_or(t1, t2);
    lemma_popcount_or(t1 | t2, t3);
    lemma_popcount_or(t1 | t2 | t3, t4);
    lemma_popcount_or(t1 | t2 | t3 | t4, t5);
    lemma_popcount_or(t1 | t2 | t3 | t4 | t5, t6);
    lemma_popcount_or(t1 | t2 | t3 | t4 | t5 | t6, t7);
    lemma_popcount_or(t1 | t2 | t3 | t4 | t5 | t6 | t7, t8);
}

/// The eight one-step shifts of a single square each hold at most one square.
proof fn lemma_shift_of_single_square(s: u64)
    requires
        s < 64,
    ensures
        popcount(spec_east_one(1u64 << s)) <= 1,
        popcount(spec_west_one(1u64 << s)) <= 1,
        popcount(spec_nort_one(1u64 << s)) <= 1,
        popcount(spec_sout_one(1u64 << s)) <= 1,
        popcount(spec_north_east_one(1u64 << s)) <= 1,
        popcount(spec_north_west_one(1u64 << s)) <= 1,
        popcount(spec_south_east_one(1u64 << s)) <= 1,
        popcount(spec_south_west_one(1u64 << s)) <= 1,
{
    assert(spec_east_one(1u64 << s) & (((spec_east_one(1u64 << s)) - 1) as u64) == 0
        && spec_west_one(1u64 << s) & (((spec_west_one(1u64 << s)) - 1) as u64) == 0
        && spec_nort_one(1u64 << s) & (((spec_nort_one(1u64 << s)) - 1) as u64) == 0
        && spec_sout_one(1u64 << s) & (((spec_sout_one(1u64 << s)) - 1) as u64) == 0) by (bit_vector)
        requires
            s < 64,
    ;
    assert(spec_north_east_one(1u64 << s) & (((spec_north_east_one(1u64 << s)) - 1) as u64) == 0
        && spec_north_west_one(1u64 << s) & (((spec_north_west_one(1u64 << s)) - 1) as u64) == 0
        && spec_south_east_one(1u64 << s) & (((spec_south_east_one(1u64 << s)) - 1) as u64) == 0
        && spec_south_west_one(1u64 << s) & (((spec_south_west_one(1u64 << s)) - 1) as u64) == 0)
        by (bit_vector)
        requires
            s < 64,
    ;
    let k = 1u64 << s;
    lemma_single_or_empty_popcount(spec_east_one(k));
    lemma_single_or_empty_popcount(spec_west_one(k));
    lemma_single_or_empty_popcount(spec_nort_one(k));
    lemma_single_or_empty_popcount(spec_sout_one(k));
    lemma_single_or_empty_popcount(spec_north_east_one(k));
    lemma_single_or_empty_popcount(spec_north_west_one(k));
    lemma_single_or_empty_popcount(spec_south_east_one(k));
    lemma_single_or_empty_popcount(spec_south_west_one(k));
}

/// A mask with `m & (m - 1) == 0` holds at most one square.
proof fn lemma_single_or_empty_popcount(m: u64)
    requires
        m & ((m - 1) as u64) == 0,
    ensures
        popcount(m) <= 1,
    decreases m,
{
    if m == 0 {
    } else if m == 1 {
        assert(popcount(1u64) == (1u64 & 1) as nat + popcount(1u64 / 2));
        assert(1u64 & 1 == 1 && 1u64 / 2 == 0) by (bit_vector);
    } else {
        assert(m > 1 && m & ((m - 1) as u64) == 0 ==> (m & 1 == 0) && (m / 2) & (((m / 2) - 1) as u64) == 0 && m / 2
            < m) by (bit_vector);
        lemma_single_or_empty_popcount(m / 2);
    }
}

/// The empty bitboard holds no square.
pub proof fn lemma_empty_has_no_sq()
    by (bit_vector)
    ensures
        forall|i: u64| #[trigger] ((0u64 >> i) & 1u64) == 0u64,
{
}

/// Mask of every square not on the a- or b-file.
pub const NOT_AB_FILE: u64 = 0xfcfc_fcfc_fcfc_fcfc;

/// Mask of every square not on the g- or h-file.
pub const NOT_GH_FILE: u64 = 0x3f3f_3f3f_3f3f_3f3f;

/// The knight attack set of square `sq`.
pub open spec fn spec_knight_moves_from(sq: u64) -> u64 {
    let b = 1u64 << sq;
    ((b << 17) & NOT_A_FILE) | ((b << 15) & NOT_H_FILE) | ((b << 10) & NOT_AB_FILE) | ((b << 6)
        & NOT_GH_FILE) | ((b >> 6) & NOT_AB_FILE) | ((b >> 10) & NOT_GH_FILE) | ((b >> 15)
        & NOT_A_FILE) | ((b >> 17) & NOT_H_FILE)
}

/// The knight attack set of square `sq`.
pub fn knight_moves_from(sq: u8) -> (r: u64)
    requires
        sq < 64,
    ensures
        r == spec_knight_moves_from(sq as u64),
{
    let b: u64 = 1u64 << (sq as u64);
    ((b << 17) & NOT_A_FILE) | ((b << 15) & NOT_H_FILE) | ((b << 10) & NOT_AB_FILE) | ((b << 6)
        & NOT_GH_FILE) | ((b >> 6) & NOT_AB_FILE) | ((b >> 10) & NOT_GH_FILE) | ((b >> 15)
        & NOT_A_FILE) | ((b >> 17) & NOT_H_FILE)
}

/// The full rank and file through square `sq`, without the square itself:
/// the squares a rook could reach on an empty board.
pub open spec fn spec_rook_rays_from(sq: u64) -> u64 {
    ((0xffu64 << (8 * (sq / 8))) | (0x0101_0101_0101_0101u64 << (sq % 8))) ^ (1u64 << sq)
}

/// The squares a rook on `sq` could reach on an empty board.
pub fn rook_rays_from(sq: u8) -> (r: u64)
    requires
        sq < 64,
    ensures
        r == spec_rook_rays_from(sq as u64),
{
    let s: u64 = sq as u64;
    ((0xffu64 << (8 * (s / 8))) | (0x0101_0101_0101_0101u64 << (s % 8))) ^ (1u64 << s)
}

/// Seven one-step strides toward the north east.
pub open spec fn spec_ray_north_east(b: u64) -> u64 {
    let s1 = spec_north_east_one(b);
    let s2 = spec_north_east_one(s1);
    let s3 = spec_north_east_one(s2);
    let s4 = spec_north_east_one(s3);
    let s5 = spec_north_east_one(s4);
    let s6 = spec_north_east_one(s5);
    let s7 = spec_north_east_one(s6);
    s1 | s2 | s3 | s4 | s5 | s6 | s7
}

/// Seven one-step strides toward the north west.
pub open spec fn spec_ray_north_west(b: u64) -> u64 {
    let s1 = spec_north_west_one(b);
    let s2 = spec_north_west_one(s1);
    let s3 = spec_north_west_one(s2);
    let s4 = spec_north_west_one(s3);
    let s5 = spec_north_west_one(s4);
    let s6 = spec_north_west_one(s5);
    let s7 = spec_north_west_one(s6);
    s1 | s2 | s3 | s4 | s5 | s6 | s7
}

/// Seven one-step strides toward the south east.
pub open spec fn spec_ray_south_east(b: u64) -> u64 {
    let s1 = spec_south_east_one(b);
    let s2 = spec_south_east_one(s1);
    let s3 = spec_south_east_one(s2);
    let s4 = spec_south_east_one(s3);
    let s5 = spec_south_east_one(s4);
    let s6 = spec_south_east_one(s5);
    let s7 = spec_south_east_one(s6);
    s1 | s2 | s3 | s4 | s5 | s6 | s7
}

/// Seven one-step strides toward the south west.
pub open spec fn spec_ray_south_west(b: u64) -> u64 {
    let s1 = spec_south_west_one(b);
    let s2 = spec_south_west_one(s1);
    let s3 = spec_south_west_one(s2);
    let s4 = spec_south_west_one(s3);
    let s5 = spec_south_west_one(s4);
    let s6 = spec_south_west_one(s5);
    let s7 = spec_south_west_one(s6);
    s1 | s2 | s3 | s4 | s5 | s6 | s7
}

/// The four full diagonals through square `sq`, without the square itself:
/// the squares a bishop could reach on an empty board.
pub open spec fn spec_bishop_rays_from(sq: u64) -> u64 {
    let b = 1u64 << sq;
    spec_ray_north_east(b) | spec_ray_north_west(b) | spec_ray_south_east(b) | spec_ray_south_west(
        b,
    )
}

fn ray_north_east(b: u64) -> (r: u64)
    ensures
        r == spec_ray_north_east(b),
{
    let s1 = north_east_one(b);
    let s2 = north_east_one(s1);
    let s3 = north_east_one(s2);
    let s4 = north_east_one(s3);
    let s5 = north_east_one(s4);
    let s6 = north_east_one(s5);
    let s7 = north_east_one(s6);
    s1 | s2 | s3 | s4 | s5 | s6 | s7
}

fn ray_north_west(b: u64) -> (r: u64)
    ensures
        r == spec_ray_north_west(b),
{
    let s1 = north_west_one(b);
    let s2 = north_west_one(s1);
    let s3 = north_west_one(s2);
    let s4 = north_west_one(s3);
    let s5 = north_west_one(s4);
    let s6 = north_west_one(s5);
    let s7 = north_west_one(s6);
    s1 | s2 | s3 | s4 | s5 | s6 | s7
}

fn ray_south_east(b: u64) -> (r: u64)
    ensures
        r == spec_ray_south_east(b),
{
    let s1 = south_east_one(b);
    let s2 = south_east_one(s1);
    let s3 = south_east_one(s2);
    let s4 = south_east_one(s3);
    let s5 = south_east_one(s4);
    let s6 = south_east_one(s5);
    let s7 = south_east_one(s6);
    s1 | s2 | s3 | s4 | s5 | s6 | s7
}

fn ray_south_west(b: u64) -> (r: u64)
    ensures
        r == spec_ray_south_west(b),
{
    let s1 = south_west_one(b);
    let s2 = south_west_one(s1);
    let s3 = south_west_one(s2);
    let s4 = south_west_one(s3);
    let s5 = south_west_one(s4);
    let s6 = south_west_one(s5);
    let s7 = south_west_one(s6);
    s1 | s2 | s3 | s4 | s5 | s6 | s7
}

/// The squares a bishop on `sq` could reach on an empty board.
pub fn bishop_rays_from(sq: u8) -> (r: u64)
    requires
        sq < 64,
    ensures
        r == spec_bishop_rays_from(sq as u64),
{
    let b: u64 = 1u64 << (sq as u64);
    ray_north_east(b) | ray_north_west(b) | ray_south_east(b) | ray_south_west(b)
}

/// Union never holds more squares than its parts together.
pub proof fn lemma_popcount_or(a: u64, b: u64)
    ensures
        popcount(a | b) <= popcount(a) + popcount(b),
    decreases a, b,
{
    if a == 0 && b == 0 {
        assert(0u64 | 0u64 == 0) by (bit_vector);
    } else {
        assert((a | b) / 2 == (a / 2) | (b / 2)) by (bit_vector);
        assert(((a | b) & 1) as nat <= (a & 1) as nat + (b & 1) as nat) by (bit_vector);
        assert(a != 0 || b != 0 ==> (a / 2 < a || a == 0) && (b / 2 < b || b == 0)) by (bit_vector);
        if a == 0 {
            assert(0u64 / 2 == 0) by (bit_vector);
            lemma_popcount_or(a, b / 2);
            lemma_popcount_step(a | b);
            lemma_popcount_step(a);
            lemma_popcount_step(b);
        } else if b == 0 {
            assert(0u64 / 2 == 0) by (bit_vector);
            lemma_popcount_or(a / 2, b);
            lemma_popcount_step(a | b);
            lemma_popcount_step(a);
            lemma_popcount_step(b);
        } else {
            lemma_popcount_or(a / 2, b / 2);
            lemma_popcount_step(a | b);
            lemma_popcount_step(a);
            lemma_popcount_step(b);
        }
    }
}

} // verus!
