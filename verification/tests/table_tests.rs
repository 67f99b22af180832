use pawngrade::constants::{attack_scale, outpost_bonus, passed_bonus, piece_value, pst};
use pawngrade::position::{first_square, flip_board, BoardFacts, GameStatus, PieceKind};
use pawngrade::utils::{blocked_bishop, distance, get_piece_type, mirror_square, sum_by_table};

fn empty_facts() -> BoardFacts {
    BoardFacts {
        white_pawns: 0,
        white_knights: 0,
        white_bishops: 0,
        white_rooks: 0,
        white_queens: 0,
        white_king: 0,
        black_pawns: 0,
        black_knights: 0,
        black_bishops: 0,
        black_rooks: 0,
        black_queens: 0,
        black_king: 0,
        white_to_move: true,
        status: GameStatus::Ongoing,
    }
}

#[test]
fn piece_values_by_phase() {
    assert_eq!(piece_value(PieceKind::Pawn, false), 100);
    assert_eq!(piece_value(PieceKind::Pawn, true), 120);
    assert_eq!(piece_value(PieceKind::Knight, false), 320);
    assert_eq!(piece_value(PieceKind::Bishop, true), 330);
    assert_eq!(piece_value(PieceKind::Rook, false), 500);
    assert_eq!(piece_value(PieceKind::Rook, true), 520);
    assert_eq!(piece_value(PieceKind::Queen, false), 975);
    assert_eq!(piece_value(PieceKind::King, false), 0);
}

#[test]
fn square_bonuses_examples() {
    // a pawn on e4 (square 28): its rank bonus plus the centre push bonus
    assert_eq!(pst(PieceKind::Pawn, false, 28), 20);
    // a knight in the corner is badly placed, one in the centre well
    assert_eq!(pst(PieceKind::Knight, false, 0), -40);
    assert_eq!(pst(PieceKind::Knight, false, 27), 20);
    // a rook on the seventh rank with a central file
    assert_eq!(pst(PieceKind::Rook, false, 51), 25);
    // the castled king in the middlegame, the centralised king in the endgame
    assert_eq!(pst(PieceKind::King, false, 6), 30);
    assert_eq!(pst(PieceKind::King, true, 27), 20);
}

#[test]
fn outpost_and_passed_tables() {
    // d5 (square 35) is a prime outpost square
    assert_eq!(outpost_bonus(35), 15);
    assert_eq!(outpost_bonus(32), 8);
    assert_eq!(outpost_bonus(0), 0);
    assert_eq!(passed_bonus(6, true), 150);
    assert_eq!(passed_bonus(6, false), 70);
    assert_eq!(passed_bonus(1, true), 20);
    assert_eq!(passed_bonus(0, false), 0);
    // the attack scaling grows with the number of attackers
    assert_eq!(attack_scale(0), 0);
    assert_eq!(attack_scale(1), 0);
    assert_eq!(attack_scale(2), 50);
    assert_eq!(attack_scale(7), 99);
    assert_eq!(attack_scale(12), 100);
    for n in 0..12 {
        assert!(attack_scale(n) <= attack_scale(n + 1));
    }
}

#[test]
fn square_arithmetic() {
    assert_eq!(mirror_square(0), 56);
    assert_eq!(mirror_square(12), 52);
    assert_eq!(mirror_square(63), 7);
    for sq in 0..64u8 {
        assert_eq!(mirror_square(mirror_square(sq)), sq);
    }
    assert_eq!(distance(0, 63), 7);
    assert_eq!(distance(27, 28), 1);
    assert_eq!(distance(27, 27), 0);
    assert_eq!(distance(12, 39), 3);
}

#[test]
fn board_flip_examples() {
    assert_eq!(flip_board(0xff), 0xff00_0000_0000_0000);
    assert_eq!(flip_board(1 << 12), 1 << 52);
    for sq in 0..64u8 {
        assert_eq!(flip_board(1u64 << sq), 1u64 << mirror_square(sq));
    }
    assert_eq!(first_square(0), 0);
    assert_eq!(first_square(1 << 37), 37);
    assert_eq!(first_square((1 << 37) | (1 << 5)), 5);
}

#[test]
fn table_sums_over_pieces() {
    // two knights: a corner one and a central one
    let knights = 1u64 | (1u64 << 27);
    assert_eq!(sum_by_table(knights, PieceKind::Knight, false, false), -40 + 20);
    // the mirror flag reads the board from black's side: a black knight
    // on d5 (square 35) scores like a white one on d4
    assert_eq!(
        sum_by_table(1u64 << 35, PieceKind::Knight, false, true),
        sum_by_table(1u64 << 27, PieceKind::Knight, false, false)
    );
    assert_eq!(sum_by_table(0, PieceKind::Queen, false, false), 0);
}

#[test]
fn blocked_bishop_pattern() {
    // a white bishop on c1 behind a d2 pawn that a d3 piece blocks
    let mut f = empty_facts();
    f.white_bishops = 1 << 2;
    f.white_pawns = 1 << 11;
    assert_eq!(blocked_bishop(&f, 2, 11, true), 0);
    f.black_knights = 1 << 19;
    assert_eq!(blocked_bishop(&f, 2, 11, true), -50);
    // without the bishop no penalty falls
    f.white_bishops = 0;
    assert_eq!(blocked_bishop(&f, 2, 11, true), 0);
}

#[test]
fn piece_type_selection() {
    let mut f = empty_facts();
    f.white_rooks = 0x81;
    f.black_rooks = 0x8100_0000_0000_0000;
    assert_eq!(get_piece_type(&f, PieceKind::Rook, true), 0x81);
    assert_eq!(get_piece_type(&f, PieceKind::Rook, false), 0x8100_0000_0000_0000);
    assert_eq!(get_piece_type(&f, PieceKind::Queen, true), 0);
}
