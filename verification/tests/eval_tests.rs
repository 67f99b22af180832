use std::str::FromStr;

use pawngrade::boardlib::extract_facts;
use pawngrade::evaluation::{
    evaluate, evaluate_pawn_structure, flip_side, is_endgame, material_balance,
};
use pawngrade::position::{BoardFacts, GameStatus};

fn facts_of(fen: &str) -> BoardFacts {
    let board = chess::Board::from_str(fen).expect("position");
    extract_facts(&board)
}

#[test]
fn startpos_evaluates_to_zero() {
    let facts = facts_of("rnbqkbnr/pppppppp/8/8/8/8/PPPPPPPP/RNBQKBNR w KQkq - 0 1");
    assert_eq!(facts.status, GameStatus::Ongoing);
    assert!(facts.white_to_move);
    assert_eq!(evaluate(&facts), 0);
}

#[test]
fn evaluation_is_deterministic() {
    let facts = facts_of("rn1qkb1r/ppp1pppp/8/3p1bB1/3Pn3/3Q1N2/PPP1PPPP/RN2KB1R w KQkq - 4 5");
    assert_eq!(evaluate(&facts), evaluate(&facts));
}

#[test]
fn handing_over_the_move_negates_the_score() {
    // positions with king-safety, storm and blocked-piece terms in play
    let fens = [
        "rnbqkb1r/ppp1pppp/3p1n2/8/8/3P4/PPP1PPPP/RNBQKBNR b KQkq - 1 3",
        "rn1qkb1r/ppp1pppp/8/3p1bB1/3Pn3/3Q1N2/PPP1PPPP/RN2KB1R w KQkq - 4 5",
        "1k6/1P5Q/8/7B/8/5K2/8/8 w - - 0 1",
        "6k1/1p3ppp/4b3/2p4q/8/P2Pp1QP/2P3PK/8 w - - 0 26",
        "1kr5/8/8/8/8/8/8/1KR5 w - - 0 1",
    ];
    for fen in fens {
        let facts = facts_of(fen);
        let flipped = flip_side(&facts);
        assert_eq!(evaluate(&facts) + evaluate(&flipped), 0, "asymmetric at {}", fen);
    }
}

#[test]
fn endgame_flag_follows_the_material() {
    assert!(!is_endgame(&facts_of(
        "rnbqkbnr/pppppppp/8/8/8/8/PPPPPPPP/RNBQKBNR w KQkq - 0 1"
    )));
    assert!(is_endgame(&facts_of("8/p3k3/Pp4p1/1P4P1/4K3/8/8/8 w - - 0 1")));
    assert!(is_endgame(&facts_of("8/4k3/8/8/R7/8/4K3/8 w - - 0 1")));
    // two rooks and a knight are one piece too many
    assert!(!is_endgame(&facts_of("8/4k3/8/8/1n6/8/R3K2R/8 w - - 0 1")));
}

#[test]
fn material_balance_counts_middlegame_values() {
    assert_eq!(
        material_balance(&facts_of("rnbqkbnr/pppppppp/8/8/8/8/PPPPPPPP/RNBQKBNR w KQkq - 0 1")),
        0
    );
    // white is a pawn up; the balance flips sign with the mover
    assert_eq!(material_balance(&facts_of("8/4k3/8/8/8/8/P3K3/8 w - - 0 1")), 100);
    assert_eq!(material_balance(&facts_of("8/4k3/8/8/8/8/P3K3/8 b - - 0 1")), -100);
    // a queen against a rook
    assert_eq!(material_balance(&facts_of("3qk3/8/8/8/8/8/8/3RK3 w - - 0 1")), 500 - 975);
}

#[test]
fn pawn_structure_of_empty_boards_is_zero() {
    assert_eq!(evaluate_pawn_structure(0, 0, false), 0);
    assert_eq!(evaluate_pawn_structure(0, 0, true), 0);
}

#[test]
fn pawn_structure_of_a_lone_pawn() {
    // a single white pawn on e2: isolated, but passed on its second rank
    let e2 = 1u64 << 12;
    assert_eq!(evaluate_pawn_structure(0, e2, false), -15 + 10);
    assert_eq!(evaluate_pawn_structure(0, e2, true), -25 + 20);
    // the mirrored black pawn on e7 scores the opposite
    let e7 = 1u64 << 52;
    assert_eq!(evaluate_pawn_structure(e7, 0, false), 15 - 10);
    assert_eq!(evaluate_pawn_structure(e7, 0, true), 25 - 20);
}

#[test]
fn pawn_structure_counts_doubled_pawns() {
    // white pawns a2 and a4 against black pawns a7 and h7: the doubled
    // white a-pawn costs the doubled penalty; black's pawns are clean
    let white = (1u64 << 8) | (1u64 << 24);
    let black = (1u64 << 48) | (1u64 << 55);
    let balanced = evaluate_pawn_structure(black, white, false);
    let without_doubling = evaluate_pawn_structure(black, (1u64 << 8) | (1u64 << 25), false);
    assert!(balanced < without_doubling);
}

#[test]
fn mate_and_stalemate_scores() {
    // fool's mate: the mover is mated
    let mated = facts_of("rnb1kbnr/pppp1ppp/8/4p3/6Pq/5P2/PPPPP2P/RNBQKBNR w KQkq - 1 3");
    assert_eq!(mated.status, GameStatus::Checkmate);
    assert_eq!(evaluate(&mated), -9999);
    let stale = facts_of("7k/5Q2/6K1/8/8/8/8/8 b - - 0 1");
    assert_eq!(stale.status, GameStatus::Stalemate);
    assert_eq!(evaluate(&stale), 0);
}

#[test]
fn colour_mirror_preserves_the_score() {
    // swapping the colours and the mover leaves the mover looking at the
    // same position, so the score is unchanged; this exercises the
    // blocked-piece and king-safety terms too
    let fens = [
        "rnbqkbnr/pppppppp/8/8/8/8/PPPPPPPP/RNBQKBNR w KQkq - 0 1",
        "rn1qkb1r/ppp1pppp/8/3p1bB1/3Pn3/3Q1N2/PPP1PPPP/RN2KB1R w KQkq - 4 5",
        "6k1/1p3ppp/4b3/2p4q/8/P2Pp1QP/2P3PK/8 w - - 0 26",
        "2bq1rk1/pp2npp1/2n4p/2p5/3PP3/P1PB1N2/4QPPP/R1B2RK1 b - - 0 11",
    ];
    for fen in fens {
        let facts = facts_of(fen);
        let mirrored = facts.colour_flip();
        assert_eq!(evaluate(&facts), evaluate(&mirrored), "colour-asymmetric at {}", fen);
    }
}
