use std::str::FromStr;

use pawngrade::boardlib::extract_facts;
use pawngrade::driver::{choose_move, play_bot_move, play_game, play_random_move};
use pawngrade::evaluation::{evaluate, evaluate_pawn_structure};
use pawngrade::search::{pawn_table_lookup, PawnCache, SearchInfo};

fn run_mate(fen: &str, mate_in: u32, mating_side_white: bool) {
    let plies = play_game(Some(fen), mating_side_white, 9, Some(10));
    let turns = (plies + 1) / 2;
    assert_eq!(turns, mate_in);
}

#[test]
fn test_mate_black_2() {
    run_mate("8/4K3/2b5/3kp3/8/8/1n6/b4r2 w - - 1 10", 2, false);
}

#[test]
fn test_mate_black_3() {
    run_mate("6k1/1p3pp1/p7/8/r2n4/8/3K4/7q b - - 0 1", 3, false);
}

#[test]
fn test_mate_white_2() {
    run_mate("b1B3Q1/5K2/5NP1/n7/2p2k1P/3pN2R/1B1P4/4qn2 w - - 0 1", 2, true);
}

#[test]
fn test_mate_white_3() {
    run_mate("1k6/1P5Q/8/7B/8/5K2/8/8 w - - 0 1", 3, true);
}

#[test]
fn test_mate_white_2_() {
    run_mate("6k1/1p3ppp/4b3/2p4q/8/P2Pp1QP/2P3PK/8 w - - 0 26 ", 2, true);
}

/// The full static evaluation read through the pawn cache agrees with the
/// same evaluation computed directly, without the cache.
fn check_cached_evaluation(fen: &str) {
    let board = chess::Board::from_str(fen.trim()).expect("position");
    let facts = extract_facts(&board);
    let mut cache = PawnCache::new(65536);
    let mut info = SearchInfo::new();
    let through_cache = evaluate(&facts) + pawn_table_lookup(&facts, &mut cache, &mut info);
    let endgame = pawngrade::evaluation::is_endgame(&facts);
    let pawn_part = evaluate_pawn_structure(facts.black_pawns, facts.white_pawns, endgame);
    let direct = evaluate(&facts) + if facts.white_to_move { pawn_part } else { -pawn_part };
    assert_eq!(through_cache, direct);
}

#[test]
fn test_better_evaluation_startpos() {
    check_cached_evaluation("rnbqkbnr/pppppppp/8/8/8/8/PPPPPPPP/RNBQKBNR w KQkq - 0 1");
    // the symmetric start counts as dead level
    let board =
        chess::Board::from_str("rnbqkbnr/pppppppp/8/8/8/8/PPPPPPPP/RNBQKBNR w KQkq - 0 1").unwrap();
    assert_eq!(evaluate(&extract_facts(&board)), 0);
}

#[test]
fn test_opening_better_eval() {
    check_cached_evaluation("rnbqkb1r/ppp1pppp/3p1n2/8/8/3P4/PPP1PPPP/RNBQKBNR b KQkq - 1 3");
}

#[test]
fn test_opening_better_eval2() {
    check_cached_evaluation("rn1qkb1r/ppp1pppp/8/3p1bB1/3Pn3/3Q1N2/PPP1PPPP/RN2KB1R w KQkq - 4 5");
}

#[test]
fn every_fallback_move_is_legal() {
    let board = chess::Board::default();
    for _ in 0..20 {
        let m = play_random_move(&board).expect("the start has moves");
        assert!(board.legal(m));
    }
    // no legal moves, no move
    let mated =
        chess::Board::from_str("rnb1kbnr/pppp1ppp/8/4p3/6Pq/5P2/PPPPP2P/RNBQKBNR w KQkq - 1 3")
            .unwrap();
    assert!(play_random_move(&mated).is_none());
}

#[test]
fn chosen_opening_move_is_sensible() {
    // from the start the engine develops a piece or pushes a centre pawn,
    // and the score stays near level
    let board = chess::Board::default();
    let (best, info) = choose_move(&board, 4, u64::MAX as u128);
    let m = best.expect("the start has moves");
    assert!(board.legal(m));
    assert!(info.nodes_searched > 0);
    let facts = extract_facts(&board);
    assert!(evaluate(&facts).abs() <= 30);
}

#[test]
fn bot_answers_with_a_move_whenever_one_exists() {
    let board = chess::Board::from_str("8/4k3/8/8/8/8/P3K3/8 w - - 0 1").unwrap();
    let m = play_bot_move(&board, 2, 30_000).expect("moves exist");
    assert!(board.legal(m));
}

#[test]
fn single_reply_is_answered_at_once() {
    let board = chess::Board::from_str("7k/8/8/8/8/8/6Q1/K7 b - - 0 1").unwrap();
    let (best, info) = choose_move(&board, 6, 30_000);
    let only = chess::ChessMove::from_str("h8h7").unwrap();
    assert_eq!(best, Some(only));
    assert_eq!(info.nodes_searched, 0);
}

#[test]
fn open_game_stays_level_and_develops() {
    // after 1. e4 e5 the position is balanced: a four-ply search scores
    // it close to level, and from the start the engine begins with a
    // pawn or a knight
    let board = chess::Board::from_str(
        "rnbqkbnr/pppp1ppp/8/4p3/4P3/8/PPPP1PPP/RNBQKBNR w KQkq - 0 2",
    )
    .unwrap();
    let (_best, info) = choose_move(&board, 4, u64::MAX as u128);
    assert!(info.nodes_searched > 0);
    let facts = extract_facts(&board);
    assert!(evaluate(&facts).abs() <= 30);

    let start = chess::Board::default();
    let (first, _) = choose_move(&start, 4, u64::MAX as u128);
    let first = first.expect("the start has moves");
    let piece = start.piece_on(first.get_source()).expect("a piece moves");
    assert!(piece == chess::Piece::Pawn || piece == chess::Piece::Knight);
}
