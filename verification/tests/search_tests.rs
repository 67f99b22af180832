use std::str::FromStr;

use pawngrade::boardlib::extract_facts;
use pawngrade::evaluation::evaluate_pawn_structure;
use pawngrade::search::{
    pawn_table_lookup, pv_search, search_depth, Entry, Nodetype, PawnCache, SearchInfo, TransTable,
};

fn board_of(fen: &str) -> chess::Board {
    chess::Board::from_str(fen).expect("position")
}

#[test]
fn probe_respects_the_bound_rules() {
    let mut tt = TransTable::new(1024);
    let hash = 0x1234_5678_9abc_def0u64;

    // a cut node is a lower bound: its score comes back only at or above beta
    tt.store(hash, Entry { node_type: Nodetype::CutNode, depth: 5, score: 300 });
    assert_eq!(tt.probe(hash, 5, 0, 200), Some(300));
    assert_eq!(tt.probe(hash, 5, 0, 400), None);
    // a shallower stored entry never answers a deeper probe
    assert_eq!(tt.probe(hash, 6, 0, 200), None);
    assert_eq!(tt.probe(hash, 4, 0, 200), Some(300));

    // an all node is an upper bound: its score comes back only at or below alpha
    tt.store(hash, Entry { node_type: Nodetype::AllNode, depth: 5, score: -50 });
    assert_eq!(tt.probe(hash, 5, 0, 200), Some(-50));
    assert_eq!(tt.probe(hash, 5, -100, 200), None);

    // a pv node answers whenever it is deep enough
    tt.store(hash, Entry { node_type: Nodetype::Pvnode, depth: 5, score: 77 });
    assert_eq!(tt.probe(hash, 5, 0, 200), Some(77));
    assert_eq!(tt.probe(hash, 3, -1000, 1000), Some(77));
    assert_eq!(tt.probe(hash, 7, -1000, 1000), None);

    // a different key sharing the slot never answers
    assert_eq!(tt.probe(hash.wrapping_add(1024), 1, -1000, 1000), None);
}

#[test]
fn disabled_table_stays_silent() {
    let mut tt = TransTable::new(0);
    tt.store(7, Entry { node_type: Nodetype::Pvnode, depth: 1, score: 42 });
    assert_eq!(tt.probe(7, 1, -100, 100), None);
}

#[test]
fn same_best_move_with_and_without_the_table() {
    // a sharp position: the search must find the same best move whether
    // the transposition table answers or stays silent
    let board = board_of("r1bqkbnr/ppp2ppp/2np4/4p3/2B1P3/5N2/PPPP1PPP/RNBQK2R w KQkq - 0 4");
    let mut with_tt = TransTable::new(65536);
    let mut pawns_a = PawnCache::new(65536);
    let (best_a, score_a, _, _, _) =
        search_depth(&board, 3, &None, u128::MAX, (None, -9999), &mut with_tt, &mut pawns_a);
    let mut without_tt = TransTable::new(0);
    let mut pawns_b = PawnCache::new(65536);
    let (best_b, score_b, _, _, _) =
        search_depth(&board, 3, &None, u128::MAX, (None, -9999), &mut without_tt, &mut pawns_b);
    assert_eq!(best_a, best_b);
    assert_eq!(score_a, score_b);
}

#[test]
fn pawn_cache_is_pure() {
    let mut cache = PawnCache::new(1024);
    let white = (1u64 << 8) | (1u64 << 24) | (1u64 << 12);
    let black = (1u64 << 48) | (1u64 << 50);
    let direct = evaluate_pawn_structure(black, white, false);
    let (first, first_hit) = cache.lookup(white, black, false);
    let (second, second_hit) = cache.lookup(white, black, false);
    assert_eq!(first, direct);
    assert_eq!(second, direct);
    assert!(!first_hit);
    assert!(second_hit);
    // the phase bit is part of the key
    let (endgame_score, endgame_hit) = cache.lookup(white, black, true);
    assert!(!endgame_hit);
    assert_eq!(endgame_score, evaluate_pawn_structure(black, white, true));
}

#[test]
fn pawn_lookup_folds_to_the_mover() {
    let board = board_of("rnbqkbnr/pppppppp/8/8/8/8/PPPPP1PP/RNBQKBNR w KQkq - 0 1");
    let facts_white = extract_facts(&board);
    let board_b = board_of("rnbqkbnr/pppppppp/8/8/8/8/PPPPP1PP/RNBQKBNR b KQkq - 0 1");
    let facts_black = extract_facts(&board_b);
    let mut cache = PawnCache::new(1024);
    let mut info = SearchInfo::new();
    let seen_by_white = pawn_table_lookup(&facts_white, &mut cache, &mut info);
    let seen_by_black = pawn_table_lookup(&facts_black, &mut cache, &mut info);
    assert_eq!(seen_by_white, -seen_by_black);
    assert_eq!(info.pawn_hash_table_recorded, 1);
    assert_eq!(info.pawn_hash_table_used, 1);
}

#[test]
fn negamax_on_a_single_reply() {
    // black has exactly one legal move; the search value is the negation
    // of the child's value one ply shallower
    let board = board_of("7k/8/8/8/8/8/6Q1/K7 b - - 0 1");
    let moves: Vec<chess::ChessMove> = chess::MoveGen::new_legal(&board).collect();
    assert_eq!(moves.len(), 1);
    let child = board.make_move_new(moves[0]);

    let mut tt_a = TransTable::new(0);
    let mut pawns_a = PawnCache::new(1024);
    let mut info_a = SearchInfo::new();
    let mut line_a: Vec<chess::ChessMove> = Vec::new();
    let parent_value = pv_search(
        &board,
        -1_000_000,
        1_000_000,
        3,
        &mut tt_a,
        &mut info_a,
        &mut pawns_a,
        &mut line_a,
    );

    let mut tt_b = TransTable::new(0);
    let mut pawns_b = PawnCache::new(1024);
    let mut info_b = SearchInfo::new();
    let mut line_b: Vec<chess::ChessMove> = Vec::new();
    let child_value = pv_search(
        &child,
        -1_000_000,
        1_000_000,
        2,
        &mut tt_b,
        &mut info_b,
        &mut pawns_b,
        &mut line_b,
    );

    assert_eq!(parent_value, -child_value);
}

#[test]
fn window_widening_keeps_an_inner_score() {
    // a quiet opening position whose score sits well inside a modest
    // window: widening the window must not change it
    let board = board_of("rnbqkbnr/pppp1ppp/8/4p3/4P3/8/PPPP1PPP/RNBQKBNR w KQkq - 0 2");
    let mut tt_a = TransTable::new(0);
    let mut pawns_a = PawnCache::new(1024);
    let mut info_a = SearchInfo::new();
    let mut line_a: Vec<chess::ChessMove> = Vec::new();
    let narrow =
        pv_search(&board, -300, 300, 2, &mut tt_a, &mut info_a, &mut pawns_a, &mut line_a);
    assert!(-300 < narrow && narrow < 300);

    let mut tt_b = TransTable::new(0);
    let mut pawns_b = PawnCache::new(1024);
    let mut info_b = SearchInfo::new();
    let mut line_b: Vec<chess::ChessMove> = Vec::new();
    let wide = pv_search(
        &board,
        -1_000_000,
        1_000_000,
        2,
        &mut tt_b,
        &mut info_b,
        &mut pawns_b,
        &mut line_b,
    );
    assert_eq!(narrow, wide);
}

#[test]
fn mate_in_one_is_seen_and_played() {
    // a back-rank mate in one: the score clears the mate floor and the
    // mating move is chosen
    let board = board_of("6k1/5ppp/8/8/8/8/5PPP/3R2K1 w - - 0 1");
    let mut tt = TransTable::new(65536);
    let mut pawns = PawnCache::new(65536);
    let (best, score, _, _, _) =
        search_depth(&board, 3, &None, u128::MAX, (None, -9999), &mut tt, &mut pawns);
    assert!(score >= 9999 - 2);
    let mate = chess::ChessMove::from_str("d1d8").expect("move");
    assert_eq!(best, Some(mate));
}

#[test]
fn illegal_moves_are_refused_not_applied() {
    // applying a move is total: a legal move answers the new position,
    // an illegal one answers nothing instead of failing
    let board = chess::Board::default();
    let legal = chess::ChessMove::from_str("e2e4").unwrap();
    let illegal = chess::ChessMove::from_str("e5e6").unwrap();
    let applied = pawngrade::boardlib::make_move(&board, &legal).expect("legal");
    assert_eq!(applied.side_to_move(), chess::Color::Black);
    assert!(pawngrade::boardlib::make_move(&board, &illegal).is_none());
}

#[test]
fn finished_root_table_is_sorted() {
    let board = board_of("rnbqkbnr/pppp1ppp/8/4p3/4P3/8/PPPP1PPP/RNBQKBNR w KQkq - 0 2");
    let mut tt = TransTable::new(65536);
    let mut pawns = PawnCache::new(65536);
    let (best, score, table, _info, aborted) =
        search_depth(&board, 2, &None, u128::MAX, (None, -9999), &mut tt, &mut pawns);
    assert!(!aborted);
    assert!(best.is_some());
    let legal_count = chess::MoveGen::new_legal(&board).len();
    assert_eq!(table.len(), legal_count);
    for w in table.windows(2) {
        assert!(w[0].1 >= w[1].1);
    }
    assert_eq!(score, table[0].1);
}

#[test]
fn mate_scores_follow_the_depth_formula() {
    // at a move-less checkmate node the search answers the mate score
    // plus the remaining depth; at the horizon the flat evaluation rules
    let mated = board_of("rnb1kbnr/pppp1ppp/8/4p3/6Pq/5P2/PPPPP2P/RNBQKBNR w KQkq - 1 3");
    for depth in 1..5u8 {
        let mut tt = TransTable::new(0);
        let mut pawns = PawnCache::new(1024);
        let mut info = SearchInfo::new();
        let mut line: Vec<chess::ChessMove> = Vec::new();
        let value = pv_search(
            &mated,
            -1_000_000,
            1_000_000,
            depth,
            &mut tt,
            &mut info,
            &mut pawns,
            &mut line,
        );
        assert_eq!(value, -9999 - depth as i32);
    }
    let mut tt = TransTable::new(0);
    let mut pawns = PawnCache::new(1024);
    let mut info = SearchInfo::new();
    let mut line: Vec<chess::ChessMove> = Vec::new();
    let horizon =
        pv_search(&mated, -1_000_000, 1_000_000, 0, &mut tt, &mut info, &mut pawns, &mut line);
    assert_eq!(horizon, -9999);
}
