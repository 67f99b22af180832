//! The top of the engine: iterative deepening under a time budget, move
//! choice, and a simple self-play loop.

use vstd::prelude::*;

verus! {

use crate::boardlib::{
    legal_in,
    legal_of,
    legal_moves,
    make_move,
    board_status,
    board_from_fen,
    starting_board,
    now_instant,
    elapsed_of,
    duration_millis,
    random_below,
    emit_nodes_info,
};
use crate::constants::{MATE_SCORE, SCORE_BOUND};
use crate::position::GameStatus;
use crate::search::{search_depth, SearchInfo, TransTable, PawnCache, counters_le};

/// Accumulates one iteration's counters into the running totals.
fn add_info(total: &mut SearchInfo, part: &SearchInfo)
    ensures
        counters_le(*old(total), *final(total)),
{
    total.nodes_searched = saturating_add(total.nodes_searched, part.nodes_searched);
    total.transpostions_used = saturating_add(total.transpostions_used, part.transpostions_used);
    total.transpostions_recorded = saturating_add(
        total.transpostions_recorded,
        part.transpostions_recorded,
    );
    total.pawn_hash_table_used = saturating_add(total.pawn_hash_table_used, part.pawn_hash_table_used);
    total.pawn_hash_table_recorded = saturating_add(
        total.pawn_hash_table_recorded,
        part.pawn_hash_table_recorded,
    );
}

fn saturating_add(a: u64, b: u64) -> (r: u64)
    ensures
        r >= a,
        r >= b,
{
    if a <= 0xffff_ffff_ffff_ffff - b {
        a + b
    } else {
        0xffff_ffff_ffff_ffff
    }
}

/// Searches deeper and deeper until the depth cap, the time budget (one
/// thirtieth of the remaining time), a mate score, or an aborted
/// iteration stops it; each iteration hands the previous one's best move
/// and ordering down as hints, and only a partial iteration that improved
/// the score by a hundred centipawns or more may replace a completed one.
pub fn iterative_deepening(board: &chess::Board, remaining_time: u128, max_depth: u8) -> (r: (
    Option<chess::ChessMove>,
    SearchInfo,
))
    ensures
        legal_of(*board).len() == 0 ==> r.0 is None,
        r.0 matches Some(m) ==> legal_in(*board, m),
{
    let allowed_time: u128 = remaining_time / 30;
    let started = now_instant();
    let mut info = SearchInfo::new();
    let mut best_move: Option<chess::ChessMove> = None;
    let mut best_score: i32 = -MATE_SCORE;
    let mut table: Option<Vec<(chess::ChessMove, i32)>> = None;
    let mut cachetable = TransTable::new(65536);
    let mut pawn_table = PawnCache::new(65536);
    let mut depth: u8 = 1;
    while depth < 100 && (max_depth == 0 || depth <= max_depth)
        invariant
            cachetable.wf(),
            pawn_table.wf(),
            1 <= depth <= 100,
            -SCORE_BOUND < best_score <= SCORE_BOUND,
            legal_of(*board).len() == 0 ==> best_move is None && table is None,
            best_move matches Some(bm) ==> legal_in(*board, bm),
        decreases 100 - depth,
    {
        let elapsed = duration_millis(&elapsed_of(&started));
        if max_depth == 0 && elapsed >= allowed_time {
            break ;
        }
        let time_left: u128 = if elapsed < allowed_time {
            allowed_time - elapsed
        } else {
            0
        };
        let (mv, score, tbl, part, aborted) = search_depth(
            board,
            depth,
            &table,
            time_left,
            (best_move, best_score),
            &mut cachetable,
            &mut pawn_table,
        );
        add_info(&mut info, &part);
        emit_nodes_info(info.nodes_searched);
        if aborted || mv.is_none() {
            // a cut-short iteration counts only if it improved clearly
            if aborted && mv.is_some() {
                return (mv, info);
            }
            return (best_move, info);
        }
        best_move = mv;
        best_score = if -SCORE_BOUND < score {
            score
        } else {
            -SCORE_BOUND + 1
        };
        table = Some(tbl);
        // stop on a mate score strictly inside the horizon; a mate score
        // at the horizon exactly may still hide a nearer mate beyond it,
        // so the next depth rules on it
        if score > MATE_SCORE {
            return (best_move, info);
        }
        if score < -MATE_SCORE {
            return (best_move, info);
        }
        depth = depth + 1;
    }
    (best_move, info)
}

/// Chooses the move to play: the only legal move at once, otherwise the
/// best move of an iterative-deepening search.
pub fn choose_move(board: &chess::Board, depth: u8, remaining_time: u128) -> (r: (
    Option<chess::ChessMove>,
    SearchInfo,
))
    ensures
        legal_of(*board).len() == 0 ==> r.0 is None,
        legal_of(*board).len() == 1 ==> r.0 == Some(legal_of(*board)[0]),
        legal_of(*board).len() == 1 ==> r.1.nodes_searched == 0 && r.1.transpostions_used == 0
            && r.1.transpostions_recorded == 0 && r.1.pawn_hash_table_used == 0
            && r.1.pawn_hash_table_recorded == 0,
        r.0 matches Some(m) ==> legal_in(*board, m),
{
    let moves = legal_moves(board);
    if moves.len() == 1 {
        let only: chess::ChessMove = moves[0];
        return (Some(only), SearchInfo::new());
    }
    iterative_deepening(board, remaining_time, depth)
}

/// A uniformly random legal move, if any exists.
pub fn play_random_move(board: &chess::Board) -> (r: Option<chess::ChessMove>)
    ensures
        r is Some <==> legal_of(*board).len() > 0,
        r matches Some(m) ==> legal_of(*board).contains(m),
        r matches Some(m) ==> legal_in(*board, m),
{
    let moves = legal_moves(board);
    if moves.len() == 0 {
        return None;
    }
    let ix = random_below(moves.len());
    proof {
        assert(legal_of(*board)[ix as int] == moves@[ix as int]);
    }
    Some(moves[ix])
}

/// The engine's move: the searched move, or any legal move when the
/// budget ran out before the first depth finished; `None` only without
/// legal moves.
pub fn play_bot_move(board: &chess::Board, depth: u8, remaining_time: u128) -> (r: Option<
    chess::ChessMove,
>)
    ensures
        r is Some <==> legal_of(*board).len() > 0,
        r matches Some(m) ==> legal_in(*board, m),
{
    let (chosen, _info) = choose_move(board, depth, remaining_time);
    match chosen {
        Some(m) => Some(m),
        None => play_random_move(board),
    }
}

/// Plays the engine against itself from the given position and counts
/// the moves made before the game ended or the cap was reached.
pub fn play_game(
    starting_position: Option<&str>,
    bot_white: bool,
    depth: u8,
    terminate_after: Option<u32>,
) -> (r: u32)
    ensures
        r <= 1000,
{
    let mut board: chess::Board = match starting_position {
        None => starting_board(),
        Some(fen) => match board_from_fen(fen) {
            Some(b) => b,
            None => starting_board(),
        },
    };
    let _ = bot_white;
    let mut count: u32 = 0;
    while count < 1000
        invariant
            count <= 1000,
        decreases 1000 - count,
    {
        match board_status(&board) {
            GameStatus::Ongoing => {},
            _ => {
                break ;
            },
        }
        let next = match play_bot_move(&board, depth, 4 * 60 * 1000) {
            Some(m) => make_move(&board, &m),
            None => None,
        };
        match next {
            Some(b) => {
                board = b;
                count = count + 1;
            },
            None => {
                break ;
            },
        }
        if let Some(limit) = terminate_after {
            if limit < count {
                break ;
            }
        }
    }
    count
}

} // verus!
