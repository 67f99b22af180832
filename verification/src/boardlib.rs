//! The interface to the board library and the other outside services.
//!
//! The board library supplies the position type, legal move generation and
//! move application; this engine treats those values as opaque and reads
//! positions out into [`BoardFacts`]. Every `external_body` item here is
//! trusted: its contract states no more than the called crate's source
//! shows.

use vstd::prelude::*;

verus! {

use crate::position::{BoardFacts, GameStatus, PieceKind};
use std::io::Write;

#[verifier::external_type_specification]
#[verifier::external_body]
pub struct ExBoard(chess::Board);

#[verifier::external_type_specification]
#[verifier::external_body]
pub struct ExChessMove(chess::ChessMove);

#[verifier::external_type_specification]
#[verifier::external_body]
pub struct ExInstant(std::time::Instant);

/// The legal moves of a position, in the board library's generation
/// order; chess::MoveGen::new_legal is a function of the board alone.
pub uninterp spec fn legal_of(board: chess::Board) -> Seq<chess::ChessMove>;

/// Whether a move is legal in a position; chess::Board::legal is
/// membership in the generated legal moves.
pub uninterp spec fn legal_in(board: chess::Board, m: chess::ChessMove) -> bool;

/// The mask of one piece type, both colours; chess::Board::pieces.
pub uninterp spec fn pieces_of(board: chess::Board, kind: PieceKind) -> u64;

/// The mask of one colour's pieces; chess::Board::color_combined.
pub uninterp spec fn color_of(board: chess::Board, white: bool) -> u64;

/// Whether White is to move; chess::Board::side_to_move.
pub uninterp spec fn stm_of(board: chess::Board) -> bool;

/// The terminal status of a position; chess::Board::status.
pub uninterp spec fn status_of(board: chess::Board) -> GameStatus;

/// The position's 64-bit key; chess::Board::get_hash reads the board's
/// incrementally kept hash field, a function of the board alone.
pub uninterp spec fn hash_of(board: chess::Board) -> u64;

/// The position a legal move leads to; chess::Board::make_move_new is a
/// function of the board and the move alone.
pub uninterp spec fn moved_of(board: chess::Board, m: chess::ChessMove) -> chess::Board;

/// The whole model a position reads out to, composed from the named
/// accessor results.
pub open spec fn facts_of(board: chess::Board) -> BoardFacts {
    BoardFacts {
        white_pawns: pieces_of(board, PieceKind::Pawn) & color_of(board, true),
        white_knights: pieces_of(board, PieceKind::Knight) & color_of(board, true),
        white_bishops: pieces_of(board, PieceKind::Bishop) & color_of(board, true),
        white_rooks: pieces_of(board, PieceKind::Rook) & color_of(board, true),
        white_queens: pieces_of(board, PieceKind::Queen) & color_of(board, true),
        white_king: pieces_of(board, PieceKind::King) & color_of(board, true),
        black_pawns: pieces_of(board, PieceKind::Pawn) & color_of(board, false),
        black_knights: pieces_of(board, PieceKind::Knight) & color_of(board, false),
        black_bishops: pieces_of(board, PieceKind::Bishop) & color_of(board, false),
        black_rooks: pieces_of(board, PieceKind::Rook) & color_of(board, false),
        black_queens: pieces_of(board, PieceKind::Queen) & color_of(board, false),
        black_king: pieces_of(board, PieceKind::King) & color_of(board, false),
        white_to_move: stm_of(board),
        status: status_of(board),
    }
}

/// Relies on chess::MoveGen::new_legal: the legal moves of the position,
/// gathered into a vector; chess::Board::legal is defined as membership
/// in that very generation, so every gathered move is legal.
#[verifier::external_body]
pub fn legal_moves(board: &chess::Board) -> (r: Vec<chess::ChessMove>)
    ensures
        r@ == legal_of(*board),
        forall|i: int| 0 <= i < r@.len() ==> legal_in(*board, #[trigger] r@[i]),
{
    chess::MoveGen::new_legal(board).collect()
}

/// Relies on chess::Board::legal and chess::Board::make_move_new: the
/// position after a legal move, leaving the given board untouched; an
/// illegal move answers `None` instead of reaching the library's panic.
#[verifier::external_body]
pub fn make_move(board: &chess::Board, m: &chess::ChessMove) -> (r: Option<chess::Board>)
    ensures
        r is Some <==> legal_in(*board, *m),
        r matches Some(b) ==> b == moved_of(*board, *m),
{
    if board.legal(*m) {
        Some(board.make_move_new(*m))
    } else {
        None
    }
}

/// Relies on chess::Board::status: whether the position is ongoing, a
/// checkmate of the mover, or a stalemate; the source answers ongoing
/// exactly when a legal move exists.
#[verifier::external_body]
pub fn board_status(board: &chess::Board) -> (r: GameStatus)
    ensures
        r == status_of(*board),
        r is Ongoing <==> legal_of(*board).len() > 0,
{
    match board.status() {
        chess::BoardStatus::Ongoing => GameStatus::Ongoing,
        chess::BoardStatus::Checkmate => GameStatus::Checkmate,
        chess::BoardStatus::Stalemate => GameStatus::Stalemate,
    }
}

/// Relies on chess::Board::checkers: the mask of pieces giving check.
#[verifier::external_body]
pub fn checkers_bits(board: &chess::Board) -> u64 {
    board.checkers().0
}

/// Relies on chess::Board::null_move: the same position with the move
/// handed over, when the mover is not in check.
#[verifier::external_body]
pub fn null_move_board(board: &chess::Board) -> Option<chess::Board> {
    board.null_move()
}

/// Relies on chess::Board::get_hash: the position's 64-bit key.
#[verifier::external_body]
pub fn board_hash(board: &chess::Board) -> (r: u64)
    ensures
        r == hash_of(*board),
{
    board.get_hash()
}

/// Relies on chess::Board::side_to_move.
#[verifier::external_body]
pub fn white_to_move(board: &chess::Board) -> (r: bool)
    ensures
        r == stm_of(*board),
{
    match board.side_to_move() {
        chess::Color::White => true,
        chess::Color::Black => false,
    }
}

/// Relies on chess::Board::pieces: the mask of one piece type, both
/// colours together.
#[verifier::external_body]
pub fn pieces_bits(board: &chess::Board, kind: PieceKind) -> (r: u64)
    ensures
        r == pieces_of(*board, kind),
{
    let piece = match kind {
        PieceKind::Pawn => chess::Piece::Pawn,
        PieceKind::Knight => chess::Piece::Knight,
        PieceKind::Bishop => chess::Piece::Bishop,
        PieceKind::Rook => chess::Piece::Rook,
        PieceKind::Queen => chess::Piece::Queen,
        PieceKind::King => chess::Piece::King,
    };
    board.pieces(piece).0
}

/// Relies on chess::Board::color_combined: the mask of one colour's
/// pieces.
#[verifier::external_body]
pub fn color_bits(board: &chess::Board, white: bool) -> (r: u64)
    ensures
        r == color_of(*board, white),
{
    let color = if white {
        chess::Color::White
    } else {
        chess::Color::Black
    };
    board.color_combined(color).0
}

/// Relies on chess::ChessMove::get_source and chess::Square::to_index;
/// squares of the safe API always index below 64.
#[verifier::external_body]
pub fn move_source(m: &chess::ChessMove) -> (r: u8)
    ensures
        r < 64,
{
    m.get_source().to_index() as u8
}

/// Relies on chess::ChessMove::get_dest and chess::Square::to_index;
/// squares of the safe API always index below 64.
#[verifier::external_body]
pub fn move_dest(m: &chess::ChessMove) -> (r: u8)
    ensures
        r < 64,
{
    m.get_dest().to_index() as u8
}

/// Relies on chess::ChessMove::get_promotion.
#[verifier::external_body]
pub fn move_promotion(m: &chess::ChessMove) -> Option<PieceKind> {
    match m.get_promotion() {
        None => None,
        Some(chess::Piece::Pawn) => Some(PieceKind::Pawn),
        Some(chess::Piece::Knight) => Some(PieceKind::Knight),
        Some(chess::Piece::Bishop) => Some(PieceKind::Bishop),
        Some(chess::Piece::Rook) => Some(PieceKind::Rook),
        Some(chess::Piece::Queen) => Some(PieceKind::Queen),
        Some(chess::Piece::King) => Some(PieceKind::King),
    }
}

/// Relies on the derived equality of chess::ChessMove.
#[verifier::external_body]
pub fn same_move(a: &chess::ChessMove, b: &chess::ChessMove) -> bool {
    a == b
}

/// Relies on chess::Board's std::str::FromStr: parses a FEN string, or
/// answers None when it does not describe a position.
#[verifier::external_body]
pub fn board_from_fen(fen: &str) -> Option<chess::Board> {
    <chess::Board as std::str::FromStr>::from_str(fen).ok()
}

/// Relies on chess::Board::default: the standard starting position.
#[verifier::external_body]
pub fn starting_board() -> chess::Board {
    chess::Board::default()
}

/// Relies on std::time::Instant::now.
#[verifier::external_body]
pub fn now_instant() -> std::time::Instant {
    std::time::Instant::now()
}

/// Relies on std::time::Instant::elapsed.
#[verifier::external_body]
pub fn elapsed_of(start: &std::time::Instant) -> std::time::Duration {
    start.elapsed()
}

/// Relies on std::time::Duration::as_millis.
#[verifier::external_body]
pub fn duration_millis(d: &std::time::Duration) -> u128 {
    d.as_millis()
}

/// Relies on rand::random_range over `0..n`: a uniformly random index
/// below `n`; the range must not be empty.
#[verifier::external_body]
pub fn random_below(n: usize) -> (r: usize)
    requires
        n > 0,
    ensures
        r < n,
{
    rand::random_range(0..n)
}

/// Relies on writeln to standard output, for the node-count progress
/// line after each finished depth.
#[verifier::external_body]
pub fn emit_nodes_info(nodes: u64) {
    let _ = writeln!(std::io::stdout(), "info nodes {}", nodes);
}

/// Relies on write to standard output and chess::ChessMove's display,
/// for the per-depth progress line of the search.
#[verifier::external_body]
pub fn emit_search_info(depth: u8, score: i32, pv: &Vec<chess::ChessMove>) {
    let mut out = std::io::stdout();
    let _ = write!(out, "info depth {} score cp {} pv", depth, score);
    let mut i: usize = 0;
    while i < pv.len() {
        let _ = write!(out, " {}", pv[i]);
        i += 1;
    }
    let _ = writeln!(out);
}

/// Reads a position out into the engine's own model: per-piece masks, the
/// side to move and the terminal status.
pub fn extract_facts(board: &chess::Board) -> (r: BoardFacts)
    ensures
        r == facts_of(*board),
{
    let white = color_bits(board, true);
    let black = color_bits(board, false);
    let pawns = pieces_bits(board, PieceKind::Pawn);
    let knights = pieces_bits(board, PieceKind::Knight);
    let bishops = pieces_bits(board, PieceKind::Bishop);
    let rooks = pieces_bits(board, PieceKind::Rook);
    let queens = pieces_bits(board, PieceKind::Queen);
    let kings = pieces_bits(board, PieceKind::King);
    BoardFacts {
        white_pawns: pawns & white,
        white_knights: knights & white,
        white_bishops: bishops & white,
        white_rooks: rooks & white,
        white_queens: queens & white,
        white_king: kings & white,
        black_pawns: pawns & black,
        black_knights: knights & black,
        black_bishops: bishops & black,
        black_rooks: rooks & black,
        black_queens: queens & black,
        black_king: kings & black,
        white_to_move: white_to_move(board),
        status: board_status(board),
    }
}

} // verus!
