//! The transposition table, the pawn-structure cache, and the
//! principal-variation search with its quiescence extension.

use vstd::prelude::*;

verus! {

use crate::boardlib::{
    legal_moves,
    make_move,
    checkers_bits,
    null_move_board,
    board_hash,
    extract_facts,
    move_dest,
    move_source,
    move_promotion,
};
use crate::constants::{
    MATE_SCORE,
    SCORE_BOUND,
    BIG_DELTA,
    RAZORING_MARGIN,
    EXTENDED_FUTILITY_MARGIN,
    FUTILITY_MARGIN,
    piece_value,
};
use crate::boardlib::{facts_of, hash_of, legal_of, legal_in};
use crate::evaluation::{
    evaluate,
    material_balance,
    evaluate_pawn_structure,
    spec_evaluate_pawn_structure,
    spec_evaluate,
    is_endgame,
};
use crate::position::{BoardFacts, GameStatus, PieceKind};

/// How a stored search result bounds the true score.
#[derive(Clone, Copy, PartialEq, Eq, Structural, Debug)]
pub enum Nodetype {
    Pvnode,
    CutNode,
    AllNode,
}

/// Counters accumulated over one search.
#[derive(Clone, Copy, PartialEq, Eq, Structural, Debug)]
pub struct SearchInfo {
    pub nodes_searched: u64,
    pub transpostions_used: u64,
    pub transpostions_recorded: u64,
    pub pawn_hash_table_used: u64,
    pub pawn_hash_table_recorded: u64,
}

impl SearchInfo {
    /// Fresh counters, all zero.
    pub fn new() -> (r: SearchInfo)
        ensures
            r.nodes_searched == 0,
            r.transpostions_used == 0,
            r.transpostions_recorded == 0,
            r.pawn_hash_table_used == 0,
            r.pawn_hash_table_recorded == 0,
    {
        SearchInfo {
            nodes_searched: 0,
            transpostions_used: 0,
            transpostions_recorded: 0,
            pawn_hash_table_used: 0,
            pawn_hash_table_recorded: 0,
        }
    }
}

/// No counter of `b` is behind the same counter of `a`.
pub open spec fn counters_le(a: SearchInfo, b: SearchInfo) -> bool {
    a.nodes_searched <= b.nodes_searched && a.transpostions_used <= b.transpostions_used
        && a.transpostions_recorded <= b.transpostions_recorded && a.pawn_hash_table_used
        <= b.pawn_hash_table_used && a.pawn_hash_table_recorded <= b.pawn_hash_table_recorded
}

/// One more, stopping at the counter's ceiling.
pub open spec fn spec_bump(x: u64) -> u64 {
    if x < 0xffff_ffff_ffff_ffff {
        (x + 1) as u64
    } else {
        x
    }
}

fn bump(x: u64) -> (r: u64)
    ensures
        r == spec_bump(x),
        r >= x,
{
    if x < 0xffff_ffff_ffff_ffff {
        x + 1
    } else {
        x
    }
}

/// The key of one pawn-structure configuration.
#[derive(Clone, Copy, PartialEq, Eq, Structural, Debug)]
pub struct PawnKey {
    pub endgame: bool,
    pub white_pawns: u64,
    pub black_pawns: u64,
}

/// One stored search result.
#[derive(Clone, Copy, PartialEq, Eq, Structural, Debug)]
pub struct Entry {
    pub node_type: Nodetype,
    pub depth: u8,
    pub score: i32,
}

/// A fixed-capacity direct-mapped map from position keys to search
/// results, with an always-replace policy.
pub struct TransTable {
    pub slots: Vec<Option<(u64, Entry)>>,
}

impl TransTable {
    pub open spec fn spec_capacity(self) -> int {
        self.slots@.len() as int
    }

    /// Every stored score stays within `SCORE_BOUND`.
    pub open spec fn wf(self) -> bool {
        forall|i: int|
            0 <= i < self.slots@.len() ==> match #[trigger] self.slots@[i] {
                Some(p) => -SCORE_BOUND <= p.1.score <= SCORE_BOUND,
                None => true,
            }
    }

    /// The entry stored for `hash`, if its slot holds that very key.
    pub open spec fn spec_lookup(self, hash: u64) -> Option<Entry> {
        if self.slots@.len() == 0 {
            None
        } else {
            match self.slots@[hash as int % (self.slots@.len() as int)] {
                Some(p) => if p.0 == hash {
                    Some(p.1)
                } else {
                    None
                },
                None => None,
            }
        }
    }

    /// An empty table of the given capacity; capacity zero disables it.
    pub fn new(capacity: usize) -> (r: TransTable)
        ensures
            r.wf(),
            r.spec_capacity() == capacity,
            forall|hash: u64| r.spec_lookup(hash) is None,
    {
        let mut slots: Vec<Option<(u64, Entry)>> = Vec::new();
        while slots.len() < capacity
            invariant
                slots@.len() <= capacity,
                forall|i: int| 0 <= i < slots@.len() ==> slots@[i] is None,
            decreases capacity - slots.len(),
        {
            slots.push(None);
        }
        TransTable { slots }
    }

    /// What a probe answers: the stored score exactly when the stored
    /// entry is deep enough and its bound kind permits reuse against the
    /// window.
    pub open spec fn spec_probe(self, hash: u64, depth: u8, alpha: i32, beta: i32) -> Option<i32> {
        match self.spec_lookup(hash) {
            None => None,
            Some(e) => if e.depth >= depth {
                match e.node_type {
                    Nodetype::Pvnode => Some(e.score),
                    Nodetype::CutNode => if e.score >= beta {
                        Some(e.score)
                    } else {
                        None
                    },
                    Nodetype::AllNode => if e.score <= alpha {
                        Some(e.score)
                    } else {
                        None
                    },
                }
            } else {
                None
            },
        }
    }

    /// Probes the table: a score comes back only under the reuse rules
    /// stated by `spec_probe`.
    pub fn probe(&self, hash: u64, depth: u8, alpha: i32, beta: i32) -> (r: Option<i32>)
        ensures
            r == self.spec_probe(hash, depth, alpha, beta),
            self.wf() && r is Some ==> -SCORE_BOUND <= r->0 <= SCORE_BOUND,
    {
        if self.slots.len() == 0 {
            return None;
        }
        let ix = (hash % (self.slots.len() as u64)) as usize;
        match self.slots[ix] {
            None => None,
            Some(p) => {
                if p.0 != hash {
                    return None;
                }
                let e = p.1;
                if e.depth >= depth {
                    match e.node_type {
                        Nodetype::Pvnode => Some(e.score),
                        Nodetype::CutNode => if e.score >= beta {
                            Some(e.score)
                        } else {
                            None
                        },
                        Nodetype::AllNode => if e.score <= alpha {
                            Some(e.score)
                        } else {
                            None
                        },
                    }
                } else {
                    None
                }
            },
        }
    }

    /// A probe hands a score out only under the reuse rules: the stored
    /// entry must be at least as deep as the probe, and its score comes
    /// back exactly when it is exact, a lower bound at or above beta, or
    /// an upper bound at or below alpha.
    pub proof fn lemma_probe_respects_bounds(self, hash: u64, depth: u8, alpha: i32, beta: i32)
        ensures
            self.spec_probe(hash, depth, alpha, beta) matches Some(s) ==> {
                &&& self.spec_lookup(hash) matches Some(e)
                &&& self.spec_lookup(hash)->0.depth >= depth
                &&& s == self.spec_lookup(hash)->0.score
                &&& (self.spec_lookup(hash)->0.node_type == Nodetype::Pvnode || (self.spec_lookup(
                    hash,
                )->0.node_type == Nodetype::CutNode && s >= beta) || (self.spec_lookup(
                    hash,
                )->0.node_type == Nodetype::AllNode && s <= alpha))
            },
    {
    }

    /// Stores an entry for `hash`, overwriting whatever shared its slot.
    pub fn store(&mut self, hash: u64, entry: Entry)
        requires
            old(self).wf(),
            -SCORE_BOUND <= entry.score <= SCORE_BOUND,
        ensures
            final(self).wf(),
            final(self).spec_capacity() == old(self).spec_capacity(),
            old(self).spec_capacity() > 0 ==> final(self).spec_lookup(hash) == Some(entry),
            forall|other: u64|
                other as int % old(self).spec_capacity() != hash as int % old(self).spec_capacity()
                    ==> final(self).spec_lookup(other) == old(self).spec_lookup(other),
    {
        if self.slots.len() == 0 {
            return ;
        }
        let ix = (hash % (self.slots.len() as u64)) as usize;
        self.slots.set(ix, Some((hash, entry)));
    }
}

/// The index hash of one pawn configuration.
pub open spec fn spec_pawn_key_hash(white_pawns: u64, black_pawns: u64, endgame: bool) -> u64 {
    white_pawns ^ ((black_pawns << 21) | (black_pawns >> 43)) ^ (if endgame {
        0x9e37_79b9_7f4a_7c15u64
    } else {
        0u64
    })
}

fn pawn_key_hash(white_pawns: u64, black_pawns: u64, endgame: bool) -> (r: u64)
    ensures
        r == spec_pawn_key_hash(white_pawns, black_pawns, endgame),
{
    white_pawns ^ ((black_pawns << 21) | (black_pawns >> 43)) ^ (if endgame {
        0x9e37_79b9_7f4a_7c15u64
    } else {
        0u64
    })
}

pub struct PawnSlot {
    pub key: PawnKey,
    pub score: i32,
}

/// A direct-mapped cache of pawn-structure scores, keyed by the full pawn
/// configuration; every stored value equals the pawn-structure evaluation
/// of its own key, so a hit can never answer wrongly.
pub struct PawnCache {
    pub slots: Vec<Option<PawnSlot>>,
}

impl PawnCache {
    pub open spec fn spec_capacity(self) -> int {
        self.slots@.len() as int
    }

    /// Does the cache hold the given configuration right now: its slot is
    /// filled and keyed by that very configuration?
    pub open spec fn spec_hit(self, white_pawns: u64, black_pawns: u64, endgame: bool) -> bool {
        self.slots@.len() > 0 && match self.slots@[spec_pawn_key_hash(
            white_pawns,
            black_pawns,
            endgame,
        ) as int % (self.slots@.len() as int)] {
            Some(s) => s.key == (PawnKey { endgame, white_pawns, black_pawns }),
            None => false,
        }
    }

    /// Purity: whatever is stored is the pawn-structure score of its key.
    pub open spec fn wf(self) -> bool {
        forall|i: int|
            0 <= i < self.slots@.len() ==> match #[trigger] self.slots@[i] {
                Some(s) => s.score == spec_evaluate_pawn_structure(
                    s.key.black_pawns,
                    s.key.white_pawns,
                    s.key.endgame,
                ) && -25_000 <= s.score <= 25_000,
                None => true,
            }
    }

    /// An empty cache of the given capacity.
    pub fn new(capacity: usize) -> (r: PawnCache)
        ensures
            r.wf(),
            r.spec_capacity() == capacity,
    {
        let mut slots: Vec<Option<PawnSlot>> = Vec::new();
        while slots.len() < capacity
            invariant
                slots@.len() <= capacity,
                forall|i: int| 0 <= i < slots@.len() ==> slots@[i] is None,
            decreases capacity - slots.len(),
        {
            slots.push(None);
        }
        PawnCache { slots }
    }

    /// The pawn-structure score of a configuration, from the cache on a
    /// hit and computed (and stored) on a miss; either way the answer is
    /// exactly the pawn-structure evaluation.
    pub fn lookup(&mut self, white_pawns: u64, black_pawns: u64, endgame: bool) -> (r: (i32, bool))
        requires
            old(self).wf(),
        ensures
            final(self).wf(),
            final(self).spec_capacity() == old(self).spec_capacity(),
            r.0 == spec_evaluate_pawn_structure(black_pawns, white_pawns, endgame),
            -25_000 <= r.0 <= 25_000,
            r.1 == old(self).spec_hit(white_pawns, black_pawns, endgame),
            r.1 ==> *final(self) == *old(self),
            !r.1 && old(self).spec_capacity() > 0 ==> final(self).spec_hit(
                white_pawns,
                black_pawns,
                endgame,
            ),
            old(self).spec_capacity() == 0 ==> *final(self) == *old(self),
    {
        let key = PawnKey { endgame, white_pawns, black_pawns };
        if self.slots.len() > 0 {
            let hash = pawn_key_hash(white_pawns, black_pawns, endgame);
            let ix = (hash % (self.slots.len() as u64)) as usize;
            let hit: Option<i32> = match &self.slots[ix] {
                Some(s) => {
                    if s.key.endgame == endgame && s.key.white_pawns == white_pawns
                        && s.key.black_pawns == black_pawns {
                        Some(s.score)
                    } else {
                        None
                    }
                },
                None => None,
            };
            if let Some(score) = hit {
                return (score, true);
            }
            let score = evaluate_pawn_structure(black_pawns, white_pawns, endgame);
            self.slots.set(ix, Some(PawnSlot { key, score }));
            (score, false)
        } else {
            (evaluate_pawn_structure(black_pawns, white_pawns, endgame), false)
        }
    }
}

/// The cached pawn-structure score of a position, folded to the side to
/// move.
pub fn pawn_table_lookup(f: &BoardFacts, pawn_table: &mut PawnCache, info: &mut SearchInfo) -> (r:
    i32)
    requires
        old(pawn_table).wf(),
    ensures
        final(pawn_table).wf(),
        final(pawn_table).spec_capacity() == old(pawn_table).spec_capacity(),
        counters_le(*old(info), *final(info)),
        r == if f.white_to_move {
            spec_evaluate_pawn_structure(f.black_pawns, f.white_pawns, f.spec_endgame())
        } else {
            -spec_evaluate_pawn_structure(f.black_pawns, f.white_pawns, f.spec_endgame())
        },
        -25_000 <= r <= 25_000,
        old(pawn_table).spec_hit(f.white_pawns, f.black_pawns, f.spec_endgame())
            ==> final(info).pawn_hash_table_used == spec_bump(old(info).pawn_hash_table_used)
            && final(info).pawn_hash_table_recorded == old(info).pawn_hash_table_recorded
            && *final(pawn_table) == *old(pawn_table),
        !old(pawn_table).spec_hit(f.white_pawns, f.black_pawns, f.spec_endgame())
            ==> final(info).pawn_hash_table_recorded == spec_bump(
            old(info).pawn_hash_table_recorded,
        ) && final(info).pawn_hash_table_used == old(info).pawn_hash_table_used && (old(
            pawn_table,
        ).spec_capacity() > 0 ==> final(pawn_table).spec_hit(
            f.white_pawns,
            f.black_pawns,
            f.spec_endgame(),
        )),
        final(info).nodes_searched == old(info).nodes_searched,
        final(info).transpostions_used == old(info).transpostions_used,
        final(info).transpostions_recorded == old(info).transpostions_recorded,
{
    let endgame = is_endgame(f);
    let (score, hit) = pawn_table.lookup(f.white_pawns, f.black_pawns, endgame);
    if hit {
        info.pawn_hash_table_used = bump(info.pawn_hash_table_used);
    } else {
        info.pawn_hash_table_recorded = bump(info.pawn_hash_table_recorded);
    }
    if f.white_to_move {
        score
    } else {
        -score
    }
}

/// Does this move give check? An illegal move gives none.
fn is_check(board: &chess::Board, m: &chess::ChessMove) -> bool {
    match make_move(board, m) {
        Some(after) => checkers_bits(&after) != 0,
        None => false,
    }
}

/// Does this move take a piece (counting en passant)? An illegal move
/// takes none.
fn is_capture(board: &chess::Board, m: &chess::ChessMove) -> bool {
    let before = extract_facts(board);
    match make_move(board, m) {
        Some(after_board) => {
            let after = extract_facts(&after_board);
            crate::bitboard_operators::count_squares(before.occupied())
                > crate::bitboard_operators::count_squares(after.occupied())
        },
        None => false,
    }
}

/// The piece kind on a square of the model, if any.
pub open spec fn spec_piece_kind_on(f: BoardFacts, sq: u64) -> Option<PieceKind> {
    if crate::bitboard_operators::has_sq(f.white_pawns | f.black_pawns, sq) {
        Some(PieceKind::Pawn)
    } else if crate::bitboard_operators::has_sq(f.white_knights | f.black_knights, sq) {
        Some(PieceKind::Knight)
    } else if crate::bitboard_operators::has_sq(f.white_bishops | f.black_bishops, sq) {
        Some(PieceKind::Bishop)
    } else if crate::bitboard_operators::has_sq(f.white_rooks | f.black_rooks, sq) {
        Some(PieceKind::Rook)
    } else if crate::bitboard_operators::has_sq(f.white_queens | f.black_queens, sq) {
        Some(PieceKind::Queen)
    } else if crate::bitboard_operators::has_sq(f.white_king | f.black_king, sq) {
        Some(PieceKind::King)
    } else {
        None
    }
}

/// The piece kind on a square of the model, if any.
pub fn piece_kind_on(f: &BoardFacts, sq: u8) -> (r: Option<PieceKind>)
    requires
        sq < 64,
    ensures
        r == spec_piece_kind_on(*f, sq as u64),
{
    let s = sq as u64;
    if ((f.white_pawns | f.black_pawns) >> s) & 1u64 == 1u64 {
        Some(PieceKind::Pawn)
    } else if ((f.white_knights | f.black_knights) >> s) & 1u64 == 1u64 {
        Some(PieceKind::Knight)
    } else if ((f.white_bishops | f.black_bishops) >> s) & 1u64 == 1u64 {
        Some(PieceKind::Bishop)
    } else if ((f.white_rooks | f.black_rooks) >> s) & 1u64 == 1u64 {
        Some(PieceKind::Rook)
    } else if ((f.white_queens | f.black_queens) >> s) & 1u64 == 1u64 {
        Some(PieceKind::Queen)
    } else if ((f.white_king | f.black_king) >> s) & 1u64 == 1u64 {
        Some(PieceKind::King)
    } else {
        None
    }
}

/// The middlegame value of whatever stands on `dest`, as the gain of a
/// capture landing there.
pub open spec fn spec_gain(f: BoardFacts, dest: u64) -> int {
    match spec_piece_kind_on(f, dest) {
        Some(kind) => crate::constants::spec_piece_value(kind, false),
        None => 0,
    }
}

/// The middlegame value of whatever stands on `dest`.
pub fn gain(f: &BoardFacts, dest: u8) -> (r: i32)
    requires
        dest < 64,
    ensures
        r == spec_gain(*f, dest as u64),
        0 <= r <= 975,
{
    match piece_kind_on(f, dest) {
        Some(kind) => piece_value(kind, false),
        None => 0,
    }
}

/// Is the move one that late-move reduction must not shorten: a capture,
/// a check or check evasion, a promotion, a far pawn push, or castling?
fn is_interesting(board: &chess::Board, facts: &BoardFacts, m: &chess::ChessMove) -> bool {
    let source = move_source(m);
    let dest = move_dest(m);
    let src_kind = piece_kind_on(facts, source);
    let white_mover = facts.white_to_move;
    let pawn_push = match src_kind {
        Some(PieceKind::Pawn) => true,
        _ => false,
    };
    let far_push = pawn_push && ((white_mover && dest >= 40) || (!white_mover && dest < 24));
    let king_move = match src_kind {
        Some(PieceKind::King) => true,
        _ => false,
    };
    let castle = king_move && (dest == 6 || dest == 2 || dest == 62 || dest == 58);
    let promotion = match crate::boardlib::move_promotion(m) {
        Some(_) => true,
        None => false,
    };
    checkers_bits(board) != 0 || is_capture(board, m) || promotion || is_check(board, m) || far_push
        || castle
}

/// How many plies a late, quiet move is searched shallower: one at depth
/// three and four, a quarter of the depth from depth five up.
fn late_move_reduction(board: &chess::Board, facts: &BoardFacts, m: &chess::ChessMove, depth: u8) -> (r:
    u8)
    ensures
        depth >= 3 ==> r + 1 <= depth,
        depth < 3 ==> r == 0,
        r == 0 || (depth >= 5 && r == depth / 4) || (3 <= depth < 5 && r == 1),
{
    if depth >= 3 {
        if !is_interesting(board, facts, m) {
            if depth >= 5 {
                depth / 4
            } else {
                1
            }
        } else {
            0
        }
    } else {
        0
    }
}

/// The loss reported at a node whose mover has no move and stands in
/// check: minus the mate score, minus the remaining depth, so that
/// within one iteration a mate found nearer the root weighs more.
pub open spec fn spec_mated_score(depth: u8) -> int {
    -MATE_SCORE - depth as int
}

/// The standing score of a position: the static evaluation plus the
/// pawn-structure score, folded to the side to move.
pub open spec fn spec_stand_pat(f: BoardFacts) -> int {
    spec_evaluate(f) + if f.white_to_move {
        spec_evaluate_pawn_structure(f.black_pawns, f.white_pawns, f.spec_endgame())
    } else {
        -spec_evaluate_pawn_structure(f.black_pawns, f.white_pawns, f.spec_endgame())
    }
}

/// Resolves a noisy position by searching captures and checks only, with
/// the static evaluation as the standing score.
pub fn quiesce(
    board: &chess::Board,
    alpha: i32,
    beta: i32,
    cap: u8,
    info: &mut SearchInfo,
    pawn_table: &mut PawnCache,
) -> (r: i32)
    requires
        old(pawn_table).wf(),
        -SCORE_BOUND <= alpha < beta <= SCORE_BOUND,
    ensures
        final(pawn_table).wf(),
        final(pawn_table).spec_capacity() == old(pawn_table).spec_capacity(),
        counters_le(*old(info), *final(info)),
        -SCORE_BOUND <= r <= SCORE_BOUND,
        facts_of(*board).status is Checkmate ==> r == -MATE_SCORE,
        facts_of(*board).status is Stalemate ==> r == 0,
        facts_of(*board).status is Ongoing && spec_stand_pat(facts_of(*board)) >= beta ==> r
            == beta,
        facts_of(*board).status is Ongoing && spec_stand_pat(facts_of(*board)) < alpha - BIG_DELTA
            ==> r == alpha,
        facts_of(*board).status is Ongoing && cap == 0 && alpha - BIG_DELTA <= spec_stand_pat(
            facts_of(*board),
        ) < beta ==> r == spec_stand_pat(facts_of(*board)),
        facts_of(*board).status is Ongoing && alpha == beta - 1 && cap > 0 ==> r == beta || r
            == beta - 1,
        facts_of(*board).status is Ongoing && cap > 0 && alpha - BIG_DELTA <= spec_stand_pat(
            facts_of(*board),
        ) < beta ==> (if alpha < spec_stand_pat(facts_of(*board)) {
            spec_stand_pat(facts_of(*board))
        } else {
            alpha as int
        }) <= r <= beta,
    decreases cap,
{
    info.nodes_searched = bump(info.nodes_searched);
    let facts = extract_facts(board);
    match facts.status {
        GameStatus::Checkmate => {
            // the mover is mated here: the evaluation's terminal value
            return -MATE_SCORE;
        },
        GameStatus::Stalemate => {
            return 0;
        },
        GameStatus::Ongoing => {},
    }
    let stand_pat = evaluate(&facts) + pawn_table_lookup(&facts, pawn_table, info);
    if stand_pat >= beta {
        return beta;
    }
    if stand_pat < alpha - BIG_DELTA {
        return alpha;
    }
    let mut best = if alpha < stand_pat {
        stand_pat
    } else {
        alpha
    };
    if cap == 0 {
        return stand_pat;
    }
    let moves = legal_moves(board);
    let mut i: usize = 0;
    while i < moves.len()
        invariant
            old(pawn_table).wf() ==> pawn_table.wf(),
            pawn_table.wf(),
            pawn_table.spec_capacity() == old(pawn_table).spec_capacity(),
            counters_le(*old(info), *info),
            -SCORE_BOUND <= best < beta,
            -SCORE_BOUND < beta <= SCORE_BOUND,
            cap >= 1,
            alpha == beta - 1 ==> best == beta - 1,
            facts_of(*board).status is Ongoing,
            alpha - BIG_DELTA <= spec_stand_pat(facts_of(*board)) < beta,
            spec_stand_pat(facts_of(*board)) <= best,
            alpha <= best,
            alpha < beta,
        decreases moves.len() - i,
    {
        let m = &moves[i];
        if is_capture(board, m) || is_check(board, m) {
            if let Some(child) = make_move(board, m) {
                let score = -quiesce(&child, -beta, -best, cap - 1, info, pawn_table);
                if score >= beta {
                    return beta;
                }
                if score > best {
                    best = score;
                }
            }
        }
        i = i + 1;
    }
    best
}

/// Replaces `dst` with `head` followed by `tail`.
fn set_line(dst: &mut Vec<chess::ChessMove>, head: &chess::ChessMove, tail: &Vec<chess::ChessMove>) {
    dst.clear();
    dst.push(*head);
    let mut i: usize = 0;
    while i < tail.len()
        decreases tail.len() - i,
    {
        let m: chess::ChessMove = tail[i];
        dst.push(m);
        i = i + 1;
    }
}

/// Orders a node's moves: captures and checks first, the rest after,
/// stable within each group; no move appears or disappears.
fn captures_and_checks_first(board: &chess::Board, moves: Vec<chess::ChessMove>) -> (r: Vec<
    chess::ChessMove,
>)
    ensures
        r@.len() == moves@.len(),
        r@.to_multiset() == moves@.to_multiset(),
{
    broadcast use vstd::seq_lib::group_to_multiset_ensures;

    let mut noisy: Vec<chess::ChessMove> = Vec::new();
    let mut quiet: Vec<chess::ChessMove> = Vec::new();
    let mut i: usize = 0;
    while i < moves.len()
        invariant
            noisy@.len() + quiet@.len() == i,
            i <= moves@.len(),
            noisy@.to_multiset().add(quiet@.to_multiset()) == moves@.take(i as int).to_multiset(),
        decreases moves.len() - i,
    {
        broadcast use vstd::seq_lib::group_to_multiset_ensures;

        let ghost prefix = moves@.take(i as int);
        let m: chess::ChessMove = moves[i];
        proof {
            assert(moves@.take(i as int + 1) =~= prefix.push(moves@[i as int]));
        }
        if is_capture(board, &m) || is_check(board, &m) {
            noisy.push(m);
            proof {
                assert(noisy@.to_multiset().add(quiet@.to_multiset()) =~= moves@.take(
                    i as int + 1,
                ).to_multiset());
            }
        } else {
            quiet.push(m);
            proof {
                assert(noisy@.to_multiset().add(quiet@.to_multiset()) =~= moves@.take(
                    i as int + 1,
                ).to_multiset());
            }
        }
        i = i + 1;
    }
    proof {
        assert(moves@.take(moves@.len() as int) =~= moves@);
        assert(quiet@.skip(0) =~= quiet@);
    }
    let mut j: usize = 0;
    while j < quiet.len()
        invariant
            noisy@.len() == moves@.len() - quiet@.len() + j,
            j <= quiet@.len(),
            quiet@.len() <= moves@.len(),
            noisy@.to_multiset().add(quiet@.skip(j as int).to_multiset()) == moves@.to_multiset(),
        decreases quiet.len() - j,
    {
        broadcast use vstd::seq_lib::group_to_multiset_ensures;
        broadcast use vstd::multiset::group_multiset_axioms;

        let ghost tail = quiet@.skip(j as int);
        let m: chess::ChessMove = quiet[j];
        proof {
            // removing the head of the tail leaves the rest of the tail
            assert(tail.remove(0) =~= quiet@.skip(j as int + 1));
            assert(tail.remove(0).to_multiset() =~= tail.to_multiset().remove(tail[0]));
            assert(tail[0] == quiet@[j as int]);
            assert(tail.to_multiset().count(tail[0]) > 0) by {
                assert(tail.contains(tail[0]));
            }
        }
        noisy.push(m);
        proof {
            assert(noisy@.to_multiset().add(quiet@.skip(j as int + 1).to_multiset())
                =~= moves@.to_multiset());
        }
        j = j + 1;
    }
    proof {
        assert(quiet@.skip(quiet@.len() as int) =~= Seq::<chess::ChessMove>::empty());
    }
    noisy
}


/// Fail-hard zero-window probe around `beta`: answers `beta` on a
/// cutoff and `beta - 1` otherwise, apart from terminal positions.
pub fn zero_window_search(
    board: &chess::Board,
    beta: i32,
    depth: u8,
    info: &mut SearchInfo,
    cache: &mut TransTable,
    pawn_table: &mut PawnCache,
) -> (r: i32)
    requires
        old(cache).wf(),
        old(pawn_table).wf(),
        -SCORE_BOUND < beta <= SCORE_BOUND,
        depth <= 120,
    ensures
        final(cache).wf(),
        final(cache).spec_capacity() == old(cache).spec_capacity(),
        final(pawn_table).wf(),
        final(pawn_table).spec_capacity() == old(pawn_table).spec_capacity(),
        counters_le(*old(info), *final(info)),
        -SCORE_BOUND <= r <= SCORE_BOUND,
        (forall|h: u64| old(cache).spec_lookup(h) is None) && legal_of(*board).len() == 0
            && facts_of(*board).status is Checkmate ==> r == (if depth == 0 {
            -MATE_SCORE as int
        } else {
            spec_mated_score(depth)
        }),
        (forall|h: u64| old(cache).spec_lookup(h) is None) && legal_of(*board).len() == 0
            && facts_of(*board).status is Stalemate ==> r == 0,
        (forall|h: u64| old(cache).spec_lookup(h) is None) && legal_of(*board).len() > 0
            && facts_of(*board).status is Ongoing ==> r == beta || r == beta - 1,
        old(cache).spec_capacity() > 0 && (forall|h: u64| old(cache).spec_lookup(h) is None)
            && legal_of(*board).len() > 0 && depth >= 1 ==> {
            ||| final(cache).spec_lookup(hash_of(*board)) == Some(
                (Entry { node_type: Nodetype::CutNode, depth: depth, score: beta }),
            ) && r == beta
            ||| final(cache).spec_lookup(hash_of(*board)) == Some(
                (Entry { node_type: Nodetype::AllNode, depth: depth, score: (beta - 1) as i32 }),
            ) && r == beta - 1
        },
    decreases depth,
{
    if depth == 0 {
        return quiesce(board, beta - 1, beta, 6, info, pawn_table);
    }
    let hash = board_hash(board);
    if let Some(raw) = cache.probe(hash, depth, beta - 1, beta) {
        // a stored mate bound has no exact distance; only plain scores cut
        if -MATE_SCORE < raw && raw < MATE_SCORE {
            info.transpostions_used = bump(info.transpostions_used);
            return raw;
        }
    }
    let moves = legal_moves(board);
    if moves.len() == 0 {
        let facts = extract_facts(board);
        if matches!(facts.status, GameStatus::Stalemate) {
            return 0;
        }
        return -MATE_SCORE - depth as i32;
    }
    let ordered = captures_and_checks_first(board, moves);
    let mut i: usize = 0;
    while i < ordered.len()
        invariant
            cache.wf(),
            cache.spec_capacity() == old(cache).spec_capacity(),
            pawn_table.wf(),
            pawn_table.spec_capacity() == old(pawn_table).spec_capacity(),
            counters_le(*old(info), *info),
            -SCORE_BOUND < beta <= SCORE_BOUND,
            1 <= depth <= 120,
            legal_of(*board).len() > 0,
            hash == hash_of(*board),
        decreases ordered.len() - i,
    {
        let m = &ordered[i];
        let child = match make_move(board, m) {
            Some(b) => b,
            None => {
                i = i + 1;
                continue ;
            },
        };
        let score = -zero_window_search(&child, 1 - beta, depth - 1, info, cache, pawn_table);
        if score >= beta {
            cache.store(hash, Entry { node_type: Nodetype::CutNode, depth, score: beta });
            info.transpostions_recorded = bump(info.transpostions_recorded);
            return beta;
        }
        i = i + 1;
    }
    cache.store(hash, Entry { node_type: Nodetype::AllNode, depth, score: beta - 1 });
    info.transpostions_recorded = bump(info.transpostions_recorded);
    beta - 1
}

/// Principal-variation search: the first move is searched with the full
/// window, later moves with a reduced zero-window scout and a re-search
/// on a fail-high, with null-move pruning and futility pruning.
pub fn pv_search(
    board: &chess::Board,
    alpha: i32,
    beta: i32,
    depth: u8,
    cache: &mut TransTable,
    info: &mut SearchInfo,
    pawn_table: &mut PawnCache,
    pvline: &mut Vec<chess::ChessMove>,
) -> (r: i32)
    requires
        old(cache).wf(),
        old(pawn_table).wf(),
        -SCORE_BOUND <= alpha < beta <= SCORE_BOUND,
        depth <= 120,
    ensures
        final(cache).wf(),
        final(cache).spec_capacity() == old(cache).spec_capacity(),
        final(pawn_table).wf(),
        final(pawn_table).spec_capacity() == old(pawn_table).spec_capacity(),
        counters_le(*old(info), *final(info)),
        -SCORE_BOUND <= r <= SCORE_BOUND,
        (forall|h: u64| old(cache).spec_lookup(h) is None) && legal_of(*board).len() == 0
            && facts_of(*board).status is Checkmate ==> r == (if depth == 0 {
            -MATE_SCORE as int
        } else {
            spec_mated_score(depth)
        }),
        (forall|h: u64| old(cache).spec_lookup(h) is None) && legal_of(*board).len() == 0
            && facts_of(*board).status is Stalemate ==> r == 0,
        (forall|h: u64| old(cache).spec_lookup(h) is None) && legal_of(*board).len() > 0 && depth
            >= 1 ==> alpha <= r <= beta,
        (forall|h: u64| old(cache).spec_lookup(h) is None) && depth == 0 && facts_of(
            *board,
        ).status is Ongoing && spec_stand_pat(facts_of(*board)) >= beta ==> r == beta,
        (forall|h: u64| old(cache).spec_lookup(h) is None) && depth == 0 && facts_of(
            *board,
        ).status is Ongoing && spec_stand_pat(facts_of(*board)) < alpha - BIG_DELTA ==> r == alpha,
        (forall|h: u64| old(cache).spec_lookup(h) is None) && depth == 0 && facts_of(
            *board,
        ).status is Ongoing && alpha - BIG_DELTA <= spec_stand_pat(facts_of(*board)) < beta ==> (
        if alpha < spec_stand_pat(facts_of(*board)) {
            spec_stand_pat(facts_of(*board))
        } else {
            alpha as int
        }) <= r <= beta,
        old(cache).spec_capacity() > 0 && (forall|h: u64| old(cache).spec_lookup(h) is None)
            && legal_of(*board).len() > 0 && depth >= 1 ==> {
            ||| final(cache).spec_lookup(hash_of(*board)) == Some(
                (Entry { node_type: Nodetype::CutNode, depth: depth, score: beta }),
            ) && r == beta
            ||| final(cache).spec_lookup(hash_of(*board)) == Some(
                (Entry { node_type: Nodetype::Pvnode, depth: depth, score: r }),
            ) && alpha < r < beta
            ||| final(cache).spec_lookup(hash_of(*board)) == Some(
                (Entry { node_type: Nodetype::AllNode, depth: depth, score: r }),
            ) && r == alpha
            ||| r == beta
        },
    decreases depth,
{
    info.nodes_searched = bump(info.nodes_searched);
    let hash = board_hash(board);
    if let Some(raw) = cache.probe(hash, depth, alpha, beta) {
        // a stored mate bound has no exact distance; only plain scores cut
        if -MATE_SCORE < raw && raw < MATE_SCORE {
            info.transpostions_used = bump(info.transpostions_used);
            return raw;
        }
    }
    if depth == 0 {
        pvline.clear();
        return quiesce(board, alpha, beta, 6, info, pawn_table);
    }
    let moves = legal_moves(board);
    let facts = extract_facts(board);

    // a position without a legal move answers before any pruning
    if moves.len() == 0 {
        if matches!(facts.status, GameStatus::Stalemate) {
            return 0;
        }
        return -MATE_SCORE - depth as i32;
    }
    let in_check = checkers_bits(board) != 0;

    // null-move pruning: hand the move over and probe with a null window;
    // a window already at mate scores is left to the full search
    if depth >= 3 && !in_check && -MATE_SCORE < beta && beta < MATE_SCORE {
        if let Some(null_board) = null_move_board(board) {
            let mut line: Vec<chess::ChessMove> = Vec::new();
            let score = -pv_search(
                &null_board,
                -beta,
                -beta + 1,
                depth - 3,
                cache,
                info,
                pawn_table,
                &mut line,
            );
            if score >= beta {
                return beta;
            }
        }
    }
    // futility flags from the cheap material balance; a window already
    // at mate scores must not prune the quiet moves of a mating line
    let balance = material_balance(&facts);
    let mut fprune = false;
    let mut fmax: i32 = 9999;
    let plain_window = -MATE_SCORE < alpha && alpha < MATE_SCORE;
    if plain_window && !in_check && depth == 3 && balance + RAZORING_MARGIN <= alpha {
        fprune = true;
        fmax = balance + RAZORING_MARGIN;
    }
    if plain_window && !in_check && depth == 2 && balance + EXTENDED_FUTILITY_MARGIN <= alpha {
        fprune = true;
        fmax = balance + EXTENDED_FUTILITY_MARGIN;
    }
    if plain_window && !in_check && depth == 1 && balance + FUTILITY_MARGIN <= alpha {
        fprune = true;
        fmax = balance + FUTILITY_MARGIN;
    }
    let ordered = captures_and_checks_first(board, moves);
    let mut best = alpha;
    let mut improved = false;
    let mut line: Vec<chess::ChessMove> = Vec::new();
    let mut i: usize = 0;
    while i < ordered.len()
        invariant
            cache.wf(),
            cache.spec_capacity() == old(cache).spec_capacity(),
            pawn_table.wf(),
            pawn_table.spec_capacity() == old(pawn_table).spec_capacity(),
            counters_le(*old(info), *info),
            -SCORE_BOUND <= alpha <= best < beta,
            -SCORE_BOUND < beta <= SCORE_BOUND,
            1 <= depth <= 120,
            -400_900 <= fmax <= 401_000,
            legal_of(*board).len() > 0,
            hash == hash_of(*board),
            improved <==> best > alpha,
        decreases ordered.len() - i,
    {
        let m = &ordered[i];
        let mut score: i32;
        if i == 0 {
            let child = match make_move(board, m) {
                Some(b) => b,
                None => {
                    i = i + 1;
                    continue ;
                },
            };
            score = -pv_search(
                &child,
                -beta,
                -best,
                depth - 1,
                cache,
                info,
                pawn_table,
                &mut line,
            );
        } else {
            // a futile quiet move that cannot lift the score is skipped
            if fprune && !is_check(board, m) && fmax + gain(&facts, move_dest(m)) <= best {
                i = i + 1;
                continue ;
            }
            let reduction = late_move_reduction(board, &facts, m, depth);
            let child = match make_move(board, m) {
                Some(b) => b,
                None => {
                    i = i + 1;
                    continue ;
                },
            };
            score = -zero_window_search(
                &child,
                -best,
                depth - 1 - reduction,
                info,
                cache,
                pawn_table,
            );
            if score > best {
                score = -pv_search(
                    &child,
                    -beta,
                    -best,
                    depth - 1,
                    cache,
                    info,
                    pawn_table,
                    &mut line,
                );
            }
        }
        if score >= beta {
            cache.store(hash, Entry { node_type: Nodetype::CutNode, depth, score: beta });
            info.transpostions_recorded = bump(info.transpostions_recorded);
            return beta;
        }
        if score > best {
            best = score;
            improved = true;
            set_line(pvline, m, &line);
        }
        i = i + 1;
    }
    let node_type = if improved {
        Nodetype::Pvnode
    } else {
        Nodetype::AllNode
    };
    cache.store(hash, Entry { node_type, depth, score: best });
    info.transpostions_recorded = bump(info.transpostions_recorded);
    best
}

/// Does some table entry carry exactly this score?
pub open spec fn spec_attains(score: i32, table: Seq<(chess::ChessMove, i32)>) -> bool {
    exists|j: int| 0 <= j < table.len() && (#[trigger] table[j]).1 == score
}

/// Does the table hold exactly this move-score pair?
pub open spec fn spec_attains_pair(
    m: chess::ChessMove,
    score: i32,
    table: Seq<(chess::ChessMove, i32)>,
) -> bool {
    exists|j: int| 0 <= j < table.len() && #[trigger] table[j] == (m, score)
}

/// Is the table ordered by score, best first?
pub open spec fn spec_sorted_desc(s: Seq<(chess::ChessMove, i32)>) -> bool {
    forall|i: int, j: int| 0 <= i < j < s.len() ==> (#[trigger] s[i]).1 >= (#[trigger] s[j]).1
}

/// Sorts a root table by score, best first: the result is ordered and
/// holds exactly the given pairs.
fn sort_table_desc(table: Vec<(chess::ChessMove, i32)>) -> (r: Vec<(chess::ChessMove, i32)>)
    ensures
        r@.len() == table@.len(),
        r@.to_multiset() == table@.to_multiset(),
        spec_sorted_desc(r@),
{
    broadcast use vstd::seq_lib::group_to_multiset_ensures;
    broadcast use vstd::multiset::group_multiset_axioms;

    let mut rest: Vec<(chess::ChessMove, i32)> = table;
    let mut out: Vec<(chess::ChessMove, i32)> = Vec::new();
    while rest.len() > 0
        invariant
            out@.len() + rest@.len() == table@.len(),
            out@.to_multiset().add(rest@.to_multiset()) == table@.to_multiset(),
            spec_sorted_desc(out@),
            forall|a: int, b: int|
                0 <= a < out@.len() && 0 <= b < rest@.len() ==> (#[trigger] out@[a]).1 >= (
                #[trigger] rest@[b]).1,
        decreases rest.len(),
    {
        broadcast use vstd::seq_lib::group_to_multiset_ensures;
        broadcast use vstd::multiset::group_multiset_axioms;

        // pick the best remaining score
        let mut best_ix: usize = 0;
        let mut k: usize = 1;
        while k < rest.len()
            invariant
                rest@.len() > 0,
                best_ix < k <= rest@.len() || (best_ix == 0 && k <= rest@.len()),
                best_ix < rest@.len(),
                forall|j: int| 0 <= j < k ==> (#[trigger] rest@[j]).1 <= rest@[best_ix as int].1,
            decreases rest.len() - k,
        {
            if rest[k].1 > rest[best_ix].1 {
                best_ix = k;
            }
            k = k + 1;
        }
        let ghost before = rest@;
        let item = rest.remove(best_ix);
        out.push(item);
        proof {
            assert(before.to_multiset().count(item) > 0) by {
                assert(before.contains(item));
            }
            assert(rest@.to_multiset() =~= before.to_multiset().remove(item));
            assert(out@.to_multiset().add(rest@.to_multiset()) =~= table@.to_multiset());
            // every element left behind was at or below the picked score
            assert forall|b: int| 0 <= b < rest@.len() implies (#[trigger] rest@[b]).1 <= item.1 by {
                if b < best_ix {
                    assert(rest@[b] == before[b]);
                } else {
                    assert(rest@[b] == before[b + 1]);
                }
            }
        }
    }
    out
}

/// Orders the root moves: the previous iteration's best move first, then
/// captures and checks, then the rest, stable within the groups. At
/// shallow depths a fully ordered table of the previous iteration takes
/// over instead.
fn order_root_moves(
    board: &chess::Board,
    moves: Vec<chess::ChessMove>,
    sorted_moves: &Option<Vec<(chess::ChessMove, i32)>>,
    best_previous: &Option<chess::ChessMove>,
    depth: u8,
) -> (r: Vec<chess::ChessMove>)
    ensures
        sorted_moves is None || depth >= 4 ==> r@.to_multiset() == moves@.to_multiset(),
{
    broadcast use vstd::seq_lib::group_to_multiset_ensures;
    broadcast use vstd::multiset::group_multiset_axioms;

    if depth < 4 {
        if let Some(prior) = sorted_moves {
            let mut from_prior: Vec<chess::ChessMove> = Vec::new();
            let mut i: usize = 0;
            while i < prior.len()
                decreases prior.len() - i,
            {
                from_prior.push(prior[i].0);
                i = i + 1;
            }
            if from_prior.len() > 0 {
                return from_prior;
            }
        }
    }
    let mut head: Vec<chess::ChessMove> = Vec::new();
    let mut rest: Vec<chess::ChessMove> = Vec::new();
    let mut i: usize = 0;
    while i < moves.len()
        invariant
            i <= moves@.len(),
            head@.to_multiset().add(rest@.to_multiset()) == moves@.take(i as int).to_multiset(),
        decreases moves.len() - i,
    {
        broadcast use vstd::seq_lib::group_to_multiset_ensures;

        let ghost prefix = moves@.take(i as int);
        let m: chess::ChessMove = moves[i];
        proof {
            assert(moves@.take(i as int + 1) =~= prefix.push(moves@[i as int]));
        }
        let is_best = match best_previous {
            Some(b) => crate::boardlib::same_move(&m, b) && head.len() == 0,
            None => false,
        };
        if is_best {
            head.push(m);
            proof {
                assert(head@.to_multiset().add(rest@.to_multiset()) =~= moves@.take(
                    i as int + 1,
                ).to_multiset());
            }
        } else {
            rest.push(m);
            proof {
                assert(head@.to_multiset().add(rest@.to_multiset()) =~= moves@.take(
                    i as int + 1,
                ).to_multiset());
            }
        }
        i = i + 1;
    }
    proof {
        assert(moves@.take(moves@.len() as int) =~= moves@);
    }
    let ordered_rest = captures_and_checks_first(board, rest);
    proof {
        assert(ordered_rest@.skip(0) =~= ordered_rest@);
    }
    let mut j: usize = 0;
    while j < ordered_rest.len()
        invariant
            j <= ordered_rest@.len(),
            head@.to_multiset().add(ordered_rest@.skip(j as int).to_multiset())
                == moves@.to_multiset(),
        decreases ordered_rest.len() - j,
    {
        broadcast use vstd::seq_lib::group_to_multiset_ensures;
        broadcast use vstd::multiset::group_multiset_axioms;

        let ghost tail = ordered_rest@.skip(j as int);
        let m: chess::ChessMove = ordered_rest[j];
        proof {
            assert(tail.remove(0) =~= ordered_rest@.skip(j as int + 1));
            assert(tail.remove(0).to_multiset() =~= tail.to_multiset().remove(tail[0]));
            assert(tail[0] == ordered_rest@[j as int]);
            assert(tail.to_multiset().count(tail[0]) > 0) by {
                assert(tail.contains(tail[0]));
            }
        }
        head.push(m);
        proof {
            assert(head@.to_multiset().add(ordered_rest@.skip(j as int + 1).to_multiset())
                =~= moves@.to_multiset());
        }
        j = j + 1;
    }
    proof {
        assert(ordered_rest@.skip(ordered_rest@.len() as int) =~= Seq::<chess::ChessMove>::empty());
    }
    head
}

/// One root search at a fixed depth: orders the root moves, searches each
/// with the principal-variation scheme, reports progress, and stops on
/// the time budget. Answers the best move and score, the scored move
/// table for the next iteration's ordering, the counters, and whether
/// the budget cut the iteration short.
#[verifier::rlimit(60)]
pub fn search_depth(
    board: &chess::Board,
    depth: u8,
    sorted_moves: &Option<Vec<(chess::ChessMove, i32)>>,
    max_time: u128,
    best_previous: (Option<chess::ChessMove>, i32),
    cachetable: &mut TransTable,
    pawn_table: &mut PawnCache,
) -> (r: (Option<chess::ChessMove>, i32, Vec<(chess::ChessMove, i32)>, SearchInfo, bool))
    requires
        old(cachetable).wf(),
        old(pawn_table).wf(),
        1 <= depth <= 100,
        -SCORE_BOUND < best_previous.1 <= SCORE_BOUND,
    ensures
        final(cachetable).wf(),
        final(cachetable).spec_capacity() == old(cachetable).spec_capacity(),
        final(pawn_table).wf(),
        final(pawn_table).spec_capacity() == old(pawn_table).spec_capacity(),
        -SCORE_BOUND <= r.1 <= SCORE_BOUND,
        r.1 >= -MATE_SCORE,
        !r.4 ==> spec_sorted_desc(r.2@),
        !r.4 ==> forall|j: int| 0 <= j < r.2@.len() ==> (#[trigger] r.2@[j]).1 <= r.1,
        !r.4 && r.1 > -MATE_SCORE ==> spec_attains(r.1, r.2@),
        !r.4 && r.1 > -MATE_SCORE ==> r.0 is Some,
        r.0 matches Some(m) ==> legal_in(*board, m),
        r.0 matches Some(m) ==> spec_attains_pair(m, r.1, r.2@),
        r.4 && r.0 is Some ==> r.1 >= best_previous.1 + 100,
        r.4 && r.0 is None ==> r.1 == -MATE_SCORE,
        max_time == 0xffff_ffff_ffff_ffff_ffff_ffff_ffff_ffff ==> r.4 == false,
        !r.4 && ((*sorted_moves) is None || depth >= 4) ==> r.2@.len() == legal_of(*board).len(),
        legal_of(*board).len() == 0 && ((*sorted_moves) is None || depth >= 4) ==> r.0 is None
            && r.4 == false,
{
    broadcast use vstd::seq_lib::group_to_multiset_ensures;

    let mut best_move: Option<chess::ChessMove> = None;
    let mut best_score: i32 = -MATE_SCORE;
    let mut alpha: i32 = -1_000_000;
    let beta: i32 = 1_000_000;
    let mut pvline: Vec<chess::ChessMove> = Vec::new();
    let mut line: Vec<chess::ChessMove> = Vec::new();
    let mut table: Vec<(chess::ChessMove, i32)> = Vec::new();
    let mut info = SearchInfo::new();
    let moves = legal_moves(board);
    let ordered = order_root_moves(board, moves, sorted_moves, &best_previous.0, depth);
    let mut time_spent: u128 = 0;
    let mut checked_previous_best = false;
    let mut bad_last_move = false;
    let best_previous_score = best_previous.1;
    let mut i: usize = 0;
    while i < ordered.len()
        invariant
            cachetable.wf(),
            cachetable.spec_capacity() == old(cachetable).spec_capacity(),
            pawn_table.wf(),
            pawn_table.spec_capacity() == old(pawn_table).spec_capacity(),
            -1_000_000 <= alpha < beta,
            beta == 1_000_000,
            -SCORE_BOUND <= best_score <= SCORE_BOUND,
            best_score >= -MATE_SCORE,
            -SCORE_BOUND < best_previous_score <= SCORE_BOUND,
            best_previous_score == best_previous.1,
            1 <= depth <= 100,
            i <= ordered@.len(),
            table@.len() <= i,
            ((*sorted_moves) is None || depth >= 4) ==> table@.len() == i,
            ((*sorted_moves) is None || depth >= 4) ==> ordered@.to_multiset() == legal_of(
                *board,
            ).to_multiset(),
            forall|k: int|
                0 <= k < legal_of(*board).len() ==> legal_in(
                    *board,
                    #[trigger] legal_of(*board)[k],
                ),
            forall|j: int| 0 <= j < table@.len() ==> (#[trigger] table@[j]).1 <= best_score,
            best_score == -MATE_SCORE || exists|j: int|
                0 <= j < table@.len() && (#[trigger] table@[j]).1 == best_score,
            alpha == -1_000_000 || best_move is Some,
            alpha <= best_score,
            best_score > -MATE_SCORE ==> best_move is Some,
            best_move matches Some(bm) ==> legal_in(*board, bm),
            best_move matches Some(bm) ==> spec_attains_pair(bm, best_score, table@),
            i == 0 ==> best_move is None && best_score == -MATE_SCORE,
        decreases ordered.len() - i,
    {
        broadcast use vstd::seq_lib::group_to_multiset_ensures;

        let started = crate::boardlib::now_instant();
        let m = &ordered[i];
        let child = match make_move(board, m) {
            Some(b) => b,
            None => {
                proof {
                    if (*sorted_moves) is None || depth >= 4 {
                        // the root moves came from the legal-move list,
                        // so an illegal one cannot occur here
                        assert(ordered@.to_multiset().count(ordered@[i as int]) > 0) by {
                            assert(ordered@.contains(ordered@[i as int]));
                        }
                        assert(legal_of(*board).contains(ordered@[i as int]));
                        let k = choose|k: int|
                            0 <= k < legal_of(*board).len() && legal_of(*board)[k] == ordered@[
                            i as int];
                        assert(legal_in(*board, legal_of(*board)[k]));
                        assert(false);
                    }
                }
                i = i + 1;
                continue ;
            },
        };
        let board_value = -pv_search(
            &child,
            -beta,
            -alpha,
            depth - 1,
            cachetable,
            &mut info,
            pawn_table,
            &mut line,
        );
        if !checked_previous_best {
            let matches_previous = match &best_previous.0 {
                Some(b) => crate::boardlib::same_move(m, b),
                None => false,
            };
            if matches_previous {
                if best_previous_score > board_value && best_previous_score - board_value > 100 {
                    bad_last_move = true;
                }
                checked_previous_best = true;
            }
        }
        let ghost table_before = table@;
        table.push((*m, board_value));
        proof {
            assert(table@[table_before.len() as int].1 == board_value);
            assert(forall|j: int| 0 <= j < table_before.len() ==> table@[j] == table_before[j]);
        }
        if board_value > best_score {
            best_score = board_value;
            if board_value > alpha {
                best_move = Some(*m);
                set_line(&mut pvline, m, &line);
                if board_value < beta {
                    alpha = board_value;
                }
            }
        }
        if best_move.is_some() {
            crate::boardlib::emit_search_info(depth, best_score, &pvline);
        }
        let elapsed = crate::boardlib::duration_millis(&crate::boardlib::elapsed_of(&started));
        time_spent = if time_spent <= 0xffff_ffff_ffff_ffff_ffff_ffff_ffff_ffff - elapsed {
            time_spent + elapsed
        } else {
            time_spent
        };
        if !bad_last_move && time_spent > max_time {
            // the budget is gone: adopt this partial iteration only if it
            // improved clearly on the previous one
            if best_score >= best_previous_score + 100 {
                return (best_move, best_score, table, info, true);
            }
            return (None, -MATE_SCORE, table, info, true);
        }
        i = i + 1;
    }
    proof {
        if (*sorted_moves) is None || depth >= 4 {
            assert(ordered@.len() == ordered@.to_multiset().len());
            assert(legal_of(*board).len() == legal_of(*board).to_multiset().len());
        }
    }
    let ghost final_table = table@;
    let ghost attained: int = if best_score > -MATE_SCORE {
        choose|j: int| 0 <= j < table@.len() && (#[trigger] table@[j]).1 == best_score
    } else {
        0
    };
    let ghost pair_at: int = if best_move is Some {
        choose|j: int|
            0 <= j < table@.len() && #[trigger] table@[j] == (best_move->0, best_score)
    } else {
        0
    };
    proof {
        if best_score > -MATE_SCORE {
            assert(0 <= attained < final_table.len() && final_table[attained].1 == best_score);
        }
        if best_move is Some {
            assert(0 <= pair_at < final_table.len() && final_table[pair_at] == (
            best_move->0,
            best_score,
            ));
        }
    }
    let sorted = sort_table_desc(table);
    proof {
        // the bound and the attained score survive the reordering
        assert forall|j: int| 0 <= j < sorted@.len() implies (#[trigger] sorted@[j]).1
            <= best_score by {
            assert(sorted@.contains(sorted@[j]));
            assert(sorted@.to_multiset().count(sorted@[j]) > 0);
            assert(final_table.to_multiset().count(sorted@[j]) > 0);
            assert(final_table.contains(sorted@[j]));
            let k = choose|k: int| 0 <= k < final_table.len() && final_table[k] == sorted@[j];
            assert(final_table[k].1 <= best_score);
        }
        if best_score > -MATE_SCORE {
            assert(final_table.contains(final_table[attained]));
            assert(final_table.to_multiset().count(final_table[attained]) > 0);
            assert(sorted@.to_multiset().count(final_table[attained]) > 0);
            assert(sorted@.contains(final_table[attained]));
            let k = choose|k: int| 0 <= k < sorted@.len() && sorted@[k] == final_table[attained];
            assert((sorted@[k]).1 == best_score);
            assert(spec_attains(best_score, sorted@));
        }
        if best_move is Some {
            assert(final_table.contains(final_table[pair_at]));
            assert(final_table.to_multiset().count(final_table[pair_at]) > 0);
            assert(sorted@.to_multiset().count(final_table[pair_at]) > 0);
            assert(sorted@.contains(final_table[pair_at]));
            let k = choose|k: int| 0 <= k < sorted@.len() && sorted@[k] == final_table[pair_at];
            assert(sorted@[k] == (best_move->0, best_score));
            assert(spec_attains_pair(best_move->0, best_score, sorted@));
        }
    }
    (best_move, best_score, sorted, info, false)
}

} // verus!
