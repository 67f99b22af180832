//! The opening book: the packed polyglot move, the binary record codec,
//! and the weighted choice among the book's moves for a position.

use vstd::prelude::*;

verus! {

use crate::boardlib::random_below;
use std::collections::HashMap;
use vstd::string::StrSliceExecFns;
use vstd::string::StringExecFns;

/// A piece a pawn may promote to.
#[derive(Debug, Clone, Copy, PartialEq, Eq, Structural)]
pub enum PromotionPiece {
    Queen,
    Rook,
    Bishop,
    Knight,
}

/// A book move packed into sixteen bits: to-file, to-rank, from-file,
/// from-rank and promotion piece, three bits each from the low end.
#[derive(Debug, Clone, Copy, PartialEq, Eq, Structural)]
pub struct Move(pub u16);

/// One sixteen-byte book record.
#[derive(Debug, Clone, Copy, PartialEq, Eq, Structural)]
pub struct PolyglotEntry {
    pub key: u64,
    pub move_: Move,
    pub weight: u16,
    pub learn: u32,
}

/// The packed promotion field: 0 none, 1 knight, 2 bishop, 3 rook,
/// 4 queen.
pub open spec fn spec_promotion_bits(m: Move) -> u16 {
    (m.0 / 4096) % 8
}

/// The packed promotion field holds an encoding the format defines.
pub open spec fn valid_promotion(m: Move) -> bool {
    spec_promotion_bits(m) <= 4
}

impl Move {
    /// The raw packed value.
    pub fn value(&self) -> (r: u16)
        ensures
            r == self.0,
    {
        self.0
    }

    /// The file of the destination square.
    pub fn end_file(&self) -> (r: u8)
        ensures
            r == self.0 % 8,
            r < 8,
    {
        (self.0 % 8) as u8
    }

    /// The rank of the destination square.
    pub fn end_row(&self) -> (r: u8)
        ensures
            r == (self.0 / 8) % 8,
            r < 8,
    {
        ((self.0 / 8) % 8) as u8
    }

    /// The file of the source square.
    pub fn start_file(&self) -> (r: u8)
        ensures
            r == (self.0 / 64) % 8,
            r < 8,
    {
        ((self.0 / 64) % 8) as u8
    }

    /// The rank of the source square.
    pub fn start_row(&self) -> (r: u8)
        ensures
            r == (self.0 / 512) % 8,
            r < 8,
    {
        ((self.0 / 512) % 8) as u8
    }

    /// The promotion piece, if the packed field holds one.
    pub fn promotion_piece(&self) -> (r: Option<PromotionPiece>)
        requires
            valid_promotion(*self),
        ensures
            r == spec_promotion_piece(*self),
    {
        let n = ((self.0 / 4096) % 8) as u8;
        if n == 0 {
            None
        } else if n == 1 {
            Some(PromotionPiece::Knight)
        } else if n == 2 {
            Some(PromotionPiece::Bishop)
        } else if n == 3 {
            Some(PromotionPiece::Rook)
        } else {
            Some(PromotionPiece::Queen)
        }
    }
}

/// The promotion piece the packed field encodes, if any.
pub open spec fn spec_promotion_piece(m: Move) -> Option<PromotionPiece> {
    let n = spec_promotion_bits(m);
    if n == 0 {
        None
    } else if n == 1 {
        Some(PromotionPiece::Knight)
    } else if n == 2 {
        Some(PromotionPiece::Bishop)
    } else if n == 3 {
        Some(PromotionPiece::Rook)
    } else {
        Some(PromotionPiece::Queen)
    }
}

/// Is `c` one the move parser accepts at position `i`: a file letter or a
/// rank digit in the four square positions, a promotion letter after.
pub open spec fn spec_move_char_ok(c: char, i: int) -> bool {
    if i < 4 {
        (97 <= c as u32 <= 104) || (49 <= c as u32 <= 56)
    } else {
        c as u32 == 110 || c as u32 == 98 || c as u32 == 114 || c as u32 == 113 || c as u32 == 78
            || c as u32 == 66 || c as u32 == 82 || c as u32 == 81
    }
}

/// The packed slot of character position `i`: the source square fills
/// the middle bits, the destination square the low bits.
pub open spec fn spec_char_shift(i: int) -> u16 {
    if i == 0 {
        6
    } else if i == 1 {
        9
    } else if i == 2 {
        0
    } else {
        3
    }
}

/// The bits one character contributes to the packed move.
pub open spec fn spec_move_char_bits(c: char, i: int) -> u16 {
    if i < 4 {
        if 97 <= c as u32 <= 104 {
            ((c as u32 - 97) as u16) << spec_char_shift(i)
        } else {
            ((c as u32 - 49) as u16) << spec_char_shift(i)
        }
    } else {
        if c as u32 == 110 || c as u32 == 78 {
            1u16 << 12u16
        } else if c as u32 == 98 || c as u32 == 66 {
            2u16 << 12u16
        } else if c as u32 == 114 || c as u32 == 82 {
            3u16 << 12u16
        } else {
            4u16 << 12u16
        }
    }
}

/// The packed value of the first `n` characters.
pub open spec fn spec_convert_str(s: Seq<char>, n: int) -> u16
    decreases n,
{
    if n <= 0 {
        0
    } else {
        spec_convert_str(s, n - 1) | spec_move_char_bits(s[n - 1], n - 1)
    }
}

/// Packs a coordinate move string (`from`, `to`, optional promotion
/// letter) into a book move.
pub fn convert_str_to_move(s: &str) -> (r: Move)
    requires
        4 <= s@.len() <= 5,
        forall|i: int| 0 <= i < s@.len() ==> spec_move_char_ok(#[trigger] s@[i], i),
    ensures
        r.0 == spec_convert_str(s@, s@.len() as int),
{
    let n = s.unicode_len();
    let mut value: u16 = 0;
    let mut i: usize = 0;
    while i < n
        invariant
            n == s@.len(),
            4 <= n <= 5,
            i <= n,
            value == spec_convert_str(s@, i as int),
            forall|j: int| 0 <= j < s@.len() ==> spec_move_char_ok(#[trigger] s@[j], j),
        decreases n - i,
    {
        let c = s.get_char(i);
        let cv = c as u32;
        let shift: u16 = if i == 0 {
            6
        } else if i == 1 {
            9
        } else if i == 2 {
            0
        } else {
            3
        };
        let bits: u16 = if i < 4 {
            if 97 <= cv && cv <= 104 {
                ((cv - 97) as u16) << shift
            } else {
                ((cv - 49) as u16) << shift
            }
        } else {
            if cv == 110 || cv == 78 {
                1u16 << 12u16
            } else if cv == 98 || cv == 66 {
                2u16 << 12u16
            } else if cv == 114 || cv == 82 {
                3u16 << 12u16
            } else {
                4u16 << 12u16
            }
        };
        value = value | bits;
        i = i + 1;
    }
    Move(value)
}

/// The file letter of file number `f`.
pub open spec fn spec_file_char(f: int) -> char {
    ((97 + f) as u8) as char
}

/// The rank digit of rank number `r`.
pub open spec fn spec_rank_char(r: int) -> char {
    ((49 + r) as u8) as char
}

fn file_char_str(f: u8) -> (r: &'static str)
    requires
        f < 8,
    ensures
        r@.len() == 1,
        r@[0] == spec_file_char(f as int),
{
    proof {
        reveal_strlit("a");
        reveal_strlit("b");
        reveal_strlit("c");
        reveal_strlit("d");
        reveal_strlit("e");
        reveal_strlit("f");
        reveal_strlit("g");
        reveal_strlit("h");
    }
    if f == 0 {
        "a"
    } else if f == 1 {
        "b"
    } else if f == 2 {
        "c"
    } else if f == 3 {
        "d"
    } else if f == 4 {
        "e"
    } else if f == 5 {
        "f"
    } else if f == 6 {
        "g"
    } else {
        "h"
    }
}

fn rank_char_str(r: u8) -> (res: &'static str)
    requires
        r < 8,
    ensures
        res@.len() == 1,
        res@[0] == spec_rank_char(r as int),
{
    proof {
        reveal_strlit("1");
        reveal_strlit("2");
        reveal_strlit("3");
        reveal_strlit("4");
        reveal_strlit("5");
        reveal_strlit("6");
        reveal_strlit("7");
        reveal_strlit("8");
    }
    if r == 0 {
        "1"
    } else if r == 1 {
        "2"
    } else if r == 2 {
        "3"
    } else if r == 3 {
        "4"
    } else if r == 4 {
        "5"
    } else if r == 5 {
        "6"
    } else if r == 6 {
        "7"
    } else {
        "8"
    }
}

/// The characters of a book move written as a coordinate string: source
/// square, destination square, and a promotion letter when one is packed.
pub open spec fn spec_move_chars(m: Move) -> Seq<char> {
    let base = seq![
        spec_file_char(((m.0 / 64) % 8) as int),
        spec_rank_char(((m.0 / 512) % 8) as int),
        spec_file_char((m.0 % 8) as int),
        spec_rank_char(((m.0 / 8) % 8) as int),
    ];
    match spec_promotion_piece(m) {
        None => base,
        Some(PromotionPiece::Knight) => base.push('n'),
        Some(PromotionPiece::Bishop) => base.push('b'),
        Some(PromotionPiece::Rook) => base.push('r'),
        Some(PromotionPiece::Queen) => base.push('q'),
    }
}

/// Writes a book move as a coordinate string.
pub fn convert_move_to_str(move_: Move) -> (r: String)
    requires
        valid_promotion(move_),
    ensures
        r@ == spec_move_chars(move_),
{
    proof {
        reveal_strlit("n");
        reveal_strlit("b");
        reveal_strlit("r");
        reveal_strlit("q");
    }
    let mut s = String::new();
    s.append(file_char_str(move_.start_file()));
    s.append(rank_char_str(move_.start_row()));
    s.append(file_char_str(move_.end_file()));
    s.append(rank_char_str(move_.end_row()));
    match move_.promotion_piece() {
        None => {},
        Some(PromotionPiece::Knight) => s.append("n"),
        Some(PromotionPiece::Bishop) => s.append("b"),
        Some(PromotionPiece::Rook) => s.append("r"),
        Some(PromotionPiece::Queen) => s.append("q"),
    }
    proof {
        let chars = spec_move_chars(move_);
        assert(s@[0] == chars[0]);
        assert(s@[1] == chars[1]);
        assert(s@[2] == chars[2]);
        assert(s@[3] == chars[3]);
        assert(s@ =~= chars);
    }
    s
}

/// Big-endian sixteen-bit read at `off`.
pub open spec fn spec_be16(data: Seq<u8>, off: int) -> u16 {
    (((data[off] as u16) << 8u16) | (data[off + 1] as u16)) as u16
}

/// Big-endian thirty-two-bit read at `off`.
pub open spec fn spec_be32(data: Seq<u8>, off: int) -> u32 {
    ((data[off] as u32) << 24u32) | ((data[off + 1] as u32) << 16u32) | ((data[off + 2] as u32)
        << 8u32) | (data[off + 3] as u32)
}

/// Big-endian sixty-four-bit read at `off`.
pub open spec fn spec_be64(data: Seq<u8>, off: int) -> u64 {
    ((data[off] as u64) << 56u64) | ((data[off + 1] as u64) << 48u64) | ((data[off + 2] as u64)
        << 40u64) | ((data[off + 3] as u64) << 32u64) | ((data[off + 4] as u64) << 24u64) | ((data[
        off + 5] as u64) << 16u64) | ((data[off + 6] as u64) << 8u64) | (data[off + 7] as u64)
}

/// The record beginning at byte `off`: an eight-byte key, a two-byte
/// packed move, a two-byte weight and a four-byte learn field, all
/// big-endian.
pub open spec fn spec_entry_at(data: Seq<u8>, off: int) -> PolyglotEntry {
    PolyglotEntry {
        key: spec_be64(data, off),
        move_: Move(spec_be16(data, off + 8)),
        weight: spec_be16(data, off + 10),
        learn: spec_be32(data, off + 12),
    }
}

fn parse_entry_at(data: &Vec<u8>, off: usize) -> (r: PolyglotEntry)
    requires
        off + 16 <= data@.len(),
    ensures
        r == spec_entry_at(data@, off as int),
{
    let dlen = data.len();
    let key: u64 = ((data[off] as u64) << 56u64) | ((data[off + 1] as u64) << 48u64) | ((data[off
        + 2] as u64) << 40u64) | ((data[off + 3] as u64) << 32u64) | ((data[off + 4] as u64)
        << 24u64) | ((data[off + 5] as u64) << 16u64) | ((data[off + 6] as u64) << 8u64) | (data[off
        + 7] as u64);
    let mv: u16 = ((data[off + 8] as u16) << 8u16) | (data[off + 9] as u16);
    let weight: u16 = ((data[off + 10] as u16) << 8u16) | (data[off + 11] as u16);
    let learn: u32 = ((data[off + 12] as u32) << 24u32) | ((data[off + 13] as u32) << 16u32) | ((
    data[off + 14] as u32) << 8u32) | (data[off + 15] as u32);
    PolyglotEntry { key, move_: Move(mv), weight, learn }
}

/// The predicate picking the records of one position key.
pub open spec fn key_is(k: u64) -> spec_fn(PolyglotEntry) -> bool {
    |e: PolyglotEntry| e.key == k
}

/// The first `n` records of a book, in reading order.
pub open spec fn spec_book_records(data: Seq<u8>, n: int) -> Seq<PolyglotEntry>
    decreases n,
{
    if n <= 0 {
        Seq::empty()
    } else {
        spec_book_records(data, n - 1).push(spec_entry_at(data, 16 * (n - 1)))
    }
}

/// Reads a whole book: sixteen-byte records, grouped by position key.
/// The data must split evenly into records, else nothing is read; the
/// group of each key holds exactly the records bearing that key, in
/// reading order.
pub fn read_polyglot_book(data: &Vec<u8>) -> (r: Option<HashMap<u64, Vec<PolyglotEntry>>>)
    ensures
        r is Some <==> data@.len() % 16 == 0,
        r matches Some(book) ==> {
            &&& forall|k: u64|
                #[trigger] book@.contains_key(k) <==> spec_book_records(
                    data@,
                    data@.len() as int / 16,
                ).filter(key_is(k)).len() > 0
            &&& forall|k: u64|
                book@.contains_key(k) ==> #[trigger] book@[k]@ == spec_book_records(
                    data@,
                    data@.len() as int / 16,
                ).filter(key_is(k))
        },
{
    broadcast use vstd::std_specs::hash::group_hash_axioms;

    if data.len() % 16 != 0 {
        return None;
    }
    let mut book: HashMap<u64, Vec<PolyglotEntry>> = HashMap::new();
    let dlen = data.len();
    let count = dlen / 16;
    proof {
        vstd::arithmetic::div_mod::lemma_fundamental_div_mod(dlen as int, 16);
        reveal(Seq::filter);
        assert(spec_book_records(data@, 0).len() == 0);
    }
    let mut i: usize = 0;
    while i < count
        invariant
            count == data@.len() / 16,
            count * 16 == data@.len(),
            data@.len() <= usize::MAX,
            i <= count,
            forall|k: u64|
                #[trigger] book@.contains_key(k) <==> spec_book_records(data@, i as int).filter(
                    key_is(k),
                ).len() > 0,
            forall|k: u64|
                book@.contains_key(k) ==> #[trigger] book@[k]@ == spec_book_records(
                    data@,
                    i as int,
                ).filter(key_is(k)),
        decreases count - i,
    {
        proof {
            assert((i + 1) * 16 <= count * 16) by (nonlinear_arith)
                requires
                    i < count,
            ;
        }
        let entry = parse_entry_at(data, i * 16);
        let ghost before = spec_book_records(data@, i as int);
        let ghost after = spec_book_records(data@, i as int + 1);
        proof {
            reveal(Seq::filter);
            assert(after == before.push(entry));
            assert forall|k: u64| #[trigger] after.filter(key_is(k)) == (if entry.key == k {
                before.filter(key_is(k)).push(entry)
            } else {
                before.filter(key_is(k))
            }) by {
                assert(after.drop_last() =~= before);
                assert(after.last() == entry);
                assert(key_is(k)(entry) == (entry.key == k));
            }
        }
        let mut group: Vec<PolyglotEntry> = match book.remove(&entry.key) {
            Some(g) => g,
            None => Vec::new(),
        };
        group.push(entry);
        book.insert(entry.key, group);
        i = i + 1;
    }
    Some(book)
}

/// Serialises one record into its sixteen big-endian bytes; reading them
/// back gives the record.
pub fn write_entry(entry: &PolyglotEntry) -> (r: Vec<u8>)
    ensures
        r@.len() == 16,
        spec_entry_at(r@, 0) == *entry,
{
    let mut out: Vec<u8> = Vec::new();
    out.push((entry.key >> 56u64) as u8);
    out.push(((entry.key >> 48u64) & 0xff) as u8);
    out.push(((entry.key >> 40u64) & 0xff) as u8);
    out.push(((entry.key >> 32u64) & 0xff) as u8);
    out.push(((entry.key >> 24u64) & 0xff) as u8);
    out.push(((entry.key >> 16u64) & 0xff) as u8);
    out.push(((entry.key >> 8u64) & 0xff) as u8);
    out.push((entry.key & 0xff) as u8);
    out.push((entry.move_.0 >> 8u16) as u8);
    out.push((entry.move_.0 & 0xff) as u8);
    out.push((entry.weight >> 8u16) as u8);
    out.push((entry.weight & 0xff) as u8);
    out.push((entry.learn >> 24u32) as u8);
    out.push(((entry.learn >> 16u32) & 0xff) as u8);
    out.push(((entry.learn >> 8u32) & 0xff) as u8);
    out.push((entry.learn & 0xff) as u8);
    proof {
        let b0 = out@[0];
        let b1 = out@[1];
        let b2 = out@[2];
        let b3 = out@[3];
        let b4 = out@[4];
        let b5 = out@[5];
        let b6 = out@[6];
        let b7 = out@[7];
        let b8 = out@[8];
        let b9 = out@[9];
        let b10 = out@[10];
        let b11 = out@[11];
        let b12 = out@[12];
        let b13 = out@[13];
        let b14 = out@[14];
        let b15 = out@[15];
        let key = entry.key;
        let mv = entry.move_.0;
        let weight = entry.weight;
        let learn = entry.learn;
        assert(((b0 as u64) << 56u64) | ((b1 as u64) << 48u64) | ((b2 as u64) << 40u64) | ((
        b3 as u64) << 32u64) | ((b4 as u64) << 24u64) | ((b5 as u64) << 16u64) | ((b6 as u64)
            << 8u64) | (b7 as u64) == key) by (bit_vector)
            requires
                b0 == (key >> 56u64) as u8,
                b1 == ((key >> 48u64) & 0xff) as u8,
                b2 == ((key >> 40u64) & 0xff) as u8,
                b3 == ((key >> 32u64) & 0xff) as u8,
                b4 == ((key >> 24u64) & 0xff) as u8,
                b5 == ((key >> 16u64) & 0xff) as u8,
                b6 == ((key >> 8u64) & 0xff) as u8,
                b7 == (key & 0xff) as u8,
        ;
        assert((((b8 as u16) << 8u16) | (b9 as u16)) as u16 == mv) by (bit_vector)
            requires
                b8 == (mv >> 8u16) as u8,
                b9 == (mv & 0xff) as u8,
        ;
        assert((((b10 as u16) << 8u16) | (b11 as u16)) as u16 == weight) by (bit_vector)
            requires
                b10 == (weight >> 8u16) as u8,
                b11 == (weight & 0xff) as u8,
        ;
        assert(((b12 as u32) << 24u32) | ((b13 as u32) << 16u32) | ((b14 as u32) << 8u32) | (
        b15 as u32) == learn) by (bit_vector)
            requires
                b12 == (learn >> 24u32) as u8,
                b13 == ((learn >> 16u32) & 0xff) as u8,
                b14 == ((learn >> 8u32) & 0xff) as u8,
                b15 == (learn & 0xff) as u8,
        ;
    }
    out
}

/// Picks one of a position's book entries, weighted by the weight
/// fields, or uniformly when every weight is zero. Whatever chance
/// decides, the answer is a move of one of the given entries, and only
/// an empty group has none.
/// The sum of the first `n` entries' weights.
pub open spec fn spec_weight_sum(entries: Seq<PolyglotEntry>, n: int) -> int
    decreases n,
{
    if n <= 0 {
        0
    } else {
        spec_weight_sum(entries, n - 1) + entries[n - 1].weight
    }
}

proof fn lemma_zero_weight_sum(entries: Seq<PolyglotEntry>, n: int)
    requires
        0 <= n <= entries.len(),
        spec_weight_sum(entries, n) == 0,
    ensures
        forall|j: int| 0 <= j < n ==> (#[trigger] entries[j]).weight == 0,
    decreases n,
{
    if n > 0 {
        lemma_weight_sum_nonneg(entries, n - 1);
        lemma_zero_weight_sum(entries, n - 1);
    }
}

proof fn lemma_weight_sum_nonneg(entries: Seq<PolyglotEntry>, n: int)
    ensures
        spec_weight_sum(entries, n) >= 0,
    decreases n,
{
    if n > 0 {
        lemma_weight_sum_nonneg(entries, n - 1);
    }
}

/// Picks one of a position's book entries, weighted by the weight
/// fields, or uniformly when every weight is zero. Whatever chance
/// decides, the answer is a move of one of the given entries — one of
/// positive weight unless all weights are zero — and only an empty
/// group has none.
pub fn pick_book_move(entries: &Vec<PolyglotEntry>) -> (r: Option<Move>)
    requires
        entries@.len() < 0x8000,
    ensures
        r is Some <==> entries@.len() > 0,
        r matches Some(m) ==> exists|i: int|
            0 <= i < entries@.len() && (#[trigger] entries@[i]).move_ == m && (entries@[i].weight
                > 0 || forall|j: int| 0 <= j < entries@.len() ==> (#[trigger] entries@[j]).weight
                == 0),
{
    if entries.len() == 0 {
        return None;
    }
    let mut total: u64 = 0;
    let mut i: usize = 0;
    while i < entries.len()
        invariant
            i <= entries@.len(),
            entries@.len() < 0x8000,
            total as int <= i as int * 0x1_0000,
            total == spec_weight_sum(entries@, i as int),
        decreases entries.len() - i,
    {
        total = total + entries[i].weight as u64;
        i = i + 1;
    }
    if total == 0 {
        proof {
            lemma_zero_weight_sum(entries@, entries@.len() as int);
        }
        let ix = random_below(entries.len());
        return Some(entries[ix].move_);
    }
    let target = random_below(total as usize) as u64;
    let mut acc: u64 = 0;
    let mut j: usize = 0;
    while j < entries.len()
        invariant
            j <= entries@.len(),
            entries@.len() > 0,
            entries@.len() < 0x8000,
            acc as int <= j as int * 0x1_0000,
            acc == spec_weight_sum(entries@, j as int),
            acc <= target,
            total == spec_weight_sum(entries@, entries@.len() as int),
            target < total,
        decreases entries.len() - j,
    {
        acc = acc + entries[j].weight as u64;
        if target < acc {
            // the drawn point fell inside this entry's weight band
            proof {
                assert(entries@[j as int].weight > 0);
            }
            return Some(entries[j].move_);
        }
        j = j + 1;
    }
    // the drawn point lies below the total, so some band caught it
    proof {
        assert(false);
    }
    Some(entries[0].move_)
}

} // verus!
