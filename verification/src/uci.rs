//! The text-protocol side of the engine: classifying command lines and
//! parsing their parameters. Reading and writing the lines stays outside;
//! this module only decides.

use vstd::prelude::*;

verus! {

use vstd::string::StrSliceExecFns;
use vstd::string::StringExecFns;

/// One parsed command line of the protocol.
pub enum UciCommand {
    Uci,
    IsReady,
    NewGame,
    Quit,
    /// A position to set up: from the start or from a FEN text, then the
    /// moves to apply.
    Position { startpos: bool, fen: String, moves: Vec<String> },
    /// A search request with the per-side clocks in milliseconds and a
    /// depth cap (zero for none).
    Go { wtime: u64, btime: u64, depth: u8 },
    Unknown,
}

/// Are two character sequences the same text?
pub fn str_eq(a: &str, b: &str) -> (r: bool)
    ensures
        r == (a@ == b@),
{
    let an = a.unicode_len();
    let bn = b.unicode_len();
    if an != bn {
        proof {
            assert(a@ != b@);
        }
        return false;
    }
    let mut i: usize = 0;
    while i < an
        invariant
            an == a@.len(),
            an == b@.len(),
            i <= an,
            forall|j: int| 0 <= j < i ==> a@[j] == b@[j],
        decreases an - i,
    {
        if a.get_char(i) != b.get_char(i) {
            return false;
        }
        i = i + 1;
    }
    proof {
        assert(a@ =~= b@);
    }
    true
}

/// The index of the first space in the text, or its length without one.
pub open spec fn spec_first_space(s: Seq<char>) -> int
    decreases s.len(),
{
    if s.len() == 0 {
        0
    } else if s[0] == ' ' {
        0
    } else {
        1 + spec_first_space(s.skip(1))
    }
}

proof fn lemma_first_space_bounds(s: Seq<char>)
    ensures
        0 <= spec_first_space(s) <= s.len(),
    decreases s.len(),
{
    if s.len() > 0 && s[0] != ' ' {
        lemma_first_space_bounds(s.skip(1));
    }
}

/// A prefix without spaces that ends at a space or at the text's end is
/// exactly the first-space index.
proof fn lemma_first_space_at(s: Seq<char>, k: int)
    requires
        0 <= k <= s.len(),
        forall|m: int| 0 <= m < k ==> s[m] != ' ',
        k == s.len() || s[k] == ' ',
    ensures
        spec_first_space(s) == k,
    decreases k,
{
    if k > 0 {
        assert(s[0] != ' ');
        assert forall|m: int| 0 <= m < k - 1 implies s.skip(1)[m] != ' ' by {
            assert(s.skip(1)[m] == s[m + 1]);
        }
        if k < s.len() {
            assert(s.skip(1)[k - 1] == s[k]);
        }
        lemma_first_space_at(s.skip(1), k - 1);
    }
}

/// The text split on spaces: its maximal space-free runs, in order.
pub open spec fn spec_tokenize(s: Seq<char>) -> Seq<Seq<char>>
    decreases s.len() via spec_tokenize_decreases
{
    if s.len() == 0 {
        Seq::empty()
    } else if s[0] == ' ' {
        spec_tokenize(s.skip(1))
    } else {
        seq![s.take(spec_first_space(s))] + spec_tokenize(s.skip(spec_first_space(s)))
    }
}

#[via_fn]
proof fn spec_tokenize_decreases(s: Seq<char>) {
    if s.len() > 0 && s[0] != ' ' {
        lemma_first_space_bounds(s.skip(1));
        lemma_first_space_bounds(s);
        assert(spec_first_space(s) == 1 + spec_first_space(s.skip(1)));
    }
}

/// Splits a line on spaces, exactly as `spec_tokenize` says; every token
/// is nonempty and holds no space.
pub fn tokenize(line: &str) -> (r: Vec<String>)
    ensures
        r@.map_values(|t: String| t@) == spec_tokenize(line@),
        forall|t: int|
            0 <= t < r@.len() ==> (#[trigger] r@[t])@.len() > 0 && forall|j: int|
                0 <= j < r@[t]@.len() ==> r@[t]@[j] != ' ',
{
    let n = line.unicode_len();
    let mut tokens: Vec<String> = Vec::new();
    let mut i: usize = 0;
    proof {
        assert(tokens@.map_values(|t: String| t@) =~= Seq::<Seq<char>>::empty());
        assert(line@.skip(0) =~= line@);
        assert(Seq::<Seq<char>>::empty() + spec_tokenize(line@) =~= spec_tokenize(line@));
    }
    while i < n
        invariant
            n == line@.len(),
            i <= n,
            tokens@.map_values(|t: String| t@) + spec_tokenize(line@.skip(i as int))
                == spec_tokenize(line@),
            forall|t: int|
                0 <= t < tokens@.len() ==> (#[trigger] tokens@[t])@.len() > 0 && forall|j: int|
                    0 <= j < tokens@[t]@.len() ==> tokens@[t]@[j] != ' ',
        decreases n - i,
    {
        if line.get_char(i) == ' ' {
            proof {
                let t = line@.skip(i as int);
                assert(t[0] == line@[i as int]);
                assert(t.skip(1) =~= line@.skip(i as int + 1));
            }
            i = i + 1;
        } else {
            let start = i;
            let mut j = i;
            while j < n
                invariant
                    n == line@.len(),
                    start <= j <= n,
                    start < n,
                    forall|k: int| start <= k < j ==> line@[k] != ' ',
                    line@[start as int] != ' ',
                ensures
                    start < j <= n,
                    forall|k: int| start <= k < j ==> line@[k] != ' ',
                    j == n || line@[j as int] == ' ',
                decreases n - j,
            {
                if line.get_char(j) == ' ' {
                    break ;
                }
                j = j + 1;
                if j == n {
                    break ;
                }
            }
            let piece = line.substring_char(start, j);
            let ghost old_map = tokens@.map_values(|t: String| t@);
            tokens.push(String::from_str(piece));
            proof {
                let t = line@.skip(start as int);
                assert(t[0] == line@[start as int]);
                assert forall|m: int| 0 <= m < j - start implies t[m] != ' ' by {
                    assert(t[m] == line@[start + m]);
                }
                if j < n {
                    assert(t[j - start] == line@[j as int]);
                }
                lemma_first_space_at(t, j - start);
                assert(t.take(j - start) =~= line@.subrange(start as int, j as int));
                assert(t.skip(j - start) =~= line@.skip(j as int));
                assert(tokens@.map_values(|t2: String| t2@) =~= old_map.push(
                    line@.subrange(start as int, j as int),
                ));
                assert(old_map + (seq![line@.subrange(start as int, j as int)] + spec_tokenize(
                    line@.skip(j as int),
                )) =~= (old_map.push(line@.subrange(start as int, j as int))) + spec_tokenize(
                    line@.skip(j as int),
                ));
            }
            i = j;
        }
    }
    proof {
        assert(line@.skip(n as int).len() == 0);
        assert(tokens@.map_values(|t: String| t@) + Seq::<Seq<char>>::empty()
            =~= tokens@.map_values(|t: String| t@));
    }
    tokens
}

/// Is `c` a decimal digit?
pub open spec fn spec_is_digit(c: char) -> bool {
    48 <= c as u32 <= 57
}

/// Does the text hold digits only?
pub open spec fn spec_all_digits(s: Seq<char>) -> bool {
    forall|i: int| 0 <= i < s.len() ==> spec_is_digit(#[trigger] s[i])
}

/// The number the first `n` digits denote.
pub open spec fn spec_digits_val(s: Seq<char>, n: int) -> int
    decreases n,
{
    if n <= 0 {
        0
    } else {
        spec_digits_val(s, n - 1) * 10 + (s[n - 1] as u32 - 48)
    }
}

pub open spec fn spec_pow10(n: int) -> int
    decreases n,
{
    if n <= 0 {
        1
    } else {
        10 * spec_pow10(n - 1)
    }
}

proof fn lemma_digits_val_bound(s: Seq<char>, n: int)
    requires
        spec_all_digits(s),
        0 <= n <= s.len(),
    ensures
        0 <= spec_digits_val(s, n) < spec_pow10(n),
    decreases n,
{
    if n > 0 {
        lemma_digits_val_bound(s, n - 1);
    }
}

proof fn lemma_pow10_le(a: int, b: int)
    requires
        0 <= a <= b,
    ensures
        spec_pow10(a) <= spec_pow10(b),
    decreases b,
{
    if a < b {
        lemma_pow10_le(a, b - 1);
        lemma_digits_positive(b);
    }
}

proof fn lemma_digits_positive(n: int)
    ensures
        spec_pow10(n) >= 1,
    decreases n,
{
    if n > 0 {
        lemma_digits_positive(n - 1);
    }
}

/// Parses a decimal number of up to eighteen digits; anything else, the
/// empty text included, is refused.
pub fn parse_unsigned(s: &str) -> (r: Option<u64>)
    ensures
        r is Some <==> 1 <= s@.len() <= 18 && spec_all_digits(s@),
        r matches Some(v) ==> v == spec_digits_val(s@, s@.len() as int),
{
    let n = s.unicode_len();
    if n < 1 || n > 18 {
        return None;
    }
    let mut value: u64 = 0;
    let mut i: usize = 0;
    while i < n
        invariant
            n == s@.len(),
            1 <= n <= 18,
            i <= n,
            forall|j: int| 0 <= j < i ==> spec_is_digit(#[trigger] s@[j]),
            value == spec_digits_val(s@, i as int),
            (value as int) < spec_pow10(i as int),
        decreases n - i,
    {
        let c = s.get_char(i);
        let cv = c as u32;
        if cv < 48 || cv > 57 {
            return None;
        }
        proof {
            lemma_pow10_le(i as int, 17);
            reveal_with_fuel(spec_pow10, 20);
            assert(spec_pow10(17) == 100_000_000_000_000_000);
        }
        value = value * 10 + (cv - 48) as u64;
        i = i + 1;
    }
    Some(value)
}

/// The clock and depth parameters as a fold over the `go` tokens: a
/// `wtime`, `btime` or `depth` word takes the next token as its number,
/// when that token parses; everything else is passed over.
pub open spec fn spec_go_params(toks: Seq<Seq<char>>, n: int) -> (u64, u64, u8)
    decreases n,
{
    if n <= 0 {
        (100_000_000_000, 100_000_000_000, 0)
    } else {
        let prev = spec_go_params(toks, n - 1);
        if n < 2 || toks.len() < n {
            prev
        } else {
            let word = toks[n - 2];
            let arg = toks[n - 1];
            let parsed: Option<u64> = if 1 <= arg.len() <= 18 && spec_all_digits(arg) {
                Some(spec_digits_val(arg, arg.len() as int) as u64)
            } else {
                None
            };
            match parsed {
                None => prev,
                Some(v) => if word == "wtime"@ {
                    (v, prev.1, prev.2)
                } else if word == "btime"@ {
                    (prev.0, v, prev.2)
                } else if word == "depth"@ {
                    let d: u8 = if v > 100 {
                        100u8
                    } else {
                        v as u8
                    };
                    (prev.0, prev.1, d)
                } else {
                    prev
                },
            }
        }
    }
}

/// Reads the clocks and the depth cap out of the tokens after `go`.
pub fn parse_go_params(tokens: &Vec<String>) -> (r: (u64, u64, u8))
    ensures
        r == spec_go_params(tokens@.map_values(|t: String| t@), tokens@.len() as int),
{
    let ghost toks = tokens@.map_values(|t: String| t@);
    let mut wtime: u64 = 100_000_000_000;
    let mut btime: u64 = 100_000_000_000;
    let mut depth: u8 = 0;
    let mut i: usize = 0;
    while i < tokens.len()
        invariant
            toks == tokens@.map_values(|t: String| t@),
            toks.len() == tokens@.len(),
            i <= tokens@.len(),
            (wtime, btime, depth) == spec_go_params(toks, i as int),
        decreases tokens.len() - i,
    {
        if i >= 1 {
            let word = &tokens[i - 1];
            let arg = &tokens[i];
            let parsed = parse_unsigned(arg.as_str());
            match parsed {
                None => {},
                Some(v) => {
                    if str_eq(word.as_str(), "wtime") {
                        wtime = v;
                    } else if str_eq(word.as_str(), "btime") {
                        btime = v;
                    } else if str_eq(word.as_str(), "depth") {
                        depth = if v > 100 {
                            100u8
                        } else {
                            v as u8
                        };
                    }
                },
            }
        }
        i = i + 1;
    }
    (wtime, btime, depth)
}

/// Is the line one of the four single-word commands, matched whole?
pub open spec fn spec_word_line(s: Seq<char>) -> bool {
    s == "uci"@ || s == "isready"@ || s == "ucinewgame"@ || s == "quit"@
}

/// The predicate keeping every token but the `moves` keyword.
pub open spec fn spec_not_moves() -> spec_fn(Seq<char>) -> bool {
    |t: Seq<char>| t != "moves"@
}

/// The index of the first `moves` keyword at or after the command word,
/// or the token count without one.
pub open spec fn spec_moves_at(toks: Seq<Seq<char>>, from: int) -> int
    decreases toks.len() - from,
{
    if from >= toks.len() {
        toks.len() as int
    } else if toks[from] == "moves"@ {
        from
    } else {
        spec_moves_at(toks, from + 1)
    }
}

proof fn lemma_moves_at(toks: Seq<Seq<char>>, from: int, k: int)
    requires
        0 <= from <= k <= toks.len(),
        forall|m: int| from <= m < k ==> toks[m] != "moves"@,
        k == toks.len() || toks[k] == "moves"@,
    ensures
        spec_moves_at(toks, from) == k,
    decreases k - from,
{
    if from < k {
        lemma_moves_at(toks, from + 1, k);
    }
}

/// The FEN text of a `position fen …` line: the tokens before the move
/// list, the `fen` keyword left out, joined with single spaces.
pub open spec fn spec_fen_join(toks: Seq<Seq<char>>, n: int) -> Seq<char>
    decreases n,
{
    if n <= 1 {
        Seq::empty()
    } else {
        let pre = spec_fen_join(toks, n - 1);
        if toks[n - 1] == "fen"@ {
            pre
        } else if pre.len() == 0 {
            toks[n - 1]
        } else {
            pre + seq![' '] + toks[n - 1]
        }
    }
}

/// The move list of a `position` line that names a FEN: the tokens
/// after the first `moves` keyword, later `moves` keywords left out.
pub open spec fn spec_position_moves(toks: Seq<Seq<char>>) -> Seq<Seq<char>> {
    if spec_moves_at(toks, 1) < toks.len() {
        toks.skip(spec_moves_at(toks, 1) + 1).filter(spec_not_moves())
    } else {
        Seq::empty()
    }
}

/// Classifies one protocol line. The single-word commands are matched
/// exactly; a `position` line carries the start flag or the FEN text and
/// the move list; a `go` line carries the clocks and depth parsed by
/// `spec_go_params` over the line's tokens.
pub fn parse_uci_command(line: &str) -> (r: UciCommand)
    ensures
        line@ == "uci"@ ==> r is Uci,
        line@ == "isready"@ ==> r is IsReady,
        line@ == "ucinewgame"@ ==> r is NewGame,
        line@ == "quit"@ ==> r is Quit,
        !spec_word_line(line@) && spec_tokenize(line@).len() > 0 && spec_tokenize(line@)[0]
            == "go"@ ==> (r matches UciCommand::Go { wtime, btime, depth } && (wtime, btime, depth)
            == spec_go_params(spec_tokenize(line@), spec_tokenize(line@).len() as int)),
        !spec_word_line(line@) && spec_tokenize(line@).len() > 0 && spec_tokenize(line@)[0]
            == "position"@ ==> (r matches UciCommand::Position { startpos, fen, moves } && startpos
            == (spec_tokenize(line@).len() > 1 && spec_tokenize(line@)[1] == "startpos"@)),
        !spec_word_line(line@) && spec_tokenize(line@).len() > 1 && spec_tokenize(line@)[0]
            == "position"@ && spec_tokenize(line@)[1] == "startpos"@ ==> (r matches
        UciCommand::Position { startpos, fen, moves } && fen@ == Seq::<char>::empty()
            && moves@.map_values(|t: String| t@) == spec_tokenize(line@).skip(2).filter(
            spec_not_moves(),
        )),
        !spec_word_line(line@) && spec_tokenize(line@).len() > 0 && spec_tokenize(line@)[0]
            == "position"@ && !(spec_tokenize(line@).len() > 1 && spec_tokenize(line@)[1]
            == "startpos"@) ==> (r matches UciCommand::Position { startpos, fen, moves } && fen@
            == spec_fen_join(spec_tokenize(line@), spec_moves_at(spec_tokenize(line@), 1))
            && moves@.map_values(|t: String| t@) == spec_position_moves(spec_tokenize(line@))),
{
    broadcast use vstd::string::group_string_axioms;

    proof {
        reveal_strlit("uci");
        reveal_strlit("isready");
        reveal_strlit("ucinewgame");
        reveal_strlit("quit");
        assert("uci"@.len() == 3);
        assert("isready"@.len() == 7);
        assert("ucinewgame"@.len() == 10);
        assert("quit"@.len() == 4);
        reveal_strlit("position");
        reveal_strlit("startpos");
        reveal_strlit("go");
        reveal_strlit("moves");
        reveal_strlit("fen");
    }

    if str_eq(line, "uci") {
        return UciCommand::Uci;
    }
    if str_eq(line, "isready") {
        return UciCommand::IsReady;
    }
    if str_eq(line, "ucinewgame") {
        return UciCommand::NewGame;
    }
    if str_eq(line, "quit") {
        return UciCommand::Quit;
    }
    let tokens = tokenize(line);
    if tokens.len() == 0 {
        return UciCommand::Unknown;
    }
    let ghost toks = spec_tokenize(line@);
    proof {
        assert(tokens@.map_values(|t: String| t@) == toks);
        assert(tokens@.len() == toks.len());
    }
    if str_eq(tokens[0].as_str(), "position") {
        proof {
            assert(tokens@[0]@ == toks[0]);
        }
        let mut startpos = false;
        let mut fen = String::new();
        let mut moves: Vec<String> = Vec::new();
        let mut idx: usize = 1;
        if tokens.len() > 1 && str_eq(tokens[1].as_str(), "startpos") {
            proof {
                assert(tokens@[1]@ == toks[1]);
                reveal(Seq::filter);
                assert(moves@.map_values(|t: String| t@) =~= Seq::<Seq<char>>::empty());
                assert(toks.subrange(2, 2) =~= Seq::<Seq<char>>::empty());
            }
            startpos = true;
            idx = 2;
        } else {
            // gather the FEN fields up to the move list
            proof {
                reveal_strlit(" ");
            }
            let mut first = true;
            while idx < tokens.len()
                invariant
                    1 <= idx <= tokens@.len(),
                    toks == tokens@.map_values(|t: String| t@),
                    forall|t: int| 0 <= t < tokens@.len() ==> (#[trigger] tokens@[t])@.len() > 0,
                    forall|m: int| 1 <= m < idx ==> toks[m] != "moves"@,
                    fen@ == spec_fen_join(toks, idx as int),
                    first <==> fen@.len() == 0,
                    " "@ == seq![' '],
                ensures
                    1 <= idx <= toks.len(),
                    forall|m: int| 1 <= m < idx ==> toks[m] != "moves"@,
                    idx == toks.len() || toks[idx as int] == "moves"@,
                    fen@ == spec_fen_join(toks, idx as int),
                decreases tokens.len() - idx,
            {
                proof {
                    assert(tokens@[idx as int]@ == toks[idx as int]);
                }
                if str_eq(tokens[idx].as_str(), "moves") {
                    break ;
                }
                if !str_eq(tokens[idx].as_str(), "fen") {
                    if !first {
                        fen.append(" ");
                    }
                    fen.append(tokens[idx].as_str());
                    proof {
                        assert(tokens@[idx as int]@.len() > 0);
                    }
                    first = false;
                }
                idx = idx + 1;
            }
            proof {
                lemma_moves_at(toks, 1, idx as int);
            }
        }
        let mut in_moves = false;
        let ghost mi = spec_moves_at(toks, 1);
        while idx < tokens.len()
            invariant
                idx <= tokens@.len(),
                toks == tokens@.map_values(|t: String| t@),
                mi == spec_moves_at(toks, 1),
                startpos ==> 2 <= idx && toks.len() > 1 && toks[1] == "startpos"@,
                startpos ==> fen@ == Seq::<char>::empty(),
                startpos ==> moves@.map_values(|t: String| t@) == toks.subrange(
                    2,
                    idx as int,
                ).filter(spec_not_moves()),
                !startpos ==> fen@ == spec_fen_join(toks, mi),
                !startpos ==> 1 <= mi <= idx && mi <= toks.len() && (mi == toks.len() || toks[mi]
                    == "moves"@),
                !startpos ==> (in_moves <==> mi < idx),
                !startpos ==> moves@.map_values(|t: String| t@) == (if mi < idx {
                    toks.subrange(mi + 1, idx as int).filter(spec_not_moves())
                } else {
                    Seq::<Seq<char>>::empty()
                }),
            decreases tokens.len() - idx,
        {
            proof {
                reveal(Seq::filter);
                assert(tokens@[idx as int]@ == toks[idx as int]);
                if startpos {
                    let pre = toks.subrange(2, idx as int);
                    let nxt = toks.subrange(2, idx as int + 1);
                    assert(nxt =~= pre.push(toks[idx as int]));
                    assert(nxt.drop_last() =~= pre);
                    assert(nxt.last() == toks[idx as int]);
                } else if mi < idx {
                    let pre = toks.subrange(mi + 1, idx as int);
                    let nxt = toks.subrange(mi + 1, idx as int + 1);
                    assert(nxt =~= pre.push(toks[idx as int]));
                    assert(nxt.drop_last() =~= pre);
                    assert(nxt.last() == toks[idx as int]);
                } else {
                    // the first `moves` keyword stands right here
                    assert(toks.subrange(mi + 1, idx as int + 1) =~= Seq::<Seq<char>>::empty());
                }
            }
            if str_eq(tokens[idx].as_str(), "moves") {
                in_moves = true;
                proof {
                    reveal(Seq::filter);
                    assert(!(spec_not_moves()(toks[idx as int])));
                }
            } else if in_moves || startpos {
                let ghost old_moves = moves@.map_values(|t: String| t@);
                moves.push(tokens[idx].clone());
                proof {
                    reveal(Seq::filter);
                    assert(spec_not_moves()(toks[idx as int]));
                    assert(moves@.map_values(|t: String| t@) =~= old_moves.push(
                        toks[idx as int],
                    ));
                }
            } else {
                proof {
                    reveal(Seq::filter);
                    // before the first `moves` keyword nothing is kept,
                    // and this token is not it only outside the fen path
                    assert(!startpos ==> idx == mi);
                }
            }
            idx = idx + 1;
        }
        proof {
            if startpos {
                assert(toks.subrange(2, toks.len() as int) =~= toks.skip(2));
            } else if mi < toks.len() {
                assert(toks.subrange(mi + 1, toks.len() as int) =~= toks.skip(mi + 1));
            }
        }
        return UciCommand::Position { startpos, fen, moves };
    }
    if str_eq(tokens[0].as_str(), "go") {
        proof {
            assert(tokens@[0]@ == toks[0]);
        }
        let (wtime, btime, depth) = parse_go_params(&tokens);
        return UciCommand::Go { wtime, btime, depth };
    }
    proof {
        if toks.len() > 0 {
            assert(tokens@[0]@ == toks[0]);
        }
    }
    UciCommand::Unknown
}

} // verus!
