//! Verified helpers for building and inspecting the small strings that
//! cursor themes are made of: equality, prefix and suffix tests,
//! decimal rendering and parsing of sizes and frame numbers, and the
//! splitting and joining of lines.

use vstd::prelude::*;
use vstd::string::StringExecFns;

verus! {

/// Compare two string slices for equality of their character sequences.
pub fn str_eq(a: &str, b: &str) -> (r: bool)
    ensures
        r == (a@ == b@),
{
    a.to_owned() == b.to_owned()
}

/// `prefix` begins `s`.
pub open spec fn starts_with(s: Seq<char>, prefix: Seq<char>) -> bool {
    prefix.len() <= s.len() && s.subrange(0, prefix.len() as int) == prefix
}

/// `suffix` ends `s`.
pub open spec fn ends_with(s: Seq<char>, suffix: Seq<char>) -> bool {
    suffix.len() <= s.len() && s.subrange(s.len() - suffix.len(), s.len() as int) == suffix
}

/// Does `s` begin with `prefix`?
pub fn str_starts_with(s: &str, prefix: &str) -> (r: bool)
    ensures
        r == starts_with(s@, prefix@),
{
    let n = s.unicode_len();
    let p = prefix.unicode_len();
    if p > n {
        false
    } else {
        let head = s.substring_char(0, p);
        str_eq(head, prefix)
    }
}

/// Does `s` end with `suffix`?
pub fn str_ends_with(s: &str, suffix: &str) -> (r: bool)
    ensures
        r == ends_with(s@, suffix@),
{
    let n = s.unicode_len();
    let p = suffix.unicode_len();
    if p > n {
        false
    } else {
        let tail = s.substring_char(n - p, n);
        str_eq(tail, suffix)
    }
}

/// The character for a single decimal digit.
pub open spec fn dec_digit_char(d: nat) -> char {
    if d == 0 {
        '0'
    } else if d == 1 {
        '1'
    } else if d == 2 {
        '2'
    } else if d == 3 {
        '3'
    } else if d == 4 {
        '4'
    } else if d == 5 {
        '5'
    } else if d == 6 {
        '6'
    } else if d == 7 {
        '7'
    } else if d == 8 {
        '8'
    } else {
        '9'
    }
}

/// The decimal rendering of `n`, most significant digit first, with no
/// leading zeros (a single `'0'` for zero).
pub open spec fn dec_rep(n: nat) -> Seq<char>
    decreases n,
{
    if n < 10 {
        seq![dec_digit_char(n)]
    } else {
        dec_rep(n / 10) + seq![dec_digit_char(n % 10)]
    }
}

/// A one-character string for a decimal digit.
fn digit_str(d: u32) -> (r: &'static str)
    requires
        d < 10,
    ensures
        r@ == seq![dec_digit_char(d as nat)],
{
    proof {
        reveal_strlit("0");
        reveal_strlit("1");
        reveal_strlit("2");
        reveal_strlit("3");
        reveal_strlit("4");
        reveal_strlit("5");
        reveal_strlit("6");
        reveal_strlit("7");
        reveal_strlit("8");
        reveal_strlit("9");
    }
    match d {
        0 => "0",
        1 => "1",
        2 => "2",
        3 => "3",
        4 => "4",
        5 => "5",
        6 => "6",
        7 => "7",
        8 => "8",
        _ => "9",
    }
}

/// Render `n` in decimal.
pub fn u32_to_string(n: u32) -> (r: String)
    ensures
        r@ == dec_rep(n as nat),
    decreases n,
{
    if n < 10 {
        digit_str(n).to_owned()
    } else {
        let mut s = u32_to_string(n / 10);
        s.append(digit_str(n % 10));
        s
    }
}

/// The decimal rendering of `n` padded with zeros on the left to at
/// least three characters, as animation frame numbers are written.
pub open spec fn frame_label_rep(n: nat) -> Seq<char> {
    if n < 10 {
        seq!['0', '0'] + dec_rep(n)
    } else if n < 100 {
        seq!['0'] + dec_rep(n)
    } else {
        dec_rep(n)
    }
}

/// Render a frame number as a zero-padded three-digit label.
pub fn frame_label(n: u32) -> (r: String)
    ensures
        r@ == frame_label_rep(n as nat),
{
    proof {
        reveal_strlit("00");
        reveal_strlit("0");
    }
    if n < 10 {
        let mut s = "00".to_owned();
        s.append(u32_to_string(n).as_str());
        s
    } else if n < 100 {
        let mut s = "0".to_owned();
        s.append(u32_to_string(n).as_str());
        s
    } else {
        u32_to_string(n)
    }
}

/// Remove one trailing carriage return, if present.
pub open spec fn strip_cr(s: Seq<char>) -> Seq<char> {
    if s.len() > 0 && s[s.len() - 1] == '\r' {
        s.drop_last()
    } else {
        s
    }
}

/// The lines of `rest`, given that the characters `cur` of the current
/// line have already been read.  A line ends at `'\n'`, and a carriage
/// return just before the line feed is not part of the line.  A final
/// line end is optional: text after the last `'\n'` forms a last line
/// unless it is empty.
pub open spec fn spec_lines_from(rest: Seq<char>, cur: Seq<char>) -> Seq<Seq<char>>
    decreases rest.len(),
{
    if rest.len() == 0 {
        if cur.len() == 0 {
            seq![]
        } else {
            seq![cur]
        }
    } else if rest[0] == '\n' {
        seq![strip_cr(cur)] + spec_lines_from(rest.skip(1), seq![])
    } else {
        spec_lines_from(rest.skip(1), cur.push(rest[0]))
    }
}

/// The lines of `s`.
pub open spec fn spec_lines(s: Seq<char>) -> Seq<Seq<char>> {
    spec_lines_from(s, seq![])
}

/// Split text into its lines.
pub fn split_lines(s: &str) -> (r: Vec<String>)
    ensures
        r@.map_values(|l: String| l@) == spec_lines(s@),
{
    let n = s.unicode_len();
    let mut r: Vec<String> = Vec::new();
    let mut start: usize = 0;
    let mut k: usize = 0;
    proof {
        assert(s@.skip(0) =~= s@);
        assert(s@.subrange(0, 0) =~= Seq::<char>::empty());
        assert(r@.map_values(|l: String| l@) + spec_lines_from(s@, Seq::<char>::empty())
            =~= spec_lines(s@));
    }
    while k < n
        invariant
            0 <= start <= k <= n,
            n == s@.len(),
            spec_lines(s@) == r@.map_values(|l: String| l@) + spec_lines_from(
                s@.skip(k as int),
                s@.subrange(start as int, k as int),
            ),
        decreases n - k,
    {
        let ghost cur = s@.subrange(start as int, k as int);
        let c = s.get_char(k);
        if c == '\n' {
            let end: usize = if k > start && s.get_char(k - 1) == '\r' {
                k - 1
            } else {
                k
            };
            proof {
                assert(s@.skip(k as int)[0] == s@[k as int]);
                assert(s@.skip(k as int).skip(1) =~= s@.skip(k as int + 1));
                if k > start && s@[k as int - 1] == '\r' {
                    assert(cur.len() > 0 && cur[cur.len() - 1] == '\r');
                    assert(strip_cr(cur) =~= s@.subrange(start as int, end as int));
                } else {
                    assert(strip_cr(cur) =~= s@.subrange(start as int, end as int));
                }
            }
            let line = s.substring_char(start, end).to_owned();
            let ghost old_r = r@;
            r.push(line);
            proof {
                assert(r@.map_values(|l: String| l@) =~= old_r.map_values(|l: String| l@)
                    + seq![strip_cr(cur)]);
                assert(s@.subrange(k as int + 1, k as int + 1) =~= Seq::<char>::empty());
            }
            start = k + 1;
            k = k + 1;
        } else {
            proof {
                assert(s@.skip(k as int)[0] == s@[k as int]);
                assert(s@.skip(k as int).skip(1) =~= s@.skip(k as int + 1));
                assert(cur.push(s@[k as int]) =~= s@.subrange(start as int, k as int + 1));
            }
            k = k + 1;
        }
    }
    proof {
        assert(s@.skip(n as int) =~= Seq::<char>::empty());
    }
    if start < n {
        let line = s.substring_char(start, n).to_owned();
        let ghost old_r = r@;
        r.push(line);
        proof {
            assert(r@.map_values(|l: String| l@) =~= old_r.map_values(|l: String| l@)
                + seq![s@.subrange(start as int, n as int)]);
        }
    } else {
        proof {
            assert(r@.map_values(|l: String| l@) =~= r@.map_values(|l: String| l@)
                + spec_lines_from(Seq::<char>::empty(), s@.subrange(start as int, n as int)));
        }
    }
    r
}

/// Is the character one of the blanks trimmed from the ends of tool
/// output?
pub open spec fn is_blank(c: char) -> bool {
    c == ' ' || c == '\t' || c == '\n' || c == '\r'
}

/// The text with its leading blanks removed.
pub open spec fn trim_start_rep(s: Seq<char>) -> Seq<char>
    decreases s.len(),
{
    if s.len() > 0 && is_blank(s[0]) {
        trim_start_rep(s.skip(1))
    } else {
        s
    }
}

/// The text with its trailing blanks removed.
pub open spec fn trim_end_rep(s: Seq<char>) -> Seq<char>
    decreases s.len(),
{
    if s.len() > 0 && is_blank(s[s.len() - 1]) {
        trim_end_rep(s.drop_last())
    } else {
        s
    }
}

/// The text with blanks removed from both ends.
pub open spec fn trim_rep(s: Seq<char>) -> Seq<char> {
    trim_end_rep(trim_start_rep(s))
}

/// Is the character a decimal digit?
pub open spec fn is_digit(c: char) -> bool {
    '0' <= c && c <= '9'
}

/// The value of a decimal digit.
pub open spec fn digit_val(c: char) -> int {
    c as int - '0' as int
}

/// Are all characters decimal digits?
pub open spec fn all_digits(s: Seq<char>) -> bool {
    forall|i: int| 0 <= i < s.len() ==> is_digit(#[trigger] s[i])
}

/// The numeric value of a digit string, most significant digit first.
pub open spec fn dec_value(s: Seq<char>) -> int
    decreases s.len(),
{
    if s.len() == 0 {
        0
    } else {
        dec_value(s.drop_last()) * 10 + digit_val(s.last())
    }
}

/// A digit string's value is not negative.
pub proof fn lemma_dec_value_nonneg(s: Seq<char>)
    requires
        all_digits(s),
    ensures
        dec_value(s) >= 0,
    decreases s.len(),
{
    if s.len() > 0 {
        assert(all_digits(s.drop_last()));
        lemma_dec_value_nonneg(s.drop_last());
        assert(dec_value(s.drop_last()) * 10 >= 0) by (nonlinear_arith)
            requires
                dec_value(s.drop_last()) >= 0,
        ;
    }
}

/// A digit string's value is at least the value of any of its
/// prefixes.
pub proof fn lemma_dec_value_prefix_le(s: Seq<char>, j: int)
    requires
        all_digits(s),
        0 <= j <= s.len(),
    ensures
        dec_value(s.take(j)) <= dec_value(s),
    decreases s.len() - j,
{
    if j < s.len() {
        assert(s.take(j + 1).drop_last() =~= s.take(j));
        assert(s.take(j + 1).last() == s[j]);
        assert(all_digits(s.take(j)));
        lemma_dec_value_nonneg(s.take(j));
        assert(dec_value(s.take(j)) * 10 >= dec_value(s.take(j))) by (nonlinear_arith)
            requires
                dec_value(s.take(j)) >= 0,
        ;
        lemma_dec_value_prefix_le(s, j + 1);
    } else {
        assert(s.take(j) =~= s);
    }
}

/// What parsing a decimal size means: blanks are trimmed from both
/// ends, one leading plus sign is allowed, and what remains must be
/// one or more digits whose value fits the result type.
pub open spec fn spec_parse_u32(s: Seq<char>) -> Option<u32> {
    let t = trim_rep(s);
    let d = if t.len() > 0 && t[0] == '+' {
        t.skip(1)
    } else {
        t
    };
    if d.len() > 0 && all_digits(d) && dec_value(d) <= u32::MAX {
        Some(dec_value(d) as u32)
    } else {
        None
    }
}

/// Is the character a blank, decided in executable code?
fn blank_char(c: char) -> (r: bool)
    ensures
        r == is_blank(c),
{
    c == ' ' || c == '\t' || c == '\n' || c == '\r'
}

/// Parse a decimal number, as a size reported by an image tool is
/// read.
pub fn parse_u32(s: &str) -> (r: Option<u32>)
    ensures
        r == spec_parse_u32(s@),
{
    let n = s.unicode_len();
    let mut lo: usize = 0;
    let mut hi: usize = n;
    proof {
        assert(s@.skip(0) =~= s@);
    }
    while lo < hi && blank_char(s.get_char(lo))
        invariant
            0 <= lo <= hi <= n,
            n == s@.len(),
            hi == n,
            trim_start_rep(s@) == trim_start_rep(s@.skip(lo as int)),
        decreases hi - lo,
    {
        proof {
            assert(s@.skip(lo as int)[0] == s@[lo as int]);
            assert(s@.skip(lo as int).skip(1) =~= s@.skip(lo as int + 1));
        }
        lo = lo + 1;
    }
    proof {
        if lo < hi {
            assert(trim_start_rep(s@.skip(lo as int)) == s@.skip(lo as int));
        } else {
            assert(s@.skip(lo as int) =~= Seq::<char>::empty());
            assert(trim_start_rep(s@.skip(lo as int)) == s@.skip(lo as int));
        }
    }
    let ghost st = s@.skip(lo as int);
    proof {
        assert(s@.subrange(lo as int, n as int) =~= st);
    }
    while lo < hi && blank_char(s.get_char(hi - 1))
        invariant
            0 <= lo <= hi <= n,
            n == s@.len(),
            st == s@.skip(lo as int),
            trim_start_rep(s@) == st,
            trim_end_rep(st) == trim_end_rep(s@.subrange(lo as int, hi as int)),
        decreases hi,
    {
        proof {
            let cur = s@.subrange(lo as int, hi as int);
            assert(cur[cur.len() - 1] == s@[hi as int - 1]);
            assert(cur.drop_last() =~= s@.subrange(lo as int, hi as int - 1));
        }
        hi = hi - 1;
    }
    proof {
        let cur = s@.subrange(lo as int, hi as int);
        if lo < hi {
            assert(trim_end_rep(cur) == cur);
        } else {
            assert(cur =~= Seq::<char>::empty());
            assert(trim_end_rep(cur) == cur);
        }
    }
    let ghost t = trim_rep(s@);
    proof {
        assert(t == s@.subrange(lo as int, hi as int));
    }
    // one optional leading plus sign
    if lo < hi && s.get_char(lo) == '+' {
        lo = lo + 1;
        proof {
            assert(t[0] == '+');
            assert(t.skip(1) =~= s@.subrange(lo as int, hi as int));
        }
    } else {
        proof {
            assert(!(t.len() > 0 && t[0] == '+'));
        }
    }
    let ghost d = s@.subrange(lo as int, hi as int);
    let ghost outcome = (if d.len() > 0 && all_digits(d) && dec_value(d) <= u32::MAX {
        Some(dec_value(d) as u32)
    } else {
        None::<u32>
    });
    proof {
        assert(spec_parse_u32(s@) == outcome);
    }
    if lo == hi {
        proof {
            assert(d.len() == 0);
        }
        return None;
    }
    let mut acc: u64 = 0;
    let mut i: usize = lo;
    while i < hi
        invariant
            lo <= i <= hi <= n,
            n == s@.len(),
            d == s@.subrange(lo as int, hi as int),
            d.len() > 0,
            (spec_parse_u32(s@) == (if d.len() > 0 && all_digits(d) && dec_value(d) <= u32::MAX {
                Some(dec_value(d) as u32)
            } else {
                None::<u32>
            })),
            all_digits(d.take(i - lo)),
            acc == dec_value(d.take(i - lo)),
            acc <= u32::MAX,
        decreases hi - i,
    {
        let c = s.get_char(i);
        if !(c >= '0' && c <= '9') {
            proof {
                assert(d[i - lo] == c);
                assert(!all_digits(d));
            }
            return None;
        }
        let dv: u64 = (c as u32 - '0' as u32) as u64;
        let next: u64 = acc * 10 + dv;
        proof {
            assert(d.take(i - lo + 1).drop_last() =~= d.take(i - lo));
            assert(d.take(i - lo + 1).last() == d[i - lo]);
            assert(d[i - lo] == c);
        }
        if next > 0xffff_ffff {
            proof {
                if all_digits(d) {
                    assert(dec_value(d.take(i - lo + 1)) == next);
                    lemma_dec_value_prefix_le(d, i - lo + 1);
                }
            }
            return None;
        }
        acc = next;
        i = i + 1;
    }
    proof {
        assert(d.take(hi - lo) =~= d);
    }
    Some(acc as u32)
}

/// The pieces after the first, each preceded by one separator.
pub open spec fn spec_join_tail(ls: Seq<Seq<char>>, sep: char) -> Seq<char>
    decreases ls.len(),
{
    if ls.len() == 0 {
        seq![]
    } else {
        seq![sep] + ls[0] + spec_join_tail(ls.skip(1), sep)
    }
}

/// The pieces joined into one text, with a single separator between
/// each pair of adjacent pieces and none at either end.
pub open spec fn spec_join(ls: Seq<Seq<char>>, sep: char) -> Seq<char> {
    if ls.len() == 0 {
        seq![]
    } else {
        ls[0] + spec_join_tail(ls.skip(1), sep)
    }
}

/// The lines joined back with `'\n'` between them.
pub open spec fn spec_unlines(ls: Seq<Seq<char>>) -> Seq<char> {
    spec_join(ls, '\n')
}

/// Join pieces with a one-character separator.
pub fn join_with(pieces: &Vec<String>, sep: &str) -> (r: String)
    requires
        sep@.len() == 1,
    ensures
        r@ == spec_join(pieces@.map_values(|l: String| l@), sep@[0]),
{
    let ghost ls = pieces@.map_values(|l: String| l@);
    let mut s = String::new();
    let mut i: usize = 0;
    while i < pieces.len()
        invariant
            0 <= i <= pieces.len(),
            sep@.len() == 1,
            ls == pieces@.map_values(|l: String| l@),
            i == 0 ==> s@.len() == 0,
            i > 0 ==> spec_join(ls, sep@[0]) == s@ + spec_join_tail(ls.skip(i as int), sep@[0]),
        decreases pieces.len() - i,
    {
        if i > 0 {
            s.append(sep);
        }
        s.append(pieces[i].as_str());
        proof {
            assert(ls.skip(i as int)[0] == ls[i as int]);
            assert(ls.skip(i as int).skip(1) =~= ls.skip(i as int + 1));
            if i == 0 {
                assert(s@ =~= ls[0]);
                assert(spec_join(ls, sep@[0]) =~= s@ + spec_join_tail(ls.skip(1), sep@[0]));
            } else {
                assert(spec_join(ls, sep@[0]) =~= s@ + spec_join_tail(
                    ls.skip(i as int + 1),
                    sep@[0],
                ));
            }
        }
        i = i + 1;
    }
    proof {
        if pieces@.len() > 0 {
            assert(ls.skip(ls.len() as int) =~= Seq::<Seq<char>>::empty());
            assert(spec_join(ls, sep@[0]) =~= s@);
        } else {
            assert(spec_join(ls, sep@[0]) =~= s@);
        }
    }
    s
}

/// Reading characters that hold no line feed only lengthens the
/// current line.
proof fn lemma_lines_from_feed(x: Seq<char>, rest: Seq<char>, cur: Seq<char>)
    requires
        !x.contains('\n'),
    ensures
        spec_lines_from(x + rest, cur) == spec_lines_from(rest, cur + x),
    decreases x.len(),
{
    if x.len() == 0 {
        assert(x + rest =~= rest);
        assert(cur + x =~= cur);
    } else {
        assert((x + rest)[0] == x[0]);
        assert(x[0] != '\n');
        assert((x + rest).skip(1) =~= x.skip(1) + rest);
        assert(!x.skip(1).contains('\n')) by {
            if x.skip(1).contains('\n') {
                let k = choose|k: int| 0 <= k < x.skip(1).len() && x.skip(1)[k] == '\n';
                assert(x[k + 1] == '\n');
            }
        }
        lemma_lines_from_feed(x.skip(1), rest, cur.push(x[0]));
        assert(cur.push(x[0]) + x.skip(1) =~= cur + x);
    }
}

/// Joining lines and splitting the text again gives the lines back,
/// provided no line holds a line feed, no line before the last ends
/// with a carriage return, and the last line is not empty.
pub proof fn lemma_lines_of_unlines(ls: Seq<Seq<char>>)
    requires
        forall|i: int| 0 <= i < ls.len() ==> !(#[trigger] ls[i]).contains('\n'),
        forall|i: int|
            0 <= i < ls.len() - 1 ==> ((#[trigger] ls[i]).len() == 0 || ls[i].last() != '\r'),
        ls.len() > 0 ==> ls.last().len() > 0,
    ensures
        spec_lines(spec_unlines(ls)) == ls,
    decreases ls.len(),
{
    if ls.len() == 0 {
        assert(spec_lines(spec_unlines(ls)) =~= ls);
    } else if ls.len() == 1 {
        let x = ls[0];
        assert(spec_unlines(ls) == x + spec_join_tail(ls.skip(1), '\n'));
        assert(ls.skip(1).len() == 0);
        assert(x + spec_join_tail(ls.skip(1), '\n') =~= x + Seq::<char>::empty());
        lemma_lines_from_feed(x, Seq::<char>::empty(), Seq::<char>::empty());
        assert(x + Seq::<char>::empty() =~= x);
        assert(Seq::<char>::empty() + x =~= x);
        assert(x.len() > 0);
        assert(spec_lines_from(Seq::<char>::empty(), x) =~= seq![x]);
        assert(spec_lines(spec_unlines(ls)) =~= ls);
    } else {
        let x = ls[0];
        let rest = spec_unlines(ls.skip(1));
        assert(ls.skip(1)[0] == ls[1]);
        assert(ls.skip(1).skip(1) =~= ls.skip(2));
        assert(spec_unlines(ls) =~= x + (seq!['\n'] + rest));
        lemma_lines_from_feed(x, seq!['\n'] + rest, Seq::<char>::empty());
        assert(Seq::<char>::empty() + x =~= x);
        assert((seq!['\n'] + rest)[0] == '\n');
        assert((seq!['\n'] + rest).skip(1) =~= rest);
        assert(strip_cr(x) == x);
        assert(forall|i: int| 0 <= i < ls.skip(1).len() ==> !(#[trigger] ls.skip(1)[i]).contains(
            '\n',
        ));
        assert(forall|i: int|
            0 <= i < ls.skip(1).len() - 1 ==> ((#[trigger] ls.skip(1)[i]).len() == 0 || ls.skip(
                1,
            )[i].last() != '\r'));
        assert(ls.skip(1).last() == ls.last());
        lemma_lines_of_unlines(ls.skip(1));
        assert(seq![x] + ls.skip(1) =~= ls);
    }
}

/// Join lines with `'\n'` separators.
pub fn join_lines(lines: &Vec<String>) -> (r: String)
    ensures
        r@ == spec_unlines(lines@.map_values(|l: String| l@)),
{
    proof {
        reveal_strlit("\n");
    }
    join_with(lines, "\n")
}

} // verus!
