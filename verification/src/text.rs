//! Character-level helpers: reading decimal numbers, writing them back,
//! splitting a text into lines and comparing words without regard to ASCII case.
use vstd::prelude::*;
use vstd::string::StrSliceExecFns;
use vstd::string::StringExecFns;

verus! {

/// `c` is one of the ASCII digits `0`..`9`.
pub open spec fn is_digit(c: char) -> bool {
    '0' <= c && c <= '9'
}

/// The number that the ASCII digit `c` stands for.
pub open spec fn digit_value(c: char) -> nat {
    (c as int - '0' as int) as nat
}

/// The ASCII digit that stands for `d` (for `d < 10`).
pub open spec fn digit_char(d: nat) -> char {
    ('0' as int + d) as char
}

/// Every character of `s` is an ASCII digit.
pub open spec fn all_digits(s: Seq<char>) -> bool {
    forall|i: int| 0 <= i < s.len() ==> is_digit(#[trigger] s[i])
}

/// The value of the digit string `s`, read in base ten (0 for the empty string).
pub open spec fn digits_value(s: Seq<char>) -> nat
    decreases s.len(),
{
    if s.len() == 0 {
        0
    } else {
        digits_value(s.drop_last()) * 10 + digit_value(s.last())
    }
}

/// What remains of `s` once an optional leading `+` is dropped.
pub open spec fn unsigned_part(s: Seq<char>) -> Seq<char> {
    if s.len() > 0 && s[0] == '+' {
        s.drop_first()
    } else {
        s
    }
}

/// How std's `str::parse` reads an unsigned integer type whose largest value is `max`:
/// an optional `+`, then one or more ASCII digits whose value does not exceed `max`.
pub open spec fn parse_unsigned(s: Seq<char>, max: nat) -> Option<nat> {
    let d = unsigned_part(s);
    if d.len() > 0 && all_digits(d) && digits_value(d) <= max {
        Some(digits_value(d))
    } else {
        None
    }
}

/// The shortest base-ten spelling of `n`.
pub open spec fn decimal_digits(n: nat) -> Seq<char>
    decreases n,
{
    if n < 10 {
        seq![digit_char(n)]
    } else {
        decimal_digits(n / 10).push(digit_char(n % 10))
    }
}

/// The value of a prefix of a digit string never exceeds the value of the whole string.
pub proof fn lemma_digits_prefix_le(s: Seq<char>, k: int)
    requires
        0 <= k <= s.len(),
        all_digits(s),
    ensures
        digits_value(s.take(k)) <= digits_value(s),
    decreases s.len() - k,
{
    if k < s.len() {
        lemma_digits_prefix_le(s, k + 1);
        assert(s.take(k + 1).drop_last() =~= s.take(k));
    } else {
        assert(s.take(k) =~= s);
    }
}

/// Spelling a number in base ten and reading it back gives the number.
pub proof fn lemma_decimal_digits_value(n: nat)
    ensures
        all_digits(decimal_digits(n)),
        decimal_digits(n).len() > 0,
        digits_value(decimal_digits(n)) == n,
    decreases n,
{
    if n >= 10 {
        lemma_decimal_digits_value(n / 10);
        let s = decimal_digits(n);
        assert(s.drop_last() =~= decimal_digits(n / 10));
        assert(digit_value(digit_char(n % 10)) == n % 10);
        assert(s.last() == digit_char(n % 10));
        assert(digits_value(s) == digits_value(decimal_digits(n / 10)) * 10 + n % 10);
        assert((n / 10) * 10 + n % 10 == n);
        assert forall|i: int| 0 <= i < s.len() implies is_digit(#[trigger] s[i]) by {
            if i < s.len() - 1 {
                assert(s[i] == decimal_digits(n / 10)[i]);
            }
        }
    } else {
        let s = decimal_digits(n);
        assert(s.drop_last() =~= Seq::<char>::empty());
        assert(digit_value(digit_char(n)) == n);
        assert(s.last() == digit_char(n));
        assert(digits_value(s.drop_last()) == 0);
        assert(digits_value(s) == n);
    }
}

/// The characters of `s`, in order.
pub fn chars_of(s: &str) -> (v: Vec<char>)
    ensures
        v@ == s@,
{
    let n = s.unicode_len();
    let mut v: Vec<char> = Vec::new();
    let mut i: usize = 0;
    while i < n
        invariant
            n == s@.len(),
            i <= n,
            v@ == s@.subrange(0, i as int),
        decreases n - i,
    {
        let c = s.get_char(i);
        v.push(c);
        i = i + 1;
        assert(v@ =~= s@.subrange(0, i as int));
    }
    assert(v@ =~= s@);
    v
}

/// Reads `chars` as std's `str::parse::<u64>` does.
pub fn parse_u64_chars(chars: &Vec<char>) -> (r: Option<u64>)
    ensures
        r matches Some(v) ==> parse_unsigned(chars@, u64::MAX as nat) == Some(v as nat),
        r is None ==> parse_unsigned(chars@, u64::MAX as nat) is None,
{
    let n = chars.len();
    let start: usize = if n > 0 && chars[0] == '+' { 1 } else { 0 };
    let ghost d = unsigned_part(chars@);
    assert(d =~= chars@.subrange(start as int, n as int));
    if start >= n {
        return None;
    }
    let mut acc: u64 = 0;
    let mut i: usize = start;
    while i < n
        invariant
            start <= i <= n,
            n == chars@.len(),
            d == unsigned_part(chars@),
            d =~= chars@.subrange(start as int, n as int),
            all_digits(d.take(i - start)),
            acc as nat == digits_value(d.take(i - start)),
        decreases n - i,
    {
        let c = chars[i];
        if !('0' <= c && c <= '9') {
            assert(d[i - start] == c);
            assert(!is_digit(d[i - start]));
            assert(!all_digits(d));
            return None;
        }
        let dv: u64 = (c as u64) - ('0' as u64);
        let ghost k: int = i - start;
        assert(d.take(k + 1).drop_last() =~= d.take(k));
        assert(d.take(k + 1).last() == c);
        if acc > (u64::MAX - dv) / 10 {
            proof {
                assert(acc * 10 + dv > u64::MAX) by (nonlinear_arith)
                    requires
                        acc > (u64::MAX - dv) / 10,
                        dv <= 9,
                ;
                assert forall|j: int| 0 <= j < k + 1 implies is_digit(#[trigger] d.take(k + 1)[j]) by {
                    if j < k {
                        assert(d.take(k + 1)[j] == d.take(k)[j]);
                    }
                }
                assert(digits_value(d.take(k + 1)) == acc * 10 + dv);
                if all_digits(d) {
                    lemma_digits_prefix_le(d, k + 1);
                }
            }
            return None;
        }
        proof {
            assert(acc * 10 + dv <= u64::MAX) by (nonlinear_arith)
                requires
                    acc <= (u64::MAX - dv) / 10,
                    dv <= 9,
            ;
            assert forall|j: int| 0 <= j < k + 1 implies is_digit(#[trigger] d.take(k + 1)[j]) by {
                if j < k {
                    assert(d.take(k + 1)[j] == d.take(k)[j]);
                }
            }
        }
        acc = acc * 10 + dv;
        i = i + 1;
    }
    assert(d.take(n - start) =~= d);
    Some(acc)
}

/// Reads `s` as std's `str::parse::<u64>` does: `None` where that parse fails.
pub fn parse_u64(s: &str) -> (r: Option<u64>)
    ensures
        r matches Some(v) ==> parse_unsigned(s@, u64::MAX as nat) == Some(v as nat),
        r is None ==> parse_unsigned(s@, u64::MAX as nat) is None,
{
    let chars = chars_of(s);
    parse_u64_chars(&chars)
}

/// Reads `s` as std's `str::parse::<u32>` does: `None` where that parse fails.
pub fn parse_u32(s: &str) -> (r: Option<u32>)
    ensures
        r matches Some(v) ==> parse_unsigned(s@, u32::MAX as nat) == Some(v as nat),
        r is None ==> parse_unsigned(s@, u32::MAX as nat) is None,
{
    match parse_u64(s) {
        Some(v) => if v <= u32::MAX as u64 {
            Some(v as u32)
        } else {
            None
        },
        None => None,
    }
}

/// Reads `s` as std's `str::parse::<u16>` does: `None` where that parse fails.
pub fn parse_u16(s: &str) -> (r: Option<u16>)
    ensures
        r matches Some(v) ==> parse_unsigned(s@, u16::MAX as nat) == Some(v as nat),
        r is None ==> parse_unsigned(s@, u16::MAX as nat) is None,
{
    match parse_u64(s) {
        Some(v) => if v <= u16::MAX as u64 {
            Some(v as u16)
        } else {
            None
        },
        None => None,
    }
}

/// The one-character string that spells the digit `d`.
fn digit_str(d: u64) -> (r: &'static str)
    requires
        d < 10,
    ensures
        r@ == seq![digit_char(d as nat)],
{
    proof {
        reveal_strlit("0");
        reveal_strlit("1");
        reveal_strlit("2");
        reveal_strlit("3");
        reveal_strlit("4");
        reveal_strlit("5");
        reveal_strlit("6");
        reveal_strlit("7");
        reveal_strlit("8");
        reveal_strlit("9");
    }
    let r = if d == 0 {
        "0"
    } else if d == 1 {
        "1"
    } else if d == 2 {
        "2"
    } else if d == 3 {
        "3"
    } else if d == 4 {
        "4"
    } else if d == 5 {
        "5"
    } else if d == 6 {
        "6"
    } else if d == 7 {
        "7"
    } else if d == 8 {
        "8"
    } else {
        "9"
    };
    assert(r@ =~= seq![digit_char(d as nat)]);
    r
}

/// Appends the base-ten spelling of `n` to `out`.
pub fn push_decimal(out: &mut String, n: u64)
    ensures
        final(out)@ == old(out)@ + decimal_digits(n as nat),
    decreases n,
{
    if n >= 10 {
        push_decimal(out, n / 10);
    }
    out.append(digit_str(n % 10));
    assert(out@ =~= old(out)@ + decimal_digits(n as nat));
}

/// The base-ten spelling of `n`, as `n.to_string()` writes it.
pub fn decimal_string(n: u64) -> (r: String)
    ensures
        r@ == decimal_digits(n as nat),
{
    let mut s = String::new();
    push_decimal(&mut s, n);
    assert(s@ =~= decimal_digits(n as nat));
    s
}

/// Where the line that starts at `from` ends: the first `'\n'` at or after `from`,
/// or the end of `s` when there is none.
pub open spec fn line_end(s: Seq<char>, from: int) -> int
    decreases s.len() - from,
{
    if from >= s.len() {
        s.len() as int
    } else if s[from] == '\n' {
        from
    } else {
        line_end(s, from + 1)
    }
}

/// The line of `s` from `from` to `end`, without the `'\r'` of a `"\r\n"` ending.
pub open spec fn line_text(s: Seq<char>, from: int, end: int) -> Seq<char> {
    if end < s.len() && end > from && s[end - 1] == '\r' {
        s.subrange(from, end - 1)
    } else {
        s.subrange(from, end)
    }
}

/// A line never ends before it starts.
pub proof fn lemma_line_end_bounds(s: Seq<char>, from: int)
    requires
        0 <= from <= s.len(),
    ensures
        from <= line_end(s, from) <= s.len(),
        line_end(s, from) < s.len() ==> s[line_end(s, from)] == '\n',
        forall|k: int| from <= k < line_end(s, from) ==> s[k] != '\n',
    decreases s.len() - from,
{
    if from < s.len() && s[from] != '\n' {
        lemma_line_end_bounds(s, from + 1);
    }
}

/// The lines of `s` from position `from` on, as std's `str::lines` yields them.
pub open spec fn lines_from(s: Seq<char>, from: int) -> Seq<Seq<char>>
    decreases s.len() + 1 - from,
    via lines_from_decreases
{
    if from < 0 || from >= s.len() {
        Seq::empty()
    } else {
        let e = line_end(s, from);
        seq![line_text(s, from, e)] + lines_from(s, e + 1)
    }
}

#[via_fn]
proof fn lines_from_decreases(s: Seq<char>, from: int) {
    if !(from < 0 || from >= s.len()) {
        lemma_line_end_bounds(s, from);
    }
}

/// The lines of `s` as std's `str::lines` yields them: split at each `'\n'`, a
/// `"\r\n"` ending counted as one line ending, and no empty line after a final ending.
pub open spec fn lines_of(s: Seq<char>) -> Seq<Seq<char>> {
    lines_from(s, 0)
}

/// Splits `s` into its lines, as `s.lines()` does.
pub fn split_lines<'a>(s: &'a str) -> (r: Vec<&'a str>)
    ensures
        r.len() == lines_of(s@).len(),
        forall|i: int| 0 <= i < r.len() ==> (#[trigger] r[i])@ == lines_of(s@)[i],
{
    let chars = chars_of(s);
    let n = chars.len();
    let mut r: Vec<&'a str> = Vec::new();
    let mut pos: usize = 0;
    let ghost mut done: Seq<Seq<char>> = Seq::empty();
    while pos < n
        invariant
            n == s@.len(),
            chars@ == s@,
            pos <= n,
            r.len() == done.len(),
            forall|i: int| 0 <= i < r.len() ==> (#[trigger] r[i])@ == done[i],
            lines_of(s@) == done + lines_from(s@, pos as int),
        decreases n - pos,
    {
        let mut end: usize = pos;
        while end < n && chars[end] != '\n'
            invariant
                n == s@.len(),
                chars@ == s@,
                pos <= end <= n,
                pos < n,
                line_end(s@, pos as int) == line_end(s@, end as int),
            decreases n - end,
        {
            end = end + 1;
        }
        let stop: usize = if end < n && end > pos && chars[end - 1] == '\r' { end - 1 } else { end };
        let line = s.substring_char(pos, stop);
        proof {
            lemma_line_end_bounds(s@, pos as int);
            assert(line@ == line_text(s@, pos as int, end as int));
            assert(lines_from(s@, pos as int) =~= seq![line_text(s@, pos as int, end as int)]
                + lines_from(s@, end + 1));
            done = done.push(line@);
        }
        r.push(line);
        if end < n {
            assert(lines_of(s@) =~= done + lines_from(s@, end + 1));
            pos = end + 1;
        } else {
            assert(lines_from(s@, end + 1) =~= Seq::<Seq<char>>::empty());
            assert(lines_from(s@, n as int) =~= Seq::<Seq<char>>::empty());
            assert(lines_of(s@) =~= done + lines_from(s@, n as int));
            pos = n;
        }
    }
    assert(lines_from(s@, pos as int) =~= Seq::<Seq<char>>::empty());
    assert(lines_of(s@) =~= done);
    r
}

/// `c`, with an ASCII capital letter made small, is the character `w`.
pub open spec fn lowers_to(c: char, w: char) -> bool {
    if 'A' <= c && c <= 'Z' {
        c as u32 + 32 == w as u32
    } else {
        c == w
    }
}

/// `s`, with every ASCII capital letter made small, spells `word`.
pub open spec fn lowercase_spells(s: Seq<char>, word: Seq<char>) -> bool {
    &&& s.len() == word.len()
    &&& forall|k: int| 0 <= k < s.len() ==> lowers_to(#[trigger] s[k], word[k])
}

/// Whether `s`, with its ASCII capitals made small, spells `word`.
pub fn eq_ignore_ascii_case(s: &Vec<char>, word: &str) -> (b: bool)
    ensures
        b == lowercase_spells(s@, word@),
{
    let wc = chars_of(word);
    if s.len() != wc.len() {
        return false;
    }
    let mut i: usize = 0;
    while i < s.len()
        invariant
            s.len() == wc.len(),
            wc@ == word@,
            i <= s.len(),
            forall|k: int| 0 <= k < i ==> lowers_to(#[trigger] s@[k], wc@[k]),
        decreases s.len() - i,
    {
        let c = s[i];
        let w = wc[i];
        let cv: u64 = (c as u32) as u64;
        let wv: u64 = (w as u32) as u64;
        let same = if 'A' <= c && c <= 'Z' { cv + 32 == wv } else { c == w };
        if !same {
            assert(!lowers_to(s@[i as int], wc@[i as int]));
            return false;
        }
        i = i + 1;
    }
    true
}

/// Where the piece of `s` that starts at `from` ends: the first `sep` at or after
/// `from`, or the end of `s` when there is none.
pub open spec fn piece_end(s: Seq<char>, sep: char, from: int) -> int
    decreases s.len() - from,
{
    if from >= s.len() {
        s.len() as int
    } else if s[from] == sep {
        from
    } else {
        piece_end(s, sep, from + 1)
    }
}

/// A piece never ends before it starts.
pub proof fn lemma_piece_end_bounds(s: Seq<char>, sep: char, from: int)
    requires
        0 <= from <= s.len(),
    ensures
        from <= piece_end(s, sep, from) <= s.len(),
        piece_end(s, sep, from) < s.len() ==> s[piece_end(s, sep, from)] == sep,
    decreases s.len() - from,
{
    if from < s.len() && s[from] != sep {
        lemma_piece_end_bounds(s, sep, from + 1);
    }
}

/// The pieces of `s` from `from` on, cut at every `sep`, as std's `str::split` yields
/// them (so a final `sep` leaves an empty last piece).
pub open spec fn pieces_from(s: Seq<char>, sep: char, from: int) -> Seq<Seq<char>>
    decreases s.len() + 1 - from,
    via pieces_from_decreases
{
    if from < 0 || from > s.len() {
        Seq::empty()
    } else {
        let e = piece_end(s, sep, from);
        seq![s.subrange(from, e)] + pieces_from(s, sep, e + 1)
    }
}

#[via_fn]
proof fn pieces_from_decreases(s: Seq<char>, sep: char, from: int) {
    if !(from < 0 || from > s.len()) {
        lemma_piece_end_bounds(s, sep, from);
    }
}

/// The pieces of `s` cut at every `sep` as std's `str::split_terminator` yields them:
/// those of `str::split`, without the last one when it is empty.
pub open spec fn split_terminator(s: Seq<char>, sep: char) -> Seq<Seq<char>> {
    let p = pieces_from(s, sep, 0);
    if p.len() > 0 && p.last().len() == 0 {
        p.drop_last()
    } else {
        p
    }
}

/// The values of the pieces that read as a `u64`, in order; the others are left out.
pub open spec fn parsed_u64s(pieces: Seq<Seq<char>>) -> Seq<u64>
    decreases pieces.len(),
{
    if pieces.len() == 0 {
        Seq::empty()
    } else {
        let init = parsed_u64s(pieces.drop_last());
        match parse_unsigned(pieces.last(), u64::MAX as nat) {
            Some(v) => init.push(v as u64),
            None => init,
        }
    }
}

/// The pieces of `s` cut at every `sep`, as `s.split(sep)` yields them.
pub fn split_chars(s: &str, sep: char) -> (r: Vec<Vec<char>>)
    ensures
        r.len() == pieces_from(s@, sep, 0).len(),
        forall|i: int| 0 <= i < r.len() ==> (#[trigger] r[i])@ == pieces_from(s@, sep, 0)[i],
{
    let chars = chars_of(s);
    let n = chars.len();
    let mut r: Vec<Vec<char>> = Vec::new();
    let mut piece: Vec<char> = Vec::new();
    let mut start: usize = 0;
    let mut i: usize = 0;
    let ghost mut done: Seq<Seq<char>> = Seq::empty();
    while i < n
        invariant
            n == s@.len(),
            chars@ == s@,
            start <= i <= n,
            piece@ == s@.subrange(start as int, i as int),
            forall|k: int| start <= k < i ==> s@[k] != sep,
            pieces_from(s@, sep, 0) == done + pieces_from(s@, sep, start as int),
            r.len() == done.len(),
            forall|k: int| 0 <= k < r.len() ==> (#[trigger] r[k])@ == done[k],
        decreases n - i,
    {
        let c = chars[i];
        if c == sep {
            proof {
                lemma_piece_end_bounds(s@, sep, start as int);
                lemma_piece_end_is_first(s@, sep, start as int, i as int);
                assert(pieces_from(s@, sep, start as int) =~= seq![s@.subrange(start as int, i as int)]
                    + pieces_from(s@, sep, i + 1));
                done = done.push(piece@);
            }
            r.push(piece);
            assert(pieces_from(s@, sep, 0) =~= done + pieces_from(s@, sep, i + 1));
            piece = Vec::new();
            start = i + 1;
        } else {
            piece.push(c);
            assert(piece@ =~= s@.subrange(start as int, i + 1));
        }
        i = i + 1;
    }
    proof {
        lemma_piece_end_bounds(s@, sep, start as int);
        lemma_piece_end_is_first(s@, sep, start as int, n as int);
        assert(pieces_from(s@, sep, n + 1) =~= Seq::<Seq<char>>::empty());
        assert(pieces_from(s@, sep, start as int) =~= seq![s@.subrange(start as int, n as int)]);
        done = done.push(piece@);
    }
    r.push(piece);
    assert(pieces_from(s@, sep, 0) =~= done);
    r
}

/// The numbers among the `sep`-separated pieces of `s`, as
/// `s.split_terminator(sep).filter_map(|x| x.parse::<u64>().ok())` collects them.
pub fn parse_separated_u64s(s: &str, sep: char) -> (r: Vec<u64>)
    ensures
        r@ == parsed_u64s(split_terminator(s@, sep)),
{
    let pieces = split_chars(s, sep);
    let ghost all = pieces_from(s@, sep, 0);
    let mut ids: Vec<u64> = Vec::new();
    let mut k: usize = 0;
    while k < pieces.len()
        invariant
            all == pieces_from(s@, sep, 0),
            pieces.len() == all.len(),
            forall|i: int| 0 <= i < pieces.len() ==> (#[trigger] pieces[i])@ == all[i],
            k <= pieces.len(),
            ids@ == parsed_u64s(all.take(k as int)),
        decreases pieces.len() - k,
    {
        assert(all.take(k + 1).drop_last() =~= all.take(k as int));
        match parse_u64_chars(&pieces[k]) {
            Some(v) => ids.push(v),
            None => {},
        }
        k = k + 1;
    }
    proof {
        assert(all.take(pieces.len() as int) =~= all);
        if all.len() > 0 && all.last().len() == 0 {
            assert(parse_unsigned(all.last(), u64::MAX as nat) is None);
        }
    }
    ids
}

/// A position before which no `sep` occurs, holding `sep` or at the end of `s`,
/// is where the piece ends.
pub proof fn lemma_piece_end_is_first(s: Seq<char>, sep: char, from: int, at: int)
    requires
        0 <= from <= at <= s.len(),
        forall|k: int| from <= k < at ==> s[k] != sep,
        at == s.len() || s[at] == sep,
    ensures
        piece_end(s, sep, from) == at,
    decreases at - from,
{
    if from < at {
        lemma_piece_end_is_first(s, sep, from + 1, at);
    }
}

/// `needle` occurs in `s` as a run of consecutive characters.
pub open spec fn has_subsequence(s: Seq<char>, needle: Seq<char>) -> bool {
    exists|k: int| 0 <= k && k + needle.len() <= s.len() && #[trigger] s.subrange(k, k + needle.len()) == needle
}

/// Whether `needle` occurs in `s`.
pub fn contains_chars(s: &str, needle: &str) -> (b: bool)
    ensures
        b == has_subsequence(s@, needle@),
{
    let cs = chars_of(s);
    let nd = chars_of(needle);
    if nd.len() > cs.len() {
        return false;
    }
    let last = cs.len() - nd.len();
    let mut k: usize = 0;
    while k <= last
        invariant
            cs@ == s@,
            nd@ == needle@,
            last == cs.len() - nd.len(),
            nd.len() <= cs.len(),
            k <= last + 1,
            forall|p: int| 0 <= p < k ==> #[trigger] s@.subrange(p, p + needle@.len()) != needle@,
        decreases last + 1 - k,
    {
        let mut j: usize = 0;
        let mut same = true;
        while j < nd.len()
            invariant
                cs@ == s@,
                nd@ == needle@,
                k + nd.len() <= cs.len(),
                j <= nd.len(),
                same == (forall|q: int| 0 <= q < j ==> cs@[k + q] == nd@[q]),
            decreases nd.len() - j,
        {
            if cs[k + j] != nd[j] {
                same = false;
            }
            j = j + 1;
        }
        if same {
            assert(s@.subrange(k as int, k + needle@.len()) =~= needle@);
            return true;
        }
        proof {
            let q = choose|q: int| 0 <= q < nd.len() && cs@[k + q] != nd@[q];
            assert(s@.subrange(k as int, k + needle@.len())[q] != needle@[q]);
        }
        k = k + 1;
    }
    proof {
        assert forall|p: int| 0 <= p && p + needle@.len() <= s@.len() implies #[trigger] s@.subrange(p, p + needle@.len()) != needle@ by {
            assert(p < k);
        }
    }
    false
}

/// `s` without its `,` and `.` characters.
pub open spec fn without_separators(s: Seq<char>) -> Seq<char>
    decreases s.len(),
{
    if s.len() == 0 {
        Seq::empty()
    } else {
        let init = without_separators(s.drop_last());
        if s.last() == ',' || s.last() == '.' {
            init
        } else {
            init.push(s.last())
        }
    }
}

/// The characters of `s` without its `,` and `.` characters, as
/// `s.replace(",", "").replace(".", "")` leaves them.
pub fn remove_separators(s: &str) -> (r: Vec<char>)
    ensures
        r@ == without_separators(s@),
{
    let cs = chars_of(s);
    let mut r: Vec<char> = Vec::new();
    let mut i: usize = 0;
    while i < cs.len()
        invariant
            cs@ == s@,
            i <= cs.len(),
            r@ == without_separators(s@.take(i as int)),
        decreases cs.len() - i,
    {
        assert(s@.take(i + 1).drop_last() =~= s@.take(i as int));
        let c = cs[i];
        if c != ',' && c != '.' {
            r.push(c);
        }
        i = i + 1;
    }
    assert(s@.take(cs.len() as int) =~= s@);
    r
}

/// Writing a number in base ten and reading it back, as an integer type that can hold
/// it, gives the number.
pub proof fn lemma_decimal_parse_round_trip(n: nat, max: nat)
    requires
        n <= max,
    ensures
        parse_unsigned(decimal_digits(n), max) == Some(n),
{
    lemma_decimal_digits_value(n);
    let d = decimal_digits(n);
    assert(d[0] != '+') by {
        assert(is_digit(d[0]));
    }
    assert(unsigned_part(d) == d);
}

/// No line that `str::lines` yields holds a line feed.
pub proof fn lemma_lines_have_no_newline(s: Seq<char>, from: int)
    ensures
        forall|i: int, k: int|
            0 <= i < lines_from(s, from).len() && 0 <= k < lines_from(s, from)[i].len()
                ==> #[trigger] lines_from(s, from)[i][k] != '\n',
    decreases s.len() + 1 - from,
{
    if !(from < 0 || from >= s.len()) {
        lemma_line_end_bounds(s, from);
        let e = line_end(s, from);
        lemma_lines_have_no_newline(s, e + 1);
        let all = lines_from(s, from);
        let rest = lines_from(s, e + 1);
        assert(all == seq![line_text(s, from, e)] + rest);
        assert forall|i: int, k: int|
            0 <= i < all.len() && 0 <= k < all[i].len() implies #[trigger] all[i][k] != '\n' by {
            if i == 0 {
                assert(all[0] == line_text(s, from, e));
                assert(all[0][k] == s[from + k]);
            } else {
                assert(all[i] == rest[i - 1]);
            }
        }
    }
}

} // verus!
