//! Character-level helpers shared by the parsers: whitespace, trimming, splitting and
//! decimal numbers, each stated over the `Seq<char>` view of the text.
use vstd::prelude::*;

verus! {

/// Characters with the Unicode `White_Space` property, the set `char::is_whitespace` tests.
pub open spec fn is_ws(c: char) -> bool {
    let u = c as u32;
    (9 <= u && u <= 13) || u == 32 || u == 0x85 || u == 0xa0 || u == 0x1680 || (0x2000 <= u && u
        <= 0x200a) || u == 0x2028 || u == 0x2029 || u == 0x202f || u == 0x205f || u == 0x3000
}

/// The characters that a trimming step removes.
#[derive(Debug, Copy, Clone, PartialEq, Eq, Structural)]
pub enum TrimSet {
    /// Whitespace only.
    Whitespace,
    /// Whitespace and the double quote.
    WhitespaceAndQuote,
}

pub open spec fn in_set(set: TrimSet, c: char) -> bool {
    match set {
        TrimSet::Whitespace => is_ws(c),
        TrimSet::WhitespaceAndQuote => is_ws(c) || c == '"',
    }
}

/// Index of the first character at or after `i` that is not in `set` (or the length).
pub open spec fn run_end(s: Seq<char>, i: int, set: TrimSet) -> int
    decreases s.len() - i,
{
    if 0 <= i < s.len() && in_set(set, s[i]) {
        run_end(s, i + 1, set)
    } else {
        i
    }
}

/// Index just after the last character before `j` that is not in `set` (or zero).
pub open spec fn run_start(s: Seq<char>, j: int, set: TrimSet) -> int
    decreases j,
{
    if 0 < j <= s.len() && in_set(set, s[j - 1]) {
        run_start(s, j - 1, set)
    } else {
        j
    }
}

/// `s` without the leading characters of `set`.
pub open spec fn trim_start_of(s: Seq<char>, set: TrimSet) -> Seq<char> {
    s.subrange(run_end(s, 0, set), s.len() as int)
}

/// `s` without the leading and trailing characters of `set`.
pub open spec fn trim_of(s: Seq<char>, set: TrimSet) -> Seq<char> {
    let t = trim_start_of(s, set);
    t.subrange(0, run_start(t, t.len() as int, set))
}

/// `s` without leading whitespace, as `str::trim_start` gives it.
pub open spec fn trim_start(s: Seq<char>) -> Seq<char> {
    trim_start_of(s, TrimSet::Whitespace)
}

/// `s` without leading and trailing whitespace, as `str::trim` gives it.
pub open spec fn trim(s: Seq<char>) -> Seq<char> {
    trim_of(s, TrimSet::Whitespace)
}

/// `s` without trailing whitespace, as `str::trim_end` gives it.
pub open spec fn trim_end(s: Seq<char>) -> Seq<char> {
    s.subrange(0, run_start(s, s.len() as int, TrimSet::Whitespace))
}

/// Index of the first whitespace character at or after `i` (or the length).
pub open spec fn first_ws(s: Seq<char>, i: int) -> int
    decreases s.len() - i,
{
    if 0 <= i < s.len() && !is_ws(s[i]) {
        first_ws(s, i + 1)
    } else {
        i
    }
}

/// The pieces of `s` between the occurrences of `sep`, as `str::split` gives them.
pub open spec fn split(s: Seq<char>, sep: char) -> Seq<Seq<char>>
    decreases s.len(),
{
    if s.len() == 0 {
        seq![Seq::<char>::empty()]
    } else {
        let r = split(s.drop_last(), sep);
        if s.last() == sep {
            r.push(Seq::<char>::empty())
        } else {
            r.update(r.len() - 1, r.last().push(s.last()))
        }
    }
}

/// `p` occurs in `s` at index `i`.
pub open spec fn occurs_at(s: Seq<char>, p: Seq<char>, i: int) -> bool {
    0 <= i && i + p.len() <= s.len() && s.subrange(i, i + p.len()) == p
}

/// The first index at or after `i` where `p` occurs in `s`.
pub open spec fn find_from(s: Seq<char>, p: Seq<char>, i: int) -> Option<int>
    decreases s.len() + 1 - i,
{
    if i < 0 || i + p.len() > s.len() {
        None
    } else if occurs_at(s, p, i) {
        Some(i)
    } else {
        find_from(s, p, i + 1)
    }
}

/// The leftmost occurrence of `p` in `s`, as `str::find` gives it (counted in characters).
pub open spec fn find(s: Seq<char>, p: Seq<char>) -> Option<int> {
    find_from(s, p, 0)
}

pub open spec fn starts_with(s: Seq<char>, p: Seq<char>) -> bool {
    p.len() <= s.len() && s.subrange(0, p.len() as int) == p
}

pub open spec fn is_digit(c: char) -> bool {
    48 <= (c as u32) && (c as u32) <= 57
}

pub open spec fn digit_value(c: char) -> nat {
    ((c as u32) - 48) as nat
}

/// The number that a string of decimal digits denotes.
pub open spec fn digits_value(s: Seq<char>) -> nat
    decreases s.len(),
{
    if s.len() == 0 {
        0
    } else {
        digits_value(s.drop_last()) * 10 + digit_value(s.last())
    }
}

pub open spec fn all_digits(s: Seq<char>) -> bool {
    forall|i: int| 0 <= i < s.len() ==> #[trigger] is_digit(s[i])
}

/// `s` without one leading `+`.
pub open spec fn unsigned_part(s: Seq<char>) -> Seq<char> {
    if s.len() > 0 && s[0] == '+' {
        s.drop_first()
    } else {
        s
    }
}

/// What `str::parse::<u64>` gives: an optional `+`, then at least one decimal digit, with
/// a value that fits in 64 bits.
pub open spec fn parse_u64(s: Seq<char>) -> Option<u64> {
    let d = unsigned_part(s);
    if d.len() > 0 && all_digits(d) && digits_value(d) <= u64::MAX {
        Some(digits_value(d) as u64)
    } else {
        None
    }
}

/// The value of a non-empty run of decimal digits that fits in 64 bits; nothing else
/// (no sign, no space) reads as a number.
pub open spec fn digits_u64(s: Seq<char>) -> Option<u64> {
    if s.len() > 0 && all_digits(s) && digits_value(s) <= u64::MAX {
        Some(digits_value(s) as u64)
    } else {
        None
    }
}

/// `a` comes before `b` in the lexicographic order of their characters, the order of `str`.
pub open spec fn lex_lt(a: Seq<char>, b: Seq<char>) -> bool
    decreases a.len(),
{
    if a.len() == 0 {
        b.len() > 0
    } else if b.len() == 0 {
        false
    } else if a[0] != b[0] {
        (a[0] as u32) < (b[0] as u32)
    } else {
        lex_lt(a.drop_first(), b.drop_first())
    }
}

/// The decimal digit character of `d`.
pub open spec fn digit_char(d: nat) -> char {
    ((d + 48) as u32) as char
}

/// The decimal numeral of `n`, without leading zeros.
pub open spec fn decimal(n: nat) -> Seq<char>
    decreases n,
{
    if n < 10 {
        seq![digit_char(n)]
    } else {
        decimal(n / 10).push(digit_char(n % 10))
    }
}

pub open spec fn opt_view(o: Option<String>) -> Option<Seq<char>> {
    match o {
        Some(s) => Some(s@),
        None => None,
    }
}

pub proof fn lemma_split_nonempty(s: Seq<char>, sep: char)
    ensures
        split(s, sep).len() >= 1,
    decreases s.len(),
{
    if s.len() > 0 {
        lemma_split_nonempty(s.drop_last(), sep);
    }
}

/// A value of all-digit text is at least the value of any of its prefixes.
pub proof fn lemma_digits_value_prefix(s: Seq<char>, k: int)
    requires
        0 <= k <= s.len(),
    ensures
        digits_value(s.subrange(0, k)) <= digits_value(s),
    decreases s.len() - k,
{
    if k < s.len() {
        lemma_digits_value_prefix(s.drop_last(), k);
        assert(s.drop_last().subrange(0, k) =~= s.subrange(0, k));
        if k == s.len() - 1 {
            assert(s.subrange(0, k) =~= s.drop_last());
        }
    } else {
        assert(s.subrange(0, k) =~= s);
    }
}

/// Whitespace test with the contract of `char::is_whitespace`.
pub fn is_whitespace(c: char) -> (r: bool)
    ensures
        r == is_ws(c),
{
    let u = c as u32;
    (9 <= u && u <= 13) || u == 32 || u == 0x85 || u == 0xa0 || u == 0x1680 || (0x2000 <= u && u
        <= 0x200a) || u == 0x2028 || u == 0x2029 || u == 0x202f || u == 0x205f || u == 0x3000
}

pub fn in_trim_set(set: TrimSet, c: char) -> (r: bool)
    ensures
        r == in_set(set, c),
{
    match set {
        TrimSet::Whitespace => is_whitespace(c),
        TrimSet::WhitespaceAndQuote => is_whitespace(c) || c == '"',
    }
}

/// The characters of `s`, one per element.
pub fn chars_of(s: &str) -> (r: Vec<char>)
    ensures
        r@ == s@,
{
    let n = s.unicode_len();
    let mut v: Vec<char> = Vec::new();
    let mut i: usize = 0;
    while i < n
        invariant
            n == s@.len(),
            i <= n,
            v@ == s@.subrange(0, i as int),
        decreases n - i,
    {
        v.push(s.get_char(i));
        i = i + 1;
        assert(v@ =~= s@.subrange(0, i as int));
    }
    assert(v@ =~= s@);
    v
}

/// Whether `a` and `b` hold the same characters.
pub fn same_text(a: &str, b: &str) -> (r: bool)
    ensures
        r == (a@ == b@),
{
    let n = a.unicode_len();
    if n != b.unicode_len() {
        return false;
    }
    let mut i: usize = 0;
    while i < n
        invariant
            n == a@.len(),
            n == b@.len(),
            i <= n,
            a@.subrange(0, i as int) == b@.subrange(0, i as int),
        decreases n - i,
    {
        if a.get_char(i) != b.get_char(i) {
            return false;
        }
        assert(a@.subrange(0, i + 1) =~= a@.subrange(0, i as int).push(a@[i as int]));
        assert(b@.subrange(0, i + 1) =~= b@.subrange(0, i as int).push(b@[i as int]));
        i = i + 1;
    }
    assert(a@ =~= a@.subrange(0, n as int));
    assert(b@ =~= b@.subrange(0, n as int));
    true
}

/// `s` without trailing whitespace; see `trim_end`.
pub fn trim_end_owned(s: &str) -> (r: String)
    ensures
        r@ == trim_end(s@),
{
    let cs = chars_of(s);
    let b = skip_backward(&cs, 0, cs.len(), TrimSet::Whitespace);
    assert(cs@.subrange(0, cs@.len() as int) =~= s@);
    s.substring_char(0, b).to_owned()
}

/// The one-character text of decimal digit `d`.
fn digit_text(d: u64) -> (r: &'static str)
    requires
        d < 10,
    ensures
        r@ == seq![digit_char(d as nat)],
{
    proof {
        reveal_strlit("0");
        reveal_strlit("1");
        reveal_strlit("2");
        reveal_strlit("3");
        reveal_strlit("4");
        reveal_strlit("5");
        reveal_strlit("6");
        reveal_strlit("7");
        reveal_strlit("8");
        reveal_strlit("9");
    }
    let r = if d == 0 {
        "0"
    } else if d == 1 {
        "1"
    } else if d == 2 {
        "2"
    } else if d == 3 {
        "3"
    } else if d == 4 {
        "4"
    } else if d == 5 {
        "5"
    } else if d == 6 {
        "6"
    } else if d == 7 {
        "7"
    } else if d == 8 {
        "8"
    } else {
        "9"
    };
    assert(r@ =~= seq![digit_char(d as nat)]);
    r
}

/// Appends the decimal numeral of `n` to `s`.
pub fn push_decimal(s: &mut String, n: u64)
    ensures
        final(s)@ == old(s)@ + decimal(n as nat),
    decreases n,
{
    if n >= 10 {
        push_decimal(s, n / 10);
    }
    s.append(digit_text(n % 10));
    assert(s@ =~= old(s)@ + decimal(n as nat));
}

/// Whether `a >= b` in the order of `str`.
pub fn text_ge(a: &str, b: &str) -> (r: bool)
    ensures
        r == !lex_lt(a@, b@),
{
    let n = a.unicode_len();
    let m = b.unicode_len();
    let mut i: usize = 0;
    assert(a@.subrange(0, n as int) =~= a@);
    assert(b@.subrange(0, m as int) =~= b@);
    while i < n && i < m
        invariant
            n == a@.len(),
            m == b@.len(),
            i <= n,
            i <= m,
            lex_lt(a@, b@) == lex_lt(a@.subrange(i as int, n as int), b@.subrange(i as int, m as int)),
        decreases n - i,
    {
        let x = a.get_char(i);
        let y = b.get_char(i);
        let ghost sa = a@.subrange(i as int, n as int);
        let ghost sb = b@.subrange(i as int, m as int);
        assert(sa[0] == x && sb[0] == y);
        if x != y {
            return (x as u32) > (y as u32);
        }
        assert(sa.drop_first() =~= a@.subrange(i + 1, n as int));
        assert(sb.drop_first() =~= b@.subrange(i + 1, m as int));
        i = i + 1;
    }
    let ghost sa = a@.subrange(i as int, n as int);
    let ghost sb = b@.subrange(i as int, m as int);
    assert(i == n ==> sa.len() == 0);
    assert(i == m ==> sb.len() == 0);
    i == m
}

/// Index of the first character in `cs[lo..hi]` that is not in `set` (or `hi`).
pub fn skip_forward(cs: &Vec<char>, lo: usize, hi: usize, set: TrimSet) -> (r: usize)
    requires
        lo <= hi <= cs@.len(),
    ensures
        lo <= r <= hi,
        r - lo == run_end(cs@.subrange(lo as int, hi as int), 0, set),
{
    let ghost t = cs@.subrange(lo as int, hi as int);
    let mut i: usize = lo;
    while i < hi && in_trim_set(set, cs[i])
        invariant
            lo <= i <= hi <= cs@.len(),
            t == cs@.subrange(lo as int, hi as int),
            run_end(t, 0, set) == run_end(t, i - lo, set),
        decreases hi - i,
    {
        assert(t[i - lo] == cs@[i as int]);
        i = i + 1;
    }
    if i < hi {
        assert(t[i - lo] == cs@[i as int]);
    }
    i
}

/// Index just after the last character in `cs[lo..hi]` that is not in `set` (or `lo`).
pub fn skip_backward(cs: &Vec<char>, lo: usize, hi: usize, set: TrimSet) -> (r: usize)
    requires
        lo <= hi <= cs@.len(),
    ensures
        lo <= r <= hi,
        r - lo == run_start(cs@.subrange(lo as int, hi as int), hi - lo, set),
{
    let ghost t = cs@.subrange(lo as int, hi as int);
    let mut j: usize = hi;
    while j > lo && in_trim_set(set, cs[j - 1])
        invariant
            lo <= j <= hi <= cs@.len(),
            t == cs@.subrange(lo as int, hi as int),
            run_start(t, hi - lo, set) == run_start(t, j - lo, set),
        decreases j,
    {
        assert(t[j - lo - 1] == cs@[j - 1]);
        j = j - 1;
    }
    if j > lo {
        assert(t[j - lo - 1] == cs@[j - 1]);
    }
    j
}

/// Bounds of `cs[lo..hi]` with the characters of `set` trimmed from both ends.
pub fn trim_bounds(cs: &Vec<char>, lo: usize, hi: usize, set: TrimSet) -> (r: (usize, usize))
    requires
        lo <= hi <= cs@.len(),
    ensures
        lo <= r.0 <= r.1 <= hi,
        cs@.subrange(r.0 as int, r.1 as int) == trim_of(cs@.subrange(lo as int, hi as int), set),
{
    let a = skip_forward(cs, lo, hi, set);
    let b = skip_backward(cs, a, hi, set);
    proof {
        let s = cs@.subrange(lo as int, hi as int);
        let t = trim_start_of(s, set);
        assert(t =~= cs@.subrange(a as int, hi as int));
        assert(cs@.subrange(a as int, b as int) =~= t.subrange(0, b - a));
    }
    (a, b)
}

/// Index of the first whitespace character in `cs[lo..hi]` (or `hi`).
pub fn find_whitespace(cs: &Vec<char>, lo: usize, hi: usize) -> (r: usize)
    requires
        lo <= hi <= cs@.len(),
    ensures
        lo <= r <= hi,
        r - lo == first_ws(cs@.subrange(lo as int, hi as int), 0),
{
    let ghost t = cs@.subrange(lo as int, hi as int);
    let mut i: usize = lo;
    while i < hi && !is_whitespace(cs[i])
        invariant
            lo <= i <= hi <= cs@.len(),
            t == cs@.subrange(lo as int, hi as int),
            first_ws(t, 0) == first_ws(t, i - lo),
        decreases hi - i,
    {
        assert(t[i - lo] == cs@[i as int]);
        i = i + 1;
    }
    if i < hi {
        assert(t[i - lo] == cs@[i as int]);
    }
    i
}

/// Bounds of the pieces of `cs[lo..hi]` between occurrences of `sep`.
pub fn split_bounds(cs: &Vec<char>, lo: usize, hi: usize, sep: char) -> (r: Vec<(usize, usize)>)
    requires
        lo <= hi <= cs@.len(),
    ensures
        r@.len() == split(cs@.subrange(lo as int, hi as int), sep).len(),
        forall|j: int|
            0 <= j < r@.len() ==> lo <= (#[trigger] r@[j]).0 <= r@[j].1 <= hi && cs@.subrange(
                r@[j].0 as int,
                r@[j].1 as int,
            ) == split(cs@.subrange(lo as int, hi as int), sep)[j],
{
    let mut r: Vec<(usize, usize)> = Vec::new();
    let mut start: usize = lo;
    let mut i: usize = lo;
    proof {
        assert(cs@.subrange(lo as int, lo as int) =~= Seq::<char>::empty());
        assert(cs@.subrange(start as int, i as int) =~= Seq::<char>::empty());
    }
    while i < hi
        invariant
            lo <= start <= i <= hi <= cs@.len(),
            r@.len() + 1 == split(cs@.subrange(lo as int, i as int), sep).len(),
            forall|j: int|
                0 <= j < r@.len() ==> lo <= (#[trigger] r@[j]).0 <= r@[j].1 <= i && cs@.subrange(
                    r@[j].0 as int,
                    r@[j].1 as int,
                ) == split(cs@.subrange(lo as int, i as int), sep)[j],
            cs@.subrange(start as int, i as int) == split(
                cs@.subrange(lo as int, i as int),
                sep,
            ).last(),
        decreases hi - i,
    {
        let ghost prev = cs@.subrange(lo as int, i as int);
        let ghost next = cs@.subrange(lo as int, i + 1);
        proof {
            assert(next.drop_last() =~= prev);
            assert(next.last() == cs@[i as int]);
            lemma_split_nonempty(prev, sep);
        }
        if cs[i] == sep {
            r.push((start, i));
            start = i + 1;
            proof {
                assert(cs@.subrange(start as int, i + 1) =~= Seq::<char>::empty());
            }
        } else {
            proof {
                assert(cs@.subrange(start as int, i + 1) =~= cs@.subrange(
                    start as int,
                    i as int,
                ).push(cs@[i as int]));
            }
        }
        i = i + 1;
    }
    proof {
        assert(cs@.subrange(lo as int, i as int) =~= cs@.subrange(lo as int, hi as int));
    }
    r.push((start, hi));
    r
}

/// `cs[lo..hi]` read as a `u64` the way `str::parse::<u64>` reads it.
pub fn parse_u64_in(cs: &Vec<char>, lo: usize, hi: usize) -> (r: Option<u64>)
    requires
        lo <= hi <= cs@.len(),
    ensures
        r == parse_u64(cs@.subrange(lo as int, hi as int)),
{
    let ghost s = cs@.subrange(lo as int, hi as int);
    let mut start = lo;
    if lo < hi && cs[lo] == '+' {
        start = lo + 1;
    }
    let ghost d = cs@.subrange(start as int, hi as int);
    assert(d =~= unsigned_part(s));
    if start == hi {
        return None;
    }
    let mut v: u64 = 0;
    let mut i: usize = start;
    assert(d.subrange(0, 0) =~= Seq::<char>::empty());
    while i < hi
        invariant
            lo <= start <= i <= hi <= cs@.len(),
            d == cs@.subrange(start as int, hi as int),
            d =~= unsigned_part(s),
            s == cs@.subrange(lo as int, hi as int),
            forall|k: int| 0 <= k < i - start ==> #[trigger] is_digit(d[k]),
            v as nat == digits_value(d.subrange(0, i - start)),
        decreases hi - i,
    {
        let c = cs[i];
        assert(d[i - start] == c);
        let u = c as u32;
        if !(48 <= u && u <= 57) {
            assert(!is_digit(d[i - start]));
            return None;
        }
        let dv = (u - 48) as u64;
        let ghost pre = d.subrange(0, i - start + 1);
        assert(pre.drop_last() =~= d.subrange(0, i - start));
        assert(pre.last() == c);
        match v.checked_mul(10) {
            None => {
                proof {
                    if all_digits(d) {
                        lemma_digits_value_prefix(d, i - start + 1);
                    }
                }
                return None;
            },
            Some(m) => match m.checked_add(dv) {
                None => {
                    proof {
                        if all_digits(d) {
                            lemma_digits_value_prefix(d, i - start + 1);
                        }
                    }
                    return None;
                },
                Some(n) => {
                    v = n;
                },
            },
        }
        i = i + 1;
    }
    assert(d.subrange(0, i - start) =~= d);
    Some(v)
}

/// `cs[lo..hi]` read as plain decimal digits; see `digits_u64`.
pub fn digits_u64_in(cs: &Vec<char>, lo: usize, hi: usize) -> (r: Option<u64>)
    requires
        lo <= hi <= cs@.len(),
    ensures
        r == digits_u64(cs@.subrange(lo as int, hi as int)),
{
    let ghost s = cs@.subrange(lo as int, hi as int);
    if lo == hi {
        return None;
    }
    let u = cs[lo] as u32;
    if !(48 <= u && u <= 57) {
        assert(!is_digit(s[0]));
        return None;
    }
    assert(unsigned_part(s) == s);
    parse_u64_in(cs, lo, hi)
}

/// `cs[lo..hi]` starts with `p`.
pub fn starts_with_at(cs: &Vec<char>, lo: usize, hi: usize, p: &Vec<char>) -> (r: bool)
    requires
        lo <= hi <= cs@.len(),
    ensures
        r == starts_with(cs@.subrange(lo as int, hi as int), p@),
{
    if p.len() > hi - lo {
        return false;
    }
    let mut k: usize = 0;
    while k < p.len()
        invariant
            lo <= hi <= cs@.len(),
            p@.len() <= hi - lo,
            k <= p@.len(),
            cs@.subrange(lo as int, lo + k) == p@.subrange(0, k as int),
        decreases p@.len() - k,
    {
        if cs[lo + k] != p[k] {
            assert(cs@.subrange(lo as int, hi as int).subrange(0, p@.len() as int)[k as int]
                != p@[k as int]);
            return false;
        }
        assert(cs@.subrange(lo as int, lo + k + 1) =~= cs@.subrange(lo as int, lo + k).push(
            cs@[lo + k],
        ));
        assert(p@.subrange(0, k + 1) =~= p@.subrange(0, k as int).push(p@[k as int]));
        k = k + 1;
    }
    assert(cs@.subrange(lo as int, hi as int).subrange(0, p@.len() as int) =~= cs@.subrange(
        lo as int,
        lo + p@.len(),
    ));
    assert(p@.subrange(0, p@.len() as int) =~= p@);
    true
}

/// Leftmost index in `cs` where `p` occurs.
pub fn find_in(cs: &Vec<char>, p: &Vec<char>) -> (r: Option<usize>)
    ensures
        match r {
            Some(i) => find(cs@, p@) == Some(i as int) && i + p@.len() <= cs@.len(),
            None => find(cs@, p@) is None,
        },
{
    let n = cs.len();
    if p.len() > n {
        return None;
    }
    let last = n - p.len();
    let mut i: usize = 0;
    loop
        invariant
            n == cs@.len(),
            p@.len() <= n,
            last == n - p@.len(),
            i <= last,
            find_from(cs@, p@, 0) == find_from(cs@, p@, i as int),
        decreases last - i,
    {
        let hit = starts_with_at(cs, i, n, p);
        proof {
            let t = cs@.subrange(i as int, n as int);
            assert(t.subrange(0, p@.len() as int) =~= cs@.subrange(i as int, i + p@.len()));
        }
        if hit {
            return Some(i);
        }
        if i == last {
            assert(find_from(cs@, p@, i + 1) is None);
            return None;
        }
        i = i + 1;
    }
}

} // verus!
