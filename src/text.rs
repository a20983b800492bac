//! Character-level helpers shared by the other modules: decimal rendering of
//! integers and whitespace trimming.
use vstd::prelude::*;

verus! {

/// The character for a decimal digit.
pub open spec fn digit_char(d: nat) -> char {
    if d == 0 { '0' }
    else if d == 1 { '1' }
    else if d == 2 { '2' }
    else if d == 3 { '3' }
    else if d == 4 { '4' }
    else if d == 5 { '5' }
    else if d == 6 { '6' }
    else if d == 7 { '7' }
    else if d == 8 { '8' }
    else { '9' }
}

/// Decimal rendering of a natural number, without leading zeros.
pub open spec fn decimal(n: nat) -> Seq<char>
    decreases n,
{
    if n < 10 {
        seq![digit_char(n)]
    } else {
        decimal(n / 10).push(digit_char(n % 10))
    }
}

/// The digits that precede the last one in `decimal(10 * k + d)`.
spec fn leading_digits(k: nat) -> Seq<char> {
    if k == 0 { Seq::empty() } else { decimal(k) }
}

fn digit_str(d: u64) -> (r: &'static str)
    requires
        d < 10,
    ensures
        r@ == seq![digit_char(d as nat)],
{
    proof {
        reveal_strlit("0");
        reveal_strlit("1");
        reveal_strlit("2");
        reveal_strlit("3");
        reveal_strlit("4");
        reveal_strlit("5");
        reveal_strlit("6");
        reveal_strlit("7");
        reveal_strlit("8");
        reveal_strlit("9");
    }
    let r = if d == 0 { "0" }
    else if d == 1 { "1" }
    else if d == 2 { "2" }
    else if d == 3 { "3" }
    else if d == 4 { "4" }
    else if d == 5 { "5" }
    else if d == 6 { "6" }
    else if d == 7 { "7" }
    else if d == 8 { "8" }
    else { "9" };
    assert(r@ =~= seq![digit_char(d as nat)]);
    r
}

/// Renders `n` in decimal.
pub fn decimal_string(n: u64) -> (r: String)
    ensures
        r@ == decimal(n as nat),
{
    let mut rest: u64 = n / 10;
    let mut acc = String::from_str(digit_str(n % 10));
    assert(decimal(n as nat) =~= leading_digits(rest as nat) + acc@);
    while rest > 0
        invariant
            decimal(n as nat) == leading_digits(rest as nat) + acc@,
        decreases rest,
    {
        let d = rest % 10;
        let digit = String::from_str(digit_str(d));
        let ghost old_acc = acc@;
        acc = digit.concat(acc.as_str());
        assert(leading_digits(rest as nat) =~= leading_digits((rest / 10) as nat) + seq![digit_char(d as nat)]);
        assert(leading_digits(rest as nat) + old_acc =~= leading_digits((rest / 10) as nat) + acc@);
        rest = rest / 10;
    }
    assert(acc@ =~= leading_digits(0) + acc@);
    acc
}

/// The characters that `char::is_whitespace` accepts (Unicode White_Space).
pub open spec fn is_space(c: char) -> bool {
    ('\u{9}' <= c && c <= '\u{d}') || c == ' ' || c == '\u{85}' || c == '\u{a0}'
        || c == '\u{1680}' || ('\u{2000}' <= c && c <= '\u{200a}') || c == '\u{2028}'
        || c == '\u{2029}' || c == '\u{202f}' || c == '\u{205f}' || c == '\u{3000}'
}

/// Index of the first non-space character of `s` at or after `i`, or `s.len()`.
pub open spec fn skip_space(s: Seq<char>, i: int) -> int
    decreases s.len() - i,
{
    if i < 0 || i >= s.len() || !is_space(s[i]) {
        i
    } else {
        skip_space(s, i + 1)
    }
}

/// End (exclusive) of `s[lo..hi]` once trailing spaces are removed.
pub open spec fn trim_end_at(s: Seq<char>, lo: int, hi: int) -> int
    decreases hi - lo,
{
    if hi <= lo || !is_space(s[hi - 1]) {
        hi
    } else {
        trim_end_at(s, lo, hi - 1)
    }
}

/// `s` with leading and trailing whitespace removed, as `str::trim` does.
pub open spec fn trim(s: Seq<char>) -> Seq<char> {
    let lo = skip_space(s, 0);
    s.subrange(lo, trim_end_at(s, lo, s.len() as int))
}

pub fn is_space_char(c: char) -> (r: bool)
    ensures
        r == is_space(c),
{
    ('\u{9}' <= c && c <= '\u{d}') || c == ' ' || c == '\u{85}' || c == '\u{a0}'
        || c == '\u{1680}' || ('\u{2000}' <= c && c <= '\u{200a}') || c == '\u{2028}'
        || c == '\u{2029}' || c == '\u{202f}' || c == '\u{205f}' || c == '\u{3000}'
}

/// Bounds `(lo, hi)` of `trim(s[from..to])` within `s`.
pub fn trim_bounds(s: &Vec<char>, from: usize, to: usize) -> (r: (usize, usize))
    requires
        from <= to <= s@.len(),
    ensures
        from <= r.0 <= r.1 <= to,
        s@.subrange(r.0 as int, r.1 as int) == trim(s@.subrange(from as int, to as int)),
{
    let ghost t = s@.subrange(from as int, to as int);
    let mut lo: usize = from;
    while lo < to && is_space_char(s[lo])
        invariant
            from <= lo <= to <= s@.len(),
            t == s@.subrange(from as int, to as int),
            skip_space(t, 0) == skip_space(t, lo - from),
        decreases to - lo,
    {
        lo = lo + 1;
    }
    let mut hi: usize = to;
    while hi > lo && is_space_char(s[hi - 1])
        invariant
            from <= lo <= hi <= to <= s@.len(),
            t == s@.subrange(from as int, to as int),
            skip_space(t, 0) == lo - from,
            trim_end_at(t, lo - from, t.len() as int) == trim_end_at(t, lo - from, hi - from),
        decreases hi - lo,
    {
        hi = hi - 1;
    }
    assert(s@.subrange(lo as int, hi as int) =~= t.subrange(lo - from, hi - from));
    (lo, hi)
}

} // verus!
