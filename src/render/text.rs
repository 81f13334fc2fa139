//! Plain-text building blocks for the panels: padding, fills and decimal
//! numbers, each an exact sequence of characters.

use vstd::prelude::*;
use vstd::string::StrSliceExecFns;

verus! {

/// `n` copies of `c`.
pub open spec fn fill(c: char, n: int) -> Seq<char> {
    Seq::new(n as nat, |_k: int| c)
}

/// `s` with spaces after it up to width `w`.
pub open spec fn pad_right(s: Seq<char>, w: int) -> Seq<char> {
    if s.len() < w {
        s + fill(' ', w - s.len())
    } else {
        s
    }
}

/// `s` with spaces before it up to width `w`.
pub open spec fn pad_left(s: Seq<char>, w: int) -> Seq<char> {
    if s.len() < w {
        fill(' ', w - s.len()) + s
    } else {
        s
    }
}

/// The decimal digit `d`.
pub open spec fn digit(d: int) -> char {
    (d + 48) as char
}

/// `n` written in decimal.
pub open spec fn decimal(n: nat) -> Seq<char>
    decreases n,
{
    if n < 10 {
        seq![digit(n as int)]
    } else {
        decimal(n / 10).push(digit((n % 10) as int))
    }
}

/// Appends `n` copies of `c`.
pub fn push_fill(out: &mut Vec<char>, c: char, n: usize)
    ensures
        final(out)@ == old(out)@ + fill(c, n as int),
{
    let ghost start = out@;
    let mut k: usize = 0;
    while k < n
        invariant
            0 <= k <= n,
            out@ == start + fill(c, k as int),
        decreases n - k,
    {
        out.push(c);
        k = k + 1;
        assert(out@ == start + fill(c, k as int));
    }
}

/// Appends the characters of `s`.
pub fn push_str(out: &mut Vec<char>, s: &str)
    ensures
        final(out)@ == old(out)@ + s@,
{
    let ghost start = out@;
    let n = s.unicode_len();
    let mut k: usize = 0;
    while k < n
        invariant
            0 <= k <= n,
            n == s@.len(),
            out@ == start + s@.subrange(0, k as int),
        decreases n - k,
    {
        out.push(s.get_char(k));
        assert(s@.subrange(0, k + 1) == s@.subrange(0, k as int).push(s@[k as int]));
        k = k + 1;
    }
    assert(s@.subrange(0, n as int) == s@);
}

/// Appends the characters of `s`.
pub fn extend(out: &mut Vec<char>, s: &Vec<char>)
    ensures
        final(out)@ == old(out)@ + s@,
{
    let ghost start = out@;
    let mut k: usize = 0;
    while k < s.len()
        invariant
            0 <= k <= s.len(),
            out@ == start + s@.subrange(0, k as int),
        decreases s.len() - k,
    {
        out.push(s[k]);
        assert(s@.subrange(0, k + 1) == s@.subrange(0, k as int).push(s@[k as int]));
        k = k + 1;
    }
    assert(s@.subrange(0, s.len() as int) == s@);
}

/// The decimal digit `d`.
pub fn digit_char(d: usize) -> (r: char)
    requires
        d < 10,
    ensures
        r == digit(d as int),
{
    ((d as u8) + 48u8) as char
}

/// Appends `n` in decimal.
pub fn push_decimal(out: &mut Vec<char>, n: usize)
    ensures
        final(out)@ == old(out)@ + decimal(n as nat),
    decreases n,
{
    if n >= 10 {
        push_decimal(out, n / 10);
    }
    out.push(digit_char(n % 10));
}

/// Pads `s` with spaces up to width `w`.
pub fn pad_right_in_place(s: &mut Vec<char>, w: usize)
    ensures
        final(s)@ == pad_right(old(s)@, w as int),
{
    if s.len() < w {
        let gap = w - s.len();
        push_fill(s, ' ', gap);
    }
}

/// A horizontal border of `width` dashes between corners `left` and `right`.
pub open spec fn border(left: char, right: char, width: int) -> Seq<char> {
    seq![left] + fill('\u{2500}', width) + seq![right]
}

/// Appends a horizontal border.
pub fn push_border(out: &mut Vec<char>, left: char, right: char, width: usize)
    ensures
        final(out)@ == old(out)@ + border(left, right, width as int),
{
    out.push(left);
    push_fill(out, '\u{2500}', width);
    out.push(right);
}

} // verus!
