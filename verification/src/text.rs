//! Building text one character at a time, and the decimal digits of a number.

use vstd::prelude::*;

verus! {

/// The character that stands for a digit below ten.
pub open spec fn digit_char(d: int) -> char {
    if d == 0 {
        '0'
    } else if d == 1 {
        '1'
    } else if d == 2 {
        '2'
    } else if d == 3 {
        '3'
    } else if d == 4 {
        '4'
    } else if d == 5 {
        '5'
    } else if d == 6 {
        '6'
    } else if d == 7 {
        '7'
    } else if d == 8 {
        '8'
    } else {
        '9'
    }
}

/// The decimal digits of `n`, most significant first, without leading zeros;
/// zero is the single digit `0`.
pub open spec fn digits(n: nat) -> Seq<char>
    decreases n,
{
    if n < 10 {
        seq![digit_char(n as int)]
    } else {
        digits(n / 10).push(digit_char((n % 10) as int))
    }
}

/// A whole number in decimal, with a minus sign where it is negative.
pub open spec fn integer_text(i: int) -> Seq<char> {
    if i < 0 {
        seq!['-'] + digits((-i) as nat)
    } else {
        digits(i as nat)
    }
}

/// `n` times the character `0`.
pub open spec fn zeros(n: nat) -> Seq<char> {
    Seq::new(n, |i: int| '0')
}

/// The character that stands for a digit below ten.
pub(crate) fn digit(d: u8) -> (c: char)
    requires
        d < 10,
    ensures
        c == digit_char(d as int),
{
    match d {
        0 => '0',
        1 => '1',
        2 => '2',
        3 => '3',
        4 => '4',
        5 => '5',
        6 => '6',
        7 => '7',
        8 => '8',
        _ => '9',
    }
}

/// The magnitude of `i` as an unsigned number; it is defined for the least
/// value too.
pub(crate) fn magnitude(i: i64) -> (m: u64)
    ensures
        m == if i < 0 { -i } else { i as int },
{
    if i < 0 {
        let below: i64 = -(i + 1);
        below as u64 + 1
    } else {
        i as u64
    }
}

/// The decimal digits of `n`.
pub(crate) fn decimal_digits(n: u64) -> (v: Vec<char>)
    ensures
        v@ == digits(n as nat),
{
    let mut low: Vec<char> = Vec::new();
    let mut m: u64 = n;
    while m >= 10
        invariant
            digits(n as nat) == digits(m as nat) + low@.reverse(),
        decreases m,
    {
        let d: u8 = (m % 10) as u8;
        let c = digit(d);
        let ghost before = low@;
        low.push(c);
        assert(low@.reverse() == seq![c] + before.reverse());
        assert(digits(m as nat) == digits((m / 10) as nat).push(c));
        m = m / 10;
    }
    let c = digit(m as u8);
    let ghost before = low@;
    low.push(c);
    assert(low@.reverse() == seq![c] + before.reverse());
    assert(digits(n as nat) == low@.reverse());
    let mut v: Vec<char> = Vec::new();
    let mut i: usize = low.len();
    while i > 0
        invariant
            i <= low.len(),
            v@ == low@.reverse().take(low.len() - i),
        decreases i,
    {
        i = i - 1;
        v.push(low[i]);
        assert(v@ == low@.reverse().take(low.len() - i));
    }
    assert(low@.reverse().take(low.len() as int) == low@.reverse());
    v
}

/// Appends the characters of `v` from index `from` up to `to`.
pub(crate) fn push_chars(v: &Vec<char>, from: usize, to: usize, out: &mut String)
    requires
        from <= to <= v.len(),
    ensures
        final(out)@ == old(out)@ + v@.subrange(from as int, to as int),
{
    let ghost start = out@;
    let mut i: usize = from;
    while i < to
        invariant
            from <= i <= to <= v.len(),
            out@ == start + v@.subrange(from as int, i as int),
        decreases to - i,
    {
        out.push(v[i]);
        assert(v@.subrange(from as int, i + 1) == v@.subrange(from as int, i as int).push(v@[i as int]));
        i = i + 1;
    }
}

/// Appends `n` times the character `0`.
pub(crate) fn push_zeros(n: usize, out: &mut String)
    ensures
        final(out)@ == old(out)@ + zeros(n as nat),
{
    let ghost start = out@;
    let mut i: usize = 0;
    while i < n
        invariant
            i <= n,
            out@ == start + zeros(i as nat),
        decreases n - i,
    {
        out.push('0');
        assert(zeros((i + 1) as nat) == zeros(i as nat).push('0'));
        i = i + 1;
    }
}

/// Appends a whole number in decimal.
pub(crate) fn push_integer(i: i64, out: &mut String)
    ensures
        final(out)@ == old(out)@ + integer_text(i as int),
{
    if i < 0 {
        out.push('-');
    }
    let d = decimal_digits(magnitude(i));
    push_chars(&d, 0, d.len(), out);
    assert(d@.subrange(0, d@.len() as int) == d@);
}

} // verus!
