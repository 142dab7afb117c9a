//! Decimal literals: the text that stands for a number, and reading it.
//!
//! A literal is a sign, whole digits, fraction digits behind a point, and an
//! exponent behind the letter `e`; all but the whole digits may be missing.
//! Every number is written as a literal, and reading that literal gives the
//! number back.

use vstd::prelude::*;
use crate::number::{point_text, Number, POSITIONAL_MAX};
use crate::text::{digit_char, digits, integer_text, zeros};

verus! {

/// The character is a decimal digit.
pub open spec fn is_digit(c: char) -> bool {
    '0' <= c && c <= '9'
}

/// The value of a decimal digit.
pub open spec fn digit_value(c: char) -> int {
    (c as u32) as int - 48
}

/// Every character of `s` is a decimal digit.
pub open spec fn all_digits(s: Seq<char>) -> bool {
    forall|i: int| 0 <= i < s.len() ==> is_digit(#[trigger] s[i])
}

/// The value of `acc` with the digits `s` written behind it.
pub open spec fn extend(acc: int, s: Seq<char>) -> int
    decreases s.len(),
{
    if s.len() == 0 {
        acc
    } else {
        extend(acc, s.drop_last()) * 10 + digit_value(s.last())
    }
}

/// The value of the digits `s` as a decimal number.
pub open spec fn digits_value(s: Seq<char>) -> int {
    extend(0, s)
}

/// A minus sign for a negative value, nothing otherwise.
pub open spec fn sign_text(negative: bool) -> Seq<char> {
    if negative {
        seq!['-']
    } else {
        Seq::empty()
    }
}

/// The parts of a decimal literal.
pub struct Literal {
    pub negative: bool,
    pub whole: Seq<char>,
    pub fraction: Seq<char>,
    /// The sign and the digits of the exponent.
    pub exponent: Option<(bool, Seq<char>)>,
}

impl Literal {
    /// The parts are digits, and there is a whole digit at least; an
    /// exponent, where there is one, has a digit at least.
    pub open spec fn well_formed(self) -> bool {
        &&& self.whole.len() > 0
        &&& all_digits(self.whole)
        &&& all_digits(self.fraction)
        &&& self.exponent matches Some((_, d)) ==> d.len() > 0 && all_digits(d)
    }

    /// The point and the fraction digits, where there are any.
    pub open spec fn fraction_text(self) -> Seq<char> {
        if self.fraction.len() > 0 {
            seq!['.'] + self.fraction
        } else {
            Seq::empty()
        }
    }

    /// The letter `e` and the exponent, where there is one.
    pub open spec fn exponent_text(self) -> Seq<char> {
        match self.exponent {
            Some((negative, d)) => seq!['e'] + sign_text(negative) + d,
            None => Seq::empty(),
        }
    }

    /// The literal as it is written.
    pub open spec fn text(self) -> Seq<char> {
        sign_text(self.negative) + self.whole + self.fraction_text() + self.exponent_text()
    }

    /// The digits of the literal, whole and fraction, as one signed number.
    pub open spec fn mantissa(self) -> int {
        if self.negative {
            -digits_value(self.whole + self.fraction)
        } else {
            digits_value(self.whole + self.fraction)
        }
    }

    /// The exponent as it is written, or 0 where there is none.
    pub open spec fn written_exponent(self) -> int {
        match self.exponent {
            Some((negative, d)) => if negative {
                -digits_value(d)
            } else {
                digits_value(d)
            },
            None => 0,
        }
    }

    /// The power of ten that the mantissa is to be taken with: the written
    /// exponent, less one for each fraction digit.
    pub open spec fn power(self) -> int {
        self.written_exponent() - self.fraction.len()
    }

    /// The number that the literal stands for, where its parts fit.
    pub open spec fn number(self) -> Option<Number> {
        if i64::MIN <= self.mantissa() <= i64::MAX && i16::MIN <= self.power() <= i16::MAX {
            Some(Number { mantissa: self.mantissa() as i64, exponent: self.power() as i16 })
        } else {
            None
        }
    }
}

/// Digits written behind digits: the value of the first run is extended by
/// the second.
pub proof fn lemma_extend_concat(acc: int, a: Seq<char>, b: Seq<char>)
    ensures
        extend(acc, a + b) == extend(extend(acc, a), b),
    decreases b.len(),
{
    if b.len() == 0 {
        assert(a + b == a);
    } else {
        assert((a + b).drop_last() == a + b.drop_last());
        lemma_extend_concat(acc, a, b.drop_last());
    }
}

/// Writing digits behind a value that is not negative does not make it
/// smaller, and ten times larger at least with each digit.
pub proof fn lemma_extend_grows(acc: int, s: Seq<char>)
    requires
        acc >= 0,
        all_digits(s),
    ensures
        extend(acc, s) >= acc,
        s.len() > 0 ==> extend(acc, s) >= acc * 10,
    decreases s.len(),
{
    if s.len() > 0 {
        assert(is_digit(s[s.len() - 1]));
        assert(all_digits(s.drop_last())) by {
            assert forall|i: int| 0 <= i < s.drop_last().len() implies is_digit(
                #[trigger] s.drop_last()[i],
            ) by {
                assert(s.drop_last()[i] == s[i]);
            }
        }
        lemma_extend_grows(acc, s.drop_last());
    }
}

/// Zeros written behind nothing are worth nothing.
pub proof fn lemma_zeros_value(n: nat)
    ensures
        all_digits(zeros(n)),
        extend(0, zeros(n)) == 0,
    decreases n,
{
    if n > 0 {
        assert(zeros(n).drop_last() == zeros((n - 1) as nat));
        lemma_zeros_value((n - 1) as nat);
    }
}

/// The decimal digits of a number are digits, and their value is the number.
pub proof fn lemma_digits_value(n: nat)
    ensures
        digits(n).len() >= 1,
        all_digits(digits(n)),
        digits_value(digits(n)) == n,
    decreases n,
{
    if n >= 10 {
        lemma_digits_value(n / 10);
        let front = digits(n / 10);
        let last = digit_char((n % 10) as int);
        assert(digits(n) == front.push(last));
        assert(digits(n).drop_last() == front);
        assert(digit_value(last) == n % 10);
    } else {
        assert(digits(n).drop_last() == Seq::<char>::empty());
        assert(extend(0, digits(n).drop_last()) == 0);
        assert(digit_value(digit_char(n as int)) == n);
    }
}

/// The literal that a number is written as.
pub open spec fn literal_of(n: Number) -> Literal {
    let d = digits(n.magnitude());
    let negative = n.mantissa < 0;
    if n.exponent == 0 {
        Literal { negative, whole: d, fraction: Seq::empty(), exponent: None }
    } else if -POSITIONAL_MAX <= n.exponent < 0 {
        let k = -n.exponent;
        if d.len() > k {
            Literal {
                negative,
                whole: d.subrange(0, d.len() - k),
                fraction: d.subrange(d.len() - k, d.len() as int),
                exponent: None,
            }
        } else {
            Literal {
                negative,
                whole: seq!['0'],
                fraction: zeros((k - d.len()) as nat) + d,
                exponent: None,
            }
        }
    } else {
        Literal {
            negative,
            whole: d,
            fraction: Seq::empty(),
            exponent: Some(
                (
                    n.exponent < 0,
                    digits(
                        if n.exponent < 0 {
                            (-n.exponent) as nat
                        } else {
                            n.exponent as nat
                        },
                    ),
                ),
            ),
        }
    }
}

proof fn lemma_literal_plain(n: Number)
    requires
        n.exponent == 0,
    ensures
        literal_of(n).well_formed(),
        literal_of(n).text() == n.text(),
        literal_of(n).number() == Some(n),
{
    let l = literal_of(n);
    let d = digits(n.magnitude());
    lemma_digits_value(n.magnitude());
    assert(l.whole + l.fraction == d);
    assert(l.fraction_text() == Seq::<char>::empty());
    assert(l.exponent_text() == Seq::<char>::empty());
    assert(l.text() == sign_text(l.negative) + d);
}

proof fn lemma_literal_point_inside(n: Number)
    requires
        -POSITIONAL_MAX <= n.exponent < 0,
        digits(n.magnitude()).len() > -n.exponent,
    ensures
        literal_of(n).well_formed(),
        literal_of(n).text() == n.text(),
        literal_of(n).number() == Some(n),
{
    let l = literal_of(n);
    let d = digits(n.magnitude());
    let k = -n.exponent;
    lemma_digits_value(n.magnitude());
    assert(l.whole + l.fraction == d);
    assert(l.exponent_text() == Seq::<char>::empty());
    assert(l.fraction_text() == seq!['.'] + l.fraction);
    assert(l.whole + l.fraction_text() == point_text(d, k as int));
    assert(l.text() == sign_text(l.negative) + point_text(d, k as int));
}

proof fn lemma_literal_point_in_front(n: Number)
    requires
        -POSITIONAL_MAX <= n.exponent < 0,
        digits(n.magnitude()).len() <= -n.exponent,
    ensures
        literal_of(n).well_formed(),
        literal_of(n).text() == n.text(),
        literal_of(n).number() == Some(n),
{
    let l = literal_of(n);
    let d = digits(n.magnitude());
    let k = -n.exponent;
    let z = zeros((k - d.len()) as nat);
    lemma_digits_value(n.magnitude());
    lemma_zeros_value((k - d.len()) as nat);
    assert(digits_value(l.whole + l.fraction) == n.magnitude()) by {
        assert(l.whole + l.fraction == (seq!['0'] + z) + d);
        lemma_extend_concat(0, seq!['0'] + z, d);
        lemma_extend_concat(0, seq!['0'], z);
        assert(seq!['0'].drop_last() == Seq::<char>::empty());
        assert(extend(0, seq!['0'].drop_last()) == 0);
        assert(extend(0, seq!['0']) == 0);
    }
    assert(all_digits(l.fraction));
    assert(l.fraction.len() == k);
    assert(l.exponent_text() == Seq::<char>::empty());
    assert(l.whole + l.fraction_text() == point_text(d, k as int));
    assert(l.text() == sign_text(l.negative) + point_text(d, k as int));
}

proof fn lemma_literal_exponent(n: Number)
    requires
        n.exponent > 0 || n.exponent < -POSITIONAL_MAX,
    ensures
        literal_of(n).well_formed(),
        literal_of(n).text() == n.text(),
        literal_of(n).number() == Some(n),
{
    let l = literal_of(n);
    let d = digits(n.magnitude());
    let e: nat = if n.exponent < 0 {
        (-n.exponent) as nat
    } else {
        n.exponent as nat
    };
    lemma_digits_value(n.magnitude());
    lemma_digits_value(e);
    assert(l.whole + l.fraction == d);
    assert(l.fraction_text() == Seq::<char>::empty());
    assert(sign_text(n.exponent < 0) + digits(e) == integer_text(n.exponent as int));
    assert(l.exponent_text() == seq!['e'] + integer_text(n.exponent as int));
    assert(l.text() == sign_text(l.negative) + d + seq!['e'] + integer_text(n.exponent as int));
}

/// Every number is written as a well-formed literal that stands for it.
pub proof fn lemma_number_text_is_literal(n: Number)
    ensures
        literal_of(n).well_formed(),
        literal_of(n).text() == n.text(),
        literal_of(n).number() == Some(n),
{
    if n.exponent == 0 {
        lemma_literal_plain(n);
    } else if -POSITIONAL_MAX <= n.exponent < 0 {
        if digits(n.magnitude()).len() > -n.exponent {
            lemma_literal_point_inside(n);
        } else {
            lemma_literal_point_in_front(n);
        }
    } else {
        lemma_literal_exponent(n);
    }
}

/// The end of the longest run of digits of `s` that starts at `i`.
pub open spec fn run_end(s: Seq<char>, i: int) -> int
    decreases s.len() - i,
{
    if 0 <= i < s.len() && is_digit(s[i]) {
        run_end(s, i + 1)
    } else {
        i
    }
}

/// A run of digits that ends at `j`, where the text ends or a character that
/// is no digit stands, is the longest run from each of its places.
pub proof fn lemma_run_end(s: Seq<char>, i: int, j: int)
    requires
        0 <= i <= j <= s.len(),
        forall|k: int| i <= k < j ==> is_digit(#[trigger] s[k]),
        j == s.len() || !is_digit(s[j]),
    ensures
        run_end(s, i) == j,
    decreases j - i,
{
    if i < j {
        assert(is_digit(s[i]));
        lemma_run_end(s, i + 1, j);
    }
}

/// The longest run of digits from `i` is a run of digits, and what follows
/// it is no digit.
pub proof fn lemma_run_end_is_run(s: Seq<char>, i: int)
    requires
        0 <= i <= s.len(),
    ensures
        i <= run_end(s, i) <= s.len(),
        forall|k: int| i <= k < run_end(s, i) ==> is_digit(#[trigger] s[k]),
        run_end(s, i) == s.len() || !is_digit(s[run_end(s, i)]),
    decreases s.len() - i,
{
    if i < s.len() && is_digit(s[i]) {
        lemma_run_end_is_run(s, i + 1);
    }
}

/// Characters of `s` that are digits from `i` up to `j` are digits when cut
/// out.
pub proof fn lemma_cut_digits(s: Seq<char>, i: int, j: int)
    requires
        0 <= i <= j <= s.len(),
        forall|k: int| i <= k < j ==> is_digit(#[trigger] s[k]),
    ensures
        all_digits(s.subrange(i, j)),
{
    assert forall|k: int| 0 <= k < s.subrange(i, j).len() implies is_digit(
        #[trigger] s.subrange(i, j)[k],
    ) by {
        assert(s.subrange(i, j)[k] == s[k + i]);
    }
}

/// The count of characters that the sign takes: one where the text starts
/// with a minus, none otherwise.
pub open spec fn sign_len(s: Seq<char>) -> int {
    if s.len() > 0 && s[0] == '-' {
        1
    } else {
        0
    }
}

/// The end of the whole digits: of the longest run of digits behind the
/// sign.
pub open spec fn whole_end(s: Seq<char>) -> int {
    run_end(s, sign_len(s))
}

/// A point follows the whole digits.
pub open spec fn pointed(s: Seq<char>) -> bool {
    whole_end(s) < s.len() && s[whole_end(s)] == '.'
}

/// The start of the fraction digits: behind the point where there is one.
pub open spec fn fraction_start(s: Seq<char>) -> int {
    if pointed(s) {
        whole_end(s) + 1
    } else {
        whole_end(s)
    }
}

/// The end of the fraction digits: of the longest run of digits behind the
/// point, or of the whole digits where there is no point.
pub open spec fn fraction_end(s: Seq<char>) -> int {
    run_end(s, fraction_start(s))
}

/// The exponent has a minus sign.
pub open spec fn exponent_minus(s: Seq<char>) -> bool {
    fraction_end(s) + 1 < s.len() && s[fraction_end(s) + 1] == '-'
}

/// The start of the exponent digits: behind the letter `e` and the sign.
pub open spec fn exponent_start(s: Seq<char>) -> int {
    if exponent_minus(s) {
        fraction_end(s) + 2
    } else {
        fraction_end(s) + 1
    }
}

/// The text reads as a literal from its first character to its last.
pub open spec fn is_literal(s: Seq<char>) -> bool {
    &&& sign_len(s) < whole_end(s)
    &&& pointed(s) ==> fraction_start(s) < fraction_end(s)
    &&& fraction_end(s) < s.len() ==> {
        &&& s[fraction_end(s)] == 'e'
        &&& exponent_start(s) < s.len()
        &&& run_end(s, exponent_start(s)) == s.len()
    }
}

/// The literal that the text reads as.
pub open spec fn literal_in(s: Seq<char>) -> Literal {
    Literal {
        negative: sign_len(s) == 1,
        whole: s.subrange(sign_len(s), whole_end(s)),
        fraction: s.subrange(fraction_start(s), fraction_end(s)),
        exponent: if fraction_end(s) < s.len() {
            Some((exponent_minus(s), s.subrange(exponent_start(s), s.len() as int)))
        } else {
            None
        },
    }
}

/// The text of a well-formed literal reads as that literal.
pub proof fn lemma_literal_reads_as_itself(l: Literal)
    requires
        l.well_formed(),
    ensures
        is_literal(l.text()),
        literal_in(l.text()) == l,
{
    let s = l.text();
    let sign = sign_text(l.negative);
    let ft = l.fraction_text();
    let et = l.exponent_text();
    let a = sign.len() as int;
    let b = a + l.whole.len();
    let c = b + ft.len();
    assert(s.len() == c + et.len());
    assert forall|k: int| a <= k < b implies is_digit(#[trigger] s[k]) by {
        assert(s[k] == l.whole[k - a]);
    }
    assert(s[0] == if l.negative {
        '-'
    } else {
        l.whole[0]
    });
    assert(is_digit(l.whole[0]));
    assert forall|k: int| b <= k < c implies #[trigger] s[k] == ft[k - b] by {}
    assert forall|k: int| c <= k < s.len() implies #[trigger] s[k] == et[k - c] by {}
    if l.fraction.len() > 0 {
        assert(s[b] == ft[0]);
        assert forall|k: int| b + 1 <= k < c implies is_digit(#[trigger] s[k]) by {
            assert(s[k] == l.fraction[k - b - 1]);
        }
    }
    if c < s.len() {
        assert(s[c] == et[0]);
    }
    match l.exponent {
        Some((negative, d)) => {
            let g = c + 1 + if negative {
                1int
            } else {
                0int
            };
            assert(et.len() == 1 + sign_text(negative).len() + d.len());
            assert(s[c] == 'e');
            assert(s[c + 1] == et[1]);
            assert(et[1] == if negative {
                '-'
            } else {
                d[0]
            });
            assert(is_digit(d[0]));
            assert forall|k: int| g <= k < s.len() implies is_digit(#[trigger] s[k]) by {
                assert(s[k] == d[k - g]);
            }
            lemma_run_end(s, g, s.len() as int);
            assert(s.subrange(g, s.len() as int) == d);
        },
        None => {},
    }
    lemma_run_end(s, a, b);
    assert(whole_end(s) == b);
    if l.fraction.len() > 0 {
        lemma_run_end(s, b + 1, c);
        assert(s.subrange(b + 1, c) == l.fraction);
    } else {
        lemma_run_end(s, b, b);
        assert(s.subrange(b, b) == l.fraction);
    }
    assert(fraction_end(s) == c);
    assert(s.subrange(a, b) == l.whole);
    assert(literal_in(s).exponent == l.exponent);
}

/// A text that reads as a literal is the text of the literal that it reads
/// as, and that literal is well formed.
pub proof fn lemma_reading_is_literal(s: Seq<char>)
    requires
        is_literal(s),
    ensures
        literal_in(s).well_formed(),
        literal_in(s).text() == s,
{
    let l = literal_in(s);
    let a = sign_len(s);
    let b = whole_end(s);
    let f = fraction_start(s);
    let c = fraction_end(s);
    lemma_run_end_is_run(s, a);
    lemma_run_end_is_run(s, f);
    lemma_cut_digits(s, a, b);
    lemma_cut_digits(s, f, c);
    assert(sign_text(l.negative) == s.subrange(0, a));
    assert(l.fraction_text() == s.subrange(b, c));
    if c < s.len() {
        let g = exponent_start(s);
        lemma_run_end_is_run(s, g);
        lemma_cut_digits(s, g, s.len() as int);
        assert(seq!['e'] + sign_text(exponent_minus(s)) == s.subrange(c, g));
        assert(l.exponent_text() == s.subrange(c, s.len() as int));
    } else {
        assert(l.exponent_text() == s.subrange(c, s.len() as int));
    }
    assert(l.text() == s);
}

/// A value above which the digits of a literal are not read on: no mantissa
/// and no exponent that fits is as large.
const VALUE_LIMIT: u128 = 100000000000000000000;

/// The characters of a text.
fn chars_of(text: &str) -> (v: Vec<char>)
    ensures
        v@ == text@,
{
    let mut v: Vec<char> = Vec::new();
    for c in it: text.chars()
        invariant
            it.seq() == text@,
            v@ == text@.take(it.index() as int),
    {
        v.push(c);
        assert(text@.take(it.index() + 1) == text@.take(it.index() as int).push(c));
    }
    assert(text@.take(text@.len() as int) == text@);
    v
}

/// The end of the longest run of digits that starts at `from`.
fn scan_digits(chars: &Vec<char>, from: usize) -> (to: usize)
    requires
        from <= chars.len(),
    ensures
        from <= to <= chars.len(),
        to == run_end(chars@, from as int),
{
    let mut i: usize = from;
    while i < chars.len() && '0' <= chars[i] && chars[i] <= '9'
        invariant
            from <= i <= chars.len(),
            run_end(chars@, from as int) == run_end(chars@, i as int),
        decreases chars.len() - i,
    {
        i = i + 1;
    }
    i
}

/// The value of `start` with the digits from `from` up to `to` written
/// behind it, or nothing where that is above `VALUE_LIMIT`.
fn read_digits(chars: &Vec<char>, from: usize, to: usize, start: u128) -> (r: Option<u128>)
    requires
        from <= to <= chars.len(),
        start <= VALUE_LIMIT,
        all_digits(chars@.subrange(from as int, to as int)),
    ensures
        r matches Some(v) ==> v <= VALUE_LIMIT && v == extend(
            start as int,
            chars@.subrange(from as int, to as int),
        ),
        r is None ==> extend(start as int, chars@.subrange(from as int, to as int)) > VALUE_LIMIT,
{
    let ghost all = chars@.subrange(from as int, to as int);
    let mut acc: u128 = start;
    let mut i: usize = from;
    while i < to
        invariant
            from <= i <= to <= chars.len(),
            acc <= VALUE_LIMIT,
            all == chars@.subrange(from as int, to as int),
            all_digits(all),
            acc == extend(start as int, chars@.subrange(from as int, i as int)),
        decreases to - i,
    {
        let c = chars[i];
        assert(is_digit(all[i - from]));
        let d: u128 = (c as u32 - 48) as u128;
        let next: u128 = acc * 10 + d;
        let ghost read = chars@.subrange(from as int, i + 1);
        let ghost rest = chars@.subrange(i + 1, to as int);
        assert(read.drop_last() == chars@.subrange(from as int, i as int));
        assert(next == extend(start as int, read));
        if next > VALUE_LIMIT {
            proof {
                assert(all == read + rest);
                assert(all_digits(rest)) by {
                    assert forall|k: int| 0 <= k < rest.len() implies is_digit(#[trigger] rest[k]) by {
                        assert(rest[k] == all[k + i + 1 - from]);
                    }
                }
                lemma_extend_concat(start as int, read, rest);
                lemma_extend_grows(next as int, rest);
            }
            return None;
        }
        acc = next;
        i = i + 1;
    }
    assert(chars@.subrange(from as int, i as int) == all);
    Some(acc)
}

/// Where the parts of a literal were found in a text.
struct Parts {
    /// The text starts with a minus sign.
    negative: bool,
    /// The whole digits run from `whole` up to `point`.
    whole: usize,
    point: usize,
    /// The fraction digits run from `fraction` up to `mark`.
    fraction: usize,
    mark: usize,
    /// The exponent has a minus sign.
    minus: bool,
    /// The exponent digits run from `exponent` up to the end of the text;
    /// there is an exponent where `mark` is not the end.
    exponent: usize,
}

impl Parts {
    /// The places are those at which `s` reads as a literal.
    spec fn found_in(self, s: Seq<char>) -> bool {
        &&& self.negative == (sign_len(s) == 1)
        &&& self.whole == sign_len(s)
        &&& self.point == whole_end(s)
        &&& self.fraction == fraction_start(s)
        &&& self.mark == fraction_end(s)
        &&& self.mark < s.len() ==> self.minus == exponent_minus(s) && self.exponent
            == exponent_start(s)
    }
}

/// Finds the parts of a literal in a text, where it reads as one.
fn locate(chars: &Vec<char>) -> (r: Option<Parts>)
    ensures
        r is Some <==> is_literal(chars@),
        r matches Some(p) ==> p.found_in(chars@),
{
    let n = chars.len();
    let ghost s = chars@;
    let negative = n > 0 && chars[0] == '-';
    let a: usize = if negative {
        1
    } else {
        0
    };
    let b = scan_digits(chars, a);
    if b == a {
        return None;
    }
    let pointed = b < n && chars[b] == '.';
    let f: usize = if pointed {
        b + 1
    } else {
        b
    };
    let c = scan_digits(chars, f);
    if pointed && c == f {
        return None;
    }
    if c == n {
        return Some(
            Parts { negative, whole: a, point: b, fraction: f, mark: c, minus: false, exponent: n },
        );
    }
    if chars[c] != 'e' {
        return None;
    }
    let minus = c + 1 < n && chars[c + 1] == '-';
    let g: usize = if minus {
        c + 2
    } else {
        c + 1
    };
    if g >= n {
        return None;
    }
    let end = scan_digits(chars, g);
    if end != n {
        return None;
    }
    Some(Parts { negative, whole: a, point: b, fraction: f, mark: c, minus, exponent: g })
}

/// The number that the literal at the places found stands for, where its
/// parts fit.
fn evaluate(chars: &Vec<char>, p: &Parts) -> (r: Option<Number>)
    requires
        is_literal(chars@),
        p.found_in(chars@),
    ensures
        r == literal_in(chars@).number(),
{
    let n = chars.len();
    let ghost s = chars@;
    let ghost found = literal_in(s);
    proof {
        lemma_reading_is_literal(s);
        lemma_run_end_is_run(s, sign_len(s));
        lemma_run_end_is_run(s, fraction_start(s));
        lemma_extend_concat(0, found.whole, found.fraction);
        lemma_extend_grows(0, found.whole);
        lemma_extend_grows(extend(0, found.whole), found.fraction);
    }
    let magnitude: u128 = match read_digits(chars, p.whole, p.point, 0) {
        Some(v) => match read_digits(chars, p.fraction, p.mark, v) {
            Some(v) => v,
            None => {
                return None;
            },
        },
        None => {
            return None;
        },
    };
    assert(magnitude == digits_value(found.whole + found.fraction));
    let mantissa: i64 = if p.negative {
        if magnitude > 9223372036854775808 {
            return None;
        } else if magnitude == 9223372036854775808 {
            i64::MIN
        } else {
            -(magnitude as i64)
        }
    } else {
        if magnitude > 9223372036854775807 {
            return None;
        } else {
            magnitude as i64
        }
    };
    let places: i128 = (p.mark - p.fraction) as i128;
    let written: i128 = if p.mark < n {
        proof {
            lemma_extend_grows(0, s.subrange(p.exponent as int, n as int));
        }
        match read_digits(chars, p.exponent, n, 0) {
            Some(v) => if p.minus {
                -(v as i128)
            } else {
                v as i128
            },
            None => {
                return None;
            },
        }
    } else {
        0
    };
    assert(written == found.written_exponent());
    let power: i128 = written - places;
    if power < -32768 || power > 32767 {
        return None;
    }
    Some(Number { mantissa, exponent: power as i16 })
}

impl Number {
    /// Reads a decimal literal.
    ///
    /// Where the text is a well-formed literal, the result is the number that
    /// the literal stands for, and nothing where its mantissa or its power of
    /// ten does not fit. Where the text is no literal, the result is nothing.
    pub fn parse(text: &str) -> (r: Option<Number>)
        ensures
            forall|l: Literal| l.well_formed() && #[trigger] l.text() == text@ ==> r == l.number(),
            r is Some ==> exists|l: Literal| l.well_formed() && #[trigger] l.text() == text@,
    {
        let chars = chars_of(text);
        proof {
            assert forall|l: Literal| l.well_formed() && #[trigger] l.text() == text@ implies is_literal(
                text@,
            ) && literal_in(text@) == l by {
                lemma_literal_reads_as_itself(l);
            }
        }
        match locate(&chars) {
            Some(p) => {
                proof {
                    lemma_reading_is_literal(text@);
                }
                evaluate(&chars, &p)
            },
            None => None,
        }
    }
}

/// Reading what a number is written as gives the number back.
pub proof fn lemma_parse_reads_what_is_written(n: Number, text: &str, r: Option<Number>)
    requires
        text@ == n.text(),
        call_ensures(Number::parse, (text,), r),
    ensures
        r == Some(n),
{
    lemma_number_text_is_literal(n);
    assert(literal_of(n).text() == text@);
}

} // verus!
